//! The check of one query: the struct must be registered, the query is tried without
//! rows, a table that is missing is made once, and every column that the struct needs
//! must be there.

use vstd::prelude::*;

use crate::compile_check::diagnostic::ValidationError;
use crate::compile_check::dry_run;
use crate::compile_check::error_extract;
use crate::compile_check::error_extract::{classify, ErrorClass};
use crate::compile_check::registry;
use crate::compile_check::registry::{Registry, TableFacts};
use crate::error::DriverError;
use crate::text;

verus! {

/// How far a check is.
#[derive(Debug)]
pub enum CheckPhase {
    /// The query is to be tried.
    DryRun,
    /// A table is missing, and is to be made.
    Seed {
        /// The statement that makes it.
        create_sql: String,
    },
    /// The query is to be tried once more.
    Retry,
    /// The query is right.
    Passed,
    /// The query is wrong.
    Failed(ValidationError),
}

/// The check of a query.
#[derive(Debug)]
pub struct QueryCheck {
    /// The name of the struct.
    pub struct_name: String,
    /// The columns that the struct needs.
    pub fields: Vec<String>,
    /// The query.
    pub sql: String,
    /// How far the check is.
    pub phase: CheckPhase,
}

/// What is to be done for a check.
#[derive(Debug)]
pub enum CheckAction {
    /// Try a query, and tell its columns.
    Query(String),
    /// Execute a statement.
    Execute(String),
    /// Nothing more.
    Nothing,
}

/// The fields that are not among the columns, in order.
pub open spec fn missing_fields(fields: Seq<Seq<char>>, columns: Seq<Seq<char>>) -> Seq<Seq<char>>
    decreases fields.len(),
{
    if fields.len() == 0 {
        Seq::empty()
    } else if columns.contains(fields.last()) {
        missing_fields(fields.drop_last(), columns)
    } else {
        missing_fields(fields.drop_last(), columns).push(fields.last())
    }
}

/// Whether `phase` is the end of a check whose query has the columns `columns`: more
/// columns than the struct needs are right.
pub open spec fn ends_name_check(
    phase: CheckPhase,
    struct_name: Seq<char>,
    fields: Seq<Seq<char>>,
    columns: Seq<Seq<char>>,
) -> bool {
    let missing = missing_fields(fields, columns);
    if missing.len() == 0 {
        phase is Passed
    } else {
        phase matches CheckPhase::Failed(ValidationError::MissingColumns {
            struct_name: name,
            missing: names,
        }) && name@ == struct_name && text::texts(names@) == missing
    }
}

fn has_column(columns: &Vec<String>, name: &str) -> (r: bool)
    ensures
        r == text::texts(columns@).contains(name@),
{
    let mut i: usize = 0;
    while i < columns.len()
        invariant
            i <= columns@.len(),
            forall|j: int| 0 <= j < i ==> #[trigger] text::texts(columns@)[j] != name@,
        decreases columns@.len() - i,
    {
        if text::same_text(columns[i].as_str(), name) {
            assert(text::texts(columns@)[i as int] == name@);
            return true;
        }
        i = i + 1;
    }
    false
}

/// The end of a check whose query has the columns `columns`.
pub fn finish_name_check(struct_name: &str, struct_fields: &Vec<String>, columns: &Vec<String>) -> (r:
    CheckPhase)
    ensures
        ends_name_check(
            r,
            struct_name@,
            text::texts(struct_fields@),
            text::texts(columns@),
        ),
{
    let mut missing: Vec<String> = Vec::new();
    let mut i: usize = 0;
    let ghost fields = text::texts(struct_fields@);
    let ghost cols = text::texts(columns@);
    assert(text::texts(missing@) =~= missing_fields(fields.take(0), cols));
    while i < struct_fields.len()
        invariant
            i <= struct_fields@.len(),
            fields == text::texts(struct_fields@),
            cols == text::texts(columns@),
            text::texts(missing@) == missing_fields(fields.take(i as int), cols),
        decreases struct_fields@.len() - i,
    {
        proof {
            assert(fields.take(i + 1).drop_last() =~= fields.take(i as int));
            assert(fields.take(i + 1).last() == struct_fields@[i as int]@);
        }
        let ghost before = missing@;
        if !has_column(columns, struct_fields[i].as_str()) {
            missing.push(struct_fields[i].clone());
            assert(text::texts(missing@) =~= text::texts(before).push(struct_fields@[i as int]@));
        }
        i = i + 1;
    }
    assert(fields.take(fields.len() as int) =~= fields);
    assert(text::texts(missing@).len() == missing@.len());
    if missing.len() == 0 {
        CheckPhase::Passed
    } else {
        CheckPhase::Failed(
            ValidationError::MissingColumns { struct_name: struct_name.to_owned(), missing },
        )
    }
}

/// Whether `phase` ends a check because a try of the query failed, and no table is to
/// be made for it.
pub open spec fn ends_with_error(phase: CheckPhase, e: DriverError) -> bool {
    let state = error_extract::state_of(e.kind);
    let name = error_extract::quoted_identifier(e.message@);
    if state == Some("42P01"@) {
        phase matches CheckPhase::Failed(ValidationError::TablesNotRegistered { tables })
            && text::texts(tables@) == seq![name]
    } else if state == Some("42703"@) {
        phase matches CheckPhase::Failed(ValidationError::UnknownColumn { column }) && column@ == name
    } else if state == Some("42601"@) {
        phase matches CheckPhase::Failed(ValidationError::SqlSyntaxError { message }) && message@
            == e.message@
    } else {
        phase matches CheckPhase::Failed(ValidationError::HyperError { message }) && message@
            == e.message@
    }
}

fn failed(class: ErrorClass) -> (r: CheckPhase)
    ensures
        forall|e: DriverError| #[trigger]
            error_extract::is_class_of(class, e) ==> ends_with_error(r, e),
{
    match class {
        ErrorClass::MissingTable(t) => {
            let mut tables: Vec<String> = Vec::new();
            let ghost name = t@;
            tables.push(t);
            assert(text::texts(tables@) =~= seq![name]);
            CheckPhase::Failed(ValidationError::TablesNotRegistered { tables })
        },
        ErrorClass::MissingColumn(column) => CheckPhase::Failed(
            ValidationError::UnknownColumn { column },
        ),
        ErrorClass::SyntaxError(message) => CheckPhase::Failed(
            ValidationError::SqlSyntaxError { message },
        ),
        ErrorClass::Other(message) => CheckPhase::Failed(ValidationError::HyperError { message }),
    }
}

impl QueryCheck {
    /// Whether `a` is what is to be done in this phase.
    pub open spec fn asks(self, a: CheckAction) -> bool {
        match self.phase {
            CheckPhase::DryRun => a matches CheckAction::Query(sql) && sql@ == dry_run::dry_query(
                self.sql@,
            ),
            CheckPhase::Seed { create_sql } => a matches CheckAction::Execute(sql) && sql@
                == create_sql@,
            CheckPhase::Retry => a matches CheckAction::Query(sql) && sql@ == dry_run::dry_query(
                self.sql@,
            ),
            CheckPhase::Passed => a is Nothing,
            CheckPhase::Failed(_) => a is Nothing,
        }
    }

    /// Whether `next` is the phase that follows a try of the query, where `known` are
    /// the known tables.
    pub open spec fn tried_to(
        self,
        known: Map<Seq<char>, TableFacts>,
        outcome: Result<Vec<String>, DriverError>,
        next: CheckPhase,
    ) -> bool {
        if self.phase is DryRun || self.phase is Retry {
            match outcome {
                Ok(columns) => ends_name_check(
                    next,
                    self.struct_name@,
                    text::texts(self.fields@),
                    text::texts(columns@),
                ),
                Err(e) => {
                    let table = error_extract::quoted_identifier(e.message@);
                    if self.phase is DryRun && error_extract::state_of(e.kind) == Some("42P01"@)
                        && known.dom().contains(table) {
                        next matches CheckPhase::Seed { create_sql } && create_sql@
                            == known[table].create_sql
                    } else {
                        ends_with_error(next, e)
                    }
                },
            }
        } else {
            next == self.phase
        }
    }

    /// Whether `next` is the phase that follows the making of a missing table.
    pub open spec fn seeded_to(self, outcome: Result<(), DriverError>, next: CheckPhase) -> bool {
        if self.phase is Seed {
            match outcome {
                Ok(_) => next is Retry,
                Err(e) => next matches CheckPhase::Failed(ValidationError::HyperError { message })
                    && message@ == e.message@,
            }
        } else {
            next == self.phase
        }
    }

    /// What is to be done now.
    pub fn action(&self) -> (r: CheckAction)
        ensures
            self.asks(r),
    {
        match &self.phase {
            CheckPhase::DryRun => CheckAction::Query(dry_run::dry_run(self.sql.as_str())),
            CheckPhase::Seed { create_sql } => CheckAction::Execute(create_sql.clone()),
            CheckPhase::Retry => CheckAction::Query(dry_run::dry_run(self.sql.as_str())),
            CheckPhase::Passed => CheckAction::Nothing,
            CheckPhase::Failed(_) => CheckAction::Nothing,
        }
    }

    /// Takes down what came of a try of the query: its columns, or an error. A table
    /// that is missing is made, where it is known and the query was not tried twice.
    pub fn tried(self, registry: &Registry, outcome: Result<Vec<String>, DriverError>) -> (r:
        QueryCheck)
        requires
            registry.wf(),
        ensures
            r.struct_name == self.struct_name,
            r.fields == self.fields,
            r.sql == self.sql,
            self.tried_to(registry@, outcome, r.phase),
    {
        let first = match &self.phase {
            CheckPhase::DryRun => true,
            _ => false,
        };
        let tries = match &self.phase {
            CheckPhase::DryRun => true,
            CheckPhase::Retry => true,
            _ => false,
        };
        if !tries {
            return self;
        }
        let phase = match outcome {
            Ok(columns) => finish_name_check(self.struct_name.as_str(), &self.fields, &columns),
            Err(e) => {
                let class = classify(&e);
                let seed = match &class {
                    ErrorClass::MissingTable(table) => {
                        if first {
                            registry.seed_if_known(table.as_str())
                        } else {
                            None
                        }
                    },
                    _ => None,
                };
                match seed {
                    Some(create_sql) => CheckPhase::Seed { create_sql },
                    None => failed(class),
                }
            },
        };
        QueryCheck { struct_name: self.struct_name, fields: self.fields, sql: self.sql, phase }
    }

    /// Takes down whether a missing table was made.
    pub fn seeded(self, outcome: Result<(), DriverError>) -> (r: QueryCheck)
        ensures
            r.struct_name == self.struct_name,
            r.fields == self.fields,
            r.sql == self.sql,
            self.seeded_to(outcome, r.phase),
    {
        let phase = match self.phase {
            CheckPhase::Seed { .. } => match outcome {
                Ok(_) => CheckPhase::Retry,
                Err(e) => CheckPhase::Failed(ValidationError::HyperError { message: e.message }),
            },
            other => other,
        };
        QueryCheck { struct_name: self.struct_name, fields: self.fields, sql: self.sql, phase }
    }
}

/// Begins the check of a query for a struct, which must be registered.
pub fn validate_query_as(registry: &Registry, target_struct: &str, sql: &str) -> (r: Result<
    QueryCheck,
    ValidationError,
>)
    requires
        registry.wf(),
    ensures
        if registry@.dom().contains(target_struct@) {
            &&& r matches Ok(check)
            &&& check.struct_name@ == target_struct@
            &&& text::texts(check.fields@) == registry@[target_struct@].fields
            &&& check.sql@ == sql@
            &&& check.phase is DryRun
        } else {
            r matches Err(ValidationError::StructNotRegistered { struct_name }) && struct_name@
                == target_struct@
        },
{
    match registry::get(registry, target_struct) {
        Some(entry) => Ok(
            QueryCheck {
                struct_name: target_struct.to_owned(),
                fields: entry.fields,
                sql: sql.to_owned(),
                phase: CheckPhase::DryRun,
            },
        ),
        None => Err(ValidationError::StructNotRegistered { struct_name: target_struct.to_owned() }),
    }
}

/// How many times the query may still be tried.
pub open spec fn tries_left(phase: CheckPhase) -> nat {
    match phase {
        CheckPhase::DryRun => 2,
        CheckPhase::Seed { .. } => 1,
        CheckPhase::Retry => 1,
        CheckPhase::Passed => 0,
        CheckPhase::Failed(_) => 0,
    }
}

/// A query is tried at most twice, and a table is made at most once, between the two.
pub proof fn law_tried_at_most_twice(
    check: QueryCheck,
    known: Map<Seq<char>, TableFacts>,
    tried: Result<Vec<String>, DriverError>,
    seeded: Result<(), DriverError>,
    next: CheckPhase,
)
    ensures
        check.tried_to(known, tried, next) && (check.phase is DryRun || check.phase is Retry)
            ==> tries_left(next) < tries_left(check.phase),
        check.tried_to(known, tried, next) && next is Seed && !(check.phase is Seed)
            ==> check.phase is DryRun,
        check.seeded_to(seeded, next) ==> tries_left(next) <= tries_left(check.phase),
        check.seeded_to(seeded, next) && check.phase is Seed ==> !(next is Seed),
{
}

/// A field is told to be missing exactly if no column has its name.
pub proof fn law_missing_fields(fields: Seq<Seq<char>>, columns: Seq<Seq<char>>, name: Seq<char>)
    ensures
        missing_fields(fields, columns).contains(name) <==> fields.contains(name)
            && !columns.contains(name),
    decreases fields.len(),
{
    if fields.len() > 0 {
        let rest = fields.drop_last();
        law_missing_fields(rest, columns, name);
        assert(fields =~= rest.push(fields.last()));
        vstd::seq_lib::lemma_seq_contains_after_push(rest, fields.last(), name);
        vstd::seq_lib::lemma_seq_contains_after_push(
            missing_fields(rest, columns),
            fields.last(),
            name,
        );
    }
}

/// More columns than the struct needs never make a query wrong.
pub proof fn law_more_columns_are_right(
    fields: Seq<Seq<char>>,
    columns: Seq<Seq<char>>,
    more: Seq<Seq<char>>,
)
    requires
        missing_fields(fields, columns).len() == 0,
        forall|name: Seq<char>| #[trigger] columns.contains(name) ==> more.contains(name),
    ensures
        missing_fields(fields, more).len() == 0,
{
    if missing_fields(fields, more).len() > 0 {
        let name = missing_fields(fields, more)[0];
        assert(missing_fields(fields, more).contains(name));
        law_missing_fields(fields, more, name);
        law_missing_fields(fields, columns, name);
        assert(columns.contains(name));
    }
}

/// The fields that are missing come in the order of the fields, each as often as it is one.
pub proof fn law_missing_in_order(
    a: Seq<Seq<char>>,
    field: Seq<char>,
    b: Seq<Seq<char>>,
    columns: Seq<Seq<char>>,
)
    ensures
        missing_fields(Seq::empty(), columns) == Seq::<Seq<char>>::empty(),
        missing_fields(a + seq![field] + b, columns) == missing_fields(a, columns) + (
        if columns.contains(field) {
            Seq::empty()
        } else {
            seq![field]
        }) + missing_fields(b, columns),
    decreases b.len(),
{
    let all = a + seq![field] + b;
    let own = if columns.contains(field) {
        Seq::<Seq<char>>::empty()
    } else {
        seq![field]
    };
    if b.len() == 0 {
        assert(all.drop_last() =~= a);
        assert(all.last() == field);
        assert(missing_fields(all, columns) =~= missing_fields(a, columns) + own + missing_fields(
            b,
            columns,
        ));
    } else {
        law_missing_in_order(a, field, b.drop_last(), columns);
        assert(all.drop_last() =~= a + seq![field] + b.drop_last());
        assert(all.last() == b.last());
        assert(missing_fields(all, columns) =~= missing_fields(a, columns) + own + missing_fields(
            b,
            columns,
        ));
    }
}

/// A query passes if and only if it gives every field of the struct a column of its name;
/// otherwise it is told of the struct and of the fields that have none.
pub proof fn law_every_field_needs_a_column(
    phase: CheckPhase,
    struct_name: Seq<char>,
    fields: Seq<Seq<char>>,
    columns: Seq<Seq<char>>,
)
    requires
        ends_name_check(phase, struct_name, fields, columns),
    ensures
        phase is Passed <==> forall|i: int|
            0 <= i < fields.len() ==> columns.contains(#[trigger] fields[i]),
        !(phase is Passed) ==> (phase matches CheckPhase::Failed(
            ValidationError::MissingColumns { struct_name: name, missing },
        ) && name@ == struct_name && text::texts(missing@) == missing_fields(fields, columns)),
{
    let missing = missing_fields(fields, columns);
    if missing.len() == 0 {
        assert forall|i: int| 0 <= i < fields.len() implies columns.contains(
            #[trigger] fields[i],
        ) by {
            law_missing_fields(fields, columns, fields[i]);
            assert(fields.contains(fields[i]));
            assert(!missing.contains(fields[i]));
        }
    } else {
        law_missing_fields(fields, columns, missing[0]);
        assert(missing.contains(missing[0]));
        let i = choose|i: int| 0 <= i < fields.len() && fields[i] == missing[0];
        assert(!columns.contains(fields[i]));
    }
}

/// What is asked of the database: a dry run of the statement, first and again after the
/// missing table was made, and the statement that makes it in between; nothing at the end.
pub proof fn law_questions_of_a_check(check: QueryCheck, a: CheckAction)
    requires
        check.asks(a),
    ensures
        check.phase is DryRun || check.phase is Retry ==> (a matches CheckAction::Query(sql) && sql@
            == "WITH __hdb_q AS ("@ + check.sql@ + ") SELECT * FROM __hdb_q LIMIT 0"@),
        check.phase matches CheckPhase::Seed { create_sql } ==> (a matches CheckAction::Execute(sql)
            && sql@ == create_sql@),
        check.phase is Passed || check.phase is Failed ==> a is Nothing,
{
}

/// A table that is missing at the first try is made, where it is registered; any other error,
/// and the same at the second try, ends the check. What the error is about is told.
pub proof fn law_errors_of_a_try(
    check: QueryCheck,
    known: Map<Seq<char>, TableFacts>,
    e: DriverError,
    next: CheckPhase,
    state: String,
)
    requires
        check.tried_to(known, Err(e), next),
        check.phase is DryRun || check.phase is Retry,
        e.kind == (crate::error::DriverErrorKind::Server { sqlstate: Some(state) }),
    ensures
        ({
            let name = error_extract::quoted_identifier(e.message@);
            &&& state@ == "42P01"@ && check.phase is DryRun && known.dom().contains(name) ==> (
            next matches CheckPhase::Seed { create_sql } && create_sql@ == known[name].create_sql)
            &&& state@ == "42P01"@ && (check.phase is Retry || !known.dom().contains(name)) ==> (
            next matches CheckPhase::Failed(ValidationError::TablesNotRegistered { tables })
                && text::texts(tables@) == seq![name])
            &&& state@ == "42703"@ ==> (next matches CheckPhase::Failed(
                ValidationError::UnknownColumn { column },
            ) && column@ == name)
            &&& state@ == "42601"@ ==> (next matches CheckPhase::Failed(
                ValidationError::SqlSyntaxError { message },
            ) && message@ == e.message@)
            &&& state@ != "42P01"@ && state@ != "42703"@ && state@ != "42601"@ ==> (
            next matches CheckPhase::Failed(ValidationError::HyperError { message }) && message@
                == e.message@)
        }),
{
    reveal_strlit("42P01");
    reveal_strlit("42703");
    reveal_strlit("42601");
    assert("42P01"@[2] == 'P' && "42703"@[2] == '7' && "42601"@[2] == '6');
}

/// A try that succeeds ends the check with the names of its columns; a table that was made is
/// followed by the second try, and one that could not be made ends the check.
pub proof fn law_course_of_a_check(
    check: QueryCheck,
    known: Map<Seq<char>, TableFacts>,
    columns: Vec<String>,
    tried: CheckPhase,
    seeded: Result<(), DriverError>,
    next: CheckPhase,
)
    ensures
        check.tried_to(known, Ok(columns), tried) && (check.phase is DryRun || check.phase is Retry)
            ==> ends_name_check(
            tried,
            check.struct_name@,
            text::texts(check.fields@),
            text::texts(columns@),
        ),
        check.tried_to(known, Ok(columns), tried) && !(check.phase is DryRun || check.phase
            is Retry) ==> tried == check.phase,
        check.seeded_to(seeded, next) && check.phase is Seed && seeded is Ok ==> next is Retry,
        check.seeded_to(seeded, next) && check.phase is Seed ==> (seeded matches Err(e) ==> (
        next matches CheckPhase::Failed(ValidationError::HyperError { message }) && message@
            == e.message@)),
        check.seeded_to(seeded, next) && !(check.phase is Seed) ==> next == check.phase,
{
}

} // verus!
