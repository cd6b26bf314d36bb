//! What tools answer about tables and the session.

use vstd::prelude::*;

use crate::engine;
use crate::engine::cells;
use crate::engine::cells::{cell_to_json, DecodedCell};
use crate::engine::session::Engine;
use crate::json::Json;
use crate::text;

verus! {

/// The value of the last column named `name`.
pub open spec fn last_named(columns: Seq<String>, cells: Seq<DecodedCell>, name: Seq<char>) -> Option<
    Json,
>
    decreases columns.len(),
{
    if columns.len() == 0 || columns.len() != cells.len() {
        None
    } else if columns.last()@ == name {
        Some(cells::cell_json(cells.last()))
    } else {
        last_named(columns.drop_last(), cells.drop_last(), name)
    }
}

/// The value of the field named `name`, where no two fields have the same name.
pub open spec fn field_named(fields: Seq<(String, Json)>, name: Seq<char>) -> Option<Json>
    decreases fields.len(),
{
    if fields.len() == 0 {
        None
    } else if fields.last().0@ == name {
        Some(fields.last().1)
    } else {
        field_named(fields.drop_last(), name)
    }
}

/// Whether no two fields have the same name.
pub open spec fn distinct_names(fields: Seq<(String, Json)>) -> bool {
    forall|i: int, j: int|
        0 <= i < j < fields.len() ==> #[trigger] fields[i].0@ != #[trigger] fields[j].0@
}

fn position_of(fields: &Vec<(String, Json)>, name: &str) -> (r: Option<usize>)
    ensures
        match r {
            Some(i) => i < fields@.len() && fields@[i as int].0@ == name@,
            None => forall|i: int| 0 <= i < fields@.len() ==> #[trigger] fields@[i].0@ != name@,
        },
{
    let mut i: usize = 0;
    while i < fields.len()
        invariant
            i <= fields@.len(),
            forall|j: int| 0 <= j < i ==> #[trigger] fields@[j].0@ != name@,
        decreases fields@.len() - i,
    {
        if text::same_text(fields[i].0.as_str(), name) {
            return Some(i);
        }
        i = i + 1;
    }
    None
}

/// The texts of `names`, each where it comes first.
pub open spec fn first_seen(names: Seq<Seq<char>>) -> Seq<Seq<char>>
    decreases names.len(),
{
    if names.len() == 0 {
        Seq::empty()
    } else if first_seen(names.drop_last()).contains(names.last()) {
        first_seen(names.drop_last())
    } else {
        first_seen(names.drop_last()).push(names.last())
    }
}

/// Whether `r` is the object for a row: the names of the columns in their order, where a
/// name that several columns have stands for the last of them, at the place of the first.
pub open spec fn is_row_object(columns: Seq<String>, cells: Seq<DecodedCell>, r: Json) -> bool {
    &&& r is Object
    &&& r.names() == first_seen(text::texts(columns))
    &&& distinct_names(r.fields())
    &&& forall|name: Seq<char>| #[trigger] field_named(r.fields(), name) == last_named(
        columns,
        cells,
        name,
    )
}

/// The names of fields.
pub open spec fn field_names(fields: Seq<(String, Json)>) -> Seq<Seq<char>> {
    fields.map_values(|f: (String, Json)| f.0@)
}

proof fn lemma_field_at(fields: Seq<(String, Json)>, at: int)
    requires
        distinct_names(fields),
        0 <= at < fields.len(),
    ensures
        field_named(fields, fields[at].0@) == Some(fields[at].1),
    decreases fields.len(),
{
    if at < fields.len() - 1 {
        let rest = fields.drop_last();
        assert(fields[at].0@ != fields[fields.len() - 1].0@);
        assert(rest[at] == fields[at]);
        assert forall|i: int, j: int| 0 <= i < j < rest.len() implies #[trigger] rest[i].0@
            != #[trigger] rest[j].0@ by {
            assert(rest[i] == fields[i] && rest[j] == fields[j]);
        }
        lemma_field_at(rest, at);
    }
}

proof fn lemma_field_elsewhere(
    fields: Seq<(String, Json)>,
    at: int,
    field: (String, Json),
    name: Seq<char>,
)
    requires
        0 <= at < fields.len(),
        fields[at].0@ == field.0@,
        field.0@ != name,
    ensures
        field_named(fields.update(at, field), name) == field_named(fields, name),
    decreases fields.len(),
{
    let more = fields.update(at, field);
    if at < fields.len() - 1 {
        assert(more.drop_last() =~= fields.drop_last().update(at, field));
        lemma_field_elsewhere(fields.drop_last(), at, field, name);
    } else {
        assert(more.drop_last() =~= fields.drop_last());
    }
}

fn row_object(columns: &Vec<String>, cells: Vec<DecodedCell>) -> (r: Json)
    requires
        columns@.len() == cells@.len(),
    ensures
        is_row_object(columns@, cells@, r),
{
    let ghost all = cells@;
    let mut cells = cells;
    let mut fields: Vec<(String, Json)> = Vec::new();
    let mut i: usize = 0;
    proof {
        assert(field_names(fields@) =~= Seq::empty());
        assert(text::texts(columns@.take(0)) =~= Seq::empty());
        assert(all.skip(0) =~= all);
    }
    while i < columns.len()
        invariant
            i <= columns@.len(),
            columns@.len() == all.len(),
            cells@ == all.skip(i as int),
            distinct_names(fields@),
            field_names(fields@) == first_seen(text::texts(columns@.take(i as int))),
            forall|name: Seq<char>| #[trigger] field_named(fields@, name) == last_named(
                columns@.take(i as int),
                all.take(i as int),
                name,
            ),
        decreases columns@.len() - i,
    {
        let ghost before = fields@;
        let ghost columns_now = columns@.take(i + 1);
        let ghost cells_now = all.take(i + 1);
        proof {
            assert(columns_now.drop_last() =~= columns@.take(i as int));
            assert(cells_now.drop_last() =~= all.take(i as int));
            assert(text::texts(columns_now).drop_last() =~= text::texts(columns@.take(i as int)));
            assert(text::texts(columns_now).last() == columns@[i as int]@);
            assert(cells@[0] == all[i as int]);
        }
        let field = (columns[i].clone(), cell_to_json(cells.remove(0)));
        assert(cells@ =~= all.skip(i + 1));
        let ghost new_field = field;
        match position_of(&fields, columns[i].as_str()) {
            Some(at) => {
                fields.set(at, field);
                proof {
                    assert(field_names(fields@) =~= field_names(before));
                    assert(field_names(before)[at as int] == columns@[i as int]@);
                    assert(distinct_names(fields@)) by {
                        assert forall|x: int, y: int| 0 <= x < y < fields@.len() implies #[trigger]
                        fields@[x].0@ != #[trigger] fields@[y].0@ by {
                            assert(before[x].0@ != before[y].0@);
                        }
                    }
                    assert forall|name: Seq<char>| #[trigger]
                        field_named(fields@, name) == last_named(columns_now, cells_now, name) by {
                        if name == columns@[i as int]@ {
                            lemma_field_at(fields@, at as int);
                        } else {
                            lemma_field_elsewhere(before, at as int, new_field, name);
                            assert(field_named(before, name) == last_named(
                                columns@.take(i as int),
                                all.take(i as int),
                                name,
                            ));
                        }
                    }
                }
            },
            None => {
                fields.push(field);
                proof {
                    assert(fields@.drop_last() =~= before);
                    assert(field_names(fields@) =~= field_names(before).push(columns@[i as int]@));
                    assert(!field_names(before).contains(columns@[i as int]@));
                    assert forall|name: Seq<char>| #[trigger]
                        field_named(fields@, name) == last_named(columns_now, cells_now, name) by {
                        assert(field_named(before, name) == last_named(
                            columns@.take(i as int),
                            all.take(i as int),
                            name,
                        ));
                    }
                }
            },
        }
        i = i + 1;
    }
    assert(columns@.take(i as int) =~= columns@);
    assert(all.take(i as int) =~= all);
    let r = Json::Object(fields);
    assert(r.names() =~= field_names(fields@));
    r
}

impl Engine {
    /// The rows of a query's result as objects, in order.
    pub fn execute_query_to_json(&self, columns: &Vec<String>, rows: Vec<Vec<DecodedCell>>) -> (r:
        Vec<Json>)
        requires
            forall|i: int| 0 <= i < rows@.len() ==> #[trigger] rows@[i]@.len() == columns@.len(),
        ensures
            r@.len() == rows@.len(),
            forall|i: int|
                0 <= i < r@.len() ==> is_row_object(columns@, rows@[i]@, #[trigger] r@[i]),
    {
        let ghost all = rows@;
        let mut out: Vec<Json> = Vec::new();
        let mut rows = rows;
        let ghost mut done: int = 0;
        while rows.len() > 0
            invariant
                0 <= done <= all.len(),
                rows@ == all.skip(done),
                out@.len() == done,
                forall|i: int| 0 <= i < all.len() ==> #[trigger] all[i]@.len() == columns@.len(),
                forall|i: int|
                    0 <= i < out@.len() ==> is_row_object(columns@, all[i]@, #[trigger] out@[i]),
            decreases rows@.len(),
        {
            assert(rows@[0] == all[done]);
            let row = rows.remove(0);
            out.push(row_object(columns, row));
            proof {
                assert(rows@ =~= all.skip(done + 1));
                done = done + 1;
            }
        }
        out
    }
}

/// The number of rows that a counting query tells: the cell `cnt` of its first row,
/// or none.
pub open spec fn counted(cell: Option<Json>) -> i64 {
    match cell {
        Some(Json::Integer(n)) => n,
        _ => 0,
    }
}

/// The number of rows that the cell of a counting query tells.
pub fn row_count(cell: Option<&Json>) -> (r: i64)
    ensures
        r == counted(
            match cell {
                Some(v) => Some(*v),
                None => None,
            },
        ),
{
    match cell {
        Some(Json::Integer(n)) => *n,
        _ => 0,
    }
}

/// A table's description.
pub fn table_description(name: &str, columns: Vec<Json>, row_count: i64) -> (r: Json)
    ensures
        r.names() == seq!["name"@, "columns"@, "row_count"@],
        r.fields()[0].1.is_text(name@),
        r.fields()[1].1 == Json::List(columns),
        r.fields()[2].1 == Json::Integer(row_count),
{
    let mut fields: Vec<(String, Json)> = Vec::new();
    fields.push(("name".to_owned(), Json::Text(name.to_owned())));
    fields.push(("columns".to_owned(), Json::List(columns)));
    fields.push(("row_count".to_owned(), Json::Integer(row_count)));
    let r = Json::Object(fields);
    assert(r.names() =~= seq!["name"@, "columns"@, "row_count"@]);
    r
}

/// A sample of a table: how many rows the table has, and the rows of the sample.
pub fn sample_description(table: &str, row_count: i64, columns: Vec<Json>, rows: Vec<Json>) -> (r:
    Json)
    requires
        rows@.len() <= i64::MAX,
    ensures
        r.names() == seq!["table"@, "row_count"@, "sample_size"@, "schema"@, "rows"@],
        r.fields()[0].1.is_text(table@),
        r.fields()[1].1 == Json::Integer(row_count),
        r.fields()[2].1 == Json::Integer(rows@.len() as i64),
        r.fields()[3].1 == Json::List(columns),
        r.fields()[4].1 == Json::List(rows),
{
    let size: i64 = rows.len() as i64;
    let mut fields: Vec<(String, Json)> = Vec::new();
    fields.push(("table".to_owned(), Json::Text(table.to_owned())));
    fields.push(("row_count".to_owned(), Json::Integer(row_count)));
    fields.push(("sample_size".to_owned(), Json::Integer(size)));
    fields.push(("schema".to_owned(), Json::List(columns)));
    fields.push(("rows".to_owned(), Json::List(rows)));
    let r = Json::Object(fields);
    assert(r.names() =~= seq!["table"@, "row_count"@, "sample_size"@, "schema"@, "rows"@]);
    r
}

/// What was found out for the session's status.
#[derive(Debug)]
pub struct StatusFacts {
    /// Whether the database process is alive.
    pub running: bool,
    /// The names that the catalog of the primary database lists.
    pub names: Vec<String>,
    /// How many rows the shown tables have, in order, none where that could not be
    /// read.
    pub counts: Vec<i64>,
    /// How many bytes the primary database takes on disk.
    pub ephemeral_bytes: u64,
    /// How many bytes the persistent database takes on disk.
    pub persistent_bytes: u64,
    /// The log of the database process.
    pub hyperd_log: Option<String>,
    /// The log of the client, where it is there.
    pub client_log: Option<String>,
    /// The version of this program.
    pub version: String,
}

/// A session's status: its databases, how much is in them, and where to look when
/// something is wrong.
#[derive(Debug)]
pub struct SessionStatus {
    /// Whether the database process is alive.
    pub hyperd_running: bool,
    /// The path of the primary database.
    pub ephemeral_path: String,
    /// The path of the persistent database.
    pub persistent_path: Option<String>,
    /// Whether there is a persistent database.
    pub has_persistent: bool,
    /// How many tables are shown.
    pub table_count: usize,
    /// How many rows they have.
    pub total_rows: i64,
    /// How many bytes the databases take on disk.
    pub disk_usage_bytes: u64,
    /// The version of this program.
    pub version: String,
    /// Where the logs are.
    pub log_dir: String,
    /// The log of the database process.
    pub hyperd_log: Option<String>,
    /// The log of the client.
    pub client_log: Option<String>,
}

impl Engine {
    /// The session's status.
    pub fn status(&self, facts: StatusFacts) -> (r: SessionStatus)
        requires
            forall|n: nat|
                n <= facts.counts@.len() ==> i64::MIN <= #[trigger] engine::total(
                    facts.counts@,
                    n,
                ) <= i64::MAX,
        ensures
            r.hyperd_running == facts.running,
            r.ephemeral_path@ == self.ephemeral_path@,
            text::opt_text(r.persistent_path) == text::opt_text(self.persistent_path),
            r.has_persistent == (self.persistent_path is Some),
            r.table_count == engine::visible(facts.names@).len(),
            r.total_rows == engine::total(facts.counts@, facts.counts@.len()),
            r.disk_usage_bytes == engine::disk_usage_of(
                facts.ephemeral_bytes,
                facts.persistent_bytes,
            ),
            r.version == facts.version,
            r.log_dir@ == self.log_dir@,
            r.hyperd_log == facts.hyperd_log,
            r.client_log == facts.client_log,
    {
        let total: i64 = engine::total_rows(&facts.counts);
        let shown = self.describe_tables(facts.names);
        SessionStatus {
            hyperd_running: facts.running,
            ephemeral_path: self.ephemeral_path.clone(),
            persistent_path: self.persistent_path.clone(),
            has_persistent: self.persistent_path.is_some(),
            table_count: shown.len(),
            total_rows: total,
            disk_usage_bytes: engine::disk_usage(facts.ephemeral_bytes, facts.persistent_bytes),
            version: facts.version,
            log_dir: self.log_dir.clone(),
            hyperd_log: facts.hyperd_log,
            client_log: facts.client_log,
        }
    }
}

/// A row is shown with one field for each of its columns, in order, and each field holds the
/// value of its own column; of columns with the same name the last counts.
pub proof fn law_rows_keep_their_cells(
    columns: Seq<String>,
    cells: Seq<DecodedCell>,
    r: Json,
    i: int,
)
    requires
        is_row_object(columns, cells, r),
        columns.len() == cells.len(),
        0 <= i < columns.len(),
        forall|j: int| i < j < columns.len() ==> (#[trigger] columns[j])@ != columns[i]@,
    ensures
        field_named(r.fields(), columns[i]@) == Some(cells::cell_json(cells[i])),
        exists|k: int|
            0 <= k < r.fields().len() && (#[trigger] r.fields()[k]).0@ == columns[i]@
                && r.fields()[k].1 == cells::cell_json(cells[i]),
{
    lemma_last_named(columns, cells, i);
    lemma_field_named(r.fields(), columns[i]@);
}

proof fn lemma_last_named(columns: Seq<String>, cells: Seq<DecodedCell>, i: int)
    requires
        columns.len() == cells.len(),
        0 <= i < columns.len(),
        forall|j: int| i < j < columns.len() ==> (#[trigger] columns[j])@ != columns[i]@,
    ensures
        last_named(columns, cells, columns[i]@) == Some(cells::cell_json(cells[i])),
    decreases columns.len(),
{
    if i < columns.len() - 1 {
        let t = columns.drop_last();
        assert(columns[columns.len() - 1]@ != columns[i]@);
        assert(t[i] == columns[i]);
        assert forall|j: int| i < j < t.len() implies (#[trigger] t[j])@ != t[i]@ by {
            assert(t[j] == columns[j]);
        }
        lemma_last_named(t, cells.drop_last(), i);
    }
}

proof fn lemma_field_named(fields: Seq<(String, Json)>, name: Seq<char>)
    ensures
        field_named(fields, name) matches Some(v) ==> exists|k: int|
            0 <= k < fields.len() && (#[trigger] fields[k]).0@ == name && fields[k].1 == v,
    decreases fields.len(),
{
    if fields.len() > 0 {
        if fields.last().0@ == name {
            assert(fields[fields.len() - 1].0@ == name);
        } else {
            let t = fields.drop_last();
            lemma_field_named(t, name);
            if let Some(v) = field_named(t, name) {
                let k = choose|k: int|
                    0 <= k < t.len() && (#[trigger] t[k]).0@ == name && t[k].1 == v;
                assert(fields[k] == t[k]);
            }
        }
    }
}

/// The fields of a row are named as its columns are, each name once, where it first comes.
pub proof fn law_first_seen(names: Seq<Seq<char>>, name: Seq<char>)
    ensures
        first_seen(Seq::empty()) == Seq::<Seq<char>>::empty(),
        names.no_duplicates() ==> first_seen(names) == names,
        first_seen(names).no_duplicates(),
        first_seen(names).contains(name) <==> names.contains(name),
        names.contains(name) ==> first_seen(names.push(name)) == first_seen(names),
        !names.contains(name) ==> first_seen(names.push(name)) == first_seen(names).push(name),
    decreases names.len(),
{
    assert(names.push(name).drop_last() =~= names);
    if names.len() > 0 {
        let t = names.drop_last();
        let last = names.last();
        law_first_seen(t, last);
        law_first_seen(t, name);
        let seen = first_seen(t);
        if names.no_duplicates() {
            assert(t.no_duplicates());
            assert(!t.contains(last)) by {
                if t.contains(last) {
                    let i = choose|i: int| 0 <= i < t.len() && t[i] == last;
                    assert(names[i] == names[names.len() - 1]);
                }
            }
            assert(t.push(last) =~= names);
        }
        assert(names.contains(name) <==> t.contains(name) || name == last) by {
            if t.contains(name) {
                let i = choose|i: int| 0 <= i < t.len() && t[i] == name;
                assert(names[i] == name);
            }
            if name == last {
                assert(names[names.len() - 1] == name);
            }
            if names.contains(name) {
                let i = choose|i: int| 0 <= i < names.len() && names[i] == name;
                if i < t.len() {
                    assert(t[i] == name);
                }
            }
        }
        if !seen.contains(last) {
            let all = seen.push(last);
            assert(first_seen(names) == all);
            assert forall|i: int, j: int|
                0 <= i < all.len() && 0 <= j < all.len() && i != j implies all[i] != all[j] by {
                if i < seen.len() && j < seen.len() {
                    assert(seen[i] != seen[j]);
                } else if i < seen.len() {
                    assert(seen.contains(seen[i]));
                } else {
                    assert(seen.contains(seen[j]));
                }
            }
            assert(all.contains(name) <==> seen.contains(name) || name == last) by {
                if seen.contains(name) {
                    let i = choose|i: int| 0 <= i < seen.len() && seen[i] == name;
                    assert(all[i] == name);
                }
                if name == last {
                    assert(all[seen.len() as int] == name);
                }
                if all.contains(name) {
                    let i = choose|i: int| 0 <= i < all.len() && all[i] == name;
                    if i < seen.len() {
                        assert(seen[i] == name);
                    }
                }
            }
        }
    } else {
        assert(first_seen(names) =~= names);
    }
}

/// A count is a whole number; where there is none, nothing was counted.
pub proof fn law_counted(n: i64, cell: Option<Json>)
    ensures
        counted(Some(Json::Integer(n))) == n,
        !(cell matches Some(Json::Integer(_))) ==> counted(cell) == 0,
{
}

} // verus!
