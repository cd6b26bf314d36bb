//! The session with the database: its databases, and the statements that its tools
//! send.

use vstd::prelude::*;

pub mod cells;
pub mod missing_table;
pub mod report;
pub mod session;
pub mod startup;
pub mod transaction;

use crate::attach;
use crate::engine::session::Engine;
use crate::error;
use crate::error::{DriverError, ErrorCode, McpError};
use crate::json::Json;
use crate::text;

verus! {

/// The alias of the persistent database.
pub const PERSISTENT_ALIAS: &'static str = "persistent";

/// The name of the client's log file.
pub const CLIENT_LOG_FILE_NAME: &'static str = "hyperdb-mcp.log";

/// How the names of this program's own tables begin.
pub const HYPERDB_INTERNAL_PREFIX: &'static str = "_hyperdb_";

/// Why the persistent database cannot be asked for.
pub const NO_PERSISTENT_DB: &'static str = "no persistent database in this session — hyperdb-mcp was started with --ephemeral-only";

/// Whether `name` is one of this program's own tables.
pub open spec fn is_internal(name: Seq<char>) -> bool {
    text::has_head(name, HYPERDB_INTERNAL_PREFIX@)
}

/// Whether `name` is one of this program's own tables, which are not shown.
pub fn is_internal_table(name: &str) -> (r: bool)
    ensures
        r == is_internal(name@),
{
    text::starts_with(name, HYPERDB_INTERNAL_PREFIX)
}

/// Whether the persistent database was made when it was attached.
#[derive(Debug, Clone, Copy, PartialEq, Eq, Structural)]
pub struct PersistentAttachOutcome {
    /// Whether it was made just now.
    pub file_was_created: bool,
}

/// A column of a table.
#[derive(Debug)]
pub struct ColumnSchema {
    /// Its name.
    pub name: String,
    /// Its type, as SQL names it.
    pub hyper_type: String,
    /// Whether it may be without value.
    pub nullable: bool,
}

/// A table's name in SQL: in the database `db`, or without one.
pub open spec fn qualified(db: Option<Seq<char>>, table: Seq<char>) -> Seq<char> {
    match db {
        Some(db) => attach::quoted_name(db) + ".\"public\"."@ + attach::quoted_name(table),
        None => attach::quoted_name(table),
    }
}

/// The text of an optional text.
pub open spec fn opt_view(s: Option<&str>) -> Option<Seq<char>> {
    match s {
        Some(t) => Some(t@),
        None => None,
    }
}

/// A table's name in SQL.
pub fn qualified_name(db: Option<&str>, table: &str) -> (r: String)
    ensures
        r@ == qualified(opt_view(db), table@),
{
    let name = attach::sql_quoted_name(table);
    match db {
        Some(db) => {
            let database = attach::sql_quoted_name(db);
            text::cat3(database.as_str(), ".\"public\".", name.as_str())
        },
        None => name,
    }
}

/// Tables in different databases, or of different names, are never named alike.
pub proof fn law_qualified_names_differ(
    a_db: Seq<char>,
    a_table: Seq<char>,
    b_db: Seq<char>,
    b_table: Seq<char>,
)
    ensures
        qualified(Some(a_db), a_table) == qualified(Some(b_db), b_table) <==> (a_db == b_db
            && a_table == b_table),
        qualified(None, a_table) == qualified(None, b_table) <==> a_table == b_table,
{
    reveal_strlit(".\"public\".");
    let dot = ".\"public\"."@;
    assert(dot.len() == 10 && dot[0] == '.');
    let a_rest = dot + attach::quoted_name(a_table);
    let b_rest = dot + attach::quoted_name(b_table);
    assert(qualified(Some(a_db), a_table) =~= attach::quoted_name(a_db) + a_rest);
    assert(qualified(Some(b_db), b_table) =~= attach::quoted_name(b_db) + b_rest);
    attach::law_quoted_reads_back(a_db, a_rest);
    attach::law_quoted_reads_back(b_db, b_rest);
    attach::law_quoted_reads_back(a_table, Seq::empty());
    attach::law_quoted_reads_back(b_table, Seq::empty());
    assert(attach::quoted_name(a_table) + Seq::<char>::empty() =~= attach::quoted_name(a_table));
    assert(attach::quoted_name(b_table) + Seq::<char>::empty() =~= attach::quoted_name(b_table));
    if a_rest == b_rest {
        assert(a_rest.skip(10) =~= attach::quoted_name(a_table));
        assert(b_rest.skip(10) =~= attach::quoted_name(b_table));
    }
}

/// The first column whose type is not known.
pub open spec fn first_unknown(known: Seq<bool>) -> Option<int>
    decreases known.len(),
{
    if known.len() == 0 {
        None
    } else {
        match first_unknown(known.drop_last()) {
            Some(i) => Some(i),
            None => if known.last() {
                None
            } else {
                Some(known.len() - 1)
            },
        }
    }
}

/// The words for a column whose type is not known.
pub open spec fn unknown_type_words(c: ColumnSchema) -> Seq<char> {
    "Unknown type '"@ + c.hyper_type@ + "' for column '"@ + c.name@ + "'"@
}

fn check_types(columns: &Vec<ColumnSchema>, known: &Vec<bool>) -> (r: Result<(), McpError>)
    requires
        known@.len() == columns@.len(),
    ensures
        match first_unknown(known@) {
            Some(i) => r matches Err(e) && e.says(
                ErrorCode::SchemaMismatch,
                unknown_type_words(columns@[i]),
            ),
            None => r is Ok,
        },
{
    let mut i: usize = 0;
    while i < columns.len()
        invariant
            known@.len() == columns@.len(),
            i <= columns@.len(),
            first_unknown(known@.take(i as int)) is None,
        decreases columns@.len() - i,
    {
        proof {
            assert(known@.take(i + 1).drop_last() =~= known@.take(i as int));
        }
        if !known[i] {
            proof {
                lemma_first_unknown_stays(known@, (i + 1) as nat);
            }
            let message = text::cat5(
                "Unknown type '",
                columns[i].hyper_type.as_str(),
                "' for column '",
                columns[i].name.as_str(),
                "'",
            );
            return Err(McpError::new(ErrorCode::SchemaMismatch, message.as_str()));
        }
        i = i + 1;
    }
    assert(known@.take(known@.len() as int) =~= known@);
    Ok(())
}

proof fn lemma_first_unknown_stays(known: Seq<bool>, n: nat)
    requires
        n <= known.len(),
        first_unknown(known.take(n as int)) is Some,
    ensures
        first_unknown(known) == first_unknown(known.take(n as int)),
    decreases known.len() - n,
{
    if n < known.len() {
        assert(known.take(n + 1int).drop_last() =~= known.take(n as int));
        lemma_first_unknown_stays(known, n + 1);
    } else {
        assert(known.take(n as int) =~= known);
    }
}

/// A column as it is written when a table is made.
pub open spec fn column_definition(c: ColumnSchema) -> Seq<char> {
    attach::quoted_name(c.name@) + " "@ + c.hyper_type@ + (if c.nullable {
        ""@
    } else {
        " NOT NULL"@
    })
}

/// A column as it is written when it is added to a table: it may always be without
/// value, since the rows that are there have none.
pub open spec fn column_addition(c: ColumnSchema) -> Seq<char> {
    "ADD COLUMN "@ + attach::quoted_name(c.name@) + " "@ + c.hyper_type@
}

fn column_definitions(columns: &Vec<ColumnSchema>) -> (r: Vec<String>)
    ensures
        text::texts(r@) == columns@.map_values(|c: ColumnSchema| column_definition(c)),
{
    let mut out: Vec<String> = Vec::new();
    let mut i: usize = 0;
    while i < columns.len()
        invariant
            i <= columns@.len(),
            out@.len() == i,
            forall|j: int| 0 <= j < i ==> #[trigger] out@[j]@ == column_definition(columns@[j]),
        decreases columns@.len() - i,
    {
        let name = attach::sql_quoted_name(columns[i].name.as_str());
        let suffix = if columns[i].nullable {
            ""
        } else {
            " NOT NULL"
        };
        out.push(text::cat4(name.as_str(), " ", columns[i].hyper_type.as_str(), suffix));
        i = i + 1;
    }
    assert(text::texts(out@) =~= columns@.map_values(|c: ColumnSchema| column_definition(c)));
    out
}

fn column_additions(columns: &Vec<ColumnSchema>) -> (r: Vec<String>)
    ensures
        text::texts(r@) == columns@.map_values(|c: ColumnSchema| column_addition(c)),
{
    let mut out: Vec<String> = Vec::new();
    let mut i: usize = 0;
    while i < columns.len()
        invariant
            i <= columns@.len(),
            out@.len() == i,
            forall|j: int| 0 <= j < i ==> #[trigger] out@[j]@ == column_addition(columns@[j]),
        decreases columns@.len() - i,
    {
        let name = attach::sql_quoted_name(columns[i].name.as_str());
        out.push(text::cat4("ADD COLUMN ", name.as_str(), " ", columns[i].hyper_type.as_str()));
        i = i + 1;
    }
    assert(text::texts(out@) =~= columns@.map_values(|c: ColumnSchema| column_addition(c)));
    out
}

/// The statements that make a table: an old one is dropped first where it is to be
/// replaced.
pub open spec fn create_table_statements(
    db: Option<Seq<char>>,
    table: Seq<char>,
    columns: Seq<ColumnSchema>,
    replace: bool,
) -> Seq<Seq<char>> {
    let name = qualified(db, table);
    (if replace {
        seq!["DROP TABLE IF EXISTS "@ + name]
    } else {
        Seq::empty()
    }) + seq![
        "CREATE TABLE IF NOT EXISTS "@ + name + " ("@ + text::joined(
            columns.map_values(|c: ColumnSchema| column_definition(c)),
            ", "@,
        ) + ")"@,
    ]
}

/// The statement that adds columns to a table, all at once.
pub open spec fn add_columns_statement(
    db: Option<Seq<char>>,
    table: Seq<char>,
    columns: Seq<ColumnSchema>,
) -> Seq<char> {
    "ALTER TABLE "@ + qualified(db, table) + " "@ + text::joined(
        columns.map_values(|c: ColumnSchema| column_addition(c)),
        ", "@,
    )
}

/// How many rows a sample has: what was asked for, but between one and a hundred.
pub open spec fn sample_size(n: u64) -> u64 {
    if n < 1 {
        1
    } else if n > 100 {
        100
    } else {
        n
    }
}

/// The query for a sample of a table in the database `db`, or in the primary one.
pub open spec fn sample_query_text(db: Option<Seq<char>>, table: Seq<char>, n: u64) -> Seq<char> {
    "SELECT * FROM "@ + qualified(db, table) + " LIMIT "@ + text::decimal(sample_size(n) as nat)
}

/// The query for the number of rows of a table.
pub open spec fn count_query_text(db: Option<Seq<char>>, table: Seq<char>) -> Seq<char> {
    "SELECT COUNT(*) AS cnt FROM "@ + qualified(db, table)
}

/// Whether a table is among the names.
pub open spec fn is_listed(names: Seq<String>, table: Seq<char>) -> bool {
    exists|i: int| 0 <= i < names.len() && #[trigger] names[i]@ == table
}

/// How to find out whether a table is there.
#[derive(Debug)]
pub enum TableLookup {
    /// The catalog of the primary database lists the names.
    Catalog,
    /// A query has a row where the table is there.
    Query(String),
}

/// Whether two columns are alike.
pub open spec fn same_column(a: ColumnSchema, b: ColumnSchema) -> bool {
    a.name@ == b.name@ && a.hyper_type@ == b.hyper_type@ && a.nullable == b.nullable
}

fn sample_query(target_db: Option<&str>, table_name: &str, n: u64) -> (r: String)
    ensures
        r@ == sample_query_text(opt_view(target_db), table_name@, n),
{
    let size: u64 = if n < 1 {
        1
    } else if n > 100 {
        100
    } else {
        n
    };
    let name = qualified_name(target_db, table_name);
    let limit = text::decimal_text(size);
    text::cat4("SELECT * FROM ", name.as_str(), " LIMIT ", limit.as_str())
}

/// The query for the number of rows of a table.
pub fn count_query(target_db: Option<&str>, table_name: &str) -> (r: String)
    ensures
        r@ == count_query_text(opt_view(target_db), table_name@),
{
    let name = qualified_name(target_db, table_name);
    text::cat2("SELECT COUNT(*) AS cnt FROM ", name.as_str())
}

/// The condition on a table's name in the catalog of the database `db`.
pub open spec fn catalog_lookup(head: Seq<char>, db: Seq<char>, table: Seq<char>) -> Seq<char> {
    head + attach::quoted_name(db)
        + ".pg_catalog.pg_tables WHERE schemaname = 'public' AND tablename = "@
        + attach::string_literal(table)
}

fn catalog_lookup_sql(head: &str, db: &str, table: &str) -> (r: String)
    ensures
        r@ == catalog_lookup(head@, db@, table@),
{
    let database = attach::sql_quoted_name(db);
    let literal = attach::sql_string_literal(table);
    text::cat4(
        head,
        database.as_str(),
        ".pg_catalog.pg_tables WHERE schemaname = 'public' AND tablename = ",
        literal.as_str(),
    )
}

/// The query that tells whether a table to describe is in the database `db`.
pub fn describe_exists_query(db: &str, table: &str) -> (r: String)
    ensures
        r@ == catalog_lookup("SELECT 1 FROM "@, db@, table@),
{
    catalog_lookup_sql("SELECT 1 FROM ", db, table)
}

/// The query for the names of the tables in the database `db`.
pub fn list_tables_query(db: &str) -> (r: String)
    ensures
        r@ == "SELECT tablename FROM "@ + attach::quoted_name(db@)
            + ".pg_catalog.pg_tables WHERE schemaname = 'public' ORDER BY tablename"@,
{
    let database = attach::sql_quoted_name(db);
    text::cat3(
        "SELECT tablename FROM ",
        database.as_str(),
        ".pg_catalog.pg_tables WHERE schemaname = 'public' ORDER BY tablename",
    )
}

/// The query for the columns of a table in the database `db`, in order.
pub open spec fn columns_query_text(db: Seq<char>, table: Seq<char>) -> Seq<char> {
    let d = attach::quoted_name(db);
    "SELECT a.attname AS name, t.typname AS type_name, NOT a.attnotnull AS nullable, a.attnum AS ordinal FROM "@
        + d + ".pg_catalog.pg_attribute a JOIN "@ + d
        + ".pg_catalog.pg_class c ON a.attrelid = c.oid JOIN "@ + d
        + ".pg_catalog.pg_namespace n ON c.relnamespace = n.oid JOIN "@ + d
        + ".pg_catalog.pg_type t ON a.atttypid = t.oid WHERE n.nspname = 'public' AND c.relname = "@
        + attach::string_literal(table) + " AND a.attnum > 0 ORDER BY a.attnum"@
}

/// The query for the columns of a table in the database `db`, in order.
pub fn columns_query(db: &str, table: &str) -> (r: String)
    ensures
        r@ == columns_query_text(db@, table@),
{
    let d = attach::sql_quoted_name(db);
    let literal = attach::sql_string_literal(table);
    let first = text::cat4(
        "SELECT a.attname AS name, t.typname AS type_name, NOT a.attnotnull AS nullable, a.attnum AS ordinal FROM ",
        d.as_str(),
        ".pg_catalog.pg_attribute a JOIN ",
        d.as_str(),
    );
    text::cat8(
        first.as_str(),
        ".pg_catalog.pg_class c ON a.attrelid = c.oid JOIN ",
        d.as_str(),
        ".pg_catalog.pg_namespace n ON c.relnamespace = n.oid JOIN ",
        d.as_str(),
        ".pg_catalog.pg_type t ON a.atttypid = t.oid WHERE n.nspname = 'public' AND c.relname = ",
        literal.as_str(),
        " AND a.attnum > 0 ORDER BY a.attnum",
    )
}

/// A row of the query for columns: the cells that it has.
#[derive(Debug)]
pub struct ColumnRow {
    /// The cell `name`.
    pub name: Option<Json>,
    /// The cell with its type.
    pub column_type: Option<Json>,
    /// The cell `nullable`.
    pub nullable: Option<Json>,
}

/// A column's description: a cell that is missing tells nothing, or that the column
/// may be without value.
pub fn describe_column(row: ColumnRow) -> (r: Json)
    ensures
        r.names() == seq!["name"@, "type"@, "nullable"@],
        r.fields()[0].1 == (match row.name {
            Some(v) => v,
            None => Json::Null,
        }),
        r.fields()[1].1 == (match row.column_type {
            Some(v) => v,
            None => Json::Null,
        }),
        r.fields()[2].1 == (match row.nullable {
            Some(v) => v,
            None => Json::Bool(true),
        }),
{
    let name = match row.name {
        Some(v) => v,
        None => Json::Null,
    };
    let column_type = match row.column_type {
        Some(v) => v,
        None => Json::Null,
    };
    let nullable = match row.nullable {
        Some(v) => v,
        None => Json::Bool(true),
    };
    let mut fields: Vec<(String, Json)> = Vec::new();
    fields.push(("name".to_owned(), name));
    fields.push(("type".to_owned(), column_type));
    fields.push(("nullable".to_owned(), nullable));
    let r = Json::Object(fields);
    assert(r.names() =~= seq!["name"@, "type"@, "nullable"@]);
    r
}

/// Whether `c` is the column that a row tells of; a cell that is missing or of
/// another kind tells nothing, or that the column may be without value.
pub open spec fn is_column_of(c: ColumnSchema, row: ColumnRow) -> bool {
    &&& c.name@ == (match row.name {
        Some(Json::Text(s)) => s@,
        _ => Seq::empty(),
    })
    &&& c.hyper_type@ == (match row.column_type {
        Some(Json::Text(s)) => s@,
        _ => Seq::empty(),
    })
    &&& c.nullable == (match row.nullable {
        Some(Json::Bool(b)) => b,
        _ => true,
    })
}

fn text_or_empty(v: &Option<Json>) -> (r: String)
    ensures
        r@ == (match *v {
            Some(Json::Text(s)) => s@,
            _ => Seq::<char>::empty(),
        }),
{
    match v {
        Some(Json::Text(s)) => s.clone(),
        _ => String::new(),
    }
}

fn table_missing_in(db: &str, table: &str) -> (r: McpError)
    ensures
        r.says(
            ErrorCode::TableNotFound,
            "Table '"@ + table@ + "' does not exist in database '"@ + db@ + "'"@,
        ),
{
    let message = text::cat5("Table '", table, "' does not exist in database '", db, "'");
    McpError::new(ErrorCode::TableNotFound, message.as_str())
}

fn table_missing(table: &str) -> (r: McpError)
    ensures
        r.says(ErrorCode::TableNotFound, "Table '"@ + table@ + "' does not exist"@),
{
    let message = text::cat3("Table '", table, "' does not exist");
    McpError::new(ErrorCode::TableNotFound, message.as_str())
}

/// The names that are shown, in order: all but those of this program's own tables.
pub open spec fn visible(names: Seq<String>) -> Seq<String>
    decreases names.len(),
{
    if names.len() == 0 {
        Seq::empty()
    } else if is_internal(names.last()@) {
        visible(names.drop_last())
    } else {
        visible(names.drop_last()).push(names.last())
    }
}

/// The names that cells with text tell, in order.
pub open spec fn named(cells: Seq<Option<Json>>) -> Seq<String>
    decreases cells.len(),
{
    if cells.len() == 0 {
        Seq::empty()
    } else {
        match cells.last() {
            Some(Json::Text(s)) => named(cells.drop_last()).push(s),
            _ => named(cells.drop_last()),
        }
    }
}

impl Engine {
    /// The statements that make a table in the database `target_db`, or in the primary
    /// one; `known` says of each column whether its type is known.
    pub fn create_table_in(
        &self,
        table_name: &str,
        columns: &Vec<ColumnSchema>,
        known: &Vec<bool>,
        replace: bool,
        target_db: Option<&str>,
    ) -> (r: Result<Vec<String>, McpError>)
        requires
            known@.len() == columns@.len(),
        ensures
            if columns@.len() == 0 {
                r matches Err(e) && e.says(ErrorCode::EmptyData, "No columns to create table from"@)
            } else {
                match first_unknown(known@) {
                    Some(i) => r matches Err(e) && e.says(
                        ErrorCode::SchemaMismatch,
                        unknown_type_words(columns@[i]),
                    ),
                    None => r matches Ok(s) && text::texts(s@) == create_table_statements(
                        opt_view(target_db),
                        table_name@,
                        columns@,
                        replace,
                    ),
                }
            },
    {
        if columns.len() == 0 {
            return Err(McpError::new(ErrorCode::EmptyData, "No columns to create table from"));
        }
        if let Err(e) = check_types(columns, known) {
            return Err(e);
        }
        let name = qualified_name(target_db, table_name);
        let mut statements: Vec<String> = Vec::new();
        if replace {
            statements.push(text::cat2("DROP TABLE IF EXISTS ", name.as_str()));
        }
        let definitions = column_definitions(columns);
        let list = text::join(&definitions, ", ");
        statements.push(
            text::cat5("CREATE TABLE IF NOT EXISTS ", name.as_str(), " (", list.as_str(), ")"),
        );
        assert(text::texts(statements@) =~= create_table_statements(
            opt_view(target_db),
            table_name@,
            columns@,
            replace,
        ));
        Ok(statements)
    }

    /// The statements that make a table in the primary database.
    pub fn create_table(
        &self,
        table_name: &str,
        columns: &Vec<ColumnSchema>,
        known: &Vec<bool>,
        replace: bool,
    ) -> (r: Result<Vec<String>, McpError>)
        requires
            known@.len() == columns@.len(),
        ensures
            if columns@.len() == 0 {
                r matches Err(e) && e.says(ErrorCode::EmptyData, "No columns to create table from"@)
            } else {
                match first_unknown(known@) {
                    Some(i) => r matches Err(e) && e.says(
                        ErrorCode::SchemaMismatch,
                        unknown_type_words(columns@[i]),
                    ),
                    None => r matches Ok(s) && text::texts(s@) == create_table_statements(
                        None,
                        table_name@,
                        columns@,
                        replace,
                    ),
                }
            },
    {
        self.create_table_in(table_name, columns, known, replace, None)
    }

    /// The statement that adds columns to a table in the database `target_db`, or in the
    /// primary one: none where there is nothing to add.
    pub fn alter_table_add_columns_in(
        &self,
        target_db: Option<&str>,
        table: &str,
        columns: &Vec<ColumnSchema>,
        known: &Vec<bool>,
    ) -> (r: Result<Option<String>, McpError>)
        requires
            known@.len() == columns@.len(),
        ensures
            if columns@.len() == 0 {
                r == Ok::<Option<String>, McpError>(None)
            } else {
                match first_unknown(known@) {
                    Some(i) => r matches Err(e) && e.says(
                        ErrorCode::SchemaMismatch,
                        unknown_type_words(columns@[i]),
                    ),
                    None => r matches Ok(Some(s)) && s@ == add_columns_statement(
                        opt_view(target_db),
                        table@,
                        columns@,
                    ),
                }
            },
    {
        if columns.len() == 0 {
            return Ok(None);
        }
        if let Err(e) = check_types(columns, known) {
            return Err(e);
        }
        let name = qualified_name(target_db, table);
        let additions = column_additions(columns);
        let list = text::join(&additions, ", ");
        Ok(Some(text::cat4("ALTER TABLE ", name.as_str(), " ", list.as_str())))
    }

    /// The statement that adds columns to a table in the primary database.
    pub fn alter_table_add_columns(
        &self,
        table: &str,
        columns: &Vec<ColumnSchema>,
        known: &Vec<bool>,
    ) -> (r: Result<Option<String>, McpError>)
        requires
            known@.len() == columns@.len(),
        ensures
            if columns@.len() == 0 {
                r == Ok::<Option<String>, McpError>(None)
            } else {
                match first_unknown(known@) {
                    Some(i) => r matches Err(e) && e.says(
                        ErrorCode::SchemaMismatch,
                        unknown_type_words(columns@[i]),
                    ),
                    None => r matches Ok(Some(s)) && s@ == add_columns_statement(
                        None,
                        table@,
                        columns@,
                    ),
                }
            },
    {
        self.alter_table_add_columns_in(None, table, columns, known)
    }

    /// The columns of a table in the primary database, as its definition tells them.
    pub fn column_metadata(&self, columns: &Vec<ColumnSchema>) -> (r: Vec<ColumnSchema>)
        ensures
            r@.len() == columns@.len(),
            forall|i: int| 0 <= i < r@.len() ==> same_column(#[trigger] r@[i], columns@[i]),
    {
        let mut out: Vec<ColumnSchema> = Vec::new();
        let mut i: usize = 0;
        while i < columns.len()
            invariant
                i <= columns@.len(),
                out@.len() == i,
                forall|j: int| 0 <= j < i ==> same_column(#[trigger] out@[j], columns@[j]),
            decreases columns@.len() - i,
        {
            out.push(
                ColumnSchema {
                    name: columns[i].name.clone(),
                    hyper_type: columns[i].hyper_type.clone(),
                    nullable: columns[i].nullable,
                },
            );
            i = i + 1;
        }
        out
    }

    /// The columns of a table in the database `db`, from the rows of the query for them:
    /// a table without columns is none.
    pub fn column_metadata_in(&self, db: &str, table: &str, rows: &Vec<ColumnRow>) -> (r: Result<
        Vec<ColumnSchema>,
        McpError,
    >)
        ensures
            if rows@.len() == 0 {
                r matches Err(e) && e.says(
                    ErrorCode::TableNotFound,
                    "Table '"@ + table@ + "' does not exist in database '"@ + db@ + "'"@,
                )
            } else {
                r matches Ok(c) && c@.len() == rows@.len() && forall|i: int|
                    0 <= i < c@.len() ==> is_column_of(#[trigger] c@[i], rows@[i])
            },
    {
        if rows.len() == 0 {
            return Err(table_missing_in(db, table));
        }
        let mut out: Vec<ColumnSchema> = Vec::new();
        let mut i: usize = 0;
        while i < rows.len()
            invariant
                i <= rows@.len(),
                out@.len() == i,
                forall|j: int| 0 <= j < i ==> is_column_of(#[trigger] out@[j], rows@[j]),
            decreases rows@.len() - i,
        {
            let nullable = match &rows[i].nullable {
                Some(Json::Bool(b)) => *b,
                _ => true,
            };
            out.push(
                ColumnSchema {
                    name: text_or_empty(&rows[i].name),
                    hyper_type: text_or_empty(&rows[i].column_type),
                    nullable,
                },
            );
            i = i + 1;
        }
        Ok(out)
    }

    /// Whether a table is among the names that the catalog of the primary database
    /// lists.
    pub fn table_exists(&self, names: &Vec<String>, table: &str) -> (r: bool)
        ensures
            r == is_listed(names@, table@),
    {
        let mut i: usize = 0;
        while i < names.len()
            invariant
                i <= names@.len(),
                forall|j: int| 0 <= j < i ==> #[trigger] names@[j]@ != table@,
            decreases names@.len() - i,
        {
            if text::same_text(names[i].as_str(), table) {
                assert(names@[i as int]@ == table@);
                return true;
            }
            i = i + 1;
        }
        false
    }

    /// How to find out whether a table is in the database `target_db`, or in the
    /// primary one.
    pub fn table_exists_in(&self, target_db: Option<&str>, table: &str) -> (r: TableLookup)
        ensures
            match target_db {
                None => r is Catalog,
                Some(db) => r matches TableLookup::Query(sql) && sql@ == catalog_lookup(
                    "SELECT 1 AS one FROM "@,
                    db@,
                    table@,
                ),
            },
    {
        match target_db {
            None => TableLookup::Catalog,
            Some(db) => TableLookup::Query(catalog_lookup_sql("SELECT 1 AS one FROM ", db, table)),
        }
    }

    /// Whether a table may be described, where `names` are those that the catalog of
    /// the primary database lists: one of this program's own is treated as if it were
    /// not there.
    pub fn describe_table(&self, table_name: &str, names: &Vec<String>) -> (r: Result<(), McpError>)
        ensures
            if is_internal(table_name@) || !is_listed(names@, table_name@) {
                r matches Err(e) && e.says(
                    ErrorCode::TableNotFound,
                    "Table '"@ + table_name@ + "' does not exist"@,
                )
            } else {
                r is Ok
            },
    {
        if is_internal_table(table_name) || !self.table_exists(names, table_name) {
            Err(table_missing(table_name))
        } else {
            Ok(())
        }
    }

    /// Whether a table in the database `db` may be described, where `found` says
    /// whether the query for it has a row.
    pub fn describe_table_in(&self, db: &str, table_name: &str, found: bool) -> (r: Result<
        (),
        McpError,
    >)
        ensures
            if is_internal(table_name@) {
                r matches Err(e) && e.says(
                    ErrorCode::TableNotFound,
                    "Table '"@ + table_name@ + "' does not exist"@,
                )
            } else if !found {
                r matches Err(e) && e.says(
                    ErrorCode::TableNotFound,
                    "Table '"@ + table_name@ + "' does not exist in database '"@ + db@ + "'"@,
                )
            } else {
                r is Ok
            },
    {
        if is_internal_table(table_name) {
            Err(table_missing(table_name))
        } else if !found {
            Err(table_missing_in(db, table_name))
        } else {
            Ok(())
        }
    }

    /// The tables to describe, in order.
    pub fn describe_tables(&self, names: Vec<String>) -> (r: Vec<String>)
        ensures
            r@ == visible(names@),
    {
        let mut out: Vec<String> = Vec::new();
        let mut i: usize = 0;
        while i < names.len()
            invariant
                i <= names@.len(),
                out@ == visible(names@.take(i as int)),
            decreases names@.len() - i,
        {
            proof {
                assert(names@.take(i + 1).drop_last() =~= names@.take(i as int));
            }
            if !is_internal_table(names[i].as_str()) {
                out.push(names[i].clone());
            }
            i = i + 1;
        }
        assert(names@.take(names@.len() as int) =~= names@);
        out
    }

    /// The tables of an attached database to describe, in order; `cells` are those
    /// with their names, and a cell without text names no table.
    pub fn describe_tables_in(&self, cells: Vec<Option<Json>>) -> (r: Vec<String>)
        ensures
            r@ == visible(named(cells@)),
    {
        let mut names: Vec<String> = Vec::new();
        let mut i: usize = 0;
        while i < cells.len()
            invariant
                i <= cells@.len(),
                names@ == named(cells@.take(i as int)),
            decreases cells@.len() - i,
        {
            proof {
                assert(cells@.take(i + 1).drop_last() =~= cells@.take(i as int));
            }
            if let Some(Json::Text(s)) = &cells[i] {
                names.push(s.clone());
            }
            i = i + 1;
        }
        assert(cells@.take(cells@.len() as int) =~= cells@);
        self.describe_tables(names)
    }

    /// The queries for a sample of a table in the primary database, and for the number
    /// of its rows.
    pub fn sample_table(&self, table_name: &str, n: u64) -> (r: (String, String))
        ensures
            r.0@ == sample_query_text(None, table_name@, n),
            r.1@ == count_query_text(None, table_name@),
    {
        self.sample_table_in(None, table_name, n)
    }

    /// The queries for a sample of a table in the database `target_db`, or in the
    /// primary one, and for the number of its rows.
    pub fn sample_table_in(&self, target_db: Option<&str>, table_name: &str, n: u64) -> (r: (
        String,
        String,
    ))
        ensures
            r.0@ == sample_query_text(opt_view(target_db), table_name@, n),
            r.1@ == count_query_text(opt_view(target_db), table_name@),
    {
        (sample_query(target_db, table_name, n), count_query(target_db, table_name))
    }

    /// What the caller is told of a statement that was executed.
    pub fn execute_command(&self, outcome: Result<u64, DriverError>) -> (r: Result<u64, McpError>)
        ensures
            match outcome {
                Ok(n) => r == Ok::<u64, McpError>(n),
                Err(e) => r matches Err(m) && m.message@ == e.message@ && (
                    m.code,
                    text::opt_text(m.suggestion),
                ) == error::driver_verdict(e.kind, e.message@, text::unicode_lowercase(e.message@)),
            },
    {
        match outcome {
            Ok(n) => Ok(n),
            Err(e) => Err(McpError::from(e)),
        }
    }
}

/// The sum of the first `n` counts.
pub open spec fn total(counts: Seq<i64>, n: nat) -> int
    decreases n,
{
    if n == 0 || n > counts.len() {
        0
    } else {
        total(counts, (n - 1) as nat) + counts[n - 1]
    }
}

/// How many rows the shown tables have together; `counts` are their numbers of rows,
/// none where the number could not be read.
pub fn total_rows(counts: &Vec<i64>) -> (r: i64)
    requires
        forall|n: nat|
            n <= counts@.len() ==> i64::MIN <= #[trigger] total(counts@, n) <= i64::MAX,
    ensures
        r == total(counts@, counts@.len()),
{
    let mut sum: i64 = 0;
    let mut i: usize = 0;
    while i < counts.len()
        invariant
            i <= counts@.len(),
            sum == total(counts@, i as nat),
            forall|n: nat|
                n <= counts@.len() ==> i64::MIN <= #[trigger] total(counts@, n) <= i64::MAX,
        decreases counts@.len() - i,
    {
        assert(i64::MIN <= total(counts@, (i + 1) as nat) <= i64::MAX);
        sum = sum + counts[i];
        i = i + 1;
    }
    sum
}

/// How many bytes the databases take on disk.
pub open spec fn disk_usage_of(ephemeral: u64, persistent: u64) -> u64 {
    if ephemeral + persistent <= u64::MAX {
        (ephemeral + persistent) as u64
    } else {
        u64::MAX
    }
}

/// How many bytes the databases take on disk.
pub fn disk_usage(ephemeral: u64, persistent: u64) -> (r: u64)
    ensures
        r == disk_usage_of(ephemeral, persistent),
{
    ephemeral.saturating_add(persistent)
}

/// The error for a failed query on a table, whose message in lower case is `lower`.
pub fn translate_table_missing_text(err: McpError, lower: &str, table_name: &str) -> (r: McpError)
    ensures
        if missing_table::says_table_missing(err.message@, lower@) {
            r.says(ErrorCode::TableNotFound, "Table '"@ + table_name@ + "' does not exist"@)
        } else {
            r == err
        },
{
    if missing_table::tells_missing_table(err.message.as_str(), lower) {
        table_missing(table_name)
    } else {
        err
    }
}

/// The error for a failed query on a table: one message for all ways to say that the
/// table is not there, and any other error as it came.
pub fn translate_table_missing(err: McpError, table_name: &str) -> (r: McpError)
    ensures
        if missing_table::says_table_missing(err.message@, text::unicode_lowercase(err.message@)) {
            r.says(ErrorCode::TableNotFound, "Table '"@ + table_name@ + "' does not exist"@)
        } else {
            r == err
        },
        vstd::utf8::is_ascii_chars(err.message@) ==> if missing_table::says_table_missing(
            err.message@,
            text::lower(err.message@),
        ) {
            r.says(ErrorCode::TableNotFound, "Table '"@ + table_name@ + "' does not exist"@)
        } else {
            r == err
        },
{
    let lower = err.message.to_lowercase();
    translate_table_missing_text(err, lower.as_str(), table_name)
}

/// No table of this program is ever shown, and every other one is.
pub proof fn law_internal_tables_are_hidden(names: Seq<String>, name: String)
    ensures
        visible(names).contains(name) <==> names.contains(name) && !is_internal(name@),
    decreases names.len(),
{
    if names.len() > 0 {
        let rest = names.drop_last();
        law_internal_tables_are_hidden(rest, name);
        assert(names =~= rest.push(names.last()));
        vstd::seq_lib::lemma_seq_contains_after_push(rest, names.last(), name);
        vstd::seq_lib::lemma_seq_contains_after_push(visible(rest), names.last(), name);
    }
}

/// A table is one of the library's own if and only if its name begins with `_hyperdb_`.
pub proof fn law_internal_names(name: Seq<char>, rest: Seq<char>)
    ensures
        is_internal("_hyperdb_"@ + rest),
        is_internal(name) <==> name.len() >= 9 && name.take(9) == "_hyperdb_"@,
{
    reveal_strlit("_hyperdb_");
    text::law_parts_of_texts(Seq::empty(), "_hyperdb_"@, rest, name);
    assert(name.len() >= 9 ==> name.take(9) =~= name.subrange(0, 9));
}

/// A table is named by its database, the schema of all tables and its own name, each quoted;
/// without a database by its own name alone.
pub proof fn law_qualified_names(db: Seq<char>, table: Seq<char>)
    ensures
        qualified(Some(db), table) == "\""@ + text::doubled(db, '"') + "\".\"public\".\""@
            + text::doubled(table, '"') + "\""@,
        qualified(None, table) == "\""@ + text::doubled(table, '"') + "\""@,
{
    reveal_strlit("\"");
    reveal_strlit(".\"public\".");
    reveal_strlit("\".\"public\".\"");
    assert("\".\"public\".\""@ =~= "\""@ + ".\"public\"."@ + "\""@);
    assert(qualified(Some(db), table) =~= "\""@ + text::doubled(db, '"') + "\".\"public\".\""@
        + text::doubled(table, '"') + "\""@);
}

/// The statements that make a table: it is dropped first only where it is to be replaced,
/// and never made twice.
pub proof fn law_create_table_statements(
    db: Option<Seq<char>>,
    table: Seq<char>,
    columns: Seq<ColumnSchema>,
)
    ensures
        create_table_statements(db, table, columns, false) == seq![
            "CREATE TABLE IF NOT EXISTS "@ + qualified(db, table) + " ("@ + text::joined(
                columns.map_values(|c: ColumnSchema| column_definition(c)),
                ", "@,
            ) + ")"@,
        ],
        create_table_statements(db, table, columns, true) == seq![
            "DROP TABLE IF EXISTS "@ + qualified(db, table),
        ] + create_table_statements(db, table, columns, false),
        add_columns_statement(db, table, columns) == "ALTER TABLE "@ + qualified(db, table) + " "@
            + text::joined(columns.map_values(|c: ColumnSchema| column_addition(c)), ", "@),
{
    assert(create_table_statements(db, table, columns, false) =~= seq![
        "CREATE TABLE IF NOT EXISTS "@ + qualified(db, table) + " ("@ + text::joined(
            columns.map_values(|c: ColumnSchema| column_definition(c)),
            ", "@,
        ) + ")"@,
    ]);
    assert(create_table_statements(db, table, columns, true) =~= seq![
        "DROP TABLE IF EXISTS "@ + qualified(db, table),
    ] + create_table_statements(db, table, columns, false));
}

/// A column is defined by its quoted name and its type, and is marked where it may not be
/// empty; one that is added later is never marked.
pub proof fn law_column_texts(c: ColumnSchema)
    ensures
        c.nullable ==> column_definition(c) == "\""@ + text::doubled(c.name@, '"') + "\""@ + " "@
            + c.hyper_type@,
        !c.nullable ==> column_definition(c) == "\""@ + text::doubled(c.name@, '"') + "\""@ + " "@
            + c.hyper_type@ + " NOT NULL"@,
        column_addition(c) == "ADD COLUMN "@ + ("\""@ + text::doubled(c.name@, '"') + "\""@)
            + " "@ + c.hyper_type@,
{
    reveal_strlit("");
    assert(c.nullable ==> column_definition(c) =~= "\""@ + text::doubled(c.name@, '"') + "\""@
        + " "@ + c.hyper_type@);
}

/// The column that is complained about is the first whose type is not known.
pub proof fn law_first_unknown(known: Seq<bool>)
    ensures
        match first_unknown(known) {
            Some(i) => 0 <= i < known.len() && !known[i] && forall|j: int|
                0 <= j < i ==> #[trigger] known[j],
            None => forall|j: int| 0 <= j < known.len() ==> #[trigger] known[j],
        },
    decreases known.len(),
{
    if known.len() > 0 {
        law_first_unknown(known.drop_last());
        assert(forall|j: int| 0 <= j < known.len() - 1 ==> known.drop_last()[j] == known[j]);
    }
}

/// The words for a column whose type is not known name its type and the column.
pub proof fn law_unknown_types_are_named(c: ColumnSchema)
    ensures
        unknown_type_words(c) == "Unknown type '"@ + c.hyper_type@ + "' for column '"@ + c.name@
            + "'"@,
{
}

/// A sample has at least one row and at most a hundred, and otherwise as many as were asked
/// for; all rows are counted, whatever the size of the sample.
pub proof fn law_samples(db: Option<Seq<char>>, table: Seq<char>, n: u64)
    ensures
        1 <= sample_size(n) <= 100,
        1 <= n <= 100 ==> sample_size(n) == n,
        n == 0 ==> sample_size(n) == 1,
        n > 100 ==> sample_size(n) == 100,
        sample_query_text(db, table, n) == "SELECT * FROM "@ + qualified(db, table) + " LIMIT "@
            + text::decimal(sample_size(n) as nat),
        count_query_text(db, table) == "SELECT COUNT(*) AS cnt FROM "@ + qualified(db, table),
{
}

/// A table is looked up in the catalog of its own database, among the tables of the schema of
/// all tables, by its exact name; so are its columns, of which those of the system are left
/// out and the others come in their order.
pub proof fn law_catalog_queries(head: Seq<char>, db: Seq<char>, table: Seq<char>)
    ensures
        catalog_lookup(head, db, table) == head + ("\""@ + text::doubled(db, '"') + "\""@)
            + ".pg_catalog.pg_tables WHERE schemaname = 'public' AND tablename = "@ + ("'"@
            + text::doubled(table, '\'') + "'"@),
        ({
            let d = "\""@ + text::doubled(db, '"') + "\""@;
            columns_query_text(db, table)
                == "SELECT a.attname AS name, t.typname AS type_name, NOT a.attnotnull AS nullable, a.attnum AS ordinal FROM "@
                + d + ".pg_catalog.pg_attribute a JOIN "@ + d
                + ".pg_catalog.pg_class c ON a.attrelid = c.oid JOIN "@ + d
                + ".pg_catalog.pg_namespace n ON c.relnamespace = n.oid JOIN "@ + d
                + ".pg_catalog.pg_type t ON a.atttypid = t.oid WHERE n.nspname = 'public' AND c.relname = "@
                + ("'"@ + text::doubled(table, '\'') + "'"@)
                + " AND a.attnum > 0 ORDER BY a.attnum"@
        }),
{
}

/// A column that the catalog tells of has the name and the type that are told as texts, and
/// may be empty unless the catalog says that it may not.
pub proof fn law_columns_of_the_catalog(c: ColumnSchema, row: ColumnRow)
    requires
        is_column_of(c, row),
    ensures
        row.name matches Some(Json::Text(s)) ==> c.name@ == s@,
        !(row.name matches Some(Json::Text(_))) ==> c.name@.len() == 0,
        row.column_type matches Some(Json::Text(s)) ==> c.hyper_type@ == s@,
        !(row.column_type matches Some(Json::Text(_))) ==> c.hyper_type@.len() == 0,
        c.nullable <==> row.nullable != Some(Json::Bool(false)),
{
}

/// The tables that are shown come in the order in which they were listed, each as often as
/// it was.
pub proof fn law_visible_in_order(a: Seq<String>, name: String, b: Seq<String>)
    ensures
        visible(Seq::empty()) == Seq::<String>::empty(),
        visible(a + seq![name] + b) == visible(a) + (if is_internal(name@) {
            Seq::empty()
        } else {
            seq![name]
        }) + visible(b),
    decreases b.len(),
{
    let all = a + seq![name] + b;
    let own = if is_internal(name@) {
        Seq::<String>::empty()
    } else {
        seq![name]
    };
    if b.len() == 0 {
        assert(all.drop_last() =~= a);
        assert(all.last() == name);
        assert(visible(all) =~= visible(a) + own + visible(b));
    } else {
        law_visible_in_order(a, name, b.drop_last());
        assert(all.drop_last() =~= a + seq![name] + b.drop_last());
        assert(all.last() == b.last());
        assert(visible(all) =~= visible(a) + own + visible(b));
    }
}

/// Of the cells that list tables those that are texts count, in order.
pub proof fn law_named_in_order(a: Seq<Option<Json>>, cell: Option<Json>, b: Seq<Option<Json>>)
    ensures
        named(Seq::empty()) == Seq::<String>::empty(),
        cell matches Some(Json::Text(s)) ==> named(a + seq![cell] + b) == named(a) + seq![s]
            + named(b),
        !(cell matches Some(Json::Text(_))) ==> named(a + seq![cell] + b) == named(a) + named(b),
    decreases b.len(),
{
    let all = a + seq![cell] + b;
    let own = match cell {
        Some(Json::Text(s)) => seq![s],
        _ => Seq::<String>::empty(),
    };
    if b.len() == 0 {
        assert(all.drop_last() =~= a);
        assert(all.last() == cell);
        assert(named(all) =~= named(a) + own + named(b));
        assert(named(a) + Seq::<String>::empty() + named(b) =~= named(a) + named(b));
    } else {
        law_named_in_order(a, cell, b.drop_last());
        assert(all.drop_last() =~= a + seq![cell] + b.drop_last());
        assert(all.last() == b.last());
        assert(named(all) =~= named(a) + own + named(b));
        assert(named(a) + Seq::<String>::empty() + named(b) =~= named(a) + named(b));
    }
}

/// The rows of all tables are the rows of the tables so far and of the next one.
pub proof fn law_total(counts: Seq<i64>, n: nat)
    requires
        n < counts.len(),
    ensures
        total(counts, 0) == 0,
        total(counts, n + 1) == total(counts, n) + counts[n as int],
{
}

/// The space that is used is that of both databases together, as far as it can be counted.
pub proof fn law_disk_usage(ephemeral: u64, persistent: u64)
    ensures
        disk_usage_of(ephemeral, persistent) == disk_usage_of(persistent, ephemeral),
        disk_usage_of(ephemeral, persistent) >= ephemeral,
        disk_usage_of(ephemeral, persistent) >= persistent,
        disk_usage_of(ephemeral, persistent) < 18446744073709551615 ==> disk_usage_of(
            ephemeral,
            persistent,
        ) == ephemeral + persistent,
        ephemeral + persistent <= 18446744073709551615 ==> disk_usage_of(ephemeral, persistent)
            == ephemeral + persistent,
{
}

/// A table is listed if and only if its exact name is; a column is told by its name, its type
/// and whether it may be empty; a text that is not given stays so.
pub proof fn law_plain_comparisons(
    names: Seq<String>,
    table: Seq<char>,
    a: ColumnSchema,
    b: ColumnSchema,
    s: &str,
)
    ensures
        is_listed(names, table) <==> text::texts(names).contains(table),
        same_column(a, b) <==> a.name@ == b.name@ && a.hyper_type@ == b.hyper_type@ && a.nullable
            == b.nullable,
        opt_view(Some(s)) == Some(s@),
        opt_view(None) is None,
{
    if is_listed(names, table) {
        let i = choose|i: int| 0 <= i < names.len() && #[trigger] names[i]@ == table;
        assert(text::texts(names)[i] == table);
    }
    if text::texts(names).contains(table) {
        let i = choose|i: int| 0 <= i < text::texts(names).len() && text::texts(names)[i] == table;
        assert(names[i]@ == table);
    }
}

} // verus!
