//! A query without rows, for the sake of its columns.

use vstd::prelude::*;

use crate::error::{DriverError, DriverErrorKind};
use crate::text;

verus! {

/// The query for the columns of a query, which touches no row.
pub open spec fn dry_query(user_sql: Seq<char>) -> Seq<char> {
    "WITH __hdb_q AS ("@ + user_sql + ") SELECT * FROM __hdb_q LIMIT 0"@
}

/// The query for the columns of a query.
pub fn dry_run(user_sql: &str) -> (r: String)
    ensures
        r@ == dry_query(user_sql@),
        r@ == "WITH __hdb_q AS ("@ + user_sql@ + ") SELECT * FROM __hdb_q LIMIT 0"@,
{
    text::cat3("WITH __hdb_q AS (", user_sql, ") SELECT * FROM __hdb_q LIMIT 0")
}

/// The columns that a query without rows tells: it always tells them.
pub fn dry_run_columns(schema: Option<Vec<String>>) -> (r: Result<Vec<String>, DriverError>)
    ensures
        match schema {
            Some(columns) => r == Ok::<Vec<String>, DriverError>(columns),
            None => r matches Err(e) && e.kind is Other && e.message@
                == "dry-run: schema missing after next_chunk"@,
        },
{
    match schema {
        Some(columns) => Ok(columns),
        None => Err(
            DriverError {
                kind: DriverErrorKind::Other,
                message: "dry-run: schema missing after next_chunk".to_owned(),
            },
        ),
    }
}

/// A dry run wraps the statement whole and asks for none of its rows.
pub proof fn law_dry_query(user_sql: Seq<char>)
    ensures
        dry_query(user_sql) == "WITH __hdb_q AS ("@ + user_sql
            + ") SELECT * FROM __hdb_q LIMIT 0"@,
{
}

} // verus!
