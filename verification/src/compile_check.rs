//! Checks a query against the struct that is to hold its rows, while the program that
//! holds both is compiled.

pub mod diagnostic;
pub mod dry_run;
pub mod error_extract;
pub mod registry;
pub mod validate;
