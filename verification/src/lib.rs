//! Decision logic of a database service: error classification, attachments,
//! SQL text, daemon discovery and diagnostics, compile-time query checks and
//! chart preparation.

pub mod attach;
pub mod calendar;
pub mod chart;
pub mod compile_check;
pub mod daemon;
pub mod diagnostics;
pub mod engine;
pub mod error;
pub mod json;
pub mod paths;
pub mod sql;
pub mod text;
pub mod version;
