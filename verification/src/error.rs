//! Error codes, messages and recovery hints.
//!
//! Every error carries a machine-readable [`ErrorCode`], a message for people
//! and, for most codes, a hint that tells the caller how to recover.

use vstd::prelude::*;

use crate::text;

verus! {

/// What kind of failure an error reports.
#[derive(Debug, Clone, Copy, PartialEq, Eq, Structural)]
pub enum ErrorCode {
    /// The `hyperd` binary was not found.
    HyperdNotFound,
    /// A file path argument names a file that does not exist or cannot be read.
    FileNotFound,
    /// The file extension or format name is not one of those handled.
    UnsupportedFormat,
    /// Data does not match the inferred or given schema.
    SchemaMismatch,
    /// SQL syntax error, or a column that does not exist.
    SqlError,
    /// A table that does not exist.
    TableNotFound,
    /// The input has no rows or no columns.
    EmptyData,
    /// The disk is full or a quota is exceeded.
    DiskFull,
    /// Permission denied on a source or target path.
    PermissionDenied,
    /// The server is read-only and the operation would change state.
    ReadOnlyViolation,
    /// The connection to `hyperd` was lost or fell out of step.
    ConnectionLost,
    /// The argument itself is wrong, not the data it refers to.
    InvalidArgument,
    /// A resource is held by another process.
    ResourceBusy,
    /// Anything unexpected.
    InternalError,
}

impl ErrorCode {
    /// The name of the code as it is shown to people.
    pub open spec fn spec_name(self) -> Seq<char> {
        match self {
            ErrorCode::HyperdNotFound => "HyperdNotFound"@,
            ErrorCode::FileNotFound => "FileNotFound"@,
            ErrorCode::UnsupportedFormat => "UnsupportedFormat"@,
            ErrorCode::SchemaMismatch => "SchemaMismatch"@,
            ErrorCode::SqlError => "SqlError"@,
            ErrorCode::TableNotFound => "TableNotFound"@,
            ErrorCode::EmptyData => "EmptyData"@,
            ErrorCode::DiskFull => "DiskFull"@,
            ErrorCode::PermissionDenied => "PermissionDenied"@,
            ErrorCode::ReadOnlyViolation => "ReadOnlyViolation"@,
            ErrorCode::ConnectionLost => "ConnectionLost"@,
            ErrorCode::InvalidArgument => "InvalidArgument"@,
            ErrorCode::ResourceBusy => "ResourceBusy"@,
            ErrorCode::InternalError => "InternalError"@,
        }
    }

    /// The name of the code in structured responses.
    pub open spec fn spec_wire_name(self) -> Seq<char> {
        match self {
            ErrorCode::HyperdNotFound => "HYPERD_NOT_FOUND"@,
            ErrorCode::FileNotFound => "FILE_NOT_FOUND"@,
            ErrorCode::UnsupportedFormat => "UNSUPPORTED_FORMAT"@,
            ErrorCode::SchemaMismatch => "SCHEMA_MISMATCH"@,
            ErrorCode::SqlError => "SQL_ERROR"@,
            ErrorCode::TableNotFound => "TABLE_NOT_FOUND"@,
            ErrorCode::EmptyData => "EMPTY_DATA"@,
            ErrorCode::DiskFull => "DISK_FULL"@,
            ErrorCode::PermissionDenied => "PERMISSION_DENIED"@,
            ErrorCode::ReadOnlyViolation => "READ_ONLY_VIOLATION"@,
            ErrorCode::ConnectionLost => "CONNECTION_LOST"@,
            ErrorCode::InvalidArgument => "INVALID_ARGUMENT"@,
            ErrorCode::ResourceBusy => "RESOURCE_BUSY"@,
            ErrorCode::InternalError => "INTERNAL_ERROR"@,
        }
    }

    /// The recovery hint that every error of this code gets by default.
    pub open spec fn spec_hint(self) -> Option<Seq<char>> {
        match self {
            ErrorCode::HyperdNotFound => Some(
                "Set HYPERD_PATH environment variable or ensure hyperd is on PATH"@,
            ),
            ErrorCode::FileNotFound => Some(
                "Verify the file path exists and is accessible"@,
            ),
            ErrorCode::UnsupportedFormat => Some(
                "Specify format explicitly: json, csv, parquet, or arrow_ipc"@,
            ),
            ErrorCode::SchemaMismatch => Some(
                "Retry with an explicit schema override"@,
            ),
            ErrorCode::SqlError => Some(
                "Check SQL syntax. Hyper uses the Data Cloud SQL dialect (PostgreSQL-compatible)."@,
            ),
            ErrorCode::TableNotFound => Some(
                "Use the describe tool to list available tables"@,
            ),
            ErrorCode::EmptyData => None,
            ErrorCode::DiskFull => Some(
                "Check disk space. Use the status tool to see workspace size."@,
            ),
            ErrorCode::PermissionDenied => Some(
                "Check file permissions on the source or target path"@,
            ),
            ErrorCode::ReadOnlyViolation => Some(
                "Server is in read-only mode. Use query_data or query_file for one-shot analysis, or restart without --read-only."@,
            ),
            ErrorCode::ConnectionLost => Some(
                "The hyperd connection was lost or fell out of wire-protocol sync. Retry the request — the server will tear down the engine and reconnect automatically."@,
            ),
            ErrorCode::InvalidArgument => Some(
                "Check the tool argument shape and allowed values. The message identifies the offending field."@,
            ),
            ErrorCode::ResourceBusy => Some(
                "The .hyper file is held by another process. Close the other MCP server (or hyperd instance) that owns it, or copy the file first and attach the copy."@,
            ),
            ErrorCode::InternalError => None,
        }
    }

    /// The name of the code as it is shown to people.
    pub fn name(self) -> (r: &'static str)
        ensures
            r@ == self.spec_name(),
    {
        match self {
            ErrorCode::HyperdNotFound => "HyperdNotFound",
            ErrorCode::FileNotFound => "FileNotFound",
            ErrorCode::UnsupportedFormat => "UnsupportedFormat",
            ErrorCode::SchemaMismatch => "SchemaMismatch",
            ErrorCode::SqlError => "SqlError",
            ErrorCode::TableNotFound => "TableNotFound",
            ErrorCode::EmptyData => "EmptyData",
            ErrorCode::DiskFull => "DiskFull",
            ErrorCode::PermissionDenied => "PermissionDenied",
            ErrorCode::ReadOnlyViolation => "ReadOnlyViolation",
            ErrorCode::ConnectionLost => "ConnectionLost",
            ErrorCode::InvalidArgument => "InvalidArgument",
            ErrorCode::ResourceBusy => "ResourceBusy",
            ErrorCode::InternalError => "InternalError",
        }
    }

    /// The name of the code in structured responses.
    pub fn wire_name(self) -> (r: &'static str)
        ensures
            r@ == self.spec_wire_name(),
    {
        match self {
            ErrorCode::HyperdNotFound => "HYPERD_NOT_FOUND",
            ErrorCode::FileNotFound => "FILE_NOT_FOUND",
            ErrorCode::UnsupportedFormat => "UNSUPPORTED_FORMAT",
            ErrorCode::SchemaMismatch => "SCHEMA_MISMATCH",
            ErrorCode::SqlError => "SQL_ERROR",
            ErrorCode::TableNotFound => "TABLE_NOT_FOUND",
            ErrorCode::EmptyData => "EMPTY_DATA",
            ErrorCode::DiskFull => "DISK_FULL",
            ErrorCode::PermissionDenied => "PERMISSION_DENIED",
            ErrorCode::ReadOnlyViolation => "READ_ONLY_VIOLATION",
            ErrorCode::ConnectionLost => "CONNECTION_LOST",
            ErrorCode::InvalidArgument => "INVALID_ARGUMENT",
            ErrorCode::ResourceBusy => "RESOURCE_BUSY",
            ErrorCode::InternalError => "INTERNAL_ERROR",
        }
    }
}

fn default_suggestion(code: ErrorCode) -> (r: Option<String>)
    ensures
        text::opt_text(r) == code.spec_hint(),
{
    match code {
        ErrorCode::HyperdNotFound => Some(
            "Set HYPERD_PATH environment variable or ensure hyperd is on PATH".to_owned(),
        ),
        ErrorCode::FileNotFound => Some(
            "Verify the file path exists and is accessible".to_owned(),
        ),
        ErrorCode::UnsupportedFormat => Some(
            "Specify format explicitly: json, csv, parquet, or arrow_ipc".to_owned(),
        ),
        ErrorCode::SchemaMismatch => Some(
            "Retry with an explicit schema override".to_owned(),
        ),
        ErrorCode::SqlError => Some(
            "Check SQL syntax. Hyper uses the Data Cloud SQL dialect (PostgreSQL-compatible).".to_owned(),
        ),
        ErrorCode::TableNotFound => Some(
            "Use the describe tool to list available tables".to_owned(),
        ),
        ErrorCode::EmptyData => None,
        ErrorCode::DiskFull => Some(
            "Check disk space. Use the status tool to see workspace size.".to_owned(),
        ),
        ErrorCode::PermissionDenied => Some(
            "Check file permissions on the source or target path".to_owned(),
        ),
        ErrorCode::ReadOnlyViolation => Some(
            "Server is in read-only mode. Use query_data or query_file for one-shot analysis, or restart without --read-only.".to_owned(),
        ),
        ErrorCode::ConnectionLost => Some(
            "The hyperd connection was lost or fell out of wire-protocol sync. Retry the request — the server will tear down the engine and reconnect automatically.".to_owned(),
        ),
        ErrorCode::InvalidArgument => Some(
            "Check the tool argument shape and allowed values. The message identifies the offending field.".to_owned(),
        ),
        ErrorCode::ResourceBusy => Some(
            "The .hyper file is held by another process. Close the other MCP server (or hyperd instance) that owns it, or copy the file first and attach the copy.".to_owned(),
        ),
        ErrorCode::InternalError => None,
    }
}

/// An error for the caller of a tool: what failed, in words, and what to try.
#[derive(Debug, Clone)]
pub struct McpError {
    /// What kind of failure it is.
    pub code: ErrorCode,
    /// What happened, in words.
    pub message: String,
    /// What to try next.
    pub suggestion: Option<String>,
}

impl McpError {
    /// Whether this is the error of `code` with `message` and the hint that the
    /// code gets by default.
    pub open spec fn says(self, code: ErrorCode, message: Seq<char>) -> bool {
        &&& self.code == code
        &&& self.message@ == message
        &&& text::opt_text(self.suggestion) == code.spec_hint()
    }

    /// Whether this is the error of `code` with `message` and the hint `hint`.
    pub open spec fn says_with_hint(
        self,
        code: ErrorCode,
        message: Seq<char>,
        hint: Seq<char>,
    ) -> bool {
        &&& self.code == code
        &&& self.message@ == message
        &&& text::opt_text(self.suggestion) == Some(hint)
    }

    /// An error with the hint that its code gets by default.
    pub fn new(code: ErrorCode, message: &str) -> (r: McpError)
        ensures
            r.says(code, message@),
    {
        McpError { code, message: message.to_owned(), suggestion: default_suggestion(code) }
    }

    /// The same error with another hint.
    pub fn with_suggestion(self, suggestion: &str) -> (r: McpError)
        ensures
            r.says_with_hint(self.code, self.message@, suggestion@),
    {
        McpError {
            code: self.code,
            message: self.message,
            suggestion: Some(suggestion.to_owned()),
        }
    }

    /// The error as one line: the code's name in brackets, then the message.
    pub fn to_line(&self) -> (r: String)
        ensures
            r@ == "["@ + self.code.spec_name() + "] "@ + self.message@,
    {
        text::cat4("[", self.code.name(), "] ", self.message.as_str())
    }
}

/// The hint for a number that does not fit its column.
pub const NUMERIC_RANGE_HINT: &'static str = "A numeric value exceeded its column's range. Retry with a partial schema override that widens the offending column, e.g. schema: {\"Population\": \"BIGINT\"} or {\"Amount\": \"NUMERIC(38,0)\"}. The override is a partial dictionary keyed by column name — unlisted columns keep their inferred type. Call inspect_file first if you don't know which column is too narrow.";

/// The hint for a value that cannot be read as its column's type.
pub const VALUE_PARSE_HINT: &'static str = "A value could not be parsed into its column type. Retry with a partial schema override forcing TEXT for the offending column, e.g. schema: {\"Id\": \"TEXT\"}, and cast in SQL as needed.";

/// The hint for more than one statement in a call.
pub const SINGLE_STATEMENT_HINT: &'static str = "Hyper only accepts one SQL statement per call. Split your query into separate execute/query calls — one per statement.";

/// What kind of failure the database driver reports.
#[derive(Debug, Clone)]
pub enum DriverErrorKind {
    /// The server refused, with the SQLSTATE code where it sent one.
    Server {
        /// The five-character SQLSTATE code.
        sqlstate: Option<String>,
    },
    /// Something that was asked for does not exist.
    NotFound,
    /// A value could not be decoded.
    Conversion,
    /// A mistake in the setup.
    Config,
    /// A name that the database does not accept.
    InvalidName,
    /// A table definition that the database does not accept.
    InvalidTableDefinition,
    /// The connection failed.
    Connection,
    /// The connection is closed.
    Closed,
    /// The operation took too long.
    Timeout,
    /// The operation was cancelled.
    Cancelled,
    /// Any other failure, misuse of the driver by this program among them.
    Other,
}

/// A failure that the database driver reports, with the driver's own text.
#[derive(Debug, Clone)]
pub struct DriverError {
    /// What kind of failure it is.
    pub kind: DriverErrorKind,
    /// The driver's text for it.
    pub message: String,
}

/// Whether a message, given in lower case, says that the connection is gone or
/// its two ends are out of step.
pub open spec fn says_connection_lost(lower: Seq<char>) -> bool {
    ||| text::has_part(lower, "broken pipe"@)
    ||| text::has_part(lower, "connection reset"@)
    ||| text::has_part(lower, "connection refused"@)
    ||| text::has_part(lower, "connection closed"@)
    ||| text::has_part(lower, "unexpected eof"@)
    ||| text::has_part(lower, "end of file"@)
    ||| text::has_part(lower, "unexpectedly closed"@)
    ||| text::has_part(lower, "socket is not connected"@)
    ||| text::has_part(lower, "desynchronized"@)
}

/// Whether a message, given in lower case, says that a database file is held by
/// somebody else.
pub open spec fn says_resource_busy(lower: Seq<char>) -> bool {
    ||| text::has_part(lower, "already attached"@)
    ||| text::has_part(lower, "database is in use"@)
    ||| text::has_part(lower, "could not lock"@)
    ||| text::has_part(lower, "already in use"@)
    ||| text::has_part(lower, "file is locked"@)
}

/// What a code and its default hint are together.
pub open spec fn plain(code: ErrorCode) -> (ErrorCode, Option<Seq<char>>) {
    (code, code.spec_hint())
}

/// The code and the hint that a SQLSTATE code alone decides.
pub open spec fn sqlstate_verdict(sqlstate: Option<Seq<char>>) -> Option<
    (ErrorCode, Option<Seq<char>>),
> {
    if sqlstate == Some("22003"@) {
        Some((ErrorCode::SchemaMismatch, Some(NUMERIC_RANGE_HINT@)))
    } else if sqlstate == Some("22P02"@) {
        Some((ErrorCode::SchemaMismatch, Some(VALUE_PARSE_HINT@)))
    } else if sqlstate == Some("0A000"@) {
        Some((ErrorCode::SqlError, Some(SINGLE_STATEMENT_HINT@)))
    } else {
        None
    }
}

/// The code and the hint for a refusal by the server whose SQLSTATE decides
/// nothing: the text decides.
pub open spec fn server_text_verdict(msg: Seq<char>, lower: Seq<char>) -> (
    ErrorCode,
    Option<Seq<char>>,
) {
    if text::has_part(msg, "22003"@) || text::has_part(lower, "numeric overflow"@)
        || text::has_part(lower, "out of range"@) {
        (ErrorCode::SchemaMismatch, Some(NUMERIC_RANGE_HINT@))
    } else if text::has_part(msg, "22P02"@) || text::has_part(lower, "invalid input syntax"@) {
        (ErrorCode::SchemaMismatch, Some(VALUE_PARSE_HINT@))
    } else if text::has_part(msg, "syntax error"@) || (text::has_part(msg, "does not exist"@)
        && text::has_part(msg, "column"@)) {
        plain(ErrorCode::SqlError)
    } else if text::has_part(msg, "No such file"@) || text::has_part(msg, "not found"@) {
        plain(ErrorCode::FileNotFound)
    } else {
        plain(ErrorCode::SqlError)
    }
}

/// The code and the hint for a failure of the driver, from its kind, its text
/// and its text in lower case. A SQLSTATE code decides first, then signs of a
/// lost connection or a busy file in the text, then the kind.
pub open spec fn driver_verdict(kind: DriverErrorKind, msg: Seq<char>, lower: Seq<char>) -> (
    ErrorCode,
    Option<Seq<char>>,
) {
    let by_state = match kind {
        DriverErrorKind::Server { sqlstate } => sqlstate_verdict(text::opt_text(sqlstate)),
        _ => None,
    };
    match by_state {
        Some(verdict) => verdict,
        None => if says_connection_lost(lower) {
            plain(ErrorCode::ConnectionLost)
        } else if says_resource_busy(lower) {
            plain(ErrorCode::ResourceBusy)
        } else {
            match kind {
                DriverErrorKind::Server { .. } => server_text_verdict(msg, lower),
                DriverErrorKind::NotFound => plain(ErrorCode::FileNotFound),
                DriverErrorKind::Conversion => plain(ErrorCode::InternalError),
                DriverErrorKind::Config => plain(ErrorCode::InvalidArgument),
                DriverErrorKind::InvalidName => plain(ErrorCode::InvalidArgument),
                DriverErrorKind::InvalidTableDefinition => plain(ErrorCode::InvalidArgument),
                DriverErrorKind::Connection => plain(ErrorCode::ConnectionLost),
                DriverErrorKind::Closed => plain(ErrorCode::ConnectionLost),
                DriverErrorKind::Timeout => plain(ErrorCode::ConnectionLost),
                DriverErrorKind::Cancelled => plain(ErrorCode::ConnectionLost),
                DriverErrorKind::Other => plain(ErrorCode::InternalError),
            }
        },
    }
}

/// Whether a message, given in lower case, says that the connection is gone.
pub fn lower_says_connection_lost(lower: &str) -> (r: bool)
    ensures
        r == says_connection_lost(lower@),
{
    text::contains(lower, "broken pipe")
        || text::contains(lower, "connection reset")
        || text::contains(lower, "connection refused")
        || text::contains(lower, "connection closed")
        || text::contains(lower, "unexpected eof")
        || text::contains(lower, "end of file")
        || text::contains(lower, "unexpectedly closed")
        || text::contains(lower, "socket is not connected")
        || text::contains(lower, "desynchronized")
}

/// Whether a message, given in lower case, says that a database file is held by
/// somebody else.
pub fn lower_says_resource_busy(lower: &str) -> (r: bool)
    ensures
        r == says_resource_busy(lower@),
{
    text::contains(lower, "already attached")
        || text::contains(lower, "database is in use")
        || text::contains(lower, "could not lock")
        || text::contains(lower, "already in use")
        || text::contains(lower, "file is locked")
}

/// Whether a message says that the underlying connection cannot be used any
/// more, so that the caller should replace it.
pub fn is_connection_lost(msg: &str) -> (r: bool)
    ensures
        r == says_connection_lost(text::unicode_lowercase(msg@)),
        vstd::utf8::is_ascii_chars(msg@) ==> r == says_connection_lost(text::lower(msg@)),
{
    let lower = msg.to_lowercase();
    lower_says_connection_lost(lower.as_str())
}

fn hinted(code: ErrorCode, message: String, hint: &str) -> (r: McpError)
    ensures
        r.says_with_hint(code, message@, hint@),
{
    McpError { code, message, suggestion: Some(hint.to_owned()) }
}

fn unhinted(code: ErrorCode, message: String) -> (r: McpError)
    ensures
        r.says(code, message@),
{
    McpError { code, message, suggestion: default_suggestion(code) }
}

fn classify_server_text(message: String, lower: &str) -> (r: McpError)
    ensures
        r.message@ == message@,
        (r.code, text::opt_text(r.suggestion)) == server_text_verdict(message@, lower@),
{
    let msg = message.as_str();
    if text::contains(msg, "22003") || text::contains(lower, "numeric overflow")
        || text::contains(lower, "out of range") {
        hinted(ErrorCode::SchemaMismatch, message, NUMERIC_RANGE_HINT)
    } else if text::contains(msg, "22P02") || text::contains(lower, "invalid input syntax") {
        hinted(ErrorCode::SchemaMismatch, message, VALUE_PARSE_HINT)
    } else if text::contains(msg, "syntax error") || (text::contains(msg, "does not exist")
        && text::contains(msg, "column")) {
        unhinted(ErrorCode::SqlError, message)
    } else if text::contains(msg, "No such file") || text::contains(msg, "not found") {
        unhinted(ErrorCode::FileNotFound, message)
    } else {
        unhinted(ErrorCode::SqlError, message)
    }
}

impl McpError {
    /// The error for a failure of the driver whose text in lower case is `lower`.
    pub fn from_driver_text(err: DriverError, lower: &str) -> (r: McpError)
        ensures
            r.message@ == err.message@,
            (r.code, text::opt_text(r.suggestion)) == driver_verdict(
                err.kind,
                err.message@,
                lower@,
            ),
    {
        if let DriverErrorKind::Server { sqlstate: Some(state) } = &err.kind {
            if text::same_text(state.as_str(), "22003") {
                return hinted(ErrorCode::SchemaMismatch, err.message, NUMERIC_RANGE_HINT);
            }
            if text::same_text(state.as_str(), "22P02") {
                return hinted(ErrorCode::SchemaMismatch, err.message, VALUE_PARSE_HINT);
            }
            if text::same_text(state.as_str(), "0A000") {
                return hinted(ErrorCode::SqlError, err.message, SINGLE_STATEMENT_HINT);
            }
        }
        if lower_says_connection_lost(lower) {
            return unhinted(ErrorCode::ConnectionLost, err.message);
        }
        if lower_says_resource_busy(lower) {
            return unhinted(ErrorCode::ResourceBusy, err.message);
        }
        match err.kind {
            DriverErrorKind::Server { .. } => classify_server_text(err.message, lower),
            DriverErrorKind::NotFound => unhinted(ErrorCode::FileNotFound, err.message),
            DriverErrorKind::Conversion => unhinted(ErrorCode::InternalError, err.message),
            DriverErrorKind::Config => unhinted(ErrorCode::InvalidArgument, err.message),
            DriverErrorKind::InvalidName => unhinted(ErrorCode::InvalidArgument, err.message),
            DriverErrorKind::InvalidTableDefinition => unhinted(
                ErrorCode::InvalidArgument,
                err.message,
            ),
            DriverErrorKind::Connection => unhinted(ErrorCode::ConnectionLost, err.message),
            DriverErrorKind::Closed => unhinted(ErrorCode::ConnectionLost, err.message),
            DriverErrorKind::Timeout => unhinted(ErrorCode::ConnectionLost, err.message),
            DriverErrorKind::Cancelled => unhinted(ErrorCode::ConnectionLost, err.message),
            DriverErrorKind::Other => unhinted(ErrorCode::InternalError, err.message),
        }
    }

    /// The error for a failure of the driver.
    pub fn from(err: DriverError) -> (r: McpError)
        ensures
            r.message@ == err.message@,
            (r.code, text::opt_text(r.suggestion)) == driver_verdict(
                err.kind,
                err.message@,
                text::unicode_lowercase(err.message@),
            ),
            vstd::utf8::is_ascii_chars(err.message@) ==> (r.code, text::opt_text(r.suggestion))
                == driver_verdict(err.kind, err.message@, text::lower(err.message@)),
    {
        let lower = err.message.to_lowercase();
        McpError::from_driver_text(err, lower.as_str())
    }
}

/// Whatever the driver's kind of failure, a text that speaks of a lost
/// connection makes it one, unless a SQLSTATE code decided before.
pub proof fn law_lost_connection_wins(kind: DriverErrorKind, msg: Seq<char>, lower: Seq<char>)
    requires
        says_connection_lost(lower),
        kind matches DriverErrorKind::Server { sqlstate } ==> sqlstate_verdict(
            text::opt_text(sqlstate),
        ) is None,
    ensures
        driver_verdict(kind, msg, lower).0 == ErrorCode::ConnectionLost,
{
}

/// A misuse of the driver by this program is never blamed on the caller's
/// arguments.
pub proof fn law_other_failures_are_internal(msg: Seq<char>, lower: Seq<char>)
    ensures
        ({
            let code = driver_verdict(DriverErrorKind::Other, msg, lower).0;
            code == ErrorCode::InternalError || code == ErrorCode::ConnectionLost || code
                == ErrorCode::ResourceBusy
        }),
{
}

/// The names of the codes, as programs and as people read them.
pub proof fn law_names_of_codes()
    ensures
        ErrorCode::HyperdNotFound.spec_name() == "HyperdNotFound"@,
        ErrorCode::FileNotFound.spec_name() == "FileNotFound"@,
        ErrorCode::UnsupportedFormat.spec_name() == "UnsupportedFormat"@,
        ErrorCode::SchemaMismatch.spec_name() == "SchemaMismatch"@,
        ErrorCode::SqlError.spec_name() == "SqlError"@,
        ErrorCode::TableNotFound.spec_name() == "TableNotFound"@,
        ErrorCode::EmptyData.spec_name() == "EmptyData"@,
        ErrorCode::DiskFull.spec_name() == "DiskFull"@,
        ErrorCode::PermissionDenied.spec_name() == "PermissionDenied"@,
        ErrorCode::ReadOnlyViolation.spec_name() == "ReadOnlyViolation"@,
        ErrorCode::ConnectionLost.spec_name() == "ConnectionLost"@,
        ErrorCode::InvalidArgument.spec_name() == "InvalidArgument"@,
        ErrorCode::ResourceBusy.spec_name() == "ResourceBusy"@,
        ErrorCode::InternalError.spec_name() == "InternalError"@,
        ErrorCode::HyperdNotFound.spec_wire_name() == "HYPERD_NOT_FOUND"@,
        ErrorCode::FileNotFound.spec_wire_name() == "FILE_NOT_FOUND"@,
        ErrorCode::UnsupportedFormat.spec_wire_name() == "UNSUPPORTED_FORMAT"@,
        ErrorCode::SchemaMismatch.spec_wire_name() == "SCHEMA_MISMATCH"@,
        ErrorCode::SqlError.spec_wire_name() == "SQL_ERROR"@,
        ErrorCode::TableNotFound.spec_wire_name() == "TABLE_NOT_FOUND"@,
        ErrorCode::EmptyData.spec_wire_name() == "EMPTY_DATA"@,
        ErrorCode::DiskFull.spec_wire_name() == "DISK_FULL"@,
        ErrorCode::PermissionDenied.spec_wire_name() == "PERMISSION_DENIED"@,
        ErrorCode::ReadOnlyViolation.spec_wire_name() == "READ_ONLY_VIOLATION"@,
        ErrorCode::ConnectionLost.spec_wire_name() == "CONNECTION_LOST"@,
        ErrorCode::InvalidArgument.spec_wire_name() == "INVALID_ARGUMENT"@,
        ErrorCode::ResourceBusy.spec_wire_name() == "RESOURCE_BUSY"@,
        ErrorCode::InternalError.spec_wire_name() == "INTERNAL_ERROR"@,
{
}

/// What is suggested for each code; nothing where data was empty or something inside failed.
pub proof fn law_hints_of_codes()
    ensures
        ErrorCode::HyperdNotFound.spec_hint() == Some(
            "Set HYPERD_PATH environment variable or ensure hyperd is on PATH"@,
        ),
        ErrorCode::FileNotFound.spec_hint() == Some(
            "Verify the file path exists and is accessible"@,
        ),
        ErrorCode::UnsupportedFormat.spec_hint() == Some(
            "Specify format explicitly: json, csv, parquet, or arrow_ipc"@,
        ),
        ErrorCode::SchemaMismatch.spec_hint() == Some(
            "Retry with an explicit schema override"@,
        ),
        ErrorCode::SqlError.spec_hint() == Some(
            "Check SQL syntax. Hyper uses the Data Cloud SQL dialect (PostgreSQL-compatible)."@,
        ),
        ErrorCode::TableNotFound.spec_hint() == Some(
            "Use the describe tool to list available tables"@,
        ),
        ErrorCode::EmptyData.spec_hint() is None,
        ErrorCode::DiskFull.spec_hint() == Some(
            "Check disk space. Use the status tool to see workspace size."@,
        ),
        ErrorCode::PermissionDenied.spec_hint() == Some(
            "Check file permissions on the source or target path"@,
        ),
        ErrorCode::ReadOnlyViolation.spec_hint() == Some(
            "Server is in read-only mode. Use query_data or query_file for one-shot analysis, or restart without --read-only."@,
        ),
        ErrorCode::ConnectionLost.spec_hint() == Some(
            "The hyperd connection was lost or fell out of wire-protocol sync. Retry the request — the server will tear down the engine and reconnect automatically."@,
        ),
        ErrorCode::InvalidArgument.spec_hint() == Some(
            "Check the tool argument shape and allowed values. The message identifies the offending field."@,
        ),
        ErrorCode::ResourceBusy.spec_hint() == Some(
            "The .hyper file is held by another process. Close the other MCP server (or hyperd instance) that owns it, or copy the file first and attach the copy."@,
        ),
        ErrorCode::InternalError.spec_hint() is None,
{
}

/// An error says its code and its message, and suggests what belongs to its code, unless
/// something else was suggested.
pub proof fn law_errors_say(e: McpError, code: ErrorCode, message: Seq<char>, hint: Seq<char>)
    ensures
        e.says(code, message) <==> e.code == code && e.message@ == message && text::opt_text(
            e.suggestion,
        ) == code.spec_hint(),
        e.says_with_hint(code, message, hint) <==> e.code == code && e.message@ == message && (
        e.suggestion matches Some(t) && t@ == hint),
{
}

/// A connection is taken for lost if and only if its failure says one of these things, and a
/// file for busy if and only if it says one of those.
pub proof fn law_words_of_failures(lower: Seq<char>)
    ensures
        text::has_part(lower, "broken pipe"@) ==> says_connection_lost(lower),
        text::has_part(lower, "connection reset"@) ==> says_connection_lost(lower),
        text::has_part(lower, "connection refused"@) ==> says_connection_lost(lower),
        text::has_part(lower, "connection closed"@) ==> says_connection_lost(lower),
        text::has_part(lower, "unexpected eof"@) ==> says_connection_lost(lower),
        text::has_part(lower, "end of file"@) ==> says_connection_lost(lower),
        text::has_part(lower, "unexpectedly closed"@) ==> says_connection_lost(lower),
        text::has_part(lower, "socket is not connected"@) ==> says_connection_lost(lower),
        text::has_part(lower, "desynchronized"@) ==> says_connection_lost(lower),
        says_connection_lost(lower) ==> text::has_part(lower, "broken pipe"@) || text::has_part(lower, "connection reset"@) || text::has_part(lower, "connection refused"@) || text::has_part(lower, "connection closed"@) || text::has_part(lower, "unexpected eof"@) || text::has_part(lower, "end of file"@) || text::has_part(lower, "unexpectedly closed"@) || text::has_part(lower, "socket is not connected"@) || text::has_part(lower, "desynchronized"@),
        text::has_part(lower, "already attached"@) ==> says_resource_busy(lower),
        text::has_part(lower, "database is in use"@) ==> says_resource_busy(lower),
        text::has_part(lower, "could not lock"@) ==> says_resource_busy(lower),
        text::has_part(lower, "already in use"@) ==> says_resource_busy(lower),
        text::has_part(lower, "file is locked"@) ==> says_resource_busy(lower),
        says_resource_busy(lower) ==> text::has_part(lower, "already attached"@) || text::has_part(lower, "database is in use"@) || text::has_part(lower, "could not lock"@) || text::has_part(lower, "already in use"@) || text::has_part(lower, "file is locked"@),
{
}

/// A SQLSTATE code that is known decides alone, whatever the text says: a number out of
/// range, a value that could not be read, or more than one statement.
pub proof fn law_states_decide(sqlstate: String, msg: Seq<char>, lower: Seq<char>)
    ensures
        sqlstate@ == "22003"@ ==> driver_verdict(
            DriverErrorKind::Server { sqlstate: Some(sqlstate) },
            msg,
            lower,
        ) == (
            ErrorCode::SchemaMismatch,
            Some(
                "A numeric value exceeded its column's range. Retry with a partial schema override that widens the offending column, e.g. schema: {\"Population\": \"BIGINT\"} or {\"Amount\": \"NUMERIC(38,0)\"}. The override is a partial dictionary keyed by column name — unlisted columns keep their inferred type. Call inspect_file first if you don't know which column is too narrow."@,
            ),
        ),
        sqlstate@ == "22P02"@ ==> driver_verdict(
            DriverErrorKind::Server { sqlstate: Some(sqlstate) },
            msg,
            lower,
        ) == (
            ErrorCode::SchemaMismatch,
            Some(
                "A value could not be parsed into its column type. Retry with a partial schema override forcing TEXT for the offending column, e.g. schema: {\"Id\": \"TEXT\"}, and cast in SQL as needed."@,
            ),
        ),
        sqlstate@ == "0A000"@ ==> driver_verdict(
            DriverErrorKind::Server { sqlstate: Some(sqlstate) },
            msg,
            lower,
        ) == (
            ErrorCode::SqlError,
            Some(
                "Hyper only accepts one SQL statement per call. Split your query into separate execute/query calls — one per statement."@,
            ),
        ),
        sqlstate@ != "22003"@ && sqlstate@ != "22P02"@ && sqlstate@ != "0A000"@ ==> driver_verdict(
            DriverErrorKind::Server { sqlstate: Some(sqlstate) },
            msg,
            lower,
        ) == driver_verdict(DriverErrorKind::Server { sqlstate: None }, msg, lower),
{
    reveal_strlit("22003");
    reveal_strlit("22P02");
    reveal_strlit("0A000");
    assert("22003"@[2] == '0' && "22P02"@[2] == 'P');
    assert("22003"@[0] == '2' && "22P02"@[0] == '2' && "0A000"@[0] == '0');
}

/// Without a SQLSTATE code that decides, signs of a lost connection decide, then those of a
/// busy file, then the kind of the failure.
pub proof fn law_kinds_decide_last(kind: DriverErrorKind, msg: Seq<char>, lower: Seq<char>)
    requires
        kind matches DriverErrorKind::Server { sqlstate } ==> sqlstate is None,
    ensures
        says_connection_lost(lower) ==> driver_verdict(kind, msg, lower) == (
            ErrorCode::ConnectionLost,
            ErrorCode::ConnectionLost.spec_hint(),
        ),
        !says_connection_lost(lower) && says_resource_busy(lower) ==> driver_verdict(
            kind,
            msg,
            lower,
        ) == (ErrorCode::ResourceBusy, ErrorCode::ResourceBusy.spec_hint()),
        !says_connection_lost(lower) && !says_resource_busy(lower) ==> {
            let verdict = driver_verdict(kind, msg, lower);
            &&& !(kind is Server) ==> verdict.1 == verdict.0.spec_hint()
            &&& kind is NotFound ==> verdict.0 == ErrorCode::FileNotFound
            &&& kind is Config || kind is InvalidName || kind is InvalidTableDefinition ==> verdict.0
                == ErrorCode::InvalidArgument
            &&& kind is Connection || kind is Closed || kind is Timeout || kind is Cancelled
                ==> verdict.0 == ErrorCode::ConnectionLost
            &&& kind is Conversion || kind is Other ==> verdict.0 == ErrorCode::InternalError
            &&& kind is Server ==> verdict == server_text_verdict(msg, lower)
        },
{
}

/// What the text of a refusal by the server tells: a number out of range, then a value that
/// could not be read, then a mistake in the statement, then a file that was not found; any
/// other refusal is one of the statement.
pub proof fn law_texts_of_refusals(msg: Seq<char>, lower: Seq<char>)
    ensures
        ({
            let range = text::has_part(msg, "22003"@) || text::has_part(lower, "numeric overflow"@)
                || text::has_part(lower, "out of range"@);
            let value = text::has_part(msg, "22P02"@) || text::has_part(
                lower,
                "invalid input syntax"@,
            );
            let syntax = text::has_part(msg, "syntax error"@) || (text::has_part(
                msg,
                "does not exist"@,
            ) && text::has_part(msg, "column"@));
            let file = text::has_part(msg, "No such file"@) || text::has_part(msg, "not found"@);
            let verdict = server_text_verdict(msg, lower);
            &&& range || value ==> verdict.0 == ErrorCode::SchemaMismatch
            &&& range ==> verdict.1 == Some(NUMERIC_RANGE_HINT@)
            &&& !range && value ==> verdict.1 == Some(VALUE_PARSE_HINT@)
            &&& !range && !value && syntax ==> verdict == (
                ErrorCode::SqlError,
                ErrorCode::SqlError.spec_hint(),
            )
            &&& !range && !value && !syntax && file ==> verdict == (
                ErrorCode::FileNotFound,
                ErrorCode::FileNotFound.spec_hint(),
            )
            &&& !range && !value && !syntax && !file ==> verdict == (
                ErrorCode::SqlError,
                ErrorCode::SqlError.spec_hint(),
            )
        }),
{
}

} // verus!
