use hyperdb_mcp::error::{is_connection_lost, DriverError, DriverErrorKind, ErrorCode, McpError};

fn driver(kind: DriverErrorKind, message: &str) -> McpError {
    McpError::from(DriverError {
        kind,
        message: message.to_string(),
    })
}

fn server(sqlstate: Option<&str>, message: &str) -> McpError {
    driver(
        DriverErrorKind::Server {
            sqlstate: sqlstate.map(str::to_string),
        },
        message,
    )
}

#[test]
fn new_errors_have_their_default_hint() {
    let e = McpError::new(ErrorCode::TableNotFound, "Table 'x' does not exist");
    assert_eq!(
        e.suggestion.as_deref(),
        Some("Use the describe tool to list available tables")
    );
    assert_eq!(McpError::new(ErrorCode::InternalError, "x").suggestion, None);
    assert_eq!(McpError::new(ErrorCode::EmptyData, "x").suggestion, None);
    let hinted = McpError::new(ErrorCode::SqlError, "bad").with_suggestion("try again");
    assert_eq!(hinted.suggestion.as_deref(), Some("try again"));
    assert_eq!(hinted.message, "bad");
}

#[test]
fn codes_have_their_names() {
    assert_eq!(ErrorCode::HyperdNotFound.wire_name(), "HYPERD_NOT_FOUND");
    assert_eq!(ErrorCode::InternalError.wire_name(), "INTERNAL_ERROR");
    assert_eq!(ErrorCode::ResourceBusy.name(), "ResourceBusy");
}

#[test]
fn a_lost_connection_is_told_by_its_words() {
    assert!(is_connection_lost("Broken Pipe (os error 32)"));
    assert!(is_connection_lost("protocol DESYNCHRONIZED"));
    assert!(!is_connection_lost("syntax error"));
    assert_eq!(
        server(None, "Connection reset by peer").code,
        ErrorCode::ConnectionLost
    );
}

#[test]
fn sqlstate_codes_decide_first() {
    let range = server(Some("22003"), "connection reset");
    assert_eq!(range.code, ErrorCode::SchemaMismatch);
    assert_eq!(server(Some("22P02"), "x").code, ErrorCode::SchemaMismatch);
    assert_eq!(server(Some("0A000"), "x").code, ErrorCode::SqlError);
    assert_ne!(server(Some("22003"), "x").suggestion, server(Some("22P02"), "x").suggestion);
}

#[test]
fn driver_failures_get_their_code() {
    assert_eq!(
        driver(DriverErrorKind::NotFound, "x").code,
        ErrorCode::FileNotFound
    );
    assert_eq!(
        driver(DriverErrorKind::Conversion, "x").code,
        ErrorCode::InternalError
    );
    assert_eq!(
        driver(DriverErrorKind::Config, "x").code,
        ErrorCode::InvalidArgument
    );
    assert_eq!(
        driver(DriverErrorKind::Timeout, "x").code,
        ErrorCode::ConnectionLost
    );
    assert_eq!(
        driver(DriverErrorKind::Other, "database is in use").code,
        ErrorCode::ResourceBusy
    );
    assert_eq!(server(None, "No such file").code, ErrorCode::FileNotFound);
    assert_eq!(server(None, "syntax error at end").code, ErrorCode::SqlError);
    assert_eq!(
        server(None, "Numeric Overflow").code,
        ErrorCode::SchemaMismatch
    );
}

#[test]
fn an_error_on_one_line() {
    let e = McpError::new(ErrorCode::SqlError, "bad");
    assert!(e.to_line().contains("SqlError"));
    assert!(e.to_line().contains("bad"));
}
