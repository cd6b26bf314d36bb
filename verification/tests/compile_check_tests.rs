use hyperdb_mcp::compile_check::diagnostic::ValidationError;
use hyperdb_mcp::compile_check::dry_run::{dry_run, dry_run_columns};
use hyperdb_mcp::compile_check::error_extract::{classify, extract_quoted_identifier, ErrorClass};
use hyperdb_mcp::compile_check::registry::{
    contains, get, register, registered_names, Registry,
};
use hyperdb_mcp::compile_check::validate::{
    finish_name_check, validate_query_as, CheckAction, CheckPhase, QueryCheck,
};
use hyperdb_mcp::error::{DriverError, DriverErrorKind};

fn server(sqlstate: &str, message: &str) -> DriverError {
    DriverError {
        kind: DriverErrorKind::Server {
            sqlstate: Some(sqlstate.to_string()),
        },
        message: message.to_string(),
    }
}

fn users() -> Registry {
    let mut registry = Registry::new();
    register(
        &mut registry,
        "users",
        "CREATE TABLE IF NOT EXISTS users (id BIGINT, name TEXT, email TEXT)",
        vec!["id".into(), "name".into(), "email".into()],
    );
    registry
}

fn begin(registry: &Registry, target: &str, sql: &str) -> QueryCheck {
    validate_query_as(registry, target, sql).expect("the struct is registered")
}

#[test]
fn struct_not_registered_message() {
    let e = ValidationError::StructNotRegistered {
        struct_name: "User".into(),
    };
    assert!(e.to_diagnostic().contains("User"));
    assert!(e.to_diagnostic().contains("derive(Table)"));
}

#[test]
fn single_missing_column_message() {
    let e = ValidationError::MissingColumns {
        struct_name: "User".into(),
        missing: vec!["email".into()],
    };
    let msg = e.to_diagnostic();
    assert!(msg.contains("email"), "message: {msg}");
    assert!(msg.contains("User"), "message: {msg}");
}

#[test]
fn multi_missing_columns_message() {
    let e = ValidationError::MissingColumns {
        struct_name: "User".into(),
        missing: vec!["email".into(), "name".into()],
    };
    let msg = e.to_diagnostic();
    assert!(msg.contains("email"), "message: {msg}");
    assert!(msg.contains("name"), "message: {msg}");
}

#[test]
fn single_table_not_registered_message() {
    let e = ValidationError::TablesNotRegistered {
        tables: vec!["ghosts".into()],
    };
    assert!(e.to_diagnostic().contains("ghosts"));
    assert!(e.to_diagnostic().contains("derive(Table)"));
}

#[test]
fn unknown_column_message() {
    let e = ValidationError::UnknownColumn { column: "d".into() };
    let msg = e.to_diagnostic();
    assert!(msg.contains("\"d\""), "message: {msg}");
    assert!(msg.contains("does not exist"), "message: {msg}");
    assert!(msg.contains("typo"), "message: {msg}");
}

#[test]
fn extract_double_quoted() {
    let msg = r#"ERROR: table "ghosts" does not exist (42P01)"#;
    assert_eq!(extract_quoted_identifier(msg, "table"), "ghosts");
}

#[test]
fn extract_single_quoted() {
    let msg = "ERROR: unknown column 'ema1l' (42703)";
    assert_eq!(extract_quoted_identifier(msg, "column"), "ema1l");
}

#[test]
fn extract_falls_back_to_full_message() {
    let msg = "ERROR: something unquoted happened";
    let result = extract_quoted_identifier(msg, "table");
    assert_eq!(result, msg);
}

#[test]
fn register_and_retrieve() {
    let mut registry = Registry::new();
    register(
        &mut registry,
        "reg_test_users",
        "CREATE TABLE reg_test_users (id BIGINT, name TEXT)",
        vec!["id".into(), "name".into()],
    );
    let entry = get(&registry, "reg_test_users").expect("just registered");
    assert_eq!(entry.fields, &["id", "name"]);
    assert!(entry.create_sql.contains("reg_test_users"));
}

#[test]
fn contains_returns_false_for_unknown() {
    let registry = Registry::new();
    assert!(!contains(&registry, "reg_test_nonexistent_xyzzy"));
}

#[test]
fn registration_ordering_independent() {
    let mut registry = Registry::new();
    register(
        &mut registry,
        "reg_test_orders",
        "CREATE TABLE reg_test_orders (id BIGINT, user_id BIGINT)",
        vec!["id".into(), "user_id".into()],
    );
    register(
        &mut registry,
        "reg_test_customers",
        "CREATE TABLE reg_test_customers (id BIGINT)",
        vec!["id".into()],
    );
    assert!(contains(&registry, "reg_test_orders"));
    assert!(contains(&registry, "reg_test_customers"));
}

#[test]
fn struct_not_registered_error() {
    let registry = Registry::new();
    let err = validate_query_as(&registry, "Ghost", "SELECT 1").unwrap_err();
    assert!(
        matches!(err, ValidationError::StructNotRegistered { .. }),
        "expected StructNotRegistered, got: {}",
        err.to_diagnostic()
    );
}

#[test]
fn diagnostics_have_their_exact_words() {
    let one = ValidationError::TablesNotRegistered {
        tables: vec!["ghosts".into()],
    };
    assert_eq!(
        one.to_diagnostic(),
        "table \"ghosts\" is not registered; did you forget `#[derive(Table)] #[hyperdb(register)]` on the struct that maps to it?"
    );
    let two = ValidationError::TablesNotRegistered {
        tables: vec!["a".into(), "b\"c".into()],
    };
    assert_eq!(
        two.to_diagnostic(),
        "tables [\"a\", \"b\\\"c\"] are not registered; add `#[derive(Table)] #[hyperdb(register)]` to the structs that map to them"
    );
    let none = ValidationError::TablesNotRegistered { tables: vec![] };
    assert_eq!(
        none.to_diagnostic(),
        "tables [] are not registered; add `#[derive(Table)] #[hyperdb(register)]` to the structs that map to them"
    );
    let missing = ValidationError::MissingColumns {
        struct_name: "User".into(),
        missing: vec!["email".into()],
    };
    assert_eq!(
        missing.to_diagnostic(),
        "`User` requires column \"email\" but the query does not project it; add it to the SELECT list or remove the field from `User`"
    );
    let syntax = ValidationError::SqlSyntaxError {
        message: "near FROM".into(),
    };
    assert_eq!(syntax.to_diagnostic(), "SQL syntax error: near FROM");
    let other = ValidationError::HyperError {
        message: "gone".into(),
    };
    assert_eq!(other.to_diagnostic(), "Hyper validation error: gone");
}

#[test]
fn registering_again_replaces_and_keeps_names_distinct() {
    let mut registry = users();
    register(&mut registry, "users", "CREATE TABLE users (id INT)", vec!["id".into()]);
    let entry = get(&registry, "users").expect("registered");
    assert_eq!(entry.create_sql, "CREATE TABLE users (id INT)");
    assert_eq!(entry.fields, vec!["id".to_string()]);
    assert_eq!(registered_names(&registry), vec!["users".to_string()]);
    assert_eq!(
        registry.seed_if_known("users").as_deref(),
        Some("CREATE TABLE users (id INT)")
    );
    assert_eq!(registry.seed_if_known("ghosts"), None);
}

#[test]
fn errors_are_classified_by_their_code() {
    assert!(matches!(
        classify(&server("42P01", "ERROR: table \"ghosts\" does not exist (42P01)")),
        ErrorClass::MissingTable(t) if t == "ghosts"
    ));
    assert!(matches!(
        classify(&server("42703", "ERROR: unknown column 'ema1l' (42703)")),
        ErrorClass::MissingColumn(c) if c == "ema1l"
    ));
    assert!(matches!(
        classify(&server("42601", "syntax error at \"FROM\"")),
        ErrorClass::SyntaxError(m) if m == "syntax error at \"FROM\""
    ));
    let lost = DriverError {
        kind: DriverErrorKind::Closed,
        message: "closed 42P01".into(),
    };
    assert!(matches!(classify(&lost), ErrorClass::Other(m) if m == "closed 42P01"));
}

#[test]
fn dry_runs_touch_no_row() {
    assert_eq!(
        dry_run("SELECT 1 AS a"),
        "WITH __hdb_q AS (SELECT 1 AS a) SELECT * FROM __hdb_q LIMIT 0"
    );
    assert_eq!(dry_run_columns(Some(vec!["a".into()])).unwrap(), vec!["a".to_string()]);
    assert_eq!(
        dry_run_columns(None).unwrap_err().message,
        "dry-run: schema missing after next_chunk"
    );
}

#[test]
fn a_right_query_passes_and_may_have_more_columns() {
    let registry = users();
    let check = begin(&registry, "users", "SELECT * FROM users");
    match check.action() {
        CheckAction::Query(sql) => assert_eq!(
            sql,
            "WITH __hdb_q AS (SELECT * FROM users) SELECT * FROM __hdb_q LIMIT 0"
        ),
        other => panic!("expected a query, got {other:?}"),
    }
    let done = check.tried(
        &registry,
        Ok(vec!["id".into(), "name".into(), "email".into(), "extra".into()]),
    );
    assert!(matches!(done.phase, CheckPhase::Passed));
    assert!(matches!(done.action(), CheckAction::Nothing));
}

#[test]
fn missing_columns_are_told_in_the_order_of_the_fields() {
    let fields = vec!["id".to_string(), "name".to_string(), "email".to_string()];
    match finish_name_check("User", &fields, &vec!["name".to_string()]) {
        CheckPhase::Failed(ValidationError::MissingColumns { struct_name, missing }) => {
            assert_eq!(struct_name, "User");
            assert_eq!(missing, vec!["id".to_string(), "email".to_string()]);
        }
        other => panic!("expected missing columns, got {other:?}"),
    }
}

#[test]
fn a_missing_table_is_made_once() {
    let registry = users();
    let missing = || server("42P01", "table \"users\" does not exist");
    let check = begin(&registry, "users", "SELECT id FROM users").tried(&registry, Err(missing()));
    match check.action() {
        CheckAction::Execute(sql) => assert!(sql.starts_with("CREATE TABLE IF NOT EXISTS users")),
        other => panic!("expected a statement, got {other:?}"),
    }
    let again = check.seeded(Ok(()));
    assert!(matches!(again.phase, CheckPhase::Retry));
    match again.tried(&registry, Err(missing())).phase {
        CheckPhase::Failed(ValidationError::TablesNotRegistered { tables }) => {
            assert_eq!(tables, vec!["users".to_string()]);
        }
        other => panic!("expected an unregistered table, got {other:?}"),
    }
}

#[test]
fn a_failed_seed_ends_the_check() {
    let registry = users();
    let check = begin(&registry, "users", "SELECT id FROM users")
        .tried(&registry, Err(server("42P01", "table \"users\" does not exist")))
        .seeded(Err(server("42501", "permission denied")));
    assert!(matches!(
        check.phase,
        CheckPhase::Failed(ValidationError::HyperError { message }) if message == "permission denied"
    ));
}

#[test]
fn unknown_tables_columns_and_syntax_end_the_check() {
    let registry = users();
    let fail = |e: DriverError| begin(&registry, "users", "SELECT 1").tried(&registry, Err(e)).phase;
    assert!(matches!(
        fail(server("42P01", "table \"nonexistent_xyz\" does not exist")),
        CheckPhase::Failed(ValidationError::TablesNotRegistered { tables }) if tables == vec!["nonexistent_xyz".to_string()]
    ));
    assert!(matches!(
        fail(server("42703", "unknown column 'ema1l'")),
        CheckPhase::Failed(ValidationError::UnknownColumn { column }) if column == "ema1l"
    ));
    assert!(matches!(
        fail(server("42601", "syntax error")),
        CheckPhase::Failed(ValidationError::SqlSyntaxError { message }) if message == "syntax error"
    ));
    assert!(matches!(
        fail(server("XX000", "internal")),
        CheckPhase::Failed(ValidationError::HyperError { message }) if message == "internal"
    ));
}
