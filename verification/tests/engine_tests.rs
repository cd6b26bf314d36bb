use hyperdb_mcp::engine::cells::{
    cell_to_json, decoder_for, same_decimal, CellDecoder, ColumnKind, DecodedCell, NumericFloat,
};
use hyperdb_mcp::engine::report::{row_count, sample_description, table_description, StatusFacts};
use hyperdb_mcp::engine::session::{
    ephemeral_dir_name, home_dir, process_dir_name, resolve_log_dir, shellexpand_tilde,
    Engine, HomeDir, LogCandidate,
};
use hyperdb_mcp::engine::startup::{
    temporary_log_dir, DaemonLink, PersistentPlace, Startup, StartupAction, StartupFinding,
    StartupPhase, StartupPlan,
};
use hyperdb_mcp::engine::transaction::{
    Transaction, TransactionAction, TransactionEvent, TransactionResult, WorkOutcome,
};
use hyperdb_mcp::engine::{
    columns_query, count_query, describe_column, describe_exists_query, disk_usage,
    is_internal_table, list_tables_query, qualified_name, translate_table_missing, ColumnRow,
    ColumnSchema, TableLookup,
};
use hyperdb_mcp::error::{DriverError, DriverErrorKind, ErrorCode, McpError};
use hyperdb_mcp::json::Json;

fn plan(persistent: bool) -> StartupPlan {
    StartupPlan {
        persistent: if persistent {
            Some(PersistentPlace {
                path: "/home/u/db.hyper".into(),
                parent: Some("/home/u".into()),
                sql_path: "'/home/u/db.hyper'".into(),
            })
        } else {
            None
        },
        ephemeral_dir: "/tmp/hyperdb-mcp-1-0".into(),
        ephemeral_path: "/tmp/hyperdb-mcp-1-0/scratch.hyper".into(),
        ephemeral_stem: Some("scratch".into()),
        log_dir: "/home/u".into(),
    }
}

fn done() -> Result<StartupFinding, String> {
    Ok(StartupFinding::Done)
}

fn session(persistent: bool) -> Engine {
    let mut startup = Engine::new_no_daemon(plan(persistent));
    loop {
        match startup.finish() {
            Ok(outcome) => return outcome.expect("the session comes up"),
            Err(more) => startup = more.observe(done()),
        }
    }
}

fn column(name: &str, hyper_type: &str, nullable: bool) -> ColumnSchema {
    ColumnSchema {
        name: name.into(),
        hyper_type: hyper_type.into(),
        nullable,
    }
}

fn failed(startup: &Startup) -> &McpError {
    match &startup.phase {
        StartupPhase::Failed(e) => e,
        other => panic!("expected a failure, got {other:?}"),
    }
}

#[test]
fn a_session_without_daemon_comes_up_step_by_step() {
    let s = Engine::new_no_daemon(plan(true));
    assert!(matches!(s.action(), StartupAction::MakeDir(d) if d == "/home/u"));
    let s = s.observe(done());
    assert!(matches!(s.action(), StartupAction::MakeDir(d) if d == "/tmp/hyperdb-mcp-1-0"));
    let s = s.observe(done());
    assert!(matches!(s.action(), StartupAction::MakeDir(d) if d == "/home/u"));
    let s = s.observe(done());
    assert!(matches!(s.action(), StartupAction::StartProcess(d) if d == "/home/u"));
    let s = s.observe(done());
    assert!(matches!(s.action(), StartupAction::ConnectLocal(_)));
    let s = s.observe(done());
    assert!(matches!(s.action(), StartupAction::Execute(q) if q == "CREATE SCHEMA IF NOT EXISTS public"));
    let s = s.observe(done());
    assert!(matches!(s.action(), StartupAction::Look(p) if p == "/home/u/db.hyper"));
    let s = s.observe(Ok(StartupFinding::FileMissing));
    assert!(matches!(s.action(), StartupAction::Execute(q) if q == "CREATE DATABASE IF NOT EXISTS '/home/u/db.hyper'"));
    let s = s.observe(done());
    assert!(matches!(s.action(), StartupAction::Execute(q) if q == "ATTACH DATABASE '/home/u/db.hyper' AS \"persistent\""));
    let s = s.observe(done());
    assert!(matches!(s.action(), StartupAction::Execute(q) if q == "SET schema_search_path = 'scratch'"));
    let engine = s.observe(done()).finish().expect("ended").expect("up");
    assert!(engine.persistent_was_just_created());
    assert_eq!(engine.daemon_endpoint, None);
}

#[test]
fn an_existing_persistent_database_is_not_made() {
    let mut s = Engine::new_no_daemon(plan(true));
    while !matches!(s.phase, StartupPhase::LookForPersistent(_)) {
        s = s.observe(done());
    }
    let s = s.observe(Ok(StartupFinding::FileThere));
    assert!(matches!(s.action(), StartupAction::Execute(q) if q.starts_with("ATTACH DATABASE")));
    let engine = s.observe(done()).observe(done()).finish().expect("ended").expect("up");
    assert!(!engine.persistent_was_just_created());
}

#[test]
fn a_session_uses_the_daemon_where_there_is_one() {
    let s = Engine::new(plan(false)).observe(done()).observe(done());
    assert!(matches!(s.action(), StartupAction::FindDaemon));
    let link = DaemonLink {
        endpoint: "127.0.0.1:9000".into(),
        health_port: 7484,
    };
    let s = s.observe(Ok(StartupFinding::Daemon(link)));
    assert!(matches!(s.action(), StartupAction::Connect { endpoint, .. } if endpoint == "127.0.0.1:9000"));
    let s = s.observe(done()).observe(done());
    assert!(matches!(s.action(), StartupAction::Send { port: 7484, command: "HEARTBEAT" }));
    let engine = s.observe(Err("no answer".into())).finish().expect("ended").expect("up");
    assert_eq!(engine.hyperd_endpoint(None).unwrap(), "127.0.0.1:9000");
    assert_eq!(engine.closing_statement().as_deref(), Some("DETACH DATABASE \"scratch\""));
}

#[test]
fn without_daemon_the_session_falls_back() {
    let s = Engine::new(plan(false)).observe(done()).observe(done());
    let s = s.observe(Err("no daemon".into()));
    assert!(matches!(s.phase, StartupPhase::StartProcess));
}

#[test]
fn a_daemon_whose_process_is_gone_is_told() {
    let s = Engine::new(plan(false)).observe(done()).observe(done());
    let s = s.observe(Ok(StartupFinding::Daemon(DaemonLink {
        endpoint: "h:1".into(),
        health_port: 1,
    })));
    let s = s.observe(Err("refused".into()));
    assert!(matches!(s.action(), StartupAction::ReportError));
    let s = s.observe(Err("x".into()));
    assert_eq!(
        failed(&s).message,
        "Failed to connect to daemon hyperd at h:1: refused"
    );
}

#[test]
fn failures_of_a_startup_are_told() {
    let s = Engine::new_no_daemon(plan(true)).observe(Err("denied".into()));
    assert_eq!(failed(&s).code, ErrorCode::PermissionDenied);
    assert_eq!(failed(&s).message, "Cannot create persistent-db directory: denied");
    let s = Engine::new_no_daemon(plan(false)).observe(Err("full".into()));
    assert_eq!(failed(&s).code, ErrorCode::InternalError);
    let s = Engine::new_no_daemon(plan(false)).observe(done()).observe(Err("full".into()));
    assert_eq!(failed(&s).message, "Cannot create log directory /home/u: full");
    let start = || Engine::new_no_daemon(plan(false)).observe(done()).observe(done());
    let s = start().observe(Err("HYPERD_PATH is not set".into()));
    assert_eq!(failed(&s).code, ErrorCode::HyperdNotFound);
    let s = start().observe(Err("out of memory".into()));
    assert_eq!(failed(&s).code, ErrorCode::InternalError);
    let s = start().observe(done()).observe(Err("x".into()));
    assert_eq!(failed(&s).message, "Failed to connect: x");
    let s = start().observe(done()).observe(done()).observe(Err("x".into()));
    assert_eq!(failed(&s).message, "Failed to bootstrap public schema: x");
}

#[test]
fn targets_are_resolved() {
    let with = session(true);
    let without = session(false);
    assert_eq!(without.resolve_target_db(None).unwrap(), "scratch");
    assert_eq!(without.resolve_target_db(Some("  ")).unwrap(), "scratch");
    assert_eq!(without.resolve_target_db(Some(" MyDB ")).unwrap(), "mydb");
    assert_eq!(with.resolve_target_db(Some("PERSISTENT")).unwrap(), "persistent");
    let err = without.resolve_target_db(Some("persistent")).unwrap_err();
    assert_eq!(err.code, ErrorCode::InvalidArgument);
    assert_eq!(
        err.message,
        "no persistent database in this session — hyperdb-mcp was started with --ephemeral-only"
    );
    assert!(with.has_persistent());
    assert_eq!(with.persistent_path(), Some("/home/u/db.hyper"));
    assert_eq!(without.persistent_path(), None);
    let scope = without.scoped_search_path("o'db");
    assert_eq!(scope.enter, "SET schema_search_path = 'o''db'");
    assert_eq!(scope.restore, "SET schema_search_path = 'scratch'");
}

#[test]
fn endpoints_and_liveness_of_a_session() {
    let engine = session(false);
    assert_eq!(engine.hyperd_endpoint(Some(Ok("h:2".into()))).unwrap(), "h:2");
    assert_eq!(engine.hyperd_endpoint(Some(Err("x".into()))).unwrap_err().message, "x");
    assert_eq!(
        engine.hyperd_endpoint(None).unwrap_err().message,
        "no hyperd endpoint available"
    );
    assert!(engine.is_running(Some(true), false));
    assert!(!engine.is_running(Some(false), true));
    assert!(engine.is_running(None, true));
    assert_eq!(engine.closing_statement(), None);
}

#[test]
fn catalogs_are_remembered_by_alias_in_any_case() {
    let mut engine = session(false);
    assert_eq!(engine.catalog_present_in("Sales"), None);
    assert!(engine
        .catalog_cache
        .catalog_probed("Sales", Err(McpError::new(ErrorCode::SqlError, "x")))
        .is_err());
    assert_eq!(engine.catalog_present_in("Sales"), None);
    assert!(!engine.catalog_cache.catalog_probed("Sales", Ok(false)).unwrap());
    assert_eq!(engine.catalog_present_in("SALES"), Some(false));
    engine.mark_catalog_present_for("sales");
    engine.mark_catalog_present_for("other");
    assert_eq!(engine.catalog_present_in("Sales"), Some(true));
    engine.clear_catalog_cache_for("SALES");
    assert_eq!(engine.catalog_present_in("sales"), None);
    assert_eq!(engine.catalog_present_in("OTHER"), Some(true));
}

fn failure(message: &str) -> McpError {
    McpError::new(ErrorCode::SqlError, message)
}

fn ran(
    work: WorkOutcome<u8, &'static str>,
    action: TransactionAction,
    end: Result<(), McpError>,
) -> TransactionResult<u8, &'static str> {
    let transaction = session(false).execute_in_transaction();
    assert_eq!(transaction.action(), TransactionAction::Begin);
    let transaction = transaction.observe(TransactionEvent::Began(Ok(())));
    assert_eq!(transaction.action(), TransactionAction::Work);
    let transaction = transaction.observe(TransactionEvent::Worked(work));
    assert_eq!(transaction.action(), action);
    let transaction = transaction.observe(TransactionEvent::Ended(end));
    assert_eq!(transaction.action(), TransactionAction::Nothing);
    transaction.finish().expect("it is over")
}

#[test]
fn transactions_are_always_ended() {
    assert!(matches!(ran(WorkOutcome::Succeeded(7), TransactionAction::Commit, Ok(())), TransactionResult::Returned(Ok(7))));
    let kept = ran(WorkOutcome::Succeeded(7), TransactionAction::Commit, Err(failure("end")));
    assert!(matches!(kept, TransactionResult::Returned(Err(e)) if e.message == "end"));
    for end in [Ok(()), Err(failure("end"))] {
        let undone = ran(WorkOutcome::Failed(failure("work")), TransactionAction::Rollback, end);
        assert!(matches!(undone, TransactionResult::Returned(Err(e)) if e.message == "work"));
    }
    for end in [Ok(()), Err(failure("end"))] {
        let panicked = ran(WorkOutcome::Panicked("payload"), TransactionAction::Rollback, end);
        assert!(matches!(panicked, TransactionResult::Raised("payload")));
    }
}

#[test]
fn transactions_that_cannot_be_begun_do_no_work() {
    let transaction: Transaction<u8, &'static str> = session(false).execute_in_transaction();
    let transaction = transaction.finish().unwrap_err();
    let transaction = transaction.observe(TransactionEvent::Began(Err(failure("begin"))));
    assert_eq!(transaction.action(), TransactionAction::Nothing);
    let transaction = transaction.observe(TransactionEvent::Worked(WorkOutcome::Succeeded(7)));
    let transaction = transaction.observe(TransactionEvent::Ended(Ok(())));
    assert!(matches!(
        transaction.finish(),
        Ok(TransactionResult::Returned(Err(e))) if e.message == "begin"
    ));
}

#[test]
fn the_newest_log_is_found() {
    let engine = session(false);
    let file = |name: &str, ext: Option<&str>, modified: Option<u64>| LogCandidate {
        name: name.into(),
        extension: ext.map(str::to_string),
        modified,
    };
    let files = vec![
        file("hyperd_1.log", Some("log"), Some(5)),
        file("hyperd_2.LOG", Some("LOG"), Some(9)),
        file("hyperd_3.log", Some("log"), Some(9)),
        file("other.log", Some("log"), Some(99)),
        file("hyperd_4.log", Some("log"), None),
    ];
    assert_eq!(engine.hyperd_log_path(&files), Some(1));
    assert_eq!(engine.hyperd_log_path(&vec![]), None);
}

#[test]
fn paths_of_a_session() {
    assert_eq!(shellexpand_tilde("~/a.hyper", Some("/home/u"), false, '/'), "/home/u/a.hyper");
    assert_eq!(shellexpand_tilde("~\\a", Some("C:\\u"), true, '\\'), "C:\\u\\a");
    assert_eq!(shellexpand_tilde("~\\a", Some("/home/u"), false, '/'), "~\\a");
    assert_eq!(shellexpand_tilde("~user/a", Some("/home/u"), false, '/'), "~user/a");
    assert_eq!(shellexpand_tilde("~/a", None, false, '/'), "~/a");
    assert_eq!(resolve_log_dir(Some(Some("/data")), "/tmp/x"), "/data");
    assert_eq!(resolve_log_dir(Some(None), "/tmp/x"), ".");
    assert_eq!(resolve_log_dir(None, "/tmp/x"), "/tmp/x");
    assert_eq!(process_dir_name(42), "hyperdb-mcp-42");
    assert_eq!(ephemeral_dir_name(42, 7), "hyperdb-mcp-42-7");
}

#[test]
fn files_of_a_session_are_placed() {
    let plan = StartupPlan::of(None, "/tmp", 42, 7);
    let dir = std::path::Path::new("/tmp").join("hyperdb-mcp-42-7");
    assert_eq!(std::path::Path::new(&plan.ephemeral_dir), dir);
    assert_eq!(std::path::Path::new(&plan.ephemeral_path), dir.join("scratch.hyper"));
    assert_eq!(plan.ephemeral_stem.as_deref(), Some("scratch"));
    assert_eq!(plan.log_dir, temporary_log_dir("/tmp", 42));
    assert!(plan.log_dir.ends_with("hyperdb-mcp-42"));
    let place = PersistentPlace::of("/data/db.hyper".into(), "'/data/db.hyper'".into());
    assert_eq!(place.parent.as_deref(), Some("/data"));
    assert_eq!(StartupPlan::of(Some(place), "/tmp", 42, 7).log_dir, "/data");
    let bare = PersistentPlace::of("db.hyper".into(), "'db.hyper'".into());
    assert_eq!(bare.parent.as_deref(), Some(""));
}

#[test]
fn cells_become_structured_values() {
    assert_eq!(decoder_for(ColumnKind::SmallInt), CellDecoder::Integer);
    assert_eq!(decoder_for(ColumnKind::Other), CellDecoder::Text);
    assert!(matches!(cell_to_json(DecodedCell::Null), Json::Null));
    assert!(matches!(cell_to_json(DecodedCell::Integer(-3)), Json::Integer(-3)));
    assert!(matches!(cell_to_json(DecodedCell::Float(f64::NAN.to_bits())), Json::Null));
    assert!(matches!(
        cell_to_json(DecodedCell::Float(1.5_f64.to_bits())),
        Json::Float(b) if b == 1.5_f64.to_bits()
    ));
    let numeric = |shown: &str| {
        let float: f64 = shown.parse().unwrap();
        cell_to_json(DecodedCell::Numeric {
            shown: shown.into(),
            float: Some(NumericFloat {
                bits: float.to_bits(),
                shown: format!("{float}"),
            }),
        })
    };
    assert!(matches!(numeric("12.50"), Json::Float(b) if b == 12.5_f64.to_bits()));
    assert!(matches!(numeric("-0.10"), Json::Float(_)));
    assert!(matches!(
        numeric("12345678901234567890.123456789"),
        Json::Text(t) if t == "12345678901234567890.123456789"
    ));
}

#[test]
fn decimal_numbers_are_compared_without_needless_zeros() {
    assert!(same_decimal("1.50", "1.5"));
    assert!(same_decimal("007", "7"));
    assert!(same_decimal("5.", "5"));
    assert!(!same_decimal("1.05", "1.5"));
    assert!(!same_decimal("-1", "1"));
    assert!(!same_decimal("10", "1"));
}

#[test]
fn tables_are_made_and_widened() {
    let engine = session(false);
    let columns = vec![column("id", "BIGINT", false), column("na\"me", "TEXT", true)];
    let known = vec![true, true];
    assert_eq!(
        engine.create_table_in("t", &columns, &known, true, Some("db")).unwrap(),
        vec![
            "DROP TABLE IF EXISTS \"db\".\"public\".\"t\"".to_string(),
            "CREATE TABLE IF NOT EXISTS \"db\".\"public\".\"t\" (\"id\" BIGINT NOT NULL, \"na\"\"me\" TEXT)"
                .to_string(),
        ]
    );
    assert_eq!(engine.create_table("t", &columns, &known, false).unwrap().len(), 1);
    let err = engine.create_table("t", &vec![], &vec![], false).unwrap_err();
    assert_eq!(err.code, ErrorCode::EmptyData);
    let err = engine.create_table("t", &columns, &vec![true, false], false).unwrap_err();
    assert_eq!(err.code, ErrorCode::SchemaMismatch);
    assert_eq!(err.message, "Unknown type 'TEXT' for column 'na\"me'");
    assert_eq!(
        engine.alter_table_add_columns("t", &columns, &known).unwrap().as_deref(),
        Some("ALTER TABLE \"t\" ADD COLUMN \"id\" BIGINT, ADD COLUMN \"na\"\"me\" TEXT")
    );
    assert_eq!(engine.alter_table_add_columns_in(None, "t", &vec![], &vec![]).unwrap(), None);
}

#[test]
fn queries_quote_their_names() {
    let engine = session(false);
    assert_eq!(qualified_name(Some("a\"b"), "t"), "\"a\"\"b\".\"public\".\"t\"");
    let (select, count) = engine.sample_table_in(Some("db"), "t", 1000);
    assert_eq!(select, "SELECT * FROM \"db\".\"public\".\"t\" LIMIT 100");
    assert_eq!(count, "SELECT COUNT(*) AS cnt FROM \"db\".\"public\".\"t\"");
    assert_eq!(engine.sample_table("t", 0).0, "SELECT * FROM \"t\" LIMIT 1");
    assert_eq!(count_query(None, "t"), "SELECT COUNT(*) AS cnt FROM \"t\"");
    assert!(matches!(engine.table_exists_in(None, "t"), TableLookup::Catalog));
    match engine.table_exists_in(Some("db"), "o'x") {
        TableLookup::Query(sql) => assert_eq!(
            sql,
            "SELECT 1 AS one FROM \"db\".pg_catalog.pg_tables WHERE schemaname = 'public' AND tablename = 'o''x'"
        ),
        other => panic!("expected a query, got {other:?}"),
    }
    assert!(describe_exists_query("db", "t").starts_with("SELECT 1 FROM \"db\".pg_catalog"));
    assert!(list_tables_query("db").ends_with("ORDER BY tablename"));
    assert!(columns_query("db", "t").contains("c.relname = 't'"));
}

#[test]
fn internal_tables_are_hidden() {
    let engine = session(false);
    assert!(is_internal_table("_hyperdb_saved_queries"));
    let names = vec!["a".to_string(), "_hyperdb_x".to_string(), "b".to_string()];
    assert!(engine.table_exists(&names, "_hyperdb_x"));
    let err = engine.describe_table("_hyperdb_x", &names).unwrap_err();
    assert_eq!(err.code, ErrorCode::TableNotFound);
    assert!(engine.describe_table("a", &names).is_ok());
    assert!(engine.describe_table("c", &names).is_err());
    assert_eq!(engine.describe_tables(names), vec!["a".to_string(), "b".to_string()]);
    let cells = vec![
        Some(Json::Text("a".into())),
        None,
        Some(Json::Integer(1)),
        Some(Json::Text("_hyperdb_y".into())),
    ];
    assert_eq!(engine.describe_tables_in(cells), vec!["a".to_string()]);
    let err = engine.describe_table_in("db", "t", false).unwrap_err();
    assert_eq!(err.message, "Table 't' does not exist in database 'db'");
}

#[test]
fn columns_are_described() {
    let engine = session(false);
    let column = describe_column(ColumnRow {
        name: Some(Json::Text("id".into())),
        column_type: None,
        nullable: None,
    });
    assert!(matches!(column.get("type"), Some(Json::Null)));
    assert!(matches!(column.get("nullable"), Some(Json::Bool(true))));
    let rows = vec![ColumnRow {
        name: Some(Json::Text("id".into())),
        column_type: Some(Json::Text("int8".into())),
        nullable: Some(Json::Bool(false)),
    }];
    let columns = engine.column_metadata_in("db", "t", &rows).unwrap();
    assert_eq!(columns[0].hyper_type, "int8");
    assert!(!columns[0].nullable);
    let err = engine.column_metadata_in("db", "t", &vec![]).unwrap_err();
    assert_eq!(err.code, ErrorCode::TableNotFound);
    assert_eq!(engine.column_metadata(&columns)[0].name, "id");
}

#[test]
fn rows_become_objects_and_the_last_of_equal_names_counts() {
    let engine = session(false);
    let names = vec!["a".to_string(), "b".to_string(), "a".to_string()];
    let rows = engine.execute_query_to_json(
        &names,
        vec![vec![
            DecodedCell::Integer(1),
            DecodedCell::Integer(2),
            DecodedCell::Integer(3),
        ]],
    );
    assert!(matches!(rows[0].get("a"), Some(Json::Integer(3))));
    assert!(matches!(rows[0].get("b"), Some(Json::Integer(2))));
    let order: Vec<&str> = match &rows[0] {
        Json::Object(fields) => fields.iter().map(|(name, _)| name.as_str()).collect(),
        other => panic!("{other:?}"),
    };
    assert_eq!(order, ["a", "b"]);
}

#[test]
fn samples_and_descriptions() {
    assert_eq!(row_count(Some(&Json::Integer(7))), 7);
    assert_eq!(row_count(Some(&Json::Null)), 0);
    assert_eq!(row_count(None), 0);
    let sample = sample_description("t", 7, vec![], vec![Json::Null, Json::Null]);
    assert!(matches!(sample.get("sample_size"), Some(Json::Integer(2))));
    assert!(matches!(sample.get("row_count"), Some(Json::Integer(7))));
    let table = table_description("t", vec![], 3);
    assert!(matches!(table.get("name"), Some(Json::Text(t)) if t == "t"));
}

#[test]
fn the_status_counts_shown_tables() {
    let engine = session(true);
    let status = engine.status(StatusFacts {
        running: true,
        names: vec!["a".into(), "_hyperdb_x".into(), "b".into()],
        counts: vec![10, 5],
        ephemeral_bytes: 100,
        persistent_bytes: 11,
        hyperd_log: None,
        client_log: Some("/home/u/hyperdb-mcp.log".into()),
        version: "0.1.0".into(),
    });
    assert_eq!(status.table_count, 2);
    assert_eq!(status.total_rows, 15);
    assert_eq!(status.disk_usage_bytes, 111);
    assert!(status.has_persistent);
    assert_eq!(disk_usage(u64::MAX, 1), u64::MAX);
}

#[test]
fn missing_tables_have_one_message() {
    for message in [
        "relation \"x\" does not exist",
        "ERROR: Relation \"x\" does not exist (42P01)",
        "error 42P01",
        "undefined table",
        "Table \"my table\" does not exist",
        "table x does not exist",
        "the table does not exist",
        "relation \"public\".\"x\" does not exist: line 1",
    ] {
        let e = translate_table_missing(McpError::new(ErrorCode::SqlError, message), "x");
        assert_eq!(e.code, ErrorCode::TableNotFound, "{message}");
        assert_eq!(e.message, "Table 'x' does not exist");
    }
}

#[test]
fn other_failures_of_a_table_are_passed_on() {
    for (code, message) in [
        (ErrorCode::SqlError, "column \"x\" does not exist"),
        (ErrorCode::SqlError, "column \"x\" of relation \"t\" does not exist"),
        (ErrorCode::SqlError, "database \"table\" does not exist"),
        (ErrorCode::SqlError, "function notable() does not exist"),
        (ErrorCode::SqlError, "Relation \"x\" unknown"),
        (ErrorCode::PermissionDenied, "permission denied for relation t"),
        (ErrorCode::SqlError, "division by zero"),
    ] {
        let e = McpError::new(code, message).with_suggestion("look again");
        let e = translate_table_missing(e, "t");
        assert_eq!(e.code, code, "{message}");
        assert_eq!(e.message, message);
        assert_eq!(e.suggestion.as_deref(), Some("look again"));
    }
}

#[test]
fn executed_commands_pass_on_their_outcome() {
    let engine = session(false);
    assert_eq!(engine.execute_command(Ok(3)).unwrap(), 3);
    let err = engine
        .execute_command(Err(DriverError {
            kind: DriverErrorKind::Closed,
            message: "gone".into(),
        }))
        .unwrap_err();
    assert_eq!(err.code, ErrorCode::ConnectionLost);
}

#[test]
fn the_home_directory_is_found() {
    let v = |s: &str| Some(s.to_string());
    assert!(matches!(
        home_dir(false, v("/home/u"), v("C:\\u"), None, None),
        Some(HomeDir::At(p)) if p == "/home/u"
    ));
    assert!(home_dir(false, None, v("C:\\u"), v("C:"), v("\\u")).is_none());
    assert!(matches!(
        home_dir(true, v("/home/u"), v("C:\\u"), None, None),
        Some(HomeDir::At(p)) if p == "C:\\u"
    ));
    assert!(matches!(
        home_dir(true, None, v(""), v("D:"), v("\\u")),
        Some(HomeDir::OnDrive { drive, path }) if drive == "D:" && path == "\\u"
    ));
    assert!(home_dir(true, v("/home/u"), None, v("D:"), None).is_none());
}
