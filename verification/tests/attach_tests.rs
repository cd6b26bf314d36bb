use hyperdb_mcp::attach::{
    sql_quoted_name, sql_string_literal, validate_alias, validate_input_path, validate_local_path,
    validate_local_path_for_create, validate_output_path, AttachAction, AttachFacts, AttachPhase,
    AttachRegistry, AttachRequest, AttachSource, AttachedDb, Attachment, CanonicalPath,
    InputPathFacts, OnMissing, OutputPathFacts,
};
use hyperdb_mcp::error::{ErrorCode, McpError};
use hyperdb_mcp::json::Json;

fn unresolved(path: &str) -> InputPathFacts {
    InputPathFacts::of(path, Err("not resolved".into()))
}

fn output(path: &str, parent: Result<String, String>) -> OutputPathFacts {
    OutputPathFacts::of(path, None, parent)
}

fn text(json: &Json) -> &str {
    match json {
        Json::Text(s) => s.as_str(),
        other => panic!("expected a text, got {other:?}"),
    }
}

fn request(alias: &str, writable: bool, on_missing: OnMissing) -> AttachRequest {
    AttachRequest {
        alias: alias.into(),
        source: AttachSource::LocalFile {
            path: "/data/sales.hyper".into(),
        },
        writable,
        on_missing,
    }
}

fn facts(exists: bool) -> AttachFacts {
    AttachFacts {
        exists,
        sql_path: "'/data/sales.hyper'".into(),
        primary: "scratch".into(),
        has_persistent: false,
    }
}

fn statement(a: &Attachment) -> String {
    match a.action() {
        AttachAction::Execute(sql) => sql,
        other => panic!("expected a statement, got {other:?}"),
    }
}

fn attached(registry: &mut AttachRegistry, alias: &str) {
    let a = registry
        .attach(request(alias, false, OnMissing::Error), facts(true))
        .expect("accepted")
        .observe(Ok(()))
        .observe(Ok(()));
    registry.finish_attach(a, (0, 0)).expect("attached");
}

#[test]
fn alias_accepts_valid_identifiers() {
    for a in ["src", "_scratch", "data_2024", "A", "alpha_beta_1"] {
        validate_alias(a).unwrap_or_else(|e| panic!("expected {a:?} to be accepted: {e:?}"));
    }
}

#[test]
fn alias_rejects_reserved_local() {
    assert!(matches!(
        validate_alias("local").unwrap_err().code,
        ErrorCode::InvalidArgument
    ));
    assert!(matches!(
        validate_alias("LOCAL").unwrap_err().code,
        ErrorCode::InvalidArgument
    ));
}

#[test]
fn alias_rejects_bad_shapes() {
    for a in [
        "",
        "1abc",
        "has space",
        "a-b",
        "a.b",
        "a\"b",
        &"a".repeat(64),
    ] {
        let err = validate_alias(a).expect_err(&format!("expected {a:?} to be rejected"));
        assert_eq!(err.code, ErrorCode::InvalidArgument, "alias={a:?}");
    }
}

#[test]
fn path_rejects_relative() {
    let err = validate_local_path("relative/path.hyper", unresolved("relative/path.hyper")).unwrap_err();
    assert_eq!(err.code, ErrorCode::InvalidArgument);
}

#[test]
fn attached_db_to_json_round_trip() {
    let entry = AttachedDb {
        alias: "src".into(),
        source: AttachSource::LocalFile {
            path: "/tmp/foo.hyper".into(),
        },
        writable: false,
        attached_at: (0, 0),
    };
    let j = entry.to_json().expect("a time that can be written");
    assert_eq!(text(j.get("alias").unwrap()), "src");
    assert!(matches!(j.get("writable"), Some(Json::Bool(false))));
    assert_eq!(text(j.get("kind").unwrap()), "local_file");
    let source = j.get("source").unwrap();
    assert_eq!(text(source.get("kind").unwrap()), "local_file");
    assert_eq!(text(source.get("path").unwrap()), "/tmp/foo.hyper");
    assert_eq!(text(j.get("attached_at").unwrap()), "1970-01-01T00:00:00+00:00");
}

#[test]
fn validate_input_path_rejects_relative() {
    let path = "relative/path.csv";
    let err = validate_input_path(path, "data file", unresolved(path)).unwrap_err();
    assert_eq!(err.code, ErrorCode::InvalidArgument);
    assert!(err.message.contains("data file"));
}

#[test]
fn validate_input_path_accepts_existing_file() {
    let f = tempfile::NamedTempFile::new().unwrap();
    let canonical = f.path().canonicalize().unwrap();
    let path = f.path().to_str().unwrap();
    let resolved = validate_input_path(
        path,
        "data file",
        InputPathFacts::of(path, Ok(canonical.to_str().unwrap().into())),
    )
    .unwrap();
    assert!(std::path::Path::new(&resolved).is_absolute());
}

#[test]
fn validate_input_path_kind_appears_in_error() {
    let path = "relative.csv";
    let err = validate_input_path(path, "iceberg table", unresolved(path)).unwrap_err();
    assert!(err.message.contains("iceberg table"), "got: {}", err.message);
}

#[test]
fn validate_output_path_rejects_relative() {
    let err = validate_output_path(
        "relative/out.csv",
        "export",
        output("relative/out.csv", Err("not resolved".into())),
    )
    .unwrap_err();
    assert_eq!(err.code, ErrorCode::InvalidArgument);
}

#[test]
fn validate_output_path_accepts_nonexistent_with_existing_parent() {
    let dir = tempfile::tempdir().unwrap();
    let target = dir.path().join("does-not-exist-yet.csv");
    let parent = dir.path().canonicalize().unwrap();
    let path = target.to_str().unwrap();
    let resolved = validate_output_path(
        path,
        "export",
        output(path, Ok(parent.to_str().unwrap().into())),
    )
    .expect("should accept");
    assert_eq!(resolved, parent.join("does-not-exist-yet.csv").to_str().unwrap());
    let canonical = std::path::Path::new(&resolved);
    assert!(canonical.is_absolute());
    assert_eq!(canonical.file_name(), target.file_name());
}

#[test]
fn validate_output_path_accepts_existing_file() {
    let f = tempfile::NamedTempFile::new().unwrap();
    let canonical = f.path().canonicalize().unwrap();
    let path = f.path().to_str().unwrap();
    let known = OutputPathFacts::of(
        path,
        Some(Ok(canonical.to_str().unwrap().into())),
        Err("unused".into()),
    );
    let resolved = validate_output_path(path, "export", known).unwrap();
    assert!(std::path::Path::new(&resolved).is_absolute());
}

#[test]
fn missing_paths_are_not_found_and_escapes_are_refused() {
    let path = "/nowhere/x.csv";
    let missing = InputPathFacts::of(path, Err("No such file or directory".into()));
    let err = validate_input_path(path, "data file", missing).unwrap_err();
    assert_eq!(err.code, ErrorCode::FileNotFound);
    assert!(err.message.contains("No such file or directory"));
    let escaping = InputPathFacts::of("/a/../b", Ok("/a/../b".into()));
    let err = validate_local_path("/a/../b", escaping).unwrap_err();
    assert_eq!(err.code, ErrorCode::InvalidArgument);
    let path = "/nowhere/deeper/out.csv";
    let facts = output(path, Err("No such file or directory".into()));
    let err = validate_output_path(path, "export", facts).unwrap_err();
    assert_eq!(err.code, ErrorCode::FileNotFound);
    let err =
        validate_local_path_for_create("/", output("/", Err("unused".into()))).unwrap_err();
    assert_eq!(err.code, ErrorCode::InvalidArgument);
    assert!(err.message.ends_with("has no parent directory"));
    let path = "/data/..";
    let err =
        validate_local_path_for_create(path, output(path, Ok("/data".into()))).unwrap_err();
    assert!(err.message.ends_with("has no file-name component"));
    let path = "/data/new.hyper";
    let resolved =
        validate_local_path_for_create(path, output(path, Ok("/real".into()))).unwrap();
    assert_eq!(std::path::Path::new(&resolved), std::path::Path::new("/real").join("new.hyper"));
    let inner = InputPathFacts {
        absolute: true,
        canonical: Ok(CanonicalPath {
            path: "/x".into(),
            has_parent_step: false,
        }),
    };
    assert_eq!(validate_local_path("/x", inner).unwrap(), "/x");
}

#[test]
fn quoting_doubles_what_would_end_the_quotes() {
    assert_eq!(sql_string_literal("O'Brien"), "'O''Brien'");
    assert_eq!(sql_quoted_name("a\"b"), "\"a\"\"b\"");
    assert_eq!(sql_string_literal(""), "''");
}

#[test]
fn on_missing_is_read_exactly() {
    assert!(matches!(OnMissing::parse(None), Ok(OnMissing::Error)));
    assert!(matches!(OnMissing::parse(Some("  ")), Ok(OnMissing::Error)));
    assert!(matches!(OnMissing::parse(Some("error")), Ok(OnMissing::Error)));
    assert!(matches!(OnMissing::parse(Some(" create ")), Ok(OnMissing::Create)));
    let err = OnMissing::parse(Some("CREATE")).unwrap_err();
    assert_eq!(err.code, ErrorCode::InvalidArgument);
    assert_eq!(err.message, "on_missing must be 'error' or 'create', got 'CREATE'");
}

#[test]
fn attaching_an_existing_database_runs_two_statements() {
    let mut registry = AttachRegistry::new();
    let a = registry
        .attach(request("Sales", false, OnMissing::Error), facts(true))
        .expect("accepted");
    assert_eq!(statement(&a), "ATTACH DATABASE '/data/sales.hyper' AS \"sales\"");
    let a = a.observe(Ok(()));
    assert_eq!(statement(&a), "SET schema_search_path = 'scratch'");
    let a = a.observe(Ok(()));
    assert!(matches!(a.phase, AttachPhase::Attached));
    let entry = registry.finish_attach(a, (0, 0)).expect("attached");
    assert_eq!(entry.alias, "sales");
    assert_eq!(registry.get("SALES").expect("found").alias, "sales");
    assert_eq!(registry.list().len(), 1);
}

#[test]
fn a_new_database_is_made_and_gets_its_catalog() {
    let registry = AttachRegistry::new();
    let a = registry
        .attach(request("fresh", true, OnMissing::Create), facts(false))
        .expect("accepted");
    assert_eq!(statement(&a), "CREATE DATABASE IF NOT EXISTS '/data/sales.hyper'");
    let a = a.observe(Ok(())).observe(Ok(())).observe(Ok(()));
    assert!(matches!(a.action(), AttachAction::SeedCatalog(alias) if alias == "fresh"));
    let a = a.observe(Err(McpError::new(ErrorCode::InternalError, "no catalog")));
    assert_eq!(statement(&a), "DETACH DATABASE \"fresh\"");
    let a = a.observe(Ok(()));
    assert_eq!(statement(&a), "RESET schema_search_path");
    let a = a.observe(Ok(()));
    assert!(matches!(&a.phase, AttachPhase::Failed { error } if error.message == "no catalog"));
}

#[test]
fn attaching_is_refused_with_its_reason() {
    let mut registry = AttachRegistry::new();
    attached(&mut registry, "sales");
    let err = registry
        .attach(request("SALES", false, OnMissing::Error), facts(true))
        .unwrap_err();
    assert_eq!(err.code, ErrorCode::InvalidArgument);
    assert_eq!(
        err.message,
        "Alias 'sales' is already in use. Detach it first or pick a different alias."
    );
    let err = registry
        .attach(request("other", false, OnMissing::Create), facts(true))
        .unwrap_err();
    assert_eq!(err.code, ErrorCode::InvalidArgument);
    let err = registry
        .attach(request("other", false, OnMissing::Error), facts(false))
        .unwrap_err();
    assert_eq!(err.code, ErrorCode::FileNotFound);
}

#[test]
fn detaching_undoes_attaching() {
    let mut registry = AttachRegistry::new();
    attached(&mut registry, "one");
    attached(&mut registry, "two");
    assert_eq!(registry.detach("ONE").as_deref(), Some("DETACH DATABASE \"one\""));
    assert!(!registry.finish_detach("one"));
    assert!(registry.get("one").is_none());
    assert!(registry.finish_detach("two"));
    assert!(registry.list().is_empty());
    assert_eq!(registry.detach("two"), None);
}

#[test]
fn replaying_keeps_the_survivors_in_order() {
    let mut registry = AttachRegistry::new();
    attached(&mut registry, "one");
    attached(&mut registry, "two");
    attached(&mut registry, "three");
    assert!(registry.replay_all(&vec![true, false, true]));
    let left: Vec<String> = registry.list().into_iter().map(|e| e.alias).collect();
    assert_eq!(left, vec!["one".to_string(), "three".to_string()]);
    assert!(!registry.replay_all(&vec![false, false]));
}
