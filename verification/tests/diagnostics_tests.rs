use hyperdb_mcp::daemon::discovery::{
    DaemonBuildIdentity, DaemonInfo, DaemonRecord, PortScan, RawDiscoveryRead,
};
use hyperdb_mcp::daemon::health::ExchangeErrorKind;
use hyperdb_mcp::diagnostics::daemon::{
    collect_doctor_daemon, discovery_fact_mismatches, doctor_deadline, doctor_network_timeout,
    is_accepted, next_probe, should_ask_status, status_text, DiscoveryFactMismatch,
    DoctorDaemonReport, DoctorDaemonState, DoctorDaemonWarning, LineBuffer, StatusAnswer,
    StatusReply,
};
use hyperdb_mcp::diagnostics::identity::{
    bounded_string, installation_identity_from_parts, parse_launcher_identity,
    parse_source_version, split_source_version, IdentityWarning, LauncherInfo, PathEncoding,
    RawLauncherIdentity, RawLauncherPackageIdentity, ReportedPath,
};
use hyperdb_mcp::diagnostics::render::{escape_human, render_doctor_human};
use hyperdb_mcp::diagnostics::report::{
    collect_doctor_report, daemon_doctor_warning, doctor_daemon_section, doctor_warning,
    identity_doctor_warning, normalized_persistent_parent, resolve_configured_hyperd,
    resolve_doctor_hyperd, ConfiguredHyperd, ConfiguredHyperdFacts, DoctorFacts,
    DoctorHyperdResolution, DoctorOptions, DoctorPathFacts, DoctorToolCatalogReport, HyperdChoice,
    HyperdVariable, PersistentDbPathSource, PersistentMode, ResolvedPersistentDb,
};

fn path(p: &str) -> ReportedPath {
    ReportedPath::from_os_str(p, PathEncoding::Utf8)
}

fn package(name: &str, version: Option<&str>) -> RawLauncherPackageIdentity {
    RawLauncherPackageIdentity {
        name: name.into(),
        version: version.map(str::to_string),
        package_path: "/pkg/package.json".into(),
    }
}

fn launcher(wrapper: Option<&str>, platform: Option<&str>) -> LauncherInfo {
    LauncherInfo {
        byte_length: 200,
        content: Some(RawLauncherIdentity {
            wrapper: package("hyperdb-mcp", wrapper),
            platform: package("hyperdb-mcp-linux", platform),
            executable_path: "/pkg/bin/hyperdb-mcp".into(),
        }),
    }
}

fn record(pid: u32, port: u16, build: Option<&str>) -> DaemonRecord {
    DaemonRecord {
        info: DaemonInfo {
            pid,
            hyperd_endpoint: "127.0.0.1:9000".into(),
            health_port: port,
            started_at: "2026-05-01T00:00:00+00:00".into(),
            version: "0.7.0".into(),
        },
        identity: build.map(|b| DaemonBuildIdentity {
            mcp_version: b.into(),
            executable_path: path("/opt/hyperdb/daemon"),
        }),
    }
}

fn parsed(pid: u32, port: u16, build: Option<&str>) -> RawDiscoveryRead {
    RawDiscoveryRead::Parsed {
        path: path("/s/daemon.json"),
        record: record(pid, port, build),
    }
}

fn status(pid: u32, port: u16, build: Option<&str>) -> StatusAnswer {
    StatusAnswer::Status(record(pid, port, build))
}

fn missing() -> RawDiscoveryRead {
    RawDiscoveryRead::Missing {
        path: path("/s/daemon.json"),
    }
}

fn found(p: &str, exists: bool) -> DoctorPathFacts {
    DoctorPathFacts {
        path: path(p),
        exists,
        is_file: exists,
        is_directory: false,
    }
}

fn collect(
    raw: RawDiscoveryRead,
    ports: PortScan,
    mut answer: impl FnMut(u16) -> StatusAnswer,
) -> DoctorDaemonReport {
    let mut answers = Vec::new();
    while let Some(target) = next_probe(&raw, ports, &answers) {
        answers.push(answer(target.port));
    }
    collect_doctor_daemon(raw, ports, answers)
}

#[test]
fn texts_are_cut_at_a_character() {
    assert_eq!(bounded_string("short"), "short");
    let long = "é".repeat(3000);
    let cut = bounded_string(&long);
    assert_eq!(cut.len(), 4096);
    let odd = format!("x{long}");
    assert_eq!(bounded_string(&odd).len(), 4095);
}

#[test]
fn launcher_metadata_is_accepted_whole_or_not_at_all() {
    let none = parse_launcher_identity(None);
    assert!(none.identity.is_none() && none.warnings.is_empty());
    let good = parse_launcher_identity(Some(launcher(Some("0.7.0"), None)));
    assert_eq!(good.identity.unwrap().wrapper.version.as_deref(), Some("0.7.0"));
    let garbage = parse_launcher_identity(Some(LauncherInfo {
        byte_length: 5,
        content: None,
    }));
    assert!(matches!(garbage.warnings[0], IdentityWarning::MalformedLauncherInfo));
    let large = parse_launcher_identity(Some(LauncherInfo {
        byte_length: 16_385,
        ..launcher(None, None)
    }));
    assert!(large.identity.is_none());
    assert!(matches!(large.warnings[0], IdentityWarning::LauncherInfoTooLarge));
    let mut field = launcher(None, None);
    if let Some(content) = &mut field.content {
        content.platform.name = "n".repeat(4097);
    }
    let field = parse_launcher_identity(Some(field));
    assert!(field.identity.is_none());
    assert!(matches!(
        &field.warnings[0],
        IdentityWarning::LauncherFieldTooLarge { field } if field == "platform.name"
    ));
}

#[test]
fn source_versions_are_split_at_their_mark() {
    let split = split_source_version("0.7.0.rabc123");
    assert_eq!((split.version.as_str(), split.build.as_deref()), ("0.7.0", Some("abc123")));
    assert!(split.suffix_is_valid);
    let (identity, read) = parse_source_version("0.7.0.rabc123");
    assert_eq!(identity.version.as_deref(), Some("0.7.0"));
    assert_eq!(read.unwrap().minor, 7);
    let (identity, read) = parse_source_version("unknown");
    assert_eq!(identity.source, "unknown");
    assert!(identity.version.is_none() && read.is_none());
    assert!(!split_source_version("0.7.0.r").suffix_is_valid);
}

#[test]
fn versions_of_an_installation_are_compared() {
    let same = installation_identity_from_parts(
        path("/bin/x"),
        "0.7.0.rabc",
        "0.7.0",
        Some(launcher(Some("0.7.0"), None)),
    );
    assert!(same.warnings.is_empty());
    let differs = installation_identity_from_parts(
        path("/bin/x"),
        "0.7.0.rabc",
        "dev",
        Some(launcher(Some("0.6.0"), Some("nonsense"))),
    );
    assert!(differs.warnings.iter().any(|w| matches!(
        w,
        IdentityWarning::VersionMismatch { native, wrapper, platform }
            if native == "0.7.0" && wrapper.as_deref() == Some("0.6.0") && platform.is_none()
    )));
    assert_eq!(
        differs
            .warnings
            .iter()
            .filter(|w| matches!(w, IdentityWarning::MalformedVersion { .. }))
            .count(),
        2
    );
}

#[test]
fn states_of_the_daemon_are_told_apart() {
    let none = PortScan { base: 7490, span: 0 };
    let unreachable = |_: u16| StatusAnswer::Unreachable;
    let r = collect(missing(), none, unreachable);
    assert_eq!(r.state, DoctorDaemonState::Missing);
    assert!(r.warnings.is_empty());
    let unreadable = RawDiscoveryRead::Unreadable {
        path: path("/s/daemon.json"),
        kind: "PermissionDenied".into(),
    };
    let r = collect(unreadable, none, unreachable);
    assert_eq!(r.state, DoctorDaemonState::Unreadable);
    assert!(matches!(
        &r.warnings[0],
        DoctorDaemonWarning::DiscoveryUnreadable { kind } if kind == "PermissionDenied"
    ));
    let malformed = RawDiscoveryRead::Malformed {
        path: path("/s/daemon.json"),
    };
    let r = collect(malformed, none, unreachable);
    assert_eq!(r.state, DoctorDaemonState::Malformed);
    assert!(matches!(r.warnings[0], DoctorDaemonWarning::MalformedDiscovery));
    let r = collect(parsed(4040, 7485, Some("0.7.0.rstale")), none, unreachable);
    assert_eq!(r.state, DoctorDaemonState::ParsedUnreachable);
    assert!(matches!(
        r.warnings[0],
        DoctorDaemonWarning::DiscoveryCandidateUnreachable { responding_port: 7485 }
    ));
    let r = collect(parsed(4242, 7486, Some("0.7.0.rx")), none, |port| {
        status(4242, port, Some("0.7.0.rx"))
    });
    assert_eq!(r.state, DoctorDaemonState::LiveFromDiscovery);
    assert!(r.warnings.is_empty());
    assert_eq!(r.verified.unwrap().responding_port, 7486);
    let r = collect(missing(), PortScan { base: 7487, span: 1 }, |port| {
        status(5151, port, Some("0.7.0.rscan"))
    });
    assert_eq!(r.state, DoctorDaemonState::LiveFromScan);
    assert_eq!(r.verified.unwrap().record.info.pid, 5151);
}

#[test]
fn invalid_answers_are_passed_over() {
    let r = collect(missing(), PortScan { base: 7484, span: 4 }, |port| match port {
        7484 => StatusAnswer::Unparsable,
        7485 => status(1, 7485, None),
        7486 => status(1, 9999, Some("b")),
        _ => status(1, port, Some("b")),
    });
    assert_eq!(r.state, DoctorDaemonState::LiveFromScan);
    assert_eq!(r.verified.as_ref().unwrap().responding_port, 7487);
    assert_eq!(r.warnings.len(), 3);
    assert!(matches!(
        r.warnings[0],
        DoctorDaemonWarning::MalformedStatus { responding_port: 7484 }
    ));
    assert!(matches!(
        r.warnings[1],
        DoctorDaemonWarning::MalformedStatus { responding_port: 7485 }
    ));
    assert!(matches!(
        r.warnings[2],
        DoctorDaemonWarning::StatusHealthPortMismatch {
            responding_port: 7486,
            reported_port: 9999
        }
    ));
    assert!(is_accepted(7484, &status(1, 7484, Some("b"))));
    assert!(!is_accepted(7484, &status(1, 7485, Some("b"))));
}

#[test]
fn the_recorded_daemon_is_asked_first_and_without_a_greeting() {
    let raw = parsed(1, 7499, Some("b"));
    let ports = PortScan { base: 7484, span: 2 };
    let first = next_probe(&raw, ports, &vec![]).unwrap();
    assert_eq!((first.port, first.handshake), (7499, false));
    let second = next_probe(&raw, ports, &vec![StatusAnswer::Unreachable]).unwrap();
    assert_eq!((second.port, second.handshake), (7484, true));
}

#[test]
fn replaced_daemons_are_noticed() {
    let facts = discovery_fact_mismatches(&record(1, 7484, Some("a")), &record(2, 7484, Some("b")));
    assert_eq!(facts.len(), 2);
    assert!(matches!(
        facts[0],
        DiscoveryFactMismatch::Pid {
            recorded: 1,
            fresh: 2
        }
    ));
    let r = collect(
        parsed(1, 7484, Some("a")),
        PortScan { base: 7484, span: 1 },
        |port| status(2, port, Some("a")),
    );
    let w = daemon_doctor_warning(&r.warnings[0]);
    assert_eq!(w.code, "daemon_discovery_stale_or_replaced");
    assert_eq!(
        w.message,
        "Fresh daemon STATUS disagreed with the discovery record: PID recorded=1 fresh=2."
    );
}

#[test]
fn the_doctor_waits_no_longer_than_its_deadline() {
    assert_eq!(doctor_deadline(1000), 1500);
    assert_eq!(doctor_network_timeout(1500, 1000).unwrap(), 300);
    assert_eq!(doctor_network_timeout(1500, 1400).unwrap(), 100);
    assert_eq!(
        doctor_network_timeout(1500, 1500).unwrap_err().kind,
        ExchangeErrorKind::TimedOut
    );
}

#[test]
fn lines_are_received_in_chunks() {
    let mut b = LineBuffer::new();
    assert_eq!(b.capacity(), 1024);
    b.received(b"{\"pid\"").unwrap();
    assert!(!b.complete);
    b.received(b":1}\nrest").unwrap();
    assert!(b.complete);
    assert_eq!(b.finish().unwrap(), "{\"pid\":1}\n");
    let mut b = LineBuffer::new();
    let chunk = [b'x'; 1024];
    for _ in 0..64 {
        b.received(&chunk).unwrap();
    }
    assert_eq!(b.capacity(), 1);
    assert_eq!(b.received(b"x").unwrap_err().kind, ExchangeErrorKind::InvalidData);
    let mut b = LineBuffer::new();
    b.received(&[0xff]).unwrap();
    b.received(&[]).unwrap();
    assert!(b.finish().is_err());
}

#[test]
fn ports_are_asked_for_their_status() {
    assert!(should_ask_status(false, None));
    assert!(should_ask_status(true, Some("PONG hyperdb-mcp 1\n")));
    assert!(!should_ask_status(true, Some("hello\n")));
    assert!(!should_ask_status(true, None));
    assert_eq!(status_text(StatusReply::Line("x\n".into())).as_deref(), Some("x\n"));
    assert_eq!(status_text(StatusReply::InvalidData).as_deref(), Some(""));
    assert_eq!(status_text(StatusReply::Failed), None);
}

#[test]
fn findings_have_their_words() {
    let w = identity_doctor_warning(&IdentityWarning::VersionMismatch {
        native: "0.7.0".into(),
        wrapper: Some("0.6.0".into()),
        platform: None,
    });
    assert_eq!(w.code, "launcher_native_version_mismatch");
    assert_eq!(
        w.message,
        "Launcher package versions differ from native 0.7.0: wrapper=0.6.0, platform=unavailable."
    );
    let w = identity_doctor_warning(&IdentityWarning::LauncherFieldTooLarge {
        field: "platform.name".into(),
    });
    assert_eq!(
        w.message,
        "Launcher field 'platform.name' exceeded 4 KiB and all launcher metadata was ignored."
    );
    assert_eq!(doctor_warning("c", &"m".repeat(5000)).message.len(), 4096);
}

#[test]
fn the_database_executable_is_resolved() {
    let facts = ConfiguredHyperdFacts {
        is_directory: true,
        executable_in_directory: false,
        bare_in_directory: false,
        exists: true,
        suffixed_exists: false,
    };
    let (choice, warning) = resolve_configured_hyperd(facts, "hyperd");
    assert_eq!(choice, HyperdChoice::Unavailable);
    assert_eq!(
        warning.unwrap().message,
        "HYPERD_PATH is a directory, but hyperd was not found in that directory."
    );
    let configured = |facts| {
        HyperdVariable::Configured(ConfiguredHyperd {
            facts,
            observed: found("/h", true),
            in_directory: found("/h/hyperd", true),
            bare_in_directory: found("/h/hyperd", false),
            suffixed: found("/h.exe", false),
        })
    };
    let inside = ConfiguredHyperdFacts {
        executable_in_directory: true,
        ..facts
    };
    let r = resolve_doctor_hyperd(configured(inside), "hyperd", Some(found("/up", true)));
    assert_eq!(r.effective.unwrap().path.display, "/h/hyperd");
    assert!(r.upward_candidate.is_none() && r.warning.is_none());
    let nothing = ConfiguredHyperdFacts {
        is_directory: false,
        exists: false,
        ..facts
    };
    let r = resolve_doctor_hyperd(configured(nothing), "hyperd", None);
    assert!(r.effective.is_none());
    assert_eq!(r.warning.unwrap().code, "observed_hyperd_path_missing");
    let r = resolve_doctor_hyperd(
        HyperdVariable::NotText {
            observed: found("/?", false),
        },
        "hyperd",
        Some(found("/up", true)),
    );
    assert_eq!(r.effective.unwrap().path.display, "/up");
    assert_eq!(r.upward_candidate.unwrap().path.display, "/up");
    assert_eq!(r.warning.unwrap().code, "non_utf8_hyperd_path_ignored");
    let r = resolve_doctor_hyperd(HyperdVariable::Absent, "hyperd", None);
    assert!(r.observed.is_none() && r.effective.is_none() && r.warning.is_none());
}

#[test]
fn the_directory_of_a_bare_name_is_the_current_one() {
    assert_eq!(normalized_persistent_parent(Some("/d")), "/d");
    assert_eq!(normalized_persistent_parent(Some("")), ".");
    assert_eq!(normalized_persistent_parent(None), ".");
}

#[test]
fn control_characters_are_shown_by_number() {
    assert_eq!(escape_human("a\x1b[31m\nb\x7f"), "a\\u{1b}[31m\\u{a}b\\u{7f}");
    assert_eq!(escape_human("東京"), "東京");
    assert_eq!(escape_human(&"\n".repeat(2000)).len(), 4096);
}

fn doctor_facts() -> DoctorFacts {
    DoctorFacts {
        installation: installation_identity_from_parts(path("/bin/\x1bx"), "0.7.0.ra", "0.7.0", None),
        persistent: ResolvedPersistentDb {
            source: PersistentDbPathSource::DeprecatedAlias,
            observed: Some(path("~/db.hyper")),
            resolved: Some((found("/home/u/db.hyper", true), found("/home/u", true))),
        },
        state_error: None,
        daemon_state_directory: None,
        daemon_discovery_file: None,
        client_log: found("/home/u/hyperdb-mcp.log", false),
        hyperd: DoctorHyperdResolution {
            observed: None,
            effective: None,
            upward_candidate: None,
            warning: None,
        },
        daemon: collect(missing(), PortScan { base: 1, span: 1 }, |p| {
            status(9, p, Some("0.7.0.rother"))
        }),
        catalog: DoctorToolCatalogReport {
            tool_count: 12,
            canonical_tool_bytes: 3456,
            initialization_instructions_bytes: 78,
            get_readme_bytes: 90,
        },
    }
}

fn options(ephemeral_only: bool) -> DoctorOptions<'static> {
    DoctorOptions {
        persistent_db: None,
        deprecated_workspace: Some("~/db.hyper"),
        ephemeral_only,
        read_only: true,
        no_daemon: false,
    }
}

#[test]
fn reports_are_collected_and_shown() {
    let report = collect_doctor_report(options(false), doctor_facts());
    assert_eq!(report.configuration.persistent_mode, PersistentMode::PersistentAttached);
    assert!(report.configuration.read_only);
    assert_eq!(report.daemon.pid, Some(9));
    assert_eq!(report.daemon.mcp_version.as_deref(), Some("0.7.0.rother"));
    assert!(!report.warnings.is_empty());
    let shown = render_doctor_human(&report);
    assert!(shown.starts_with("Status\n  Overall: ok\n\nInstallation\n"));
    assert!(shown.contains("  Native executable: /bin/\\u{1b}x (encoding: utf8)\n"));
    assert!(shown.contains("  Launcher-reported metadata: absent\n"));
    assert!(shown.contains("  Persistent path source: deprecated_alias\n"));
    assert!(shown.contains("  State: live_from_scan\n"));
    assert!(shown.contains("  Tools: 12\n"));
    assert!(shown.chars().all(|c| c == '\n' || !('\u{0}'..='\u{1f}').contains(&c)));
}

#[test]
fn a_dead_daemon_has_no_facts() {
    let r = collect(missing(), PortScan { base: 1, span: 1 }, |_| StatusAnswer::Unreachable);
    let section = doctor_daemon_section(&r);
    assert_eq!(section.state, DoctorDaemonState::Missing);
    assert!(section.pid.is_none() && section.health_port.is_none());
}
