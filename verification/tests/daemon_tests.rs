use hyperdb_mcp::daemon::discovery::{
    discover, discovery_candidate, discovery_file_path, find_running_daemon, probe_after_connect,
    probe_after_ping, probe_after_status, read_discovery_file, read_discovery_file_raw,
    resolve_port, resolve_port_scan, scan_for_daemon, state_dir, write_discovery_file,
    DaemonBuildIdentity, DaemonInfo, DaemonRecord, DaemonScan, Discovered, DiscoverySource,
    PortScan, ProbeResult, ProbeStep, RawDiscoveryRead, ScanOutcome, StateDirError, WriteStep,
};
use hyperdb_mcp::daemon::health::{
    handle_line, io_deadline, is_identified_pong, normalize_expired_io_error, ping_identified,
    pong_response, remaining_io_time, report_hyperd_error_to_daemon, send_command,
    send_command_with_timeout, CommandExchange, DaemonState, ExchangeErrorKind, ExchangeStep,
    IoFailure,
};
use hyperdb_mcp::daemon::run::{
    after_restart, begin_restart, hyperd_monitor, idle_monitor, published, restarted,
    try_record_restart_attempt, BindFailure, DaemonConfig, DaemonPhase, DaemonSelf, MonitorStep,
    RestartAttempt, RestartError,
};
use hyperdb_mcp::daemon::spawn::{
    client_should_take_over, ensure_daemon, EnsureAction, EnsureDaemon, EnsureErrorKind,
    EnsureEvent, EnsurePhase,
};
use hyperdb_mcp::diagnostics::identity::{PathEncoding, ReportedPath};

fn info(port: u16, version: &str) -> DaemonInfo {
    DaemonInfo {
        pid: 4242,
        hyperd_endpoint: "127.0.0.1:9000".into(),
        health_port: port,
        started_at: "2026-05-01T00:00:00+00:00".into(),
        version: version.into(),
    }
}

fn place() -> ReportedPath {
    ReportedPath::from_os_str("/home/u/.hyperdb/daemon.json", PathEncoding::Utf8)
}

fn content(length: usize) -> DiscoverySource {
    DiscoverySource::Content {
        length,
        record: Some(DaemonRecord {
            info: info(7484, "0.7.0"),
            identity: Some(DaemonBuildIdentity {
                mcp_version: "0.7.0.rabc".into(),
                executable_path: place(),
            }),
        }),
    }
}

fn scan(base: u16, span: u16) -> PortScan {
    PortScan { base, span }
}

fn ours(port: u16) -> ProbeResult {
    ProbeResult::OurDaemon(Box::new(info(port, "0.7.0")))
}

#[test]
fn discovery_files_are_read_within_the_limit() {
    assert!(matches!(
        read_discovery_file_raw(place(), DiscoverySource::NotFound),
        RawDiscoveryRead::Missing { .. }
    ));
    let failed = DiscoverySource::Failed {
        kind: "PermissionDenied".into(),
    };
    assert!(matches!(
        read_discovery_file_raw(place(), failed),
        RawDiscoveryRead::Unreadable { kind, .. } if kind == "PermissionDenied"
    ));
    assert!(matches!(
        read_discovery_file_raw(place(), DiscoverySource::NotRegular),
        RawDiscoveryRead::Unreadable { kind, .. } if kind == "InvalidInput"
    ));
    assert!(matches!(
        read_discovery_file_raw(place(), content(65_536)),
        RawDiscoveryRead::Parsed { .. }
    ));
    assert!(matches!(
        read_discovery_file_raw(place(), content(65_537)),
        RawDiscoveryRead::Malformed { .. }
    ));
    let garbage = DiscoverySource::Content {
        length: 3,
        record: None,
    };
    assert!(matches!(
        read_discovery_file_raw(place(), garbage),
        RawDiscoveryRead::Malformed { .. }
    ));
}

#[test]
fn clients_read_records_of_any_length() {
    let read = read_discovery_file(place(), content(1_000_000));
    assert!(matches!(read, RawDiscoveryRead::Parsed { .. }));
    match discover(read, true) {
        Discovered::Live(found) => assert_eq!(found.pid, 4242),
        other => panic!("expected a daemon, got {other:?}"),
    }
    let read = read_discovery_file(place(), content(1_000_000));
    assert!(matches!(discover(read, false), Discovered::Stale));
    let read = read_discovery_file(place(), DiscoverySource::NotFound);
    assert!(matches!(discover(read, true), Discovered::Nothing));
    assert!(discovery_candidate(read_discovery_file(place(), content(1))).is_some());
}

#[test]
fn the_state_directory_is_found() {
    let dir = state_dir(Some("/state".into()), Some("/home/u".into()), None).unwrap();
    assert_eq!(dir.base, "/state");
    assert!(dir.names.is_empty());
    let file = discovery_file_path(None, Some("/home/u".into()), Some("C:\\u".into())).unwrap();
    assert_eq!(file.base, "/home/u");
    assert_eq!(file.names, vec![".hyperdb".to_string(), "daemon.json".to_string()]);
    let file = discovery_file_path(None, None, Some("C:\\u".into())).unwrap();
    assert_eq!(file.base, "C:\\u");
    assert_eq!(state_dir(None, None, None).unwrap_err(), StateDirError::NoHome);
    assert_eq!(
        write_discovery_file(),
        vec![
            WriteStep::CreateStateDir,
            WriteStep::WriteTemp,
            WriteStep::RenameTemp,
        ]
    );
}

#[test]
fn ports_are_pinned_by_the_environment() {
    let default = scan(7484, 16);
    assert_eq!(resolve_port_scan(Some("9000"), default), scan(9000, 1));
    assert_eq!(resolve_port_scan(Some("+9000"), default), scan(9000, 1));
    assert_eq!(resolve_port_scan(Some("70000"), default), default);
    assert_eq!(resolve_port_scan(Some(" 9000"), default), default);
    assert_eq!(resolve_port_scan(None, default), default);
    assert_eq!(resolve_port(Some("9000"), default), 9000);
}

#[test]
fn a_daemon_is_preferred_to_a_free_port() {
    assert!(matches!(
        scan_for_daemon(scan(10, 3), vec![ProbeResult::Refused, ProbeResult::Camped, ours(12)]),
        ScanOutcome::Found(found) if found.health_port == 12
    ));
    assert!(matches!(
        scan_for_daemon(
            scan(10, 3),
            vec![ProbeResult::Camped, ProbeResult::Refused, ProbeResult::Refused]
        ),
        ScanOutcome::FreePort(11)
    ));
    assert!(matches!(
        scan_for_daemon(scan(10, 2), vec![ProbeResult::Camped, ProbeResult::Camped]),
        ScanOutcome::AllOccupied
    ));
}

#[test]
fn a_scan_stops_at_the_first_daemon_and_at_the_last_port() {
    let mut s = DaemonScan::new(scan(65_534, 10));
    assert_eq!(s.next_port(), Some(65_534));
    s.observe(ProbeResult::Camped);
    assert_eq!(s.next_port(), Some(65_535));
    s.observe(ProbeResult::Refused);
    assert_eq!(s.next_port(), None);
    let mut s = DaemonScan::new(scan(10, 5));
    s.observe(ours(10));
    assert_eq!(s.next_port(), None);
    assert!(matches!(s.outcome(), ScanOutcome::Found(_)));
}

#[test]
fn ports_are_probed_in_steps() {
    assert_eq!(probe_after_ping(true), ProbeStep::AskStatus);
    assert_eq!(probe_after_ping(false), ProbeStep::TryConnect);
    assert!(matches!(
        probe_after_status(Some(info(10, "1.0.0"))),
        ProbeResult::OurDaemon(_)
    ));
    assert!(matches!(probe_after_status(None), ProbeResult::Camped));
    assert!(matches!(probe_after_connect(true), ProbeResult::Camped));
    assert!(matches!(probe_after_connect(false), ProbeResult::Refused));
    assert_eq!(
        find_running_daemon(None, ScanOutcome::Found(Box::new(info(11, "1.0.0"))))
            .unwrap()
            .health_port,
        11
    );
    assert!(find_running_daemon(None, ScanOutcome::FreePort(1)).is_none());
    assert_eq!(
        find_running_daemon(Some(info(10, "1.0.0")), ScanOutcome::AllOccupied)
            .unwrap()
            .health_port,
        10
    );
}

#[test]
fn commands_are_answered() {
    let mut state = DaemonState::new(100);
    let mut ask = |line: &str, now: u64| handle_line(&mut state, line, now, "0.7.0", "{}");
    assert_eq!(ask("PING\n", 200), "PONG hyperdb-mcp 0.7.0\n");
    assert_eq!(ask(" HEARTBEAT \r\n", 300), "OK\n");
    assert_eq!(ask("STATUS", 400), "{}\n");
    assert_eq!(ask("REPORT_HYPERD_ERROR", 500), "OK\n");
    assert_eq!(ask("ping", 600), "ERR unknown command\n");
    assert_eq!(ask("STOP", 700), "STOPPING\n");
    assert_eq!(state.last_activity, 300);
    assert!(state.should_shutdown());
    assert_eq!(state.idle_duration(1000), 700);
    assert_eq!(state.idle_duration(100), 0);
    assert!(state.consume_restart_request());
    assert!(!state.consume_restart_request());
}

#[test]
fn only_this_programs_daemons_are_identified() {
    assert_eq!(
        ping_identified(Some(pong_response("0.7.0").as_str())).as_deref(),
        Some("0.7.0")
    );
    assert_eq!(ping_identified(Some("PONG hyperdb-mcp\n")).as_deref(), Some(""));
    assert_eq!(ping_identified(Some("PONG\n")), None);
    assert_eq!(ping_identified(Some("HTTP/1.1 400")), None);
    assert_eq!(ping_identified(None), None);
    assert!(is_identified_pong("PONG\thyperdb-mcp 1"));
    assert!(!is_identified_pong("PONG hyperdb-mcpx 1"));
}

#[test]
fn requests_have_their_patience() {
    let r = send_command(7484, "STOP");
    assert_eq!((r.port, r.message.as_str()), (7484, "STOP\n"));
    assert_eq!((r.connect_timeout, r.io_timeout), (2000, 5000));
    let r = report_hyperd_error_to_daemon(7484);
    assert_eq!(r.message, "REPORT_HYPERD_ERROR\n");
    assert_eq!((r.connect_timeout, r.io_timeout), (200, 200));
    assert_eq!(io_deadline(5, 10).unwrap(), 15);
    assert_eq!(io_deadline(5, u64::MAX).unwrap_err().kind, ExchangeErrorKind::InvalidInput);
    assert_eq!(remaining_io_time(15, 5).unwrap(), 10);
    assert_eq!(remaining_io_time(15, 15).unwrap_err().kind, ExchangeErrorKind::TimedOut);
}

#[test]
fn an_exchange_sends_a_line_and_receives_one() {
    let request = send_command_with_timeout(7484, "PING", 300, 300);
    let mut x = CommandExchange::new(&request, 1000).unwrap();
    assert_eq!(
        x.next(1100).unwrap(),
        ExchangeStep::Write {
            from: 0,
            timeout: 200
        }
    );
    x.wrote(2, 1100).unwrap();
    assert_eq!(
        x.next(1150).unwrap(),
        ExchangeStep::Write {
            from: 2,
            timeout: 150
        }
    );
    x.wrote(3, 1200).unwrap();
    assert_eq!(x.next(1250).unwrap(), ExchangeStep::Read { timeout: 50 });
    for b in "PONG\n".bytes() {
        x.received(Some(b), 1260).unwrap();
    }
    assert_eq!(x.next(9999).unwrap(), ExchangeStep::Finish);
    assert_eq!(x.finish().unwrap(), "PONG\n");
}

#[test]
fn a_slow_answer_does_not_extend_the_deadline() {
    let request = send_command_with_timeout(7484, "P", 300, 300);
    let mut x = CommandExchange::new(&request, 0).unwrap();
    x.wrote(2, 1).unwrap();
    x.received(Some(b'a'), 100).unwrap();
    x.received(Some(b'b'), 299).unwrap();
    assert_eq!(
        x.received(Some(b'c'), 300).unwrap_err().kind,
        ExchangeErrorKind::TimedOut
    );
    assert_eq!(x.next(301).unwrap_err().kind, ExchangeErrorKind::TimedOut);
}

#[test]
fn failures_of_an_exchange() {
    let request = send_command_with_timeout(7484, "P", 300, u64::MAX);
    assert!(CommandExchange::new(&request, 1).is_err());
    let request = send_command_with_timeout(7484, "P", 300, 300);
    let mut x = CommandExchange::new(&request, 0).unwrap();
    assert_eq!(x.wrote(0, 1).unwrap_err().kind, ExchangeErrorKind::WriteZero);
    x.wrote(2, 1).unwrap();
    for _ in 0..65_536 {
        x.received(Some(b'x'), 1).unwrap();
    }
    let err = x.received(Some(b'x'), 1).unwrap_err();
    assert_eq!(err.kind, ExchangeErrorKind::InvalidData);
    assert_eq!(err.message, "health response exceeds the 64 KiB limit");
    let mut x = CommandExchange::new(&request, 0).unwrap();
    x.wrote(2, 1).unwrap();
    x.received(Some(0xff), 1).unwrap();
    x.received(None, 1).unwrap();
    let err = x.finish().unwrap_err();
    assert_eq!(
        err.message,
        "health response is not valid UTF-8: invalid utf-8 sequence of 1 bytes from index 0"
    );
    let refused = IoFailure {
        timed_out: false,
        message: "reset".into(),
    };
    let e = normalize_expired_io_error(refused, 10, 9);
    assert_eq!((e.kind, e.message.as_str()), (ExchangeErrorKind::Io, "reset"));
    let late = IoFailure {
        timed_out: false,
        message: "reset".into(),
    };
    assert_eq!(normalize_expired_io_error(late, 10, 10).kind, ExchangeErrorKind::TimedOut);
}

#[test]
fn restarts_are_limited() {
    let mut history = Vec::new();
    assert_eq!(try_record_restart_attempt(&mut history, 0), RestartAttempt::Recorded);
    assert_eq!(try_record_restart_attempt(&mut history, 1000), RestartAttempt::Recorded);
    assert_eq!(try_record_restart_attempt(&mut history, 2000), RestartAttempt::Recorded);
    assert_eq!(try_record_restart_attempt(&mut history, 59_999), RestartAttempt::LimitExceeded);
    assert_eq!(history, vec![0, 1000, 2000]);
    assert_eq!(try_record_restart_attempt(&mut history, 60_000), RestartAttempt::Recorded);
    assert_eq!(history, vec![1000, 2000, 60_000]);
    assert!(matches!(
        begin_restart(&mut history, 60_001),
        Err(RestartError::TooManyRestarts)
    ));
    assert!(begin_restart(&mut history, 200_000).is_ok());
    assert_eq!(history, vec![200_000]);
}

#[test]
fn the_daemon_stops_when_idle() {
    let mut state = DaemonState::new(1000);
    assert!(!idle_monitor(&state, 60_999, 60));
    assert!(idle_monitor(&state, 61_000, 60));
    assert!(idle_monitor(&state, 1000, 0));
    state.request_shutdown();
    assert!(idle_monitor(&state, 1000, 60));
}

#[test]
fn the_database_process_is_watched() {
    let mut state = DaemonState::new(0);
    assert_eq!(hyperd_monitor(&mut state, false), MonitorStep::Wait);
    assert_eq!(hyperd_monitor(&mut state, true), MonitorStep::Restart);
    state.request_restart();
    assert_eq!(hyperd_monitor(&mut state, false), MonitorStep::Restart);
    assert_eq!(hyperd_monitor(&mut state, false), MonitorStep::Wait);
    state.request_restart();
    assert_eq!(after_restart(&mut state, &Ok("h:1".into())), MonitorStep::Wait);
    assert!(!state.restart_requested);
    assert_eq!(
        after_restart(&mut state, &Err(RestartError::TooManyRestarts)),
        MonitorStep::Stop
    );
    assert_eq!(
        after_restart(&mut state, &Err(RestartError::SpawnFailed("x".into()))),
        MonitorStep::Wait
    );
    state.request_shutdown();
    assert_eq!(hyperd_monitor(&mut state, true), MonitorStep::Stop);
}

#[test]
fn a_restarted_process_is_published() {
    let mut i = info(7484, "0.7.0");
    assert_eq!(restarted(&mut i, Ok(Some("h:2".into()))).unwrap(), "h:2");
    assert_eq!(i.hyperd_endpoint, "h:2");
    assert!(matches!(
        restarted(&mut i, Ok(None)),
        Err(RestartError::SpawnFailed(m)) if m == "hyperd did not report endpoint"
    ));
    assert!(matches!(
        restarted(&mut i, Err("gone".into())),
        Err(RestartError::SpawnFailed(m)) if m == "gone"
    ));
    assert_eq!(i.hyperd_endpoint, "h:2");
    assert_eq!(published("h:2".into(), Ok(())).unwrap(), "h:2");
    assert!(matches!(
        published("h:2".into(), Err("disk full".into())),
        Err(RestartError::SpawnFailed(m)) if m == "discovery write: disk full"
    ));
}

#[test]
fn the_daemon_comes_up_and_goes() {
    let config = DaemonConfig::from_args(7484, None, Some("90"));
    assert_eq!(config.idle_timeout, Some(90));
    assert_eq!(DaemonConfig::from_args(1, Some(5), Some("90")).idle_timeout, Some(5));
    assert_eq!(DaemonConfig::from_args(1, None, Some("soon")).idle_timeout, None);
    let me = DaemonSelf {
        pid: 7,
        started_at: "now".into(),
        version: "0.7.0".into(),
    };
    assert!(matches!(
        DaemonPhase::bound(&config, Ok(7484)),
        DaemonPhase::StartProcess { port: 7484 }
    ));
    let phase = DaemonPhase::started(7484, me, Ok(Some("h:1".into())));
    let phase = phase.next(Ok(()));
    assert!(matches!(&phase, DaemonPhase::Serve(i) if i.pid == 7 && i.health_port == 7484));
    let phase = phase.next(Ok(()));
    assert!(matches!(phase, DaemonPhase::Withdraw));
    assert!(matches!(phase.next(Ok(())), DaemonPhase::Stopped));
    let taken = BindFailure {
        in_use: true,
        reason: String::new(),
    };
    assert!(matches!(
        DaemonPhase::bound(&config, Err(taken)),
        DaemonPhase::Failed(m) if m == "Another hyperdb daemon is already running on port 7484. Use `hyperdb-mcp daemon status` to check or `hyperdb-mcp daemon stop` to stop it."
    ));
    let denied = BindFailure {
        in_use: false,
        reason: "denied".into(),
    };
    assert!(matches!(
        DaemonPhase::bound(&config, Err(denied)),
        DaemonPhase::Failed(m) if m == "Failed to bind health port 7484: denied"
    ));
    let me = DaemonSelf {
        pid: 7,
        started_at: "now".into(),
        version: "0.7.0".into(),
    };
    assert!(matches!(
        DaemonPhase::started(1, me, Ok(None)),
        DaemonPhase::Failed(m) if m == "hyperd did not report an endpoint"
    ));
    assert!(matches!(
        DaemonPhase::Announce(info(1, "1.0.0")).next(Err("full".into())),
        DaemonPhase::Failed(m) if m == "full"
    ));
}

#[test]
fn newer_clients_take_over() {
    assert!(client_should_take_over("0.8.0", "0.7.9"));
    assert!(client_should_take_over("1.0.0", "1.0.0-rc.1"));
    assert!(client_should_take_over("1.0.0-rc.2", "1.0.0-rc.1"));
    assert!(!client_should_take_over("0.7.0", "0.7.0"));
    assert!(!client_should_take_over("0.7.0", "0.10.0"));
    assert!(!client_should_take_over("0.7", "0.1.0"));
    assert!(!client_should_take_over("0.7.0", "dev"));
}

fn until_await(port: u16) -> EnsureDaemon {
    ensure_daemon(scan(7484, 8))
        .observe(EnsureEvent::Discovered(None), 0)
        .observe(EnsureEvent::Scanned(ScanOutcome::FreePort(port)), 0)
        .observe(EnsureEvent::Spawned(Ok(())), 100)
}

#[test]
fn a_running_daemon_is_used() {
    let e = ensure_daemon(scan(7484, 8));
    assert_eq!(e.action(), EnsureAction::Discover);
    let e = e.observe(EnsureEvent::Discovered(Some(info(7485, "0.7.0"))), 0);
    assert_eq!(e.action(), EnsureAction::Compare);
    let e = e.compare("0.7.0", 0);
    assert!(matches!(&e.phase, EnsurePhase::Ready(i) if i.health_port == 7485));
    assert_eq!(e.action(), EnsureAction::Nothing);
}

#[test]
fn a_daemon_is_started_and_awaited() {
    let e = until_await(7484);
    assert_eq!(e.action(), EnsureAction::Discover);
    let e = e.observe(EnsureEvent::Discovered(None), 200);
    assert_eq!(e.action(), EnsureAction::Sleep(100));
    let e = e.observe(EnsureEvent::Done, 300);
    let e = e.observe(EnsureEvent::Discovered(Some(info(7484, "0.7.0"))), 400);
    assert!(matches!(e.phase, EnsurePhase::Ready(_)));
    let late = until_await(7484).observe(EnsureEvent::Discovered(None), 10_100);
    match late.phase {
        EnsurePhase::Failed(e) => {
            assert_eq!(e.kind, EnsureErrorKind::TimedOut);
            assert_eq!(e.message, "daemon did not become ready within 10 seconds");
        }
        other => panic!("expected a failure, got {other:?}"),
    }
}

#[test]
fn the_daemon_at_the_lower_port_stays() {
    let e = until_await(7486).observe(EnsureEvent::Discovered(Some(info(7486, "0.7.0"))), 200);
    assert_eq!(e.action(), EnsureAction::Scan(scan(7484, 2)));
    let alone = ensure_daemon(scan(7484, 8));
    let e = e.observe(
        EnsureEvent::Scanned(ScanOutcome::Found(Box::new(info(7485, "0.7.0")))),
        300,
    );
    assert_eq!(e.action(), EnsureAction::Stop(7486));
    let e = e.observe(EnsureEvent::Done, 400);
    assert!(matches!(e.phase, EnsurePhase::Ready(i) if i.health_port == 7485));
    assert!(matches!(alone.phase, EnsurePhase::Discover));
}

fn until_asked() -> EnsureDaemon {
    let e = ensure_daemon(scan(7484, 8))
        .observe(EnsureEvent::Discovered(Some(info(7485, "0.6.0"))), 0)
        .compare("0.7.0", 0);
    assert_eq!(e.action(), EnsureAction::Stop(7485));
    let e = e.observe(EnsureEvent::Done, 1000);
    assert_eq!(e.action(), EnsureAction::Ping(7485));
    e
}

#[test]
fn an_older_daemon_is_replaced_at_its_port() {
    let e = until_asked().observe(EnsureEvent::Answered(true), 1100);
    assert_eq!(e.action(), EnsureAction::Sleep(100));
    let e = e
        .observe(EnsureEvent::Done, 1200)
        .observe(EnsureEvent::Answered(false), 1300);
    assert_eq!(e.action(), EnsureAction::Discover);
    let e = e.observe(EnsureEvent::Discovered(None), 1300);
    assert_eq!(e.action(), EnsureAction::Spawn(7485));
    let e = e
        .observe(EnsureEvent::Spawned(Ok(())), 1400)
        .observe(EnsureEvent::Discovered(Some(info(7485, "0.7.0"))), 1500);
    assert!(matches!(e.phase, EnsurePhase::Ready(i) if i.version == "0.7.0"));
}

#[test]
fn a_daemon_that_does_not_stop_is_used() {
    let e = until_asked()
        .observe(EnsureEvent::Answered(true), 10_900)
        .observe(EnsureEvent::Done, 11_000);
    assert!(matches!(e.phase, EnsurePhase::Ready(i) if i.version == "0.6.0"));
}

#[test]
fn failures_to_get_a_daemon() {
    let e = ensure_daemon(scan(7484, 8))
        .observe(EnsureEvent::Discovered(None), 0)
        .observe(EnsureEvent::Scanned(ScanOutcome::AllOccupied), 0);
    match e.phase {
        EnsurePhase::Failed(e) => {
            assert_eq!(e.kind, EnsureErrorKind::AddrInUse);
            assert_eq!(e.message, "no free hyperdb daemon port in 7484..7492");
        }
        other => panic!("expected a failure, got {other:?}"),
    }
    let e = ensure_daemon(scan(7484, 8))
        .observe(EnsureEvent::Discovered(None), 0)
        .observe(EnsureEvent::Scanned(ScanOutcome::FreePort(7484)), 0)
        .observe(EnsureEvent::Spawned(Err("no such file".into())), 0);
    assert!(matches!(
        e.phase,
        EnsurePhase::Failed(e) if e.kind == EnsureErrorKind::Other && e.message == "no such file"
    ));
}
