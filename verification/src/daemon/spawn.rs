//! How a client gets its daemon: it uses the one that runs, replaces one that is older
//! than itself, or starts one.

use vstd::prelude::*;

use crate::daemon::discovery::{DaemonInfo, PortScan, ScanOutcome};
use crate::text;
use crate::version;
use crate::version::version_above;

verus! {

/// How many milliseconds a daemon has to come up, or to stop.
pub const SPAWN_TIMEOUT: u64 = 10000;

/// How many milliseconds pass between two looks at a daemon that comes up or stops.
pub const POLL_INTERVAL: u64 = 100;

/// How many milliseconds a daemon that stops has to answer.
pub const STOP_PING_TIMEOUT: u64 = 200;

/// Whether a client of one version is to replace a daemon of another: both can be read,
/// and the client's is above the daemon's.
pub open spec fn takes_over(client_ver: Seq<char>, daemon_ver: Seq<char>) -> bool {
    version::is_version(client_ver) && version::is_version(daemon_ver) && version::semver_above(
        client_ver,
        daemon_ver,
    )
}

/// Whether a client is to replace a daemon: both versions can be read, and the client's
/// is above the daemon's.
pub fn client_should_take_over(client_ver: &str, daemon_ver: &str) -> (r: bool)
    ensures
        r == takes_over(client_ver@, daemon_ver@),
        r ==> !takes_over(daemon_ver@, client_ver@),
        client_ver@ == daemon_ver@ ==> !r,
        match (version::semver_parts(client_ver@), version::semver_parts(daemon_ver@)) {
            (Some(client), Some(daemon)) => {
                &&& !version::same_numbers(client, daemon) ==> r == version::numbers_above(
                    client,
                    daemon,
                )
                &&& version::same_numbers(client, daemon) && client.pre.len() == 0
                    && daemon.pre.len() > 0 ==> r
                &&& version::same_numbers(client, daemon) && client.pre.len() > 0
                    && daemon.pre.len() == 0 ==> !r
            },
            _ => !r,
        },
{
    match version_above(client_ver, daemon_ver) {
        Some(above) => above,
        None => false,
    }
}

/// Why there is no daemon.
#[derive(Debug, Clone, Copy, PartialEq, Eq, Structural)]
pub enum EnsureErrorKind {
    /// No port is free.
    AddrInUse,
    /// The daemon did not come up in time.
    TimedOut,
    /// The daemon could not be started.
    Other,
}

/// Why there is no daemon, in words.
#[derive(Debug)]
pub struct EnsureError {
    /// The kind of the failure.
    pub kind: EnsureErrorKind,
    /// The words.
    pub message: String,
}

impl EnsureError {
    /// Whether this is the failure `kind`, in the words `message`.
    pub open spec fn says(self, kind: EnsureErrorKind, message: Seq<char>) -> bool {
        self.kind == kind && self.message@ == message
    }
}

/// How far a client is on its way to a daemon. Times are milliseconds of a clock that
/// does not run backwards.
#[derive(Debug)]
pub enum EnsurePhase {
    /// The discovery file is to be looked at.
    Discover,
    /// The ports are to be asked.
    Scan,
    /// A daemon was found: its version is to be compared with the client's.
    Compare(DaemonInfo),
    /// A daemon is to be started at a port.
    Spawn {
        /// The port.
        port: u16,
        /// Whether the port was free, so that another client may have been faster.
        fresh: bool,
    },
    /// The new daemon is awaited: the discovery file is to be looked at.
    Await {
        /// Since when.
        since: u64,
        /// Whether the port was free.
        fresh: bool,
    },
    /// The new daemon is awaited: some time is to pass.
    Pause {
        /// Since when.
        since: u64,
        /// Whether the port was free.
        fresh: bool,
    },
    /// The new daemon is up: the ports below its own are to be asked.
    ScanLower(DaemonInfo),
    /// Another daemon answers at a lower port: the new one is to be stopped.
    StopHigher {
        /// The port of the new one.
        port: u16,
        /// The other one.
        lower: DaemonInfo,
    },
    /// The old daemon is to be stopped.
    StopOld(DaemonInfo),
    /// The old daemon is to be asked whether it is still there.
    AskOld {
        /// The old daemon.
        former: DaemonInfo,
        /// Until when it is asked.
        deadline: u64,
    },
    /// The old daemon is still there: some time is to pass.
    PauseOld {
        /// The old daemon.
        former: DaemonInfo,
        /// Until when it is asked.
        deadline: u64,
    },
    /// The old daemon is gone: the discovery file is to be looked at, since another
    /// client may have replaced it.
    LookForFresh(DaemonInfo),
    /// There is a daemon.
    Ready(DaemonInfo),
    /// There is none.
    Failed(EnsureError),
}

/// What is to be done to get a daemon.
#[derive(Debug, Clone, Copy, PartialEq, Eq, Structural)]
pub enum EnsureAction {
    /// Look at the discovery file.
    Discover,
    /// Ask the ports.
    Scan(PortScan),
    /// Compare the versions.
    Compare,
    /// Start a daemon at this port.
    Spawn(u16),
    /// Tell the daemon at this port to stop.
    Stop(u16),
    /// Ask the daemon at this port whether it is there.
    Ping(u16),
    /// Let so many milliseconds pass.
    Sleep(u64),
    /// Nothing more.
    Nothing,
}

/// What came of an action.
#[derive(Debug)]
pub enum EnsureEvent {
    /// What the discovery file told.
    Discovered(Option<DaemonInfo>),
    /// What the ports told.
    Scanned(ScanOutcome),
    /// Whether the client's version is above the daemon's.
    Compared(bool),
    /// A daemon was started, or was not.
    Spawned(Result<(), String>),
    /// Whether the daemon answered.
    Answered(bool),
    /// It was done, or the time has passed.
    Done,
}

/// A client on its way to a daemon.
#[derive(Debug)]
pub struct EnsureDaemon {
    /// The ports to ask.
    pub scan: PortScan,
    /// How far it is.
    pub phase: EnsurePhase,
}

/// The number of the port behind the last that is asked.
pub open spec fn scan_end(scan: PortScan) -> nat {
    if scan.base + scan.span <= 65535 {
        (scan.base + scan.span) as nat
    } else {
        65535
    }
}

/// The words for ports that are all taken.
pub open spec fn occupied_words(scan: PortScan) -> Seq<char> {
    "no free hyperdb daemon port in "@ + text::decimal(scan.base as nat) + ".."@ + text::decimal(
        scan_end(scan),
    )
}

/// The words for a daemon that did not come up.
pub open spec fn late_words() -> Seq<char> {
    "daemon did not become ready within "@ + text::decimal((SPAWN_TIMEOUT / 1000) as nat)
        + " seconds"@
}

/// The ports below that of a daemon that were to be asked.
pub open spec fn ports_below(scan: PortScan, port: u16) -> PortScan {
    PortScan {
        base: scan.base,
        span: if port > scan.base {
            (port - scan.base) as u16
        } else {
            0
        },
    }
}

/// Until when an old daemon is asked.
pub open spec fn stop_deadline(now: u64) -> u64 {
    if now + SPAWN_TIMEOUT <= u64::MAX {
        (now + SPAWN_TIMEOUT) as u64
    } else {
        u64::MAX
    }
}

impl EnsureDaemon {
    /// What is to be done in this phase.
    pub open spec fn deed(self) -> EnsureAction {
        match self.phase {
            EnsurePhase::Discover => EnsureAction::Discover,
            EnsurePhase::Scan => EnsureAction::Scan(self.scan),
            EnsurePhase::Compare(_) => EnsureAction::Compare,
            EnsurePhase::Spawn { port, .. } => EnsureAction::Spawn(port),
            EnsurePhase::Await { .. } => EnsureAction::Discover,
            EnsurePhase::Pause { .. } => EnsureAction::Sleep(POLL_INTERVAL),
            EnsurePhase::ScanLower(info) => EnsureAction::Scan(
                ports_below(self.scan, info.health_port),
            ),
            EnsurePhase::StopHigher { port, .. } => EnsureAction::Stop(port),
            EnsurePhase::StopOld(former) => EnsureAction::Stop(former.health_port),
            EnsurePhase::AskOld { former, .. } => EnsureAction::Ping(former.health_port),
            EnsurePhase::PauseOld { .. } => EnsureAction::Sleep(POLL_INTERVAL),
            EnsurePhase::LookForFresh(_) => EnsureAction::Discover,
            EnsurePhase::Ready(_) => EnsureAction::Nothing,
            EnsurePhase::Failed(_) => EnsureAction::Nothing,
        }
    }

    /// Whether `next` is the phase that follows an event at `now`. An event that is no
    /// answer to what was to be done changes nothing.
    pub open spec fn leads_to(self, event: EnsureEvent, now: u64, next: EnsurePhase) -> bool {
        match (self.phase, event) {
            (EnsurePhase::Discover, EnsureEvent::Discovered(found)) => next == (match found {
                Some(info) => EnsurePhase::Compare(info),
                None => EnsurePhase::Scan,
            }),
            (EnsurePhase::Scan, EnsureEvent::Scanned(outcome)) => match outcome {
                ScanOutcome::Found(info) => next == EnsurePhase::Compare(*info),
                ScanOutcome::FreePort(port) => next == (EnsurePhase::Spawn { port, fresh: true }),
                ScanOutcome::AllOccupied => next matches EnsurePhase::Failed(e) && e.says(
                    EnsureErrorKind::AddrInUse,
                    occupied_words(self.scan),
                ),
            },
            (EnsurePhase::Compare(info), EnsureEvent::Compared(newer)) => next == (if newer {
                EnsurePhase::StopOld(info)
            } else {
                EnsurePhase::Ready(info)
            }),
            (EnsurePhase::Spawn { fresh, .. }, EnsureEvent::Spawned(outcome)) => match outcome {
                Ok(_) => next == (EnsurePhase::Await { since: now, fresh }),
                Err(reason) => next matches EnsurePhase::Failed(e) && e.says(
                    EnsureErrorKind::Other,
                    reason@,
                ),
            },
            (EnsurePhase::Await { since, fresh }, EnsureEvent::Discovered(found)) => match found {
                Some(info) => next == (if fresh && info.health_port > self.scan.base {
                    EnsurePhase::ScanLower(info)
                } else {
                    EnsurePhase::Ready(info)
                }),
                None => if now - since >= SPAWN_TIMEOUT {
                    next matches EnsurePhase::Failed(e) && e.says(
                        EnsureErrorKind::TimedOut,
                        late_words(),
                    )
                } else {
                    next == (EnsurePhase::Pause { since, fresh })
                },
            },
            (EnsurePhase::Pause { since, fresh }, EnsureEvent::Done) => next
                == (EnsurePhase::Await { since, fresh }),
            (EnsurePhase::ScanLower(info), EnsureEvent::Scanned(outcome)) => next
                == (match outcome {
                ScanOutcome::Found(lower) => EnsurePhase::StopHigher {
                    port: info.health_port,
                    lower: *lower,
                },
                _ => EnsurePhase::Ready(info),
            }),
            (EnsurePhase::StopHigher { lower, .. }, EnsureEvent::Done) => next
                == EnsurePhase::Ready(lower),
            (EnsurePhase::StopOld(former), EnsureEvent::Done) => next == (EnsurePhase::AskOld {
                former,
                deadline: stop_deadline(now),
            }),
            (EnsurePhase::AskOld { former, deadline }, EnsureEvent::Answered(there)) => next
                == (if there {
                EnsurePhase::PauseOld { former, deadline }
            } else {
                EnsurePhase::LookForFresh(former)
            }),
            (EnsurePhase::PauseOld { former, deadline }, EnsureEvent::Done) => next == (if now
                < deadline {
                EnsurePhase::AskOld { former, deadline }
            } else {
                EnsurePhase::Ready(former)
            }),
            (EnsurePhase::LookForFresh(former), EnsureEvent::Discovered(found)) => next
                == (match found {
                Some(info) => if info.health_port == former.health_port {
                    EnsurePhase::Ready(info)
                } else {
                    EnsurePhase::Spawn { port: former.health_port, fresh: false }
                },
                None => EnsurePhase::Spawn { port: former.health_port, fresh: false },
            }),
            _ => next == self.phase,
        }
    }

    /// What is to be done now.
    pub fn action(&self) -> (r: EnsureAction)
        ensures
            r == self.deed(),
    {
        match &self.phase {
            EnsurePhase::Discover => EnsureAction::Discover,
            EnsurePhase::Scan => EnsureAction::Scan(self.scan),
            EnsurePhase::Compare(_) => EnsureAction::Compare,
            EnsurePhase::Spawn { port, .. } => EnsureAction::Spawn(*port),
            EnsurePhase::Await { .. } => EnsureAction::Discover,
            EnsurePhase::Pause { .. } => EnsureAction::Sleep(POLL_INTERVAL),
            EnsurePhase::ScanLower(info) => {
                let span: u16 = if info.health_port > self.scan.base {
                    info.health_port - self.scan.base
                } else {
                    0
                };
                EnsureAction::Scan(PortScan { base: self.scan.base, span })
            },
            EnsurePhase::StopHigher { port, .. } => EnsureAction::Stop(*port),
            EnsurePhase::StopOld(former) => EnsureAction::Stop(former.health_port),
            EnsurePhase::AskOld { former, .. } => EnsureAction::Ping(former.health_port),
            EnsurePhase::PauseOld { .. } => EnsureAction::Sleep(POLL_INTERVAL),
            EnsurePhase::LookForFresh(_) => EnsureAction::Discover,
            EnsurePhase::Ready(_) => EnsureAction::Nothing,
            EnsurePhase::Failed(_) => EnsureAction::Nothing,
        }
    }

    fn occupied(scan: PortScan) -> (r: EnsureError)
        ensures
            r.says(EnsureErrorKind::AddrInUse, occupied_words(scan)),
    {
        let base = text::decimal_text(scan.base as u64);
        let end = text::decimal_text(scan.base.saturating_add(scan.span) as u64);
        EnsureError {
            kind: EnsureErrorKind::AddrInUse,
            message: text::cat4(
                "no free hyperdb daemon port in ",
                base.as_str(),
                "..",
                end.as_str(),
            ),
        }
    }

    fn late() -> (r: EnsureError)
        ensures
            r.says(EnsureErrorKind::TimedOut, late_words()),
    {
        let secs = text::decimal_text(SPAWN_TIMEOUT / 1000);
        EnsureError {
            kind: EnsureErrorKind::TimedOut,
            message: text::cat3("daemon did not become ready within ", secs.as_str(), " seconds"),
        }
    }

    /// Takes down an event at `now`.
    pub fn observe(self, event: EnsureEvent, now: u64) -> (r: EnsureDaemon)
        ensures
            r.scan == self.scan,
            self.leads_to(event, now, r.phase),
    {
        let scan = self.scan;
        let phase = match (self.phase, event) {
            (EnsurePhase::Discover, EnsureEvent::Discovered(found)) => match found {
                Some(info) => EnsurePhase::Compare(info),
                None => EnsurePhase::Scan,
            },
            (EnsurePhase::Scan, EnsureEvent::Scanned(outcome)) => match outcome {
                ScanOutcome::Found(info) => EnsurePhase::Compare(*info),
                ScanOutcome::FreePort(port) => EnsurePhase::Spawn { port, fresh: true },
                ScanOutcome::AllOccupied => EnsurePhase::Failed(EnsureDaemon::occupied(scan)),
            },
            (EnsurePhase::Compare(info), EnsureEvent::Compared(newer)) => {
                if newer {
                    EnsurePhase::StopOld(info)
                } else {
                    EnsurePhase::Ready(info)
                }
            },
            (EnsurePhase::Spawn { fresh, .. }, EnsureEvent::Spawned(outcome)) => match outcome {
                Ok(_) => EnsurePhase::Await { since: now, fresh },
                Err(reason) => EnsurePhase::Failed(
                    EnsureError { kind: EnsureErrorKind::Other, message: reason },
                ),
            },
            (EnsurePhase::Await { since, fresh }, EnsureEvent::Discovered(found)) => match found {
                Some(info) => {
                    if fresh && info.health_port > scan.base {
                        EnsurePhase::ScanLower(info)
                    } else {
                        EnsurePhase::Ready(info)
                    }
                },
                None => {
                    if now >= since && now - since >= SPAWN_TIMEOUT {
                        EnsurePhase::Failed(EnsureDaemon::late())
                    } else {
                        EnsurePhase::Pause { since, fresh }
                    }
                },
            },
            (EnsurePhase::Pause { since, fresh }, EnsureEvent::Done) => EnsurePhase::Await {
                since,
                fresh,
            },
            (EnsurePhase::ScanLower(info), EnsureEvent::Scanned(outcome)) => match outcome {
                ScanOutcome::Found(lower) => EnsurePhase::StopHigher {
                    port: info.health_port,
                    lower: *lower,
                },
                _ => EnsurePhase::Ready(info),
            },
            (EnsurePhase::StopHigher { lower, .. }, EnsureEvent::Done) => EnsurePhase::Ready(lower),
            (EnsurePhase::StopOld(former), EnsureEvent::Done) => EnsurePhase::AskOld {
                former,
                deadline: now.saturating_add(SPAWN_TIMEOUT),
            },
            (EnsurePhase::AskOld { former, deadline }, EnsureEvent::Answered(there)) => {
                if there {
                    EnsurePhase::PauseOld { former, deadline }
                } else {
                    EnsurePhase::LookForFresh(former)
                }
            },
            (EnsurePhase::PauseOld { former, deadline }, EnsureEvent::Done) => {
                if now < deadline {
                    EnsurePhase::AskOld { former, deadline }
                } else {
                    EnsurePhase::Ready(former)
                }
            },
            (EnsurePhase::LookForFresh(former), EnsureEvent::Discovered(found)) => match found {
                Some(info) => {
                    if info.health_port == former.health_port {
                        EnsurePhase::Ready(info)
                    } else {
                        EnsurePhase::Spawn { port: former.health_port, fresh: false }
                    }
                },
                None => EnsurePhase::Spawn { port: former.health_port, fresh: false },
            },
            (phase, _) => phase,
        };
        EnsureDaemon { scan, phase }
    }

    /// Compares the version of the client with that of the daemon that was found.
    pub fn compare(self, client_ver: &str, now: u64) -> (r: EnsureDaemon)
        ensures
            r.scan == self.scan,
            match self.phase {
                EnsurePhase::Compare(info) => self.leads_to(
                    EnsureEvent::Compared(takes_over(client_ver@, info.version@)),
                    now,
                    r.phase,
                ),
                _ => r == self,
            },
    {
        let newer = match &self.phase {
            EnsurePhase::Compare(info) => client_should_take_over(
                client_ver,
                info.version.as_str(),
            ),
            _ => false,
        };
        self.observe(EnsureEvent::Compared(newer), now)
    }
}

/// Begins the way to a daemon.
pub fn ensure_daemon(scan: PortScan) -> (r: EnsureDaemon)
    ensures
        r == (EnsureDaemon { scan, phase: EnsurePhase::Discover }),
{
    EnsureDaemon { scan, phase: EnsurePhase::Discover }
}

/// An old daemon is only ever replaced at its own port.
pub proof fn law_replaced_at_its_port(
    e: EnsureDaemon,
    event: EnsureEvent,
    now: u64,
    next: EnsurePhase,
)
    requires
        e.leads_to(event, now, next),
    ensures
        e.phase matches EnsurePhase::LookForFresh(former) ==> (next is Spawn ==> next->Spawn_port
            == former.health_port) && (next is Ready ==> next->Ready_0.health_port
            == former.health_port),
{
}

/// A daemon is told to make room only by a client that compared the versions and found
/// its own above.
pub proof fn law_only_older_daemons_are_stopped(
    e: EnsureDaemon,
    event: EnsureEvent,
    now: u64,
    next: EnsurePhase,
)
    requires
        e.leads_to(event, now, next),
        next is StopOld,
        !(e.phase is StopOld),
    ensures
        e.phase == EnsurePhase::Compare(next->StopOld_0),
        event == EnsureEvent::Compared(true),
{
}

/// A daemon that does not stop is used as it is.
pub proof fn law_stubborn_daemon_is_used(
    former: DaemonInfo,
    deadline: u64,
    scan: PortScan,
    now: u64,
    next: EnsurePhase,
)
    requires
        now >= deadline,
        (EnsureDaemon { scan, phase: EnsurePhase::PauseOld { former, deadline } }).leads_to(
            EnsureEvent::Done,
            now,
            next,
        ),
    ensures
        next == EnsurePhase::Ready(former),
{
}

/// Of two daemons that clients started at once, the one at the lower port stays: only
/// ports below are asked, and only the higher one is stopped.
pub proof fn law_lower_port_wins(
    e: EnsureDaemon,
    event: EnsureEvent,
    now: u64,
    next: EnsurePhase,
    i: int,
)
    requires
        e.phase is ScanLower,
        e.scan.base < e.phase->ScanLower_0.health_port,
        e.leads_to(event, now, next),
        0 <= i < ports_below(e.scan, e.phase->ScanLower_0.health_port).ports().len(),
    ensures
        e.deed() == EnsureAction::Scan(ports_below(e.scan, e.phase->ScanLower_0.health_port)),
        e.scan.base <= ports_below(e.scan, e.phase->ScanLower_0.health_port).ports()[i]
            < e.phase->ScanLower_0.health_port,
        next matches EnsurePhase::StopHigher { port, .. } ==> port
            == e.phase->ScanLower_0.health_port,
{
}

/// A client takes over if and only if both versions can be read and its own is above the
/// daemon's.
pub proof fn law_takeover(client_ver: Seq<char>, daemon_ver: Seq<char>)
    ensures
        takes_over(client_ver, daemon_ver) <==> version::semver_parts(client_ver) is Some
            && version::semver_parts(daemon_ver) is Some && version::semver_above(
            client_ver,
            daemon_ver,
        ),
{
}

/// What is done in each phase of the search for a daemon.
pub proof fn law_deeds_of_the_search(e: EnsureDaemon)
    ensures
        e.phase is Discover || e.phase is Await || e.phase is LookForFresh ==> e.deed()
            == EnsureAction::Discover,
        e.phase is Scan ==> e.deed() == EnsureAction::Scan(e.scan),
        e.phase is Compare ==> e.deed() == EnsureAction::Compare,
        e.phase matches EnsurePhase::Spawn { port, .. } ==> e.deed() == EnsureAction::Spawn(port),
        e.phase is Pause || e.phase is PauseOld ==> e.deed() == EnsureAction::Sleep(100),
        e.phase matches EnsurePhase::ScanLower(info) ==> (e.deed() matches EnsureAction::Scan(below)
            && below.base == e.scan.base && (info.health_port > e.scan.base ==> below.base
            + below.span == info.health_port) && (info.health_port <= e.scan.base ==> below.span
            == 0)),
        e.phase matches EnsurePhase::StopHigher { port, .. } ==> e.deed() == EnsureAction::Stop(
            port,
        ),
        e.phase matches EnsurePhase::StopOld(former) ==> e.deed() == EnsureAction::Stop(
            former.health_port,
        ),
        e.phase matches EnsurePhase::AskOld { former, .. } ==> e.deed() == EnsureAction::Ping(
            former.health_port,
        ),
        e.phase is Ready || e.phase is Failed ==> e.deed() == EnsureAction::Nothing,
{
}

/// Looking for a daemon that runs: one that was recorded, or else one that a scan finds, is
/// compared with this client; where none is found, one is started at the first free port.
pub proof fn law_search_for_a_daemon(e: EnsureDaemon, event: EnsureEvent, now: u64, next: EnsurePhase)
    requires
        e.leads_to(event, now, next),
    ensures
        e.phase is Discover ==> {
            &&& event matches EnsureEvent::Discovered(Some(info)) ==> next == EnsurePhase::Compare(
                info,
            )
            &&& event == EnsureEvent::Discovered(None) ==> next is Scan
            &&& !(event is Discovered) ==> next is Discover
        },
        e.phase is Scan ==> {
            &&& event matches EnsureEvent::Scanned(ScanOutcome::Found(info)) ==> next
                == EnsurePhase::Compare(*info)
            &&& event matches EnsureEvent::Scanned(ScanOutcome::FreePort(port)) ==> next
                == (EnsurePhase::Spawn { port, fresh: true })
            &&& event == EnsureEvent::Scanned(ScanOutcome::AllOccupied) ==> (
            next matches EnsurePhase::Failed(error) && error.kind == EnsureErrorKind::AddrInUse
                && error.message@ == "no free hyperdb daemon port in "@ + text::decimal(
                e.scan.base as nat,
            ) + ".."@ + text::decimal(
                if e.scan.base + e.scan.span <= 65535 {
                    (e.scan.base + e.scan.span) as nat
                } else {
                    65535
                },
            ))
            &&& !(event is Scanned) ==> next is Scan
        },
        e.phase matches EnsurePhase::Compare(info) ==> {
            &&& event == EnsureEvent::Compared(true) ==> next == EnsurePhase::StopOld(info)
            &&& event == EnsureEvent::Compared(false) ==> next == EnsurePhase::Ready(info)
            &&& !(event is Compared) ==> next == e.phase
        },
{
}

/// A daemon that was started is waited for, for ten seconds. Where it was started afresh and
/// does not have the lowest port, a daemon at a lower port is used in its place.
pub proof fn law_waiting_for_a_daemon(
    e: EnsureDaemon,
    event: EnsureEvent,
    now: u64,
    next: EnsurePhase,
)
    requires
        e.leads_to(event, now, next),
    ensures
        e.phase matches EnsurePhase::Spawn { fresh, .. } ==> {
            &&& event == EnsureEvent::Spawned(Ok::<(), String>(())) ==> next
                == (EnsurePhase::Await { since: now, fresh })
            &&& event matches EnsureEvent::Spawned(Err(reason)) ==> (
            next matches EnsurePhase::Failed(error) && error.kind == EnsureErrorKind::Other
                && error.message@ == reason@)
            &&& !(event is Spawned) ==> next == e.phase
        },
        e.phase matches EnsurePhase::Await { since, fresh } ==> {
            &&& event matches EnsureEvent::Discovered(Some(info)) ==> {
                &&& fresh && info.health_port > e.scan.base ==> next == EnsurePhase::ScanLower(info)
                &&& !fresh || info.health_port <= e.scan.base ==> next == EnsurePhase::Ready(info)
            }
            &&& event == EnsureEvent::Discovered(None) && now - since < 10000 ==> next
                == (EnsurePhase::Pause { since, fresh })
            &&& event == EnsureEvent::Discovered(None) && now - since >= 10000 ==> (
            next matches EnsurePhase::Failed(error) && error.kind == EnsureErrorKind::TimedOut
                && error.message@ == "daemon did not become ready within 10 seconds"@)
            &&& !(event is Discovered) ==> next == e.phase
        },
        e.phase matches EnsurePhase::Pause { since, fresh } ==> {
            &&& event is Done ==> next == (EnsurePhase::Await { since, fresh })
            &&& !(event is Done) ==> next == e.phase
        },
        e.phase matches EnsurePhase::ScanLower(info) ==> {
            &&& event matches EnsureEvent::Scanned(ScanOutcome::Found(lower)) ==> next
                == (EnsurePhase::StopHigher { port: info.health_port, lower: *lower })
            &&& event matches EnsureEvent::Scanned(outcome) ==> !(outcome is Found) ==> next
                == EnsurePhase::Ready(info)
            &&& !(event is Scanned) ==> next == e.phase
        },
        e.phase matches EnsurePhase::StopHigher { lower, .. } ==> {
            &&& event is Done ==> next == EnsurePhase::Ready(lower)
            &&& !(event is Done) ==> next == e.phase
        },
        e.phase is Ready || e.phase is Failed ==> next == e.phase,
{
    reveal_strlit("daemon did not become ready within ");
    reveal_strlit(" seconds");
    reveal_strlit("daemon did not become ready within 10 seconds");
    text::law_digits(1, 0);
    text::law_digits(0, 1);
    assert(SPAWN_TIMEOUT / 1000 == 10);
    assert(text::decimal(10) =~= seq!['1', '0']);
    assert(late_words() =~= "daemon did not become ready within 10 seconds"@);
}

/// An older daemon is asked to stop and pinged until it is gone, for ten seconds; one that
/// stays is used after all. Once it is gone, a daemon that came at its port is used, and
/// otherwise one is started there.
pub proof fn law_replacing_a_daemon(
    e: EnsureDaemon,
    event: EnsureEvent,
    now: u64,
    next: EnsurePhase,
)
    requires
        e.leads_to(event, now, next),
    ensures
        e.phase matches EnsurePhase::StopOld(former) ==> {
            &&& event is Done ==> (next matches EnsurePhase::AskOld { former: f, deadline } && f
                == former && (now + 10000 <= u64::MAX ==> deadline == now + 10000) && (now + 10000
                > u64::MAX ==> deadline == u64::MAX))
            &&& !(event is Done) ==> next == e.phase
        },
        e.phase matches EnsurePhase::AskOld { former, deadline } ==> {
            &&& event == EnsureEvent::Answered(true) ==> next == (EnsurePhase::PauseOld {
                former,
                deadline,
            })
            &&& event == EnsureEvent::Answered(false) ==> next == EnsurePhase::LookForFresh(former)
            &&& !(event is Answered) ==> next == e.phase
        },
        e.phase matches EnsurePhase::PauseOld { former, deadline } ==> {
            &&& event is Done && now < deadline ==> next == (EnsurePhase::AskOld {
                former,
                deadline,
            })
            &&& event is Done && now >= deadline ==> next == EnsurePhase::Ready(former)
            &&& !(event is Done) ==> next == e.phase
        },
        e.phase matches EnsurePhase::LookForFresh(former) ==> {
            &&& event matches EnsureEvent::Discovered(Some(info)) ==> {
                &&& info.health_port == former.health_port ==> next == EnsurePhase::Ready(info)
                &&& info.health_port != former.health_port ==> next == (EnsurePhase::Spawn {
                    port: former.health_port,
                    fresh: false,
                })
            }
            &&& event == EnsureEvent::Discovered(None) ==> next == (EnsurePhase::Spawn {
                port: former.health_port,
                fresh: false,
            })
            &&& !(event is Discovered) ==> next == e.phase
        },
        STOP_PING_TIMEOUT == 200,
{
}

/// A failed search says its kind and its message.
pub proof fn law_failed_searches_say(e: EnsureError, kind: EnsureErrorKind, message: Seq<char>)
    ensures
        e.says(kind, message) <==> e.kind == kind && e.message@ == message,
{
}

} // verus!
