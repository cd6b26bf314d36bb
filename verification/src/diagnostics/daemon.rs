//! Whether a daemon answers, and what is odd about it: looked into without
//! changing anything.

use vstd::prelude::*;

use crate::daemon::discovery::{DaemonRecord, PortScan, RawDiscoveryRead};
use crate::daemon::health::{ExchangeError, ExchangeErrorKind};
use crate::diagnostics::identity::ReportedPath;
use crate::text;

verus! {

/// The longest answer that is looked at, in bytes.
pub const MAX_STATUS_RESPONSE_BYTES: usize = 65536;

/// How long looking for the daemon may take, in milliseconds.
pub const DOCTOR_DAEMON_TIMEOUT: u64 = 500;

/// How long one operation on a connection may take, in milliseconds.
pub const DOCTOR_NETWORK_PHASE_TIMEOUT: u64 = 300;

/// How many bytes are read at once at most.
pub const DOCTOR_CHUNK_BYTES: usize = 1024;

/// What is known of the daemon.
#[derive(Debug, Clone, Copy, PartialEq, Eq, Structural)]
pub enum DoctorDaemonState {
    /// There is no discovery file, and no daemon answered.
    Missing,
    /// The discovery file could not be read, and no daemon answered.
    Unreadable,
    /// The discovery file does not hold what it should, and no daemon answered.
    Malformed,
    /// The discovery file names a daemon, but none answered.
    ParsedUnreachable,
    /// The daemon that the discovery file names answered.
    LiveFromDiscovery,
    /// A daemon answered at one of the ports.
    LiveFromScan,
}

/// A recorded fact that the daemon itself tells otherwise.
#[derive(Debug)]
pub enum DiscoveryFactMismatch {
    /// The process ID.
    Pid {
        /// As recorded.
        recorded: u32,
        /// As the daemon tells it.
        fresh: u32,
    },
    /// The build.
    McpVersion {
        /// As recorded.
        recorded: String,
        /// As the daemon tells it.
        fresh: String,
    },
    /// The executable.
    ExecutablePath {
        /// As recorded.
        recorded: ReportedPath,
        /// As the daemon tells it.
        fresh: ReportedPath,
    },
}

/// A remark on the daemon.
#[derive(Debug)]
pub enum DoctorDaemonWarning {
    /// The discovery file could not be read.
    DiscoveryUnreadable {
        /// The name of the error.
        kind: String,
    },
    /// The discovery file does not hold what it should.
    MalformedDiscovery,
    /// Nothing answered where the discovery file says that the daemon is.
    DiscoveryCandidateUnreachable {
        /// The port that was asked.
        responding_port: u16,
    },
    /// The daemon tells other facts than the discovery file.
    StaleOrReplacedDiscovery {
        /// Which.
        mismatches: Vec<DiscoveryFactMismatch>,
    },
    /// A daemon claims another port than the one at which it answered.
    StatusHealthPortMismatch {
        /// The port that was asked.
        responding_port: u16,
        /// The port that it claims.
        reported_port: u16,
    },
    /// An answer does not hold what it should.
    MalformedStatus {
        /// The port that was asked.
        responding_port: u16,
    },
}

/// What a mismatch says, as plain values.
pub enum MismatchFact {
    /// The process ID.
    Pid {
        /// As recorded.
        recorded: u32,
        /// As the daemon tells it.
        fresh: u32,
    },
    /// The build.
    McpVersion {
        /// As recorded.
        recorded: Seq<char>,
        /// As the daemon tells it.
        fresh: Seq<char>,
    },
    /// The executable.
    ExecutablePath {
        /// As recorded.
        recorded: ReportedPath,
        /// As the daemon tells it.
        fresh: ReportedPath,
    },
}

impl View for DiscoveryFactMismatch {
    type V = MismatchFact;

    open spec fn view(&self) -> MismatchFact {
        match *self {
            DiscoveryFactMismatch::Pid { recorded, fresh } => MismatchFact::Pid {
                recorded,
                fresh,
            },
            DiscoveryFactMismatch::McpVersion { recorded, fresh } => MismatchFact::McpVersion {
                recorded: recorded@,
                fresh: fresh@,
            },
            DiscoveryFactMismatch::ExecutablePath { recorded, fresh } => {
                MismatchFact::ExecutablePath { recorded, fresh }
            },
        }
    }
}

/// What mismatches say.
pub open spec fn mismatch_facts(m: Seq<DiscoveryFactMismatch>) -> Seq<MismatchFact> {
    m.map_values(|x: DiscoveryFactMismatch| x@)
}

/// What a remark on the daemon says, as plain values.
pub enum DaemonFinding {
    /// The discovery file could not be read.
    DiscoveryUnreadable {
        /// The name of the error.
        kind: Seq<char>,
    },
    /// The discovery file does not hold what it should.
    MalformedDiscovery,
    /// Nothing answered where the discovery file says that the daemon is.
    DiscoveryCandidateUnreachable {
        /// The port that was asked.
        responding_port: u16,
    },
    /// The daemon tells other facts than the discovery file.
    StaleOrReplacedDiscovery {
        /// Which.
        mismatches: Seq<MismatchFact>,
    },
    /// A daemon claims another port than the one at which it answered.
    StatusHealthPortMismatch {
        /// The port that was asked.
        responding_port: u16,
        /// The port that it claims.
        reported_port: u16,
    },
    /// An answer does not hold what it should.
    MalformedStatus {
        /// The port that was asked.
        responding_port: u16,
    },
}

impl View for DoctorDaemonWarning {
    type V = DaemonFinding;

    open spec fn view(&self) -> DaemonFinding {
        match *self {
            DoctorDaemonWarning::DiscoveryUnreadable { kind } => {
                DaemonFinding::DiscoveryUnreadable { kind: kind@ }
            },
            DoctorDaemonWarning::MalformedDiscovery => DaemonFinding::MalformedDiscovery,
            DoctorDaemonWarning::DiscoveryCandidateUnreachable { responding_port } => {
                DaemonFinding::DiscoveryCandidateUnreachable { responding_port }
            },
            DoctorDaemonWarning::StaleOrReplacedDiscovery { mismatches } => {
                DaemonFinding::StaleOrReplacedDiscovery { mismatches: mismatch_facts(mismatches@) }
            },
            DoctorDaemonWarning::StatusHealthPortMismatch { responding_port, reported_port } => {
                DaemonFinding::StatusHealthPortMismatch { responding_port, reported_port }
            },
            DoctorDaemonWarning::MalformedStatus { responding_port } => {
                DaemonFinding::MalformedStatus { responding_port }
            },
        }
    }
}

/// What remarks on the daemon say.
pub open spec fn daemon_findings(w: Seq<DoctorDaemonWarning>) -> Seq<DaemonFinding> {
    w.map_values(|x: DoctorDaemonWarning| x@)
}

/// What a port answered to the question for its status.
#[derive(Debug)]
pub enum StatusAnswer {
    /// Nothing.
    Unreachable,
    /// Something that is no status.
    Unparsable,
    /// A status.
    Status(DaemonRecord),
}

/// A daemon that answered at the port that it claims.
#[derive(Debug)]
pub struct VerifiedDoctorDaemon {
    /// The port that was asked.
    pub responding_port: u16,
    /// What it tells of itself.
    pub record: DaemonRecord,
}

/// What was found out about the daemon.
#[derive(Debug)]
pub struct DoctorDaemonReport {
    /// What is known of it.
    pub state: DoctorDaemonState,
    /// The daemon that answered.
    pub verified: Option<VerifiedDoctorDaemon>,
    /// Remarks.
    pub warnings: Vec<DoctorDaemonWarning>,
}

/// Whether an answer from `port` is accepted: a status that tells the build and
/// claims the port at which it was asked for.
pub open spec fn accepted(port: u16, answer: StatusAnswer) -> bool {
    answer matches StatusAnswer::Status(record) && record.identity is Some
        && record.info.health_port == port
}

/// The remark on an answer from `port` that is not accepted; `recorded` says that
/// the discovery file named the port.
pub open spec fn rejection(port: u16, answer: StatusAnswer, recorded: bool) -> Seq<DaemonFinding> {
    match answer {
        StatusAnswer::Unreachable => if recorded {
            seq![DaemonFinding::DiscoveryCandidateUnreachable { responding_port: port }]
        } else {
            Seq::empty()
        },
        StatusAnswer::Unparsable => seq![DaemonFinding::MalformedStatus { responding_port: port }],
        StatusAnswer::Status(record) => if record.identity is None {
            seq![DaemonFinding::MalformedStatus { responding_port: port }]
        } else if record.info.health_port != port {
            seq![
                DaemonFinding::StatusHealthPortMismatch {
                    responding_port: port,
                    reported_port: record.info.health_port,
                },
            ]
        } else {
            Seq::empty()
        },
    }
}

/// The facts that `recorded` and `fresh` tell differently. The build is compared
/// where both tell it.
pub open spec fn fact_mismatches(recorded: DaemonRecord, fresh: DaemonRecord) -> Seq<MismatchFact> {
    (if recorded.info.pid != fresh.info.pid {
        seq![MismatchFact::Pid { recorded: recorded.info.pid, fresh: fresh.info.pid }]
    } else {
        Seq::empty()
    }) + (match (recorded.identity, fresh.identity) {
        (Some(r), Some(f)) => (if r.mcp_version@ != f.mcp_version@ {
            seq![MismatchFact::McpVersion { recorded: r.mcp_version@, fresh: f.mcp_version@ }]
        } else {
            Seq::empty()
        }) + (if !r.executable_path.alike(f.executable_path) {
            seq![
                MismatchFact::ExecutablePath {
                    recorded: r.executable_path,
                    fresh: f.executable_path,
                },
            ]
        } else {
            Seq::empty()
        }),
        _ => Seq::empty(),
    })
}

/// The facts that the discovery file and the daemon tell differently.
pub fn discovery_fact_mismatches(recorded: &DaemonRecord, fresh: &DaemonRecord) -> (r: Vec<
    DiscoveryFactMismatch,
>)
    ensures
        mismatch_facts(r@) == fact_mismatches(*recorded, *fresh),
{
    let mut out: Vec<DiscoveryFactMismatch> = Vec::new();
    if recorded.info.pid != fresh.info.pid {
        out.push(
            DiscoveryFactMismatch::Pid { recorded: recorded.info.pid, fresh: fresh.info.pid },
        );
    }
    let ghost first = mismatch_facts(out@);
    assert(first =~= (if recorded.info.pid != fresh.info.pid {
        seq![MismatchFact::Pid { recorded: recorded.info.pid, fresh: fresh.info.pid }]
    } else {
        Seq::empty()
    }));
    if let (Some(r), Some(f)) = (&recorded.identity, &fresh.identity) {
        let ghost mut second = Seq::<MismatchFact>::empty();
        if !text::same_text(r.mcp_version.as_str(), f.mcp_version.as_str()) {
            out.push(
                DiscoveryFactMismatch::McpVersion {
                    recorded: r.mcp_version.clone(),
                    fresh: f.mcp_version.clone(),
                },
            );
            proof {
                second = seq![
                    MismatchFact::McpVersion {
                        recorded: r.mcp_version@,
                        fresh: f.mcp_version@,
                    },
                ];
            }
        }
        assert(mismatch_facts(out@) =~= first + second);
        let ghost mut third = Seq::<MismatchFact>::empty();
        if !r.executable_path.same_as(&f.executable_path) {
            out.push(
                DiscoveryFactMismatch::ExecutablePath {
                    recorded: r.executable_path.copied(),
                    fresh: f.executable_path.copied(),
                },
            );
            proof {
                third = seq![
                    MismatchFact::ExecutablePath {
                        recorded: r.executable_path,
                        fresh: f.executable_path,
                    },
                ];
            }
        }
        assert(mismatch_facts(out@) =~= first + (second + third));
    } else {
        assert(first =~= first + Seq::empty());
    }
    out
}

/// Whether an answer from `port` is accepted.
pub fn is_accepted(port: u16, answer: &StatusAnswer) -> (r: bool)
    ensures
        r == accepted(port, *answer),
{
    match answer {
        StatusAnswer::Status(record) => record.identity.is_some() && record.info.health_port
            == port,
        _ => false,
    }
}

fn note_rejection(
    port: u16,
    answer: &StatusAnswer,
    recorded: bool,
    warnings: &mut Vec<DoctorDaemonWarning>,
)
    ensures
        daemon_findings(final(warnings)@) == daemon_findings(old(warnings)@) + rejection(
            port,
            *answer,
            recorded,
        ),
{
    match answer {
        StatusAnswer::Unreachable => {
            if recorded {
                warnings.push(
                    DoctorDaemonWarning::DiscoveryCandidateUnreachable { responding_port: port },
                );
            }
        },
        StatusAnswer::Unparsable => {
            warnings.push(DoctorDaemonWarning::MalformedStatus { responding_port: port });
        },
        StatusAnswer::Status(record) => {
            if record.identity.is_none() {
                warnings.push(DoctorDaemonWarning::MalformedStatus { responding_port: port });
            } else if record.info.health_port != port {
                warnings.push(
                    DoctorDaemonWarning::StatusHealthPortMismatch {
                        responding_port: port,
                        reported_port: record.info.health_port,
                    },
                );
            }
        },
    }
    assert(daemon_findings(warnings@) =~= daemon_findings(old(warnings)@) + rejection(
        port,
        *answer,
        recorded,
    ));
}

/// What is known of the daemon where none answers.
pub open spec fn fallback_state(raw: RawDiscoveryRead) -> DoctorDaemonState {
    match raw {
        RawDiscoveryRead::Missing { .. } => DoctorDaemonState::Missing,
        RawDiscoveryRead::Unreadable { .. } => DoctorDaemonState::Unreadable,
        RawDiscoveryRead::Malformed { .. } => DoctorDaemonState::Malformed,
        RawDiscoveryRead::Parsed { .. } => DoctorDaemonState::ParsedUnreachable,
    }
}

/// The remark on reading the discovery file.
pub open spec fn reading_findings(raw: RawDiscoveryRead) -> Seq<DaemonFinding> {
    match raw {
        RawDiscoveryRead::Unreadable { kind, .. } => seq![
            DaemonFinding::DiscoveryUnreadable { kind: kind@ },
        ],
        RawDiscoveryRead::Malformed { .. } => seq![DaemonFinding::MalformedDiscovery],
        _ => Seq::empty(),
    }
}

/// The port that the discovery file names.
pub open spec fn recorded_port(raw: RawDiscoveryRead) -> Seq<u16> {
    match raw {
        RawDiscoveryRead::Parsed { record, .. } => seq![record.info.health_port],
        _ => Seq::empty(),
    }
}

/// The ports to ask, in order: first the one that the discovery file names, then
/// those of the scan.
pub open spec fn targets(raw: RawDiscoveryRead, ports: PortScan) -> Seq<u16> {
    recorded_port(raw) + ports.ports()
}

/// The remarks on the first `n` answers, none of which is accepted.
pub open spec fn rejections(
    raw: RawDiscoveryRead,
    ports: PortScan,
    answers: Seq<StatusAnswer>,
    n: nat,
) -> Seq<DaemonFinding>
    decreases n,
{
    if n == 0 {
        Seq::empty()
    } else {
        rejections(raw, ports, answers, (n - 1) as nat) + rejection(
            targets(raw, ports)[n - 1],
            answers[n - 1],
            raw is Parsed && n == 1,
        )
    }
}

/// The first accepted answer.
pub open spec fn first_accepted(
    raw: RawDiscoveryRead,
    ports: PortScan,
    answers: Seq<StatusAnswer>,
    n: nat,
) -> Option<int>
    decreases n,
{
    if n == 0 {
        None
    } else {
        match first_accepted(raw, ports, answers, (n - 1) as nat) {
            Some(i) => Some(i),
            None => if accepted(targets(raw, ports)[n - 1], answers[n - 1]) {
                Some(n - 1)
            } else {
                None
            },
        }
    }
}

/// The remark on a daemon that answered where the discovery file says, and tells
/// other facts than it.
pub open spec fn stale_findings(recorded: DaemonRecord, fresh: DaemonRecord) -> Seq<DaemonFinding> {
    if fact_mismatches(recorded, fresh).len() == 0 {
        Seq::empty()
    } else {
        seq![
            DaemonFinding::StaleOrReplacedDiscovery {
                mismatches: fact_mismatches(recorded, fresh),
            },
        ]
    }
}

/// Whether `report` is what comes of reading `raw` and asking the targets, which
/// answered `answers`.
pub open spec fn is_report_of(
    report: DoctorDaemonReport,
    raw: RawDiscoveryRead,
    ports: PortScan,
    answers: Seq<StatusAnswer>,
) -> bool {
    match first_accepted(raw, ports, answers, answers.len()) {
        Some(i) => {
            let fresh = answers[i]->Status_0;
            let from_discovery = raw is Parsed && i == 0;
            &&& report.state == (if from_discovery {
                DoctorDaemonState::LiveFromDiscovery
            } else {
                DoctorDaemonState::LiveFromScan
            })
            &&& report.verified matches Some(v) && v.responding_port == targets(raw, ports)[i]
                && v.record == fresh
            &&& daemon_findings(report.warnings@) == reading_findings(raw) + rejections(
                raw,
                ports,
                answers,
                i as nat,
            ) + (if from_discovery {
                stale_findings(raw->Parsed_record, fresh)
            } else {
                Seq::empty()
            })
        },
        None => {
            &&& report.state == fallback_state(raw)
            &&& report.verified is None
            &&& daemon_findings(report.warnings@) == reading_findings(raw) + rejections(
                raw,
                ports,
                answers,
                answers.len(),
            )
        },
    }
}

/// The port to ask at position `index`.
fn target_at(raw: &RawDiscoveryRead, ports: PortScan, index: usize) -> (r: Option<u16>)
    ensures
        match r {
            Some(port) => index < targets(*raw, ports).len() && port == targets(
                *raw,
                ports,
            )[index as int],
            None => index >= targets(*raw, ports).len(),
        },
{
    match raw {
        RawDiscoveryRead::Parsed { record, .. } => {
            if index == 0 {
                Some(record.info.health_port)
            } else {
                ports.port_at(index - 1)
            }
        },
        _ => ports.port_at(index),
    }
}

/// A port to ask.
#[derive(Debug, Clone, Copy, PartialEq, Eq, Structural)]
pub struct ProbeTarget {
    /// The port.
    pub port: u16,
    /// Whether it is to be asked first who answers there: not where the discovery
    /// file names it.
    pub handshake: bool,
}

/// The port to ask next, after `answers`: none once an answer was accepted or all
/// ports were asked.
pub fn next_probe(raw: &RawDiscoveryRead, ports: PortScan, answers: &Vec<StatusAnswer>) -> (r: Option<
    ProbeTarget,
>)
    requires
        answers@.len() <= targets(*raw, ports).len(),
    ensures
        match r {
            Some(t) => {
                &&& first_accepted(*raw, ports, answers@, answers@.len()) is None
                &&& answers@.len() < targets(*raw, ports).len()
                &&& t.port == targets(*raw, ports)[answers@.len() as int]
                &&& t.handshake == !(*raw is Parsed && answers@.len() == 0)
            },
            None => first_accepted(*raw, ports, answers@, answers@.len()) is Some || answers@.len()
                == targets(*raw, ports).len(),
        },
{
    let mut i: usize = 0;
    while i < answers.len()
        invariant
            i <= answers@.len() <= targets(*raw, ports).len(),
            first_accepted(*raw, ports, answers@, i as nat) is None,
        decreases answers@.len() - i,
    {
        let port = target_at(raw, ports, i);
        if let Some(port) = port {
            if is_accepted(port, &answers[i]) {
                proof {
                    lemma_first_accepted_stays(*raw, ports, answers@, (i + 1) as nat);
                }
                return None;
            }
        }
        i = i + 1;
    }
    match target_at(raw, ports, answers.len()) {
        Some(port) => {
            let named = matches!(raw, RawDiscoveryRead::Parsed { .. }) && answers.len() == 0;
            Some(ProbeTarget { port, handshake: !named })
        },
        None => None,
    }
}

proof fn lemma_first_accepted_stays(
    raw: RawDiscoveryRead,
    ports: PortScan,
    answers: Seq<StatusAnswer>,
    n: nat,
)
    requires
        n <= answers.len(),
        first_accepted(raw, ports, answers, n) is Some,
    ensures
        first_accepted(raw, ports, answers, answers.len()) == first_accepted(
            raw,
            ports,
            answers,
            n,
        ),
    decreases answers.len() - n,
{
    if n < answers.len() {
        assert(first_accepted(raw, ports, answers, n + 1) == first_accepted(
            raw,
            ports,
            answers,
            n,
        ));
        lemma_first_accepted_stays(raw, ports, answers, n + 1);
    }
}

/// What comes of reading the discovery file and asking the targets in order, where
/// `answers` are their answers.
pub fn collect_doctor_daemon(
    raw: RawDiscoveryRead,
    ports: PortScan,
    answers: Vec<StatusAnswer>,
) -> (r: DoctorDaemonReport)
    requires
        answers@.len() <= targets(raw, ports).len(),
    ensures
        is_report_of(r, raw, ports, answers@),
{
    let mut warnings: Vec<DoctorDaemonWarning> = Vec::new();
    let state = match &raw {
        RawDiscoveryRead::Missing { .. } => DoctorDaemonState::Missing,
        RawDiscoveryRead::Unreadable { kind, .. } => {
            warnings.push(DoctorDaemonWarning::DiscoveryUnreadable { kind: kind.clone() });
            DoctorDaemonState::Unreadable
        },
        RawDiscoveryRead::Malformed { .. } => {
            warnings.push(DoctorDaemonWarning::MalformedDiscovery);
            DoctorDaemonState::Malformed
        },
        RawDiscoveryRead::Parsed { .. } => DoctorDaemonState::ParsedUnreachable,
    };
    assert(daemon_findings(warnings@) =~= reading_findings(raw));
    assert(reading_findings(raw) =~= reading_findings(raw) + rejections(raw, ports, answers@, 0));
    let mut i: usize = 0;
    let n: usize = answers.len();
    while i < n
        invariant
            n == answers@.len(),
            i <= n <= targets(raw, ports).len(),
            state == fallback_state(raw),
            first_accepted(raw, ports, answers@, i as nat) is None,
            daemon_findings(warnings@) == reading_findings(raw) + rejections(
                raw,
                ports,
                answers@,
                i as nat,
            ),
        decreases n - i,
    {
        let port: u16 = match target_at(&raw, ports, i) {
            Some(port) => port,
            None => 0,
        };
        if is_accepted(port, &answers[i]) {
            proof {
                lemma_first_accepted_stays(raw, ports, answers@, (i + 1) as nat);
            }
            let ghost before = answers@;
            let mut rest = answers;
            let answer = rest.remove(i);
            if let StatusAnswer::Status(record) = answer {
                if i == 0 {
                    if let RawDiscoveryRead::Parsed { record: recorded, .. } = &raw {
                        let mismatches = discovery_fact_mismatches(recorded, &record);
                        let ghost facts = mismatch_facts(mismatches@);
                        assert(facts.len() == mismatches@.len());
                        let ghost noted = daemon_findings(warnings@);
                        if mismatches.len() > 0 {
                            warnings.push(
                                DoctorDaemonWarning::StaleOrReplacedDiscovery { mismatches },
                            );
                        }
                        assert(daemon_findings(warnings@) =~= noted + stale_findings(
                            *recorded,
                            record,
                        ));
                        return DoctorDaemonReport {
                            state: DoctorDaemonState::LiveFromDiscovery,
                            verified: Some(VerifiedDoctorDaemon { responding_port: port, record }),
                            warnings,
                        };
                    }
                }
                assert(daemon_findings(warnings@) =~= daemon_findings(warnings@) + Seq::empty());
                return DoctorDaemonReport {
                    state: DoctorDaemonState::LiveFromScan,
                    verified: Some(VerifiedDoctorDaemon { responding_port: port, record }),
                    warnings,
                };
            }
            return DoctorDaemonReport { state, verified: None, warnings };
        }
        let recorded = matches!(&raw, RawDiscoveryRead::Parsed { .. }) && i == 0;
        let ghost noted = daemon_findings(warnings@);
        note_rejection(port, &answers[i], recorded, &mut warnings);
        assert(daemon_findings(warnings@) =~= reading_findings(raw) + rejections(
            raw,
            ports,
            answers@,
            (i + 1) as nat,
        ));
        i = i + 1;
    }
    DoctorDaemonReport { state, verified: None, warnings }
}

/// A verified daemon claims the port at which it answered, and tells its build.
pub proof fn law_verified_port_matches(
    report: DoctorDaemonReport,
    raw: RawDiscoveryRead,
    ports: PortScan,
    answers: Seq<StatusAnswer>,
)
    requires
        answers.len() <= targets(raw, ports).len(),
        is_report_of(report, raw, ports, answers),
    ensures
        report.verified is Some <==> (report.state is LiveFromDiscovery || report.state
            is LiveFromScan),
        report.verified matches Some(v) ==> v.record.info.health_port == v.responding_port
            && v.record.identity is Some && targets(raw, ports).contains(v.responding_port),
        report.state is LiveFromDiscovery ==> raw is Parsed && report.verified->0.responding_port
            == raw->Parsed_record.info.health_port,
{
    law_first_accepted(raw, ports, answers, answers.len());
    if let Some(i) = first_accepted(raw, ports, answers, answers.len()) {
        assert(targets(raw, ports)[i] == report.verified->0.responding_port);
    }
}

/// The first accepted answer is accepted, and none before it is.
pub proof fn law_first_accepted(
    raw: RawDiscoveryRead,
    ports: PortScan,
    answers: Seq<StatusAnswer>,
    n: nat,
)
    requires
        n <= answers.len(),
    ensures
        match first_accepted(raw, ports, answers, n) {
            Some(i) => {
                &&& 0 <= i < n
                &&& accepted(targets(raw, ports)[i], answers[i])
                &&& forall|j: int|
                    0 <= j < i ==> !accepted(targets(raw, ports)[j], #[trigger] answers[j])
            },
            None => forall|j: int|
                0 <= j < n ==> !accepted(targets(raw, ports)[j], #[trigger] answers[j]),
        },
    decreases n,
{
    if n > 0 {
        law_first_accepted(raw, ports, answers, (n - 1) as nat);
    }
}

/// How long the next operation on a connection may take, in milliseconds, where
/// `elapsed` milliseconds have passed.
pub fn doctor_network_timeout(deadline: u64, elapsed: u64) -> (r: Result<u64, ExchangeError>)
    ensures
        match r {
            Ok(t) => elapsed < deadline && t == (if deadline - elapsed
                < DOCTOR_NETWORK_PHASE_TIMEOUT {
                (deadline - elapsed) as u64
            } else {
                DOCTOR_NETWORK_PHASE_TIMEOUT
            }),
            Err(e) => elapsed >= deadline && e.says(
                ExchangeErrorKind::TimedOut,
                "doctor daemon deadline elapsed"@,
            ),
        },
{
    if elapsed >= deadline {
        return Err(
            ExchangeError {
                kind: ExchangeErrorKind::TimedOut,
                message: "doctor daemon deadline elapsed".to_owned(),
            },
        );
    }
    let left: u64 = deadline - elapsed;
    if left < DOCTOR_NETWORK_PHASE_TIMEOUT {
        Ok(left)
    } else {
        Ok(DOCTOR_NETWORK_PHASE_TIMEOUT)
    }
}

/// When the search that begins at `now` is to be over.
pub fn doctor_deadline(now: u64) -> (r: u64)
    ensures
        r == (if now + DOCTOR_DAEMON_TIMEOUT <= u64::MAX {
            (now + DOCTOR_DAEMON_TIMEOUT) as u64
        } else {
            u64::MAX
        }),
{
    now.saturating_add(DOCTOR_DAEMON_TIMEOUT)
}

/// How much of a chunk belongs to the line: all of it, or up to the end of the
/// line.
pub open spec fn line_part(chunk: Seq<u8>) -> Seq<u8>
    decreases chunk.len(),
{
    if chunk.len() == 0 {
        Seq::empty()
    } else if chunk[0] == 10 {
        seq![10u8]
    } else {
        seq![chunk[0]] + line_part(chunk.drop_first())
    }
}

/// Receiving a one-line answer in chunks.
#[derive(Debug)]
pub struct LineBuffer {
    /// What came so far.
    pub bytes: Vec<u8>,
    /// Whether the line is complete.
    pub complete: bool,
}

impl LineBuffer {
    /// A buffer that has received nothing.
    pub fn new() -> (r: LineBuffer)
        ensures
            r.bytes@ == Seq::<u8>::empty(),
            !r.complete,
    {
        LineBuffer { bytes: Vec::new(), complete: false }
    }

    /// How many bytes to read next at most.
    pub fn capacity(&self) -> (r: usize)
        requires
            self.bytes@.len() <= MAX_STATUS_RESPONSE_BYTES,
        ensures
            0 < r <= DOCTOR_CHUNK_BYTES,
            r == (if MAX_STATUS_RESPONSE_BYTES + 1 - self.bytes@.len() < DOCTOR_CHUNK_BYTES {
                MAX_STATUS_RESPONSE_BYTES + 1 - self.bytes@.len()
            } else {
                DOCTOR_CHUNK_BYTES as int
            }),
    {
        let left: usize = MAX_STATUS_RESPONSE_BYTES + 1 - self.bytes.len();
        if left < DOCTOR_CHUNK_BYTES {
            left
        } else {
            DOCTOR_CHUNK_BYTES
        }
    }

    /// Takes down a chunk; an empty one says that no more will come.
    pub fn received(&mut self, chunk: &[u8]) -> (r: Result<(), ExchangeError>)
        requires
            !old(self).complete,
            old(self).bytes@.len() <= MAX_STATUS_RESPONSE_BYTES,
        ensures
            final(self).bytes@ == old(self).bytes@ + line_part(chunk@),
            match r {
                Ok(_) => {
                    &&& final(self).bytes@.len() <= MAX_STATUS_RESPONSE_BYTES
                    &&& final(self).complete == (chunk@.len() == 0 || final(self).bytes@.last()
                        == 10)
                },
                Err(e) => final(self).bytes@.len() > MAX_STATUS_RESPONSE_BYTES && e.says(
                    ExchangeErrorKind::InvalidData,
                    "doctor health response exceeded its fixed limit"@,
                ),
            },
    {
        if chunk.len() == 0 {
            self.complete = true;
            assert(self.bytes@ + line_part(chunk@) =~= self.bytes@);
            return Ok(());
        }
        let ghost start = self.bytes@;
        let mut i: usize = 0;
        let mut ended = false;
        assert(chunk@.skip(0) =~= chunk@);
        assert(start + line_part(chunk@) =~= self.bytes@ + line_part(chunk@.skip(0)));
        while i < chunk.len() && !ended
            invariant
                i <= chunk@.len(),
                !ended ==> self.bytes@ + line_part(chunk@.skip(i as int)) == start + line_part(
                    chunk@,
                ),
                ended ==> self.bytes@ == start + line_part(chunk@) && self.bytes@.last() == 10,
                self.bytes@.len() >= start.len() + i,
            decreases chunk@.len() - i,
        {
            let b: u8 = chunk[i];
            let ghost before = self.bytes@;
            let ghost rest = chunk@.skip(i as int);
            self.bytes.push(b);
            proof {
                assert(rest.drop_first() =~= chunk@.skip(i + 1));
                if b == 10 {
                    assert(before + seq![10u8] =~= self.bytes@);
                } else {
                    assert(before + (seq![b] + line_part(rest.drop_first())) =~= self.bytes@
                        + line_part(rest.drop_first()));
                }
            }
            if b == 10 {
                ended = true;
            }
            i = i + 1;
        }
        assert(!ended ==> self.bytes@ + line_part(chunk@.skip(i as int)) =~= self.bytes@);
        if self.bytes.len() > MAX_STATUS_RESPONSE_BYTES {
            return Err(
                ExchangeError {
                    kind: ExchangeErrorKind::InvalidData,
                    message: "doctor health response exceeded its fixed limit".to_owned(),
                },
            );
        }
        self.complete = self.bytes[self.bytes.len() - 1] == 10;
        Ok(())
    }

    /// The line as text.
    pub fn finish(self) -> (r: Result<String, ExchangeError>)
        ensures
            match r {
                Ok(s) => vstd::utf8::valid_utf8(self.bytes@) && s@ == vstd::utf8::decode_utf8(
                    self.bytes@,
                ),
                Err(e) => !vstd::utf8::valid_utf8(self.bytes@) && e.says(
                    ExchangeErrorKind::InvalidData,
                    text::utf8_complaint(self.bytes@),
                ),
            },
    {
        match text::utf8_text(self.bytes) {
            Ok(s) => Ok(s),
            Err(message) => Err(ExchangeError { kind: ExchangeErrorKind::InvalidData, message }),
        }
    }
}

/// What to do at a port once it was asked who answers there, where a handshake is
/// wanted: whether to go on and ask for the status.
pub open spec fn goes_on(handshake: bool, pong: Option<Seq<char>>) -> bool {
    !handshake || (pong matches Some(p) && crate::daemon::health::is_pong(p))
}

/// Whether to ask a port for its status; `pong` is what it answered to `PING`.
pub fn should_ask_status(handshake: bool, pong: Option<&str>) -> (r: bool)
    ensures
        r == goes_on(
            handshake,
            match pong {
                Some(p) => Some(p@),
                None => None,
            },
        ),
{
    if !handshake {
        return true;
    }
    match pong {
        Some(p) => crate::daemon::health::is_identified_pong(p),
        None => false,
    }
}

/// What came of asking a port for its status, before it is read.
#[derive(Debug)]
pub enum StatusReply {
    /// A line, which may hold a status.
    Line(String),
    /// The line was too long or no text.
    InvalidData,
    /// Nothing.
    Failed,
}

/// The text to look for a status in: an answer that is no text is like one that
/// holds none.
pub fn status_text(reply: StatusReply) -> (r: Option<String>)
    ensures
        text::opt_text(r) == (match reply {
            StatusReply::Line(s) => Some(s@),
            StatusReply::InvalidData => Some(Seq::<char>::empty()),
            StatusReply::Failed => None,
        }),
{
    match reply {
        StatusReply::Line(s) => Some(s),
        StatusReply::InvalidData => Some(String::new()),
        StatusReply::Failed => None,
    }
}

/// An answer is accepted if and only if it is a status with an identity that reports the
/// port at which it was asked; every other answer is told of, but for silence at a port that
/// was not recorded.
pub proof fn law_answers_to_a_probe(port: u16, record: DaemonRecord, recorded: bool)
    ensures
        !accepted(port, StatusAnswer::Unreachable),
        !accepted(port, StatusAnswer::Unparsable),
        accepted(port, StatusAnswer::Status(record)) <==> record.identity is Some
            && record.info.health_port == port,
        rejection(port, StatusAnswer::Unreachable, true) == seq![
            DaemonFinding::DiscoveryCandidateUnreachable { responding_port: port },
        ],
        rejection(port, StatusAnswer::Unreachable, false).len() == 0,
        rejection(port, StatusAnswer::Unparsable, recorded) == seq![
            DaemonFinding::MalformedStatus { responding_port: port },
        ],
        record.identity is None ==> rejection(port, StatusAnswer::Status(record), recorded) == seq![
            DaemonFinding::MalformedStatus { responding_port: port },
        ],
        record.identity is Some && record.info.health_port != port ==> rejection(
            port,
            StatusAnswer::Status(record),
            recorded,
        ) == seq![
            DaemonFinding::StatusHealthPortMismatch {
                responding_port: port,
                reported_port: record.info.health_port,
            },
        ],
        accepted(port, StatusAnswer::Status(record)) ==> rejection(
            port,
            StatusAnswer::Status(record),
            recorded,
        ).len() == 0,
{
}

/// What differs between a record and a fresh answer: the process, and, where both tell them,
/// the build and the executable. A record is stale if and only if something differs.
pub proof fn law_differences_of_records(recorded: DaemonRecord, fresh: DaemonRecord)
    ensures
        ({
            let pid = MismatchFact::Pid { recorded: recorded.info.pid, fresh: fresh.info.pid };
            let found = fact_mismatches(recorded, fresh);
            let told = recorded.identity is Some && fresh.identity is Some;
            let r = recorded.identity->0;
            let f = fresh.identity->0;
            let version = MismatchFact::McpVersion {
                recorded: r.mcp_version@,
                fresh: f.mcp_version@,
            };
            let path = MismatchFact::ExecutablePath {
                recorded: r.executable_path,
                fresh: f.executable_path,
            };
            let same_path = r.executable_path.display@ == f.executable_path.display@
                && r.executable_path.encoding == f.executable_path.encoding;
            &&& found.contains(pid) <==> recorded.info.pid != fresh.info.pid
            &&& told ==> (found.contains(version) <==> r.mcp_version@ != f.mcp_version@)
            &&& told ==> (found.contains(path) <==> !same_path)
            &&& found.len() == 0 <==> recorded.info.pid == fresh.info.pid && (told
                ==> r.mcp_version@ == f.mcp_version@ && same_path)
            &&& found.len() == 0 ==> stale_findings(recorded, fresh).len() == 0
            &&& found.len() > 0 ==> stale_findings(recorded, fresh) == seq![
                DaemonFinding::StaleOrReplacedDiscovery { mismatches: found },
            ]
        }),
{
    let pid = MismatchFact::Pid { recorded: recorded.info.pid, fresh: fresh.info.pid };
    let found = fact_mismatches(recorded, fresh);
    let told = recorded.identity is Some && fresh.identity is Some;
    let a = if recorded.info.pid != fresh.info.pid {
        seq![pid]
    } else {
        Seq::<MismatchFact>::empty()
    };
    if told {
        let r = recorded.identity->0;
        let f = fresh.identity->0;
        let version = MismatchFact::McpVersion { recorded: r.mcp_version@, fresh: f.mcp_version@ };
        let path = MismatchFact::ExecutablePath {
            recorded: r.executable_path,
            fresh: f.executable_path,
        };
        let b = if r.mcp_version@ != f.mcp_version@ {
            seq![version]
        } else {
            Seq::<MismatchFact>::empty()
        };
        let c = if !r.executable_path.alike(f.executable_path) {
            seq![path]
        } else {
            Seq::<MismatchFact>::empty()
        };
        assert(found == a + (b + c));
        if recorded.info.pid != fresh.info.pid {
            assert(found[0] == pid);
        }
        if r.mcp_version@ != f.mcp_version@ {
            assert(found[a.len() as int] == version);
        }
        if !r.executable_path.alike(f.executable_path) {
            assert(found[(a.len() + b.len()) as int] == path);
        }
    } else {
        assert(found =~= a);
        if recorded.info.pid != fresh.info.pid {
            assert(found[0] == pid);
        }
    }
}

/// What a report falls back to where no daemon answers is what was read of the record, and
/// what was odd about that is told first.
pub proof fn law_fallback(path: crate::diagnostics::identity::ReportedPath, kind: String, record: DaemonRecord)
    ensures
        fallback_state(RawDiscoveryRead::Missing { path }) == DoctorDaemonState::Missing,
        fallback_state(RawDiscoveryRead::Unreadable { path, kind })
            == DoctorDaemonState::Unreadable,
        fallback_state(RawDiscoveryRead::Malformed { path }) == DoctorDaemonState::Malformed,
        fallback_state(RawDiscoveryRead::Parsed { path, record })
            == DoctorDaemonState::ParsedUnreachable,
        reading_findings(RawDiscoveryRead::Missing { path }).len() == 0,
        reading_findings(RawDiscoveryRead::Unreadable { path, kind }) == seq![
            DaemonFinding::DiscoveryUnreadable { kind: kind@ },
        ],
        reading_findings(RawDiscoveryRead::Malformed { path }) == seq![
            DaemonFinding::MalformedDiscovery,
        ],
        reading_findings(RawDiscoveryRead::Parsed { path, record }).len() == 0,
{
}

/// The port that was recorded is asked first, and then those of the scan, in order.
pub proof fn law_ports_that_are_asked(raw: RawDiscoveryRead, ports: PortScan, i: int)
    ensures
        raw matches RawDiscoveryRead::Parsed { record, .. } ==> targets(raw, ports)[0]
            == record.info.health_port && targets(raw, ports).len() == ports.ports().len() + 1
            && (0 <= i < ports.ports().len() ==> targets(raw, ports)[i + 1] == ports.ports()[i]),
        !(raw is Parsed) ==> targets(raw, ports) == ports.ports(),
{
    assert(!(raw is Parsed) ==> targets(raw, ports) =~= ports.ports());
}

/// What is told of the answers is told answer by answer, and only the first answer to a
/// recorded port counts as one of a recorded daemon.
pub proof fn law_rejections_in_order(
    raw: RawDiscoveryRead,
    ports: PortScan,
    answers: Seq<StatusAnswer>,
    n: nat,
)
    requires
        n < answers.len(),
    ensures
        rejections(raw, ports, answers, 0).len() == 0,
        rejections(raw, ports, answers, n + 1) == rejections(raw, ports, answers, n) + rejection(
            targets(raw, ports)[n as int],
            answers[n as int],
            raw is Parsed && n == 0,
        ),
{
}

/// A report shows the first answer that is accepted, and only what was odd before it; a
/// daemon at the recorded port is told apart from one that a scan found.
pub proof fn law_report_shows_first_accepted(
    report: DoctorDaemonReport,
    raw: RawDiscoveryRead,
    ports: PortScan,
    answers: Seq<StatusAnswer>,
    i: int,
)
    requires
        is_report_of(report, raw, ports, answers),
    ensures
        0 <= i < answers.len() && accepted(targets(raw, ports)[i], answers[i]) && (forall|j: int|
            0 <= j < i ==> !accepted(targets(raw, ports)[j], #[trigger] answers[j])) ==> {
            &&& report.verified matches Some(v) && v.responding_port == targets(raw, ports)[i]
                && answers[i] == StatusAnswer::Status(v.record)
            &&& report.state == (if raw is Parsed && i == 0 {
                DoctorDaemonState::LiveFromDiscovery
            } else {
                DoctorDaemonState::LiveFromScan
            })
            &&& daemon_findings(report.warnings@) == reading_findings(raw) + rejections(
                raw,
                ports,
                answers,
                i as nat,
            ) + (if raw is Parsed && i == 0 {
                stale_findings(raw->Parsed_record, answers[i]->Status_0)
            } else {
                Seq::empty()
            })
        },
        (forall|j: int|
            0 <= j < answers.len() ==> !accepted(targets(raw, ports)[j], #[trigger] answers[j]))
            ==> report.verified is None && report.state == fallback_state(raw) && daemon_findings(
            report.warnings@,
        ) == reading_findings(raw) + rejections(raw, ports, answers, answers.len()),
{
    law_first_accepted(raw, ports, answers, answers.len());
    if 0 <= i < answers.len() && accepted(targets(raw, ports)[i], answers[i]) && (forall|j: int|
        0 <= j < i ==> !accepted(targets(raw, ports)[j], #[trigger] answers[j])) {
        assert(first_accepted(raw, ports, answers, answers.len()) == Some(i));
    }
}

/// Of what is received the first line counts, with its end; all of it where no line ends.
pub proof fn law_first_line(line: Seq<u8>, rest: Seq<u8>)
    requires
        !line.contains(10u8),
    ensures
        line_part(line + seq![10u8] + rest) == line + seq![10u8],
        line_part(line) == line,
    decreases line.len(),
{
    let whole = line + seq![10u8] + rest;
    if line.len() == 0 {
        assert(whole[0] == 10);
        assert(line_part(whole) =~= line + seq![10u8]);
        assert(line_part(line) =~= line);
    } else {
        let t = line.drop_first();
        assert(!t.contains(10u8)) by {
            if t.contains(10u8) {
                let k = choose|k: int| 0 <= k < t.len() && t[k] == 10u8;
                assert(line[k + 1] == 10u8);
            }
        }
        assert(line.contains(line[0]));
        assert(whole[0] == line[0]);
        assert(whole.drop_first() =~= t + seq![10u8] + rest);
        law_first_line(t, rest);
        assert(line_part(whole) =~= line + seq![10u8]);
        assert(line_part(line) =~= line);
    }
}

/// A status is asked for at once at a recorded port; at any other only once a daemon has
/// answered the ping.
pub proof fn law_status_is_asked_for(handshake: bool, response: Seq<char>)
    ensures
        goes_on(false, None),
        goes_on(false, Some(response)),
        !goes_on(true, None),
        goes_on(true, Some(response)) <==> crate::daemon::health::is_pong(response),
        MAX_STATUS_RESPONSE_BYTES == 65536,
        DOCTOR_DAEMON_TIMEOUT == 500,
        DOCTOR_NETWORK_PHASE_TIMEOUT == 300,
        DOCTOR_CHUNK_BYTES == 1024,
{
}

/// A warning tells what was found, with the same ports, texts and paths.
pub proof fn law_daemon_warnings_tell_findings(
    kind: String,
    port: u16,
    other: u16,
    mismatches: Vec<DiscoveryFactMismatch>,
    pids: (u32, u32),
    texts: (String, String),
    paths: (crate::diagnostics::identity::ReportedPath, crate::diagnostics::identity::ReportedPath),
)
    ensures
        (DoctorDaemonWarning::DiscoveryUnreadable { kind })@
            == (DaemonFinding::DiscoveryUnreadable { kind: kind@ }),
        DoctorDaemonWarning::MalformedDiscovery@ == DaemonFinding::MalformedDiscovery,
        (DoctorDaemonWarning::DiscoveryCandidateUnreachable { responding_port: port })@
            == (DaemonFinding::DiscoveryCandidateUnreachable { responding_port: port }),
        (DoctorDaemonWarning::StaleOrReplacedDiscovery { mismatches })@
            == (DaemonFinding::StaleOrReplacedDiscovery { mismatches: mismatch_facts(mismatches@) }),
        (DoctorDaemonWarning::StatusHealthPortMismatch {
            responding_port: port,
            reported_port: other,
        })@ == (DaemonFinding::StatusHealthPortMismatch {
            responding_port: port,
            reported_port: other,
        }),
        (DoctorDaemonWarning::MalformedStatus { responding_port: port })@
            == (DaemonFinding::MalformedStatus { responding_port: port }),
        (DiscoveryFactMismatch::Pid { recorded: pids.0, fresh: pids.1 })@ == (MismatchFact::Pid {
            recorded: pids.0,
            fresh: pids.1,
        }),
        (DiscoveryFactMismatch::McpVersion { recorded: texts.0, fresh: texts.1 })@
            == (MismatchFact::McpVersion { recorded: texts.0@, fresh: texts.1@ }),
        (DiscoveryFactMismatch::ExecutablePath { recorded: paths.0, fresh: paths.1 })@
            == (MismatchFact::ExecutablePath { recorded: paths.0, fresh: paths.1 }),
{
}

} // verus!
