//! The report on an installation, its configuration and its daemon.

use vstd::prelude::*;

use crate::diagnostics::daemon::{
    DiscoveryFactMismatch, DoctorDaemonReport, DoctorDaemonState, DoctorDaemonWarning,
};
use crate::diagnostics::daemon;
use crate::diagnostics::identity::{
    IdentityWarning, InstallationIdentity, LauncherIdentity, ReportedPath, SourceVersionIdentity,
};
use crate::diagnostics::identity;
use crate::text;

verus! {

/// Whether the report could be made.
#[derive(Debug, Clone, Copy, PartialEq, Eq, Structural)]
pub enum DoctorStatus {
    /// It could.
    Good,
}

/// Whether a persistent database is used.
#[derive(Debug, Clone, Copy, PartialEq, Eq, Structural)]
pub enum PersistentMode {
    /// One is attached.
    PersistentAttached,
    /// None is: everything is gone when the session ends.
    EphemeralOnly,
}

/// Where the path of the persistent database comes from.
#[derive(Debug, Clone, Copy, PartialEq, Eq, Structural)]
pub enum PersistentDbPathSource {
    /// The command line.
    Cli,
    /// The old name of the command-line option.
    DeprecatedAlias,
    /// The environment.
    Environment,
    /// The place that the platform has for such files.
    PlatformDefault,
    /// Nowhere: it is switched off.
    Disabled,
}

/// What was asked for on the command line.
#[derive(Debug, Clone, Copy)]
pub struct DoctorOptions<'a> {
    /// The path of the persistent database.
    pub persistent_db: Option<&'a str>,
    /// The same, by the option's old name.
    pub deprecated_workspace: Option<&'a str>,
    /// Whether to do without a persistent database.
    pub ephemeral_only: bool,
    /// Whether nothing may be changed.
    pub read_only: bool,
    /// Whether to do without a shared daemon.
    pub no_daemon: bool,
}

/// A path and what is found there.
#[derive(Debug)]
pub struct DoctorPathFacts {
    /// The path.
    pub path: ReportedPath,
    /// Whether there is anything.
    pub exists: bool,
    /// Whether it is a file.
    pub is_file: bool,
    /// Whether it is a directory.
    pub is_directory: bool,
}

impl DoctorPathFacts {
    /// The same once more.
    pub fn copied(&self) -> (r: DoctorPathFacts)
        ensures
            r == *self,
    {
        DoctorPathFacts {
            path: self.path.copied(),
            exists: self.exists,
            is_file: self.is_file,
            is_directory: self.is_directory,
        }
    }
}

/// The part of the report on the installation.
#[derive(Debug)]
pub struct DoctorInstallationReport {
    /// The executable that runs.
    pub native_executable: ReportedPath,
    /// The version of this program.
    pub mcp_version: SourceVersionIdentity,
    /// The version of the database library in it.
    pub hyper_rust_api_version: SourceVersionIdentity,
    /// What the launcher reported.
    pub launcher: Option<LauncherIdentity>,
}

/// The part of the report on the configuration.
#[derive(Debug)]
pub struct DoctorConfigurationReport {
    /// Whether a persistent database is used.
    pub persistent_mode: PersistentMode,
    /// Where its path comes from.
    pub persistent_path_source: PersistentDbPathSource,
    /// The path as it was given.
    pub observed_persistent_path: Option<ReportedPath>,
    /// The path that is used.
    pub resolved_persistent_path: Option<DoctorPathFacts>,
    /// The directory of that path.
    pub resolved_persistent_parent: Option<DoctorPathFacts>,
    /// The daemon's state directory.
    pub daemon_state_directory: Option<DoctorPathFacts>,
    /// The daemon's discovery file.
    pub daemon_discovery_file: Option<DoctorPathFacts>,
    /// The client's log file.
    pub client_log: DoctorPathFacts,
    /// The database executable as it was given.
    pub observed_hyperd_path: Option<DoctorPathFacts>,
    /// The database executable that is used.
    pub effective_hyperd_path: Option<DoctorPathFacts>,
    /// The database executable that was found in a directory above.
    pub upward_hyperd_candidate: Option<DoctorPathFacts>,
    /// Whether nothing may be changed.
    pub read_only: bool,
    /// Whether there is no shared daemon.
    pub no_daemon: bool,
}

/// The part of the report on the daemon.
#[derive(Debug)]
pub struct DoctorDaemonSection {
    /// What is known of it.
    pub state: DoctorDaemonState,
    /// Its process ID.
    pub pid: Option<u32>,
    /// Where the database process answers.
    pub hyperd_endpoint: Option<String>,
    /// The port on which it answers.
    pub health_port: Option<u16>,
    /// When it was started.
    pub started_at: Option<String>,
    /// Its version.
    pub version: Option<String>,
    /// Its build.
    pub mcp_version: Option<String>,
    /// Its executable.
    pub executable_path: Option<ReportedPath>,
}

/// The part of the report on the tools.
#[derive(Debug, Clone, Copy, PartialEq, Eq, Structural)]
pub struct DoctorToolCatalogReport {
    /// How many there are.
    pub tool_count: usize,
    /// How many bytes their descriptions take.
    pub canonical_tool_bytes: usize,
    /// How many bytes the instructions take.
    pub initialization_instructions_bytes: usize,
    /// How many bytes the manual takes.
    pub get_readme_bytes: usize,
}

/// A remark of the report.
#[derive(Debug)]
pub struct DoctorWarning {
    /// Its name.
    pub code: String,
    /// What it says.
    pub message: String,
}

/// The report.
#[derive(Debug)]
pub struct DoctorReport {
    /// Whether it could be made.
    pub status: DoctorStatus,
    /// The installation.
    pub installation: DoctorInstallationReport,
    /// The configuration.
    pub configuration: DoctorConfigurationReport,
    /// The daemon.
    pub daemon: DoctorDaemonSection,
    /// The tools.
    pub tool_catalog: DoctorToolCatalogReport,
    /// Remarks.
    pub warnings: Vec<DoctorWarning>,
}

impl View for DoctorWarning {
    type V = (Seq<char>, Seq<char>);

    open spec fn view(&self) -> (Seq<char>, Seq<char>) {
        (self.code@, self.message@)
    }
}

/// What remarks are called and say.
pub open spec fn remarks(w: Seq<DoctorWarning>) -> Seq<(Seq<char>, Seq<char>)> {
    w.map_values(|x: DoctorWarning| x@)
}

/// A remark, cut to the length that a report allows.
pub open spec fn remark(code: Seq<char>, message: Seq<char>) -> (Seq<char>, Seq<char>) {
    (identity::bounded(code), identity::bounded(message))
}

/// The text, or a word that says that there is none.
pub open spec fn or_unavailable(s: Option<Seq<char>>) -> Seq<char> {
    match s {
        Some(t) => t,
        None => "unavailable"@,
    }
}

/// The remark for a finding on the installation.
pub open spec fn identity_remark(f: identity::IdentityFinding) -> (Seq<char>, Seq<char>) {
    match f {
        identity::IdentityFinding::MalformedLauncherInfo => remark(
            "malformed_launcher_info"@,
            "HYPERDB_MCP_LAUNCHER_INFO was malformed and was ignored."@,
        ),
        identity::IdentityFinding::LauncherInfoTooLarge => remark(
            "launcher_info_too_large"@,
            "HYPERDB_MCP_LAUNCHER_INFO exceeded 16 KiB and was ignored."@,
        ),
        identity::IdentityFinding::LauncherFieldTooLarge { field } => remark(
            "launcher_field_too_large"@,
            "Launcher field '"@ + field
                + "' exceeded 4 KiB and all launcher metadata was ignored."@,
        ),
        identity::IdentityFinding::MalformedVersion { component } => remark(
            "malformed_version"@,
            "The "@ + component + " value was not valid semantic version identity."@,
        ),
        identity::IdentityFinding::VersionMismatch { native, wrapper, platform } => remark(
            "launcher_native_version_mismatch"@,
            "Launcher package versions differ from native "@ + native + ": wrapper="@
                + or_unavailable(wrapper) + ", platform="@ + or_unavailable(platform) + "."@,
        ),
    }
}

/// A mismatch in words.
pub open spec fn mismatch_words(m: daemon::MismatchFact) -> Seq<char> {
    match m {
        daemon::MismatchFact::Pid { recorded, fresh } => "PID recorded="@ + text::decimal(
            recorded as nat,
        ) + " fresh="@ + text::decimal(fresh as nat),
        daemon::MismatchFact::McpVersion { recorded, fresh } => "MCP build recorded='"@ + recorded
            + "' fresh='"@ + fresh + "'"@,
        daemon::MismatchFact::ExecutablePath { recorded, fresh } => "executable recorded='"@
            + recorded.display@ + "' fresh='"@ + fresh.display@ + "'"@,
    }
}

/// The remark for a finding on the daemon.
pub open spec fn daemon_remark(f: daemon::DaemonFinding) -> (Seq<char>, Seq<char>) {
    match f {
        daemon::DaemonFinding::DiscoveryUnreadable { kind } => remark(
            "daemon_discovery_unreadable"@,
            "The daemon discovery file was unreadable ("@ + kind + ")."@,
        ),
        daemon::DaemonFinding::MalformedDiscovery => remark(
            "daemon_discovery_malformed"@,
            "The daemon discovery file was malformed; it was left unchanged."@,
        ),
        daemon::DaemonFinding::DiscoveryCandidateUnreachable { responding_port } => remark(
            "daemon_discovery_candidate_unreachable"@,
            "The recorded daemon candidate on port "@ + text::decimal(responding_port as nat)
                + " did not return fresh enriched STATUS."@,
        ),
        daemon::DaemonFinding::StaleOrReplacedDiscovery { mismatches } => remark(
            "daemon_discovery_stale_or_replaced"@,
            "Fresh daemon STATUS disagreed with the discovery record: "@ + text::joined(
                mismatches.map_values(|m: daemon::MismatchFact| mismatch_words(m)),
                "; "@,
            ) + "."@,
        ),
        daemon::DaemonFinding::StatusHealthPortMismatch { responding_port, reported_port } => {
            remark(
                "daemon_status_health_port_mismatch"@,
                "STATUS from port "@ + text::decimal(responding_port as nat)
                    + " reported health port "@ + text::decimal(reported_port as nat)
                    + "; the candidate was rejected."@,
            )
        },
        daemon::DaemonFinding::MalformedStatus { responding_port } => remark(
            "daemon_status_malformed"@,
            "Port "@ + text::decimal(responding_port as nat)
                + " returned malformed or unenriched STATUS; the candidate was rejected."@,
        ),
    }
}

/// A remark, cut to the length that a report allows.
pub fn doctor_warning(code: &str, message: &str) -> (r: DoctorWarning)
    ensures
        r@ == remark(code@, message@),
{
    DoctorWarning {
        code: identity::bounded_string(code),
        message: identity::bounded_string(message),
    }
}

fn or_unavailable_text(s: &Option<String>) -> (r: &str)
    ensures
        r@ == or_unavailable(text::opt_text(*s)),
{
    match s {
        Some(t) => t.as_str(),
        None => "unavailable",
    }
}

/// The remark for a finding on the installation.
pub fn identity_doctor_warning(warning: &IdentityWarning) -> (r: DoctorWarning)
    ensures
        r@ == identity_remark(warning@),
{
    match warning {
        IdentityWarning::MalformedLauncherInfo => doctor_warning(
            "malformed_launcher_info",
            "HYPERDB_MCP_LAUNCHER_INFO was malformed and was ignored.",
        ),
        IdentityWarning::LauncherInfoTooLarge => doctor_warning(
            "launcher_info_too_large",
            "HYPERDB_MCP_LAUNCHER_INFO exceeded 16 KiB and was ignored.",
        ),
        IdentityWarning::LauncherFieldTooLarge { field } => {
            let message = text::cat3(
                "Launcher field '",
                field.as_str(),
                "' exceeded 4 KiB and all launcher metadata was ignored.",
            );
            doctor_warning("launcher_field_too_large", message.as_str())
        },
        IdentityWarning::MalformedVersion { component } => {
            let message = text::cat3(
                "The ",
                component.as_str(),
                " value was not valid semantic version identity.",
            );
            doctor_warning("malformed_version", message.as_str())
        },
        IdentityWarning::VersionMismatch { native, wrapper, platform } => {
            let message = text::cat7(
                "Launcher package versions differ from native ",
                native.as_str(),
                ": wrapper=",
                or_unavailable_text(wrapper),
                ", platform=",
                or_unavailable_text(platform),
                ".",
            );
            doctor_warning("launcher_native_version_mismatch", message.as_str())
        },
    }
}

/// A mismatch in words.
pub fn discovery_mismatch_message(mismatch: &DiscoveryFactMismatch) -> (r: String)
    ensures
        r@ == mismatch_words(mismatch@),
{
    match mismatch {
        DiscoveryFactMismatch::Pid { recorded, fresh } => {
            let recorded = text::decimal_text(*recorded as u64);
            let fresh = text::decimal_text(*fresh as u64);
            text::cat4("PID recorded=", recorded.as_str(), " fresh=", fresh.as_str())
        },
        DiscoveryFactMismatch::McpVersion { recorded, fresh } => text::cat5(
            "MCP build recorded='",
            recorded.as_str(),
            "' fresh='",
            fresh.as_str(),
            "'",
        ),
        DiscoveryFactMismatch::ExecutablePath { recorded, fresh } => text::cat5(
            "executable recorded='",
            recorded.display.as_str(),
            "' fresh='",
            fresh.display.as_str(),
            "'",
        ),
    }
}

fn mismatch_messages(mismatches: &Vec<DiscoveryFactMismatch>) -> (r: Vec<String>)
    ensures
        text::texts(r@) == daemon::mismatch_facts(mismatches@).map_values(
            |m: daemon::MismatchFact| mismatch_words(m),
        ),
{
    let mut out: Vec<String> = Vec::new();
    let mut i: usize = 0;
    while i < mismatches.len()
        invariant
            i <= mismatches@.len(),
            out@.len() == i,
            forall|j: int| 0 <= j < i ==> #[trigger] out@[j]@ == mismatch_words(mismatches@[j]@),
        decreases mismatches@.len() - i,
    {
        out.push(discovery_mismatch_message(&mismatches[i]));
        i = i + 1;
    }
    assert(text::texts(out@) =~= daemon::mismatch_facts(mismatches@).map_values(
        |m: daemon::MismatchFact| mismatch_words(m),
    ));
    out
}

/// The remark for a finding on the daemon.
pub fn daemon_doctor_warning(warning: &DoctorDaemonWarning) -> (r: DoctorWarning)
    ensures
        r@ == daemon_remark(warning@),
{
    match warning {
        DoctorDaemonWarning::DiscoveryUnreadable { kind } => {
            let message = text::cat3(
                "The daemon discovery file was unreadable (",
                kind.as_str(),
                ").",
            );
            doctor_warning("daemon_discovery_unreadable", message.as_str())
        },
        DoctorDaemonWarning::MalformedDiscovery => doctor_warning(
            "daemon_discovery_malformed",
            "The daemon discovery file was malformed; it was left unchanged.",
        ),
        DoctorDaemonWarning::DiscoveryCandidateUnreachable { responding_port } => {
            let port = text::decimal_text(*responding_port as u64);
            let message = text::cat3(
                "The recorded daemon candidate on port ",
                port.as_str(),
                " did not return fresh enriched STATUS.",
            );
            doctor_warning("daemon_discovery_candidate_unreachable", message.as_str())
        },
        DoctorDaemonWarning::StaleOrReplacedDiscovery { mismatches } => {
            let parts = mismatch_messages(mismatches);
            let facts = text::join(&parts, "; ");
            let message = text::cat3(
                "Fresh daemon STATUS disagreed with the discovery record: ",
                facts.as_str(),
                ".",
            );
            doctor_warning("daemon_discovery_stale_or_replaced", message.as_str())
        },
        DoctorDaemonWarning::StatusHealthPortMismatch { responding_port, reported_port } => {
            let responding = text::decimal_text(*responding_port as u64);
            let reported = text::decimal_text(*reported_port as u64);
            let message = text::cat5(
                "STATUS from port ",
                responding.as_str(),
                " reported health port ",
                reported.as_str(),
                "; the candidate was rejected.",
            );
            doctor_warning("daemon_status_health_port_mismatch", message.as_str())
        },
        DoctorDaemonWarning::MalformedStatus { responding_port } => {
            let port = text::decimal_text(*responding_port as u64);
            let message = text::cat3(
                "Port ",
                port.as_str(),
                " returned malformed or unenriched STATUS; the candidate was rejected.",
            );
            doctor_warning("daemon_status_malformed", message.as_str())
        },
    }
}

/// An optional text, cut to the length that a report allows.
pub open spec fn opt_bounded(s: Option<Seq<char>>) -> Option<Seq<char>> {
    match s {
        Some(t) => Some(identity::bounded(t)),
        None => None,
    }
}

fn opt_bounded_text(s: &Option<String>) -> (r: Option<String>)
    ensures
        text::opt_text(r) == opt_bounded(text::opt_text(*s)),
{
    match s {
        Some(t) => Some(identity::bounded_string(t.as_str())),
        None => None,
    }
}

/// Whether `r` is `v` with its texts cut to the length that a report allows.
pub open spec fn is_bounded_version(r: SourceVersionIdentity, v: SourceVersionIdentity) -> bool {
    &&& r.source@ == identity::bounded(v.source@)
    &&& text::opt_text(r.version) == opt_bounded(text::opt_text(v.version))
    &&& text::opt_text(r.build) == opt_bounded(text::opt_text(v.build))
}

/// A version with its texts cut to the length that a report allows.
pub fn bounded_source_version(version: &SourceVersionIdentity) -> (r: SourceVersionIdentity)
    ensures
        is_bounded_version(r, *version),
{
    SourceVersionIdentity {
        source: identity::bounded_string(version.source.as_str()),
        version: opt_bounded_text(&version.version),
        build: opt_bounded_text(&version.build),
    }
}

/// Whether `section` tells what `report` found out.
pub open spec fn is_section_of(section: DoctorDaemonSection, report: DoctorDaemonReport) -> bool {
    &&& section.state == report.state
    &&& match report.verified {
        None => {
            &&& section.pid is None
            &&& section.hyperd_endpoint is None
            &&& section.health_port is None
            &&& section.started_at is None
            &&& section.version is None
            &&& section.mcp_version is None
            &&& section.executable_path is None
        },
        Some(v) => {
            let info = v.record.info;
            &&& section.pid == Some(info.pid)
            &&& text::opt_text(section.hyperd_endpoint) == Some(
                identity::bounded(info.hyperd_endpoint@),
            )
            &&& section.health_port == Some(info.health_port)
            &&& text::opt_text(section.started_at) == Some(identity::bounded(info.started_at@))
            &&& text::opt_text(section.version) == Some(identity::bounded(info.version@))
            &&& match v.record.identity {
                None => section.mcp_version is None && section.executable_path is None,
                Some(id) => {
                    &&& text::opt_text(section.mcp_version) == Some(
                        identity::bounded(id.mcp_version@),
                    )
                    &&& section.executable_path == Some(id.executable_path)
                },
            }
        },
    }
}

/// The part of the report that tells what was found out about the daemon.
pub fn doctor_daemon_section(report: &DoctorDaemonReport) -> (r: DoctorDaemonSection)
    ensures
        is_section_of(r, *report),
{
    match &report.verified {
        None => DoctorDaemonSection {
            state: report.state,
            pid: None,
            hyperd_endpoint: None,
            health_port: None,
            started_at: None,
            version: None,
            mcp_version: None,
            executable_path: None,
        },
        Some(v) => {
            let info = &v.record.info;
            let (mcp_version, executable_path) = match &v.record.identity {
                Some(id) => (
                    Some(identity::bounded_string(id.mcp_version.as_str())),
                    Some(id.executable_path.copied()),
                ),
                None => (None, None),
            };
            DoctorDaemonSection {
                state: report.state,
                pid: Some(info.pid),
                hyperd_endpoint: Some(identity::bounded_string(info.hyperd_endpoint.as_str())),
                health_port: Some(info.health_port),
                started_at: Some(identity::bounded_string(info.started_at.as_str())),
                version: Some(identity::bounded_string(info.version.as_str())),
                mcp_version,
                executable_path,
            }
        },
    }
}

/// What is known of the persistent database.
#[derive(Debug)]
pub struct ResolvedPersistentDb {
    /// Where its path comes from.
    pub source: PersistentDbPathSource,
    /// The path as it was given.
    pub observed: Option<ReportedPath>,
    /// The path that is used, and its directory.
    pub resolved: Option<(DoctorPathFacts, DoctorPathFacts)>,
}

/// What is known of the database executable.
#[derive(Debug)]
pub struct DoctorHyperdResolution {
    /// The path as it was given.
    pub observed: Option<DoctorPathFacts>,
    /// The path that is used.
    pub effective: Option<DoctorPathFacts>,
    /// The path that was found in a directory above.
    pub upward_candidate: Option<DoctorPathFacts>,
    /// What is odd about it.
    pub warning: Option<DoctorWarning>,
}

/// All that a report is made of.
#[derive(Debug)]
pub struct DoctorFacts {
    /// The identity of the installation.
    pub installation: InstallationIdentity,
    /// The persistent database.
    pub persistent: ResolvedPersistentDb,
    /// Why there is no state directory: the name of the error.
    pub state_error: Option<String>,
    /// The daemon's state directory.
    pub daemon_state_directory: Option<DoctorPathFacts>,
    /// The daemon's discovery file.
    pub daemon_discovery_file: Option<DoctorPathFacts>,
    /// The client's log file.
    pub client_log: DoctorPathFacts,
    /// The database executable.
    pub hyperd: DoctorHyperdResolution,
    /// What was found out about the daemon.
    pub daemon: DoctorDaemonReport,
    /// The tools.
    pub catalog: DoctorToolCatalogReport,
}

/// The remark where there is a reason for it.
pub open spec fn when(reason: bool, r: (Seq<char>, Seq<char>)) -> Seq<(Seq<char>, Seq<char>)> {
    if reason {
        seq![r]
    } else {
        Seq::empty()
    }
}

/// The remarks on a daemon that is another build or another executable than this
/// client.
pub open spec fn client_mismatch_remarks(
    daemon: DoctorDaemonReport,
    installation: InstallationIdentity,
) -> Seq<(Seq<char>, Seq<char>)> {
    match daemon.verified {
        Some(v) => match v.record.identity {
            Some(id) => when(
                id.mcp_version@ != installation.mcp.source@,
                remark(
                    "daemon_client_build_mismatch"@,
                    "The live daemon MCP build '"@ + id.mcp_version@
                        + "' differs from this client build '"@ + installation.mcp.source@ + "'."@,
                ),
            ) + when(
                !id.executable_path.alike(installation.native_executable),
                remark(
                    "daemon_client_executable_mismatch"@,
                    "The live daemon executable '"@ + id.executable_path.display@
                        + "' differs from this client executable '"@
                        + installation.native_executable.display@ + "'."@,
                ),
            ),
            None => Seq::empty(),
        },
        None => Seq::empty(),
    }
}

/// The remark that there is no state directory.
pub open spec fn state_error_remarks(kind: Option<Seq<char>>) -> Seq<(Seq<char>, Seq<char>)> {
    match kind {
        Some(kind) => seq![
            remark(
                "daemon_state_path_unavailable"@,
                "The daemon state path could not be resolved ("@ + kind + ")."@,
            ),
        ],
        None => Seq::empty(),
    }
}

/// The remark on the database executable.
pub open spec fn hyperd_remarks(w: Option<DoctorWarning>) -> Seq<(Seq<char>, Seq<char>)> {
    match w {
        Some(w) => seq![w@],
        None => Seq::empty(),
    }
}

/// All remarks of a report, in order.
pub open spec fn report_remarks(facts: DoctorFacts) -> Seq<(Seq<char>, Seq<char>)> {
    identity::findings(facts.installation.warnings@).map_values(
        |f: identity::IdentityFinding| identity_remark(f),
    ) + daemon::daemon_findings(facts.daemon.warnings@).map_values(
        |f: daemon::DaemonFinding| daemon_remark(f),
    ) + state_error_remarks(text::opt_text(facts.state_error)) + when(
        facts.persistent.source == PersistentDbPathSource::DeprecatedAlias,
        remark(
            "deprecated_persistent_alias"@,
            "The persistent path came from deprecated --workspace; use --persistent-db."@,
        ),
    ) + when(
        facts.persistent.resolved is None,
        remark("ephemeral_client_log_path_illustrative"@, EPHEMERAL_LOG_REMARK@),
    ) + hyperd_remarks(facts.hyperd.warning) + client_mismatch_remarks(
        facts.daemon,
        facts.installation,
    ) + seq![
        remark(
            "local_paths_review"@,
            "This report contains local paths; review it before sharing."@,
        ),
    ]
}

/// Why the log path of an ephemeral session is only an example.
pub const EPHEMERAL_LOG_REMARK: &'static str = "No persistent database is configured (ephemeral-only mode), so the reported client log path is derived from this doctor invocation's own temporary directory and process id. It is illustrative only: a running MCP server logs under its own per-process directory, which a separate doctor run cannot identify.";

fn push_remark(warnings: &mut Vec<DoctorWarning>, warning: DoctorWarning)
    ensures
        remarks(final(warnings)@) == remarks(old(warnings)@) + seq![warning@],
{
    warnings.push(warning);
    assert(remarks(warnings@) =~= remarks(old(warnings)@) + seq![warning@]);
}

fn push_remark_when(warnings: &mut Vec<DoctorWarning>, reason: bool, code: &str, message: &str)
    ensures
        remarks(final(warnings)@) == remarks(old(warnings)@) + when(reason, remark(code@, message@)),
{
    if reason {
        push_remark(warnings, doctor_warning(code, message));
    } else {
        assert(remarks(warnings@) =~= remarks(old(warnings)@) + Seq::empty());
    }
}

fn identity_doctor_warnings(warnings: &Vec<IdentityWarning>) -> (r: Vec<DoctorWarning>)
    ensures
        remarks(r@) == identity::findings(warnings@).map_values(
            |f: identity::IdentityFinding| identity_remark(f),
        ),
{
    let mut out: Vec<DoctorWarning> = Vec::new();
    let mut i: usize = 0;
    while i < warnings.len()
        invariant
            i <= warnings@.len(),
            out@.len() == i,
            forall|j: int| 0 <= j < i ==> #[trigger] out@[j]@ == identity_remark(warnings@[j]@),
        decreases warnings@.len() - i,
    {
        out.push(identity_doctor_warning(&warnings[i]));
        i = i + 1;
    }
    assert(remarks(out@) =~= identity::findings(warnings@).map_values(
        |f: identity::IdentityFinding| identity_remark(f),
    ));
    out
}

fn push_daemon_remarks(out: &mut Vec<DoctorWarning>, warnings: &Vec<DoctorDaemonWarning>)
    ensures
        remarks(final(out)@) == remarks(old(out)@) + daemon::daemon_findings(
            warnings@,
        ).map_values(|f: daemon::DaemonFinding| daemon_remark(f)),
{
    let ghost start = out@;
    let mut i: usize = 0;
    while i < warnings.len()
        invariant
            i <= warnings@.len(),
            out@.len() == start.len() + i,
            forall|j: int| 0 <= j < start.len() ==> #[trigger] out@[j] == start[j],
            forall|j: int|
                0 <= j < i ==> (#[trigger] out@[start.len() + j])@ == daemon_remark(
                    warnings@[j]@,
                ),
        decreases warnings@.len() - i,
    {
        out.push(daemon_doctor_warning(&warnings[i]));
        i = i + 1;
    }
    let ghost added = daemon::daemon_findings(warnings@).map_values(
        |f: daemon::DaemonFinding| daemon_remark(f),
    );
    assert forall|k: int| 0 <= k < out@.len() implies remarks(out@)[k] == (remarks(start)
        + added)[k] by {
        if k >= start.len() {
            let j = k - start.len();
            assert(out@[start.len() + j]@ == daemon_remark(warnings@[j]@));
        }
    }
    assert(remarks(out@) =~= remarks(start) + added);
}

fn push_client_mismatch_remarks(
    out: &mut Vec<DoctorWarning>,
    daemon: &DoctorDaemonReport,
    installation: &InstallationIdentity,
)
    ensures
        remarks(final(out)@) == remarks(old(out)@) + client_mismatch_remarks(
            *daemon,
            *installation,
        ),
{
    let ghost start = remarks(out@);
    if let Some(v) = &daemon.verified {
        if let Some(id) = &v.record.identity {
            let build = text::cat5(
                "The live daemon MCP build '",
                id.mcp_version.as_str(),
                "' differs from this client build '",
                installation.mcp.source.as_str(),
                "'.",
            );
            let other_build = !text::same_text(
                id.mcp_version.as_str(),
                installation.mcp.source.as_str(),
            );
            push_remark_when(out, other_build, "daemon_client_build_mismatch", build.as_str());
            let executable = text::cat5(
                "The live daemon executable '",
                id.executable_path.display.as_str(),
                "' differs from this client executable '",
                installation.native_executable.display.as_str(),
                "'.",
            );
            let other_executable = !id.executable_path.same_as(&installation.native_executable);
            push_remark_when(
                out,
                other_executable,
                "daemon_client_executable_mismatch",
                executable.as_str(),
            );
            assert(remarks(out@) =~= start + client_mismatch_remarks(*daemon, *installation));
        } else {
            assert(remarks(out@) =~= start + Seq::empty());
        }
    } else {
        assert(remarks(out@) =~= start + Seq::empty());
    }
}

/// Whether `c` is the configuration that the facts and the options tell.
pub open spec fn is_configuration_of(
    c: DoctorConfigurationReport,
    options: DoctorOptions,
    facts: DoctorFacts,
) -> bool {
    &&& c.persistent_mode == (if facts.persistent.resolved is Some {
        PersistentMode::PersistentAttached
    } else {
        PersistentMode::EphemeralOnly
    })
    &&& c.persistent_path_source == facts.persistent.source
    &&& c.observed_persistent_path == facts.persistent.observed
    &&& match facts.persistent.resolved {
        Some((path, parent)) => c.resolved_persistent_path == Some(path)
            && c.resolved_persistent_parent == Some(parent),
        None => c.resolved_persistent_path is None && c.resolved_persistent_parent is None,
    }
    &&& c.daemon_state_directory == facts.daemon_state_directory
    &&& c.daemon_discovery_file == facts.daemon_discovery_file
    &&& c.client_log == facts.client_log
    &&& c.observed_hyperd_path == facts.hyperd.observed
    &&& c.effective_hyperd_path == facts.hyperd.effective
    &&& c.upward_hyperd_candidate == facts.hyperd.upward_candidate
    &&& c.read_only == options.read_only
    &&& c.no_daemon == options.no_daemon
}

/// Whether `report` is the report that the facts and the options make.
pub open spec fn is_doctor_report_of(
    report: DoctorReport,
    options: DoctorOptions,
    facts: DoctorFacts,
) -> bool {
    &&& report.status == DoctorStatus::Good
    &&& report.installation.native_executable == facts.installation.native_executable
    &&& is_bounded_version(report.installation.mcp_version, facts.installation.mcp)
    &&& is_bounded_version(
        report.installation.hyper_rust_api_version,
        facts.installation.hyper_rust_api,
    )
    &&& report.installation.launcher == facts.installation.launcher
    &&& is_configuration_of(report.configuration, options, facts)
    &&& is_section_of(report.daemon, facts.daemon)
    &&& report.tool_catalog == facts.catalog
    &&& remarks(report.warnings@) == report_remarks(facts)
}

/// Makes the report.
pub fn collect_doctor_report(options: DoctorOptions, facts: DoctorFacts) -> (r: DoctorReport)
    ensures
        is_doctor_report_of(r, options, facts),
{
    let daemon = doctor_daemon_section(&facts.daemon);
    let mut warnings = identity_doctor_warnings(&facts.installation.warnings);
    push_daemon_remarks(&mut warnings, &facts.daemon.warnings);
    match &facts.state_error {
        Some(kind) => {
            let message = text::cat3(
                "The daemon state path could not be resolved (",
                kind.as_str(),
                ").",
            );
            push_remark(
                &mut warnings,
                doctor_warning("daemon_state_path_unavailable", message.as_str()),
            );
        },
        None => {
            assert(remarks(warnings@) =~= remarks(warnings@) + Seq::empty());
        },
    }
    push_remark_when(
        &mut warnings,
        facts.persistent.source == PersistentDbPathSource::DeprecatedAlias,
        "deprecated_persistent_alias",
        "The persistent path came from deprecated --workspace; use --persistent-db.",
    );
    push_remark_when(
        &mut warnings,
        facts.persistent.resolved.is_none(),
        "ephemeral_client_log_path_illustrative",
        EPHEMERAL_LOG_REMARK,
    );
    match facts.hyperd.warning {
        Some(warning) => {
            push_remark(&mut warnings, warning);
        },
        None => {
            assert(remarks(warnings@) =~= remarks(warnings@) + Seq::empty());
        },
    }
    push_client_mismatch_remarks(&mut warnings, &facts.daemon, &facts.installation);
    push_remark(
        &mut warnings,
        doctor_warning(
            "local_paths_review",
            "This report contains local paths; review it before sharing.",
        ),
    );
    let installation = DoctorInstallationReport {
        mcp_version: bounded_source_version(&facts.installation.mcp),
        hyper_rust_api_version: bounded_source_version(&facts.installation.hyper_rust_api),
        native_executable: facts.installation.native_executable,
        launcher: facts.installation.launcher,
    };
    let persistent_mode = if facts.persistent.resolved.is_some() {
        PersistentMode::PersistentAttached
    } else {
        PersistentMode::EphemeralOnly
    };
    let (resolved_persistent_path, resolved_persistent_parent) = match facts.persistent.resolved {
        Some((path, parent)) => (Some(path), Some(parent)),
        None => (None, None),
    };
    let configuration = DoctorConfigurationReport {
        persistent_mode,
        persistent_path_source: facts.persistent.source,
        observed_persistent_path: facts.persistent.observed,
        resolved_persistent_path,
        resolved_persistent_parent,
        daemon_state_directory: facts.daemon_state_directory,
        daemon_discovery_file: facts.daemon_discovery_file,
        client_log: facts.client_log,
        observed_hyperd_path: facts.hyperd.observed,
        effective_hyperd_path: facts.hyperd.effective,
        upward_hyperd_candidate: facts.hyperd.upward_candidate,
        read_only: options.read_only,
        no_daemon: options.no_daemon,
    };
    DoctorReport {
        status: DoctorStatus::Good,
        installation,
        configuration,
        daemon,
        tool_catalog: facts.catalog,
        warnings,
    }
}

/// What is found at the path that `HYPERD_PATH` names.
#[derive(Debug, Clone, Copy, PartialEq, Eq, Structural)]
pub struct ConfiguredHyperdFacts {
    /// Whether it is a directory.
    pub is_directory: bool,
    /// Whether the directory holds the executable.
    pub executable_in_directory: bool,
    /// Whether the directory holds the executable without its suffix, on a platform
    /// where executables have one.
    pub bare_in_directory: bool,
    /// Whether there is anything at all.
    pub exists: bool,
    /// Whether there is something once the suffix is added, on a platform where
    /// executables have one.
    pub suffixed_exists: bool,
}

/// Which path to use for the database executable.
#[derive(Debug, Clone, Copy, PartialEq, Eq, Structural)]
pub enum HyperdChoice {
    /// The executable in the directory.
    InDirectory,
    /// The executable in the directory, without its suffix.
    BareInDirectory,
    /// The path as it is.
    AsGiven,
    /// The path with the suffix added.
    Suffixed,
    /// None.
    Unavailable,
}

/// Which path to use for the database executable that `HYPERD_PATH` names.
pub open spec fn hyperd_choice(f: ConfiguredHyperdFacts) -> HyperdChoice {
    if f.is_directory {
        if f.executable_in_directory {
            HyperdChoice::InDirectory
        } else if f.bare_in_directory {
            HyperdChoice::BareInDirectory
        } else {
            HyperdChoice::Unavailable
        }
    } else if f.exists {
        HyperdChoice::AsGiven
    } else if f.suffixed_exists {
        HyperdChoice::Suffixed
    } else {
        HyperdChoice::Unavailable
    }
}

/// The remark on a `HYPERD_PATH` that leads nowhere.
pub open spec fn hyperd_choice_remarks(f: ConfiguredHyperdFacts, executable: Seq<char>) -> Seq<
    (Seq<char>, Seq<char>),
> {
    if hyperd_choice(f) != HyperdChoice::Unavailable {
        Seq::empty()
    } else if f.is_directory {
        seq![
            remark(
                "observed_hyperd_directory_missing_executable"@,
                "HYPERD_PATH is a directory, but "@ + executable
                    + " was not found in that directory."@,
            ),
        ]
    } else {
        seq![
            remark(
                "observed_hyperd_path_missing"@,
                "HYPERD_PATH was observed, but the configured hyperd executable was not found."@,
            ),
        ]
    }
}

/// Which path to use for the database executable that `HYPERD_PATH` names, and what
/// is odd about it; `executable` is the name of the executable on this platform.
pub fn resolve_configured_hyperd(facts: ConfiguredHyperdFacts, executable: &str) -> (r: (
    HyperdChoice,
    Option<DoctorWarning>,
))
    ensures
        r.0 == hyperd_choice(facts),
        hyperd_remarks(r.1) == hyperd_choice_remarks(facts, executable@),
{
    if facts.is_directory {
        if facts.executable_in_directory {
            return (HyperdChoice::InDirectory, None);
        }
        if facts.bare_in_directory {
            return (HyperdChoice::BareInDirectory, None);
        }
        let message = text::cat3(
            "HYPERD_PATH is a directory, but ",
            executable,
            " was not found in that directory.",
        );
        return (
            HyperdChoice::Unavailable,
            Some(
                doctor_warning(
                    "observed_hyperd_directory_missing_executable",
                    message.as_str(),
                ),
            ),
        );
    }
    if facts.exists {
        return (HyperdChoice::AsGiven, None);
    }
    if facts.suffixed_exists {
        return (HyperdChoice::Suffixed, None);
    }
    (
        HyperdChoice::Unavailable,
        Some(
            doctor_warning(
                "observed_hyperd_path_missing",
                "HYPERD_PATH was observed, but the configured hyperd executable was not found.",
            ),
        ),
    )
}

/// The remark on a `HYPERD_PATH` that is no text.
pub fn non_utf8_hyperd_warning() -> (r: DoctorWarning)
    ensures
        r@ == remark("non_utf8_hyperd_path_ignored"@, NON_UTF8_HYPERD_REMARK@),
{
    doctor_warning("non_utf8_hyperd_path_ignored", NON_UTF8_HYPERD_REMARK)
}

/// What happens to a `HYPERD_PATH` that is no text.
pub const NON_UTF8_HYPERD_REMARK: &'static str = "HYPERD_PATH is non-UTF-8; runtime ignores that override and uses upward .hyperd/current resolution when available.";

/// The paths to which a `HYPERD_PATH` may lead.
#[derive(Debug)]
pub struct ConfiguredHyperd {
    /// What is known of them.
    pub facts: ConfiguredHyperdFacts,
    /// The path as it was given.
    pub observed: DoctorPathFacts,
    /// The executable in the directory.
    pub in_directory: DoctorPathFacts,
    /// The executable in the directory, without its suffix.
    pub bare_in_directory: DoctorPathFacts,
    /// The path with the suffix added.
    pub suffixed: DoctorPathFacts,
}

impl ConfiguredHyperd {
    /// The path that is used.
    pub open spec fn used(self) -> Option<DoctorPathFacts> {
        match hyperd_choice(self.facts) {
            HyperdChoice::InDirectory => Some(self.in_directory),
            HyperdChoice::BareInDirectory => Some(self.bare_in_directory),
            HyperdChoice::AsGiven => Some(self.observed),
            HyperdChoice::Suffixed => Some(self.suffixed),
            HyperdChoice::Unavailable => None,
        }
    }
}

/// What the environment says of the database executable.
#[derive(Debug)]
pub enum HyperdVariable {
    /// `HYPERD_PATH` is set.
    Configured(ConfiguredHyperd),
    /// `HYPERD_PATH` is set, but is no text.
    NotText {
        /// What it is.
        observed: DoctorPathFacts,
    },
    /// `HYPERD_PATH` is not set.
    Absent,
}

/// Whether `r` is what is known of the database executable: a `HYPERD_PATH` decides
/// where it is text, else the executable that was found in a directory above.
pub open spec fn is_hyperd_resolution(
    r: DoctorHyperdResolution,
    variable: HyperdVariable,
    executable: Seq<char>,
    upward: Option<DoctorPathFacts>,
) -> bool {
    match variable {
        HyperdVariable::Configured(c) => {
            &&& r.observed == Some(c.observed)
            &&& r.effective == c.used()
            &&& r.upward_candidate is None
            &&& hyperd_remarks(r.warning) == hyperd_choice_remarks(c.facts, executable)
        },
        HyperdVariable::NotText { observed } => {
            &&& r.observed == Some(observed)
            &&& r.effective == upward
            &&& r.upward_candidate == upward
            &&& hyperd_remarks(r.warning) == seq![
                remark("non_utf8_hyperd_path_ignored"@, NON_UTF8_HYPERD_REMARK@),
            ]
        },
        HyperdVariable::Absent => {
            &&& r.observed is None
            &&& r.effective == upward
            &&& r.upward_candidate == upward
            &&& r.warning is None
        },
    }
}

/// What is known of the database executable, where `executable` is its name on this
/// platform and `upward` the one that was found in a directory above.
pub fn resolve_doctor_hyperd(
    variable: HyperdVariable,
    executable: &str,
    upward: Option<DoctorPathFacts>,
) -> (r: DoctorHyperdResolution)
    ensures
        is_hyperd_resolution(r, variable, executable@, upward),
{
    let effective = match &upward {
        Some(u) => Some(u.copied()),
        None => None,
    };
    match variable {
        HyperdVariable::Configured(c) => {
            let (choice, warning) = resolve_configured_hyperd(c.facts, executable);
            let used = match choice {
                HyperdChoice::InDirectory => Some(c.in_directory),
                HyperdChoice::BareInDirectory => Some(c.bare_in_directory),
                HyperdChoice::AsGiven => Some(c.observed.copied()),
                HyperdChoice::Suffixed => Some(c.suffixed),
                HyperdChoice::Unavailable => None,
            };
            DoctorHyperdResolution {
                observed: Some(c.observed),
                effective: used,
                upward_candidate: None,
                warning,
            }
        },
        HyperdVariable::NotText { observed } => DoctorHyperdResolution {
            observed: Some(observed),
            effective,
            upward_candidate: upward,
            warning: Some(non_utf8_hyperd_warning()),
        },
        HyperdVariable::Absent => DoctorHyperdResolution {
            observed: None,
            effective,
            upward_candidate: upward,
            warning: None,
        },
    }
}

/// The directory of a path, given the part before its last name: the current
/// directory where there is none.
pub fn normalized_persistent_parent(parent: Option<&str>) -> (r: String)
    ensures
        match parent {
            Some(p) if p@.len() > 0 => r@ == p@,
            _ => r@ == "."@,
        },
{
    match parent {
        Some(p) => {
            if p.is_empty() {
                ".".to_owned()
            } else {
                p.to_owned()
            }
        },
        None => ".".to_owned(),
    }
}

/// Every report ends by asking its reader to look at it before passing it on, and
/// says so in every session: no report is without remarks.
pub proof fn law_report_asks_for_review(report: DoctorReport, options: DoctorOptions, facts: DoctorFacts)
    requires
        is_doctor_report_of(report, options, facts),
    ensures
        report.warnings@.len() > 0,
        report.warnings@.last()@ == remark(
            "local_paths_review"@,
            "This report contains local paths; review it before sharing."@,
        ),
{
    let all = report_remarks(facts);
    assert(remarks(report.warnings@).len() == report.warnings@.len());
    assert(all.last() == remarks(report.warnings@).last());
    assert(remarks(report.warnings@).last() == report.warnings@.last()@);
}

/// A remark is its code and its message, neither longer than 4 KiB.
pub proof fn law_remarks_are_bounded(code: Seq<char>, message: Seq<char>, w: DoctorWarning)
    ensures
        remark(code, message) == (text::truncated(code, 4096), text::truncated(message, 4096)),
        w@ == (w.code@, w.message@),
{
}

/// What is said of each oddity of an installation.
pub proof fn law_remarks_on_identity(
    field: Seq<char>,
    native: Seq<char>,
    wrapper: Option<Seq<char>>,
    platform: Option<Seq<char>>,
)
    ensures
        identity_remark(identity::IdentityFinding::MalformedLauncherInfo) == remark(
            "malformed_launcher_info"@,
            "HYPERDB_MCP_LAUNCHER_INFO was malformed and was ignored."@,
        ),
        identity_remark(identity::IdentityFinding::LauncherInfoTooLarge) == remark(
            "launcher_info_too_large"@,
            "HYPERDB_MCP_LAUNCHER_INFO exceeded 16 KiB and was ignored."@,
        ),
        identity_remark(identity::IdentityFinding::LauncherFieldTooLarge { field }) == remark(
            "launcher_field_too_large"@,
            "Launcher field '"@ + field
                + "' exceeded 4 KiB and all launcher metadata was ignored."@,
        ),
        identity_remark(identity::IdentityFinding::MalformedVersion { component: field }) == remark(
            "malformed_version"@,
            "The "@ + field + " value was not valid semantic version identity."@,
        ),
        identity_remark(
            identity::IdentityFinding::VersionMismatch { native, wrapper, platform },
        ) == remark(
            "launcher_native_version_mismatch"@,
            "Launcher package versions differ from native "@ + native + ": wrapper="@ + (
            match wrapper {
                Some(v) => v,
                None => "unavailable"@,
            }) + ", platform="@ + (match platform {
                Some(v) => v,
                None => "unavailable"@,
            }) + "."@,
        ),
{
}

/// What is said of each oddity of a daemon.
pub proof fn law_remarks_on_daemons(
    kind: Seq<char>,
    port: u16,
    reported: u16,
    mismatches: Seq<daemon::MismatchFact>,
)
    ensures
        daemon_remark(daemon::DaemonFinding::DiscoveryUnreadable { kind }) == remark(
            "daemon_discovery_unreadable"@,
            "The daemon discovery file was unreadable ("@ + kind + ")."@,
        ),
        daemon_remark(daemon::DaemonFinding::MalformedDiscovery) == remark(
            "daemon_discovery_malformed"@,
            "The daemon discovery file was malformed; it was left unchanged."@,
        ),
        daemon_remark(
            daemon::DaemonFinding::DiscoveryCandidateUnreachable { responding_port: port },
        ) == remark(
            "daemon_discovery_candidate_unreachable"@,
            "The recorded daemon candidate on port "@ + text::decimal(port as nat)
                + " did not return fresh enriched STATUS."@,
        ),
        daemon_remark(daemon::DaemonFinding::StaleOrReplacedDiscovery { mismatches }) == remark(
            "daemon_discovery_stale_or_replaced"@,
            "Fresh daemon STATUS disagreed with the discovery record: "@ + text::joined(
                mismatches.map_values(|m: daemon::MismatchFact| mismatch_words(m)),
                "; "@,
            ) + "."@,
        ),
        daemon_remark(
            daemon::DaemonFinding::StatusHealthPortMismatch {
                responding_port: port,
                reported_port: reported,
            },
        ) == remark(
            "daemon_status_health_port_mismatch"@,
            "STATUS from port "@ + text::decimal(port as nat) + " reported health port "@
                + text::decimal(reported as nat) + "; the candidate was rejected."@,
        ),
        daemon_remark(daemon::DaemonFinding::MalformedStatus { responding_port: port }) == remark(
            "daemon_status_malformed"@,
            "Port "@ + text::decimal(port as nat)
                + " returned malformed or unenriched STATUS; the candidate was rejected."@,
        ),
{
}

/// What is said of each fact in which a record and a fresh answer differ: what was recorded,
/// and what is so now.
pub proof fn law_words_of_mismatches(
    pids: (u32, u32),
    builds: (Seq<char>, Seq<char>),
    paths: (identity::ReportedPath, identity::ReportedPath),
)
    ensures
        mismatch_words(daemon::MismatchFact::Pid { recorded: pids.0, fresh: pids.1 })
            == "PID recorded="@ + text::decimal(pids.0 as nat) + " fresh="@ + text::decimal(
            pids.1 as nat,
        ),
        mismatch_words(daemon::MismatchFact::McpVersion { recorded: builds.0, fresh: builds.1 })
            == "MCP build recorded='"@ + builds.0 + "' fresh='"@ + builds.1 + "'"@,
        mismatch_words(daemon::MismatchFact::ExecutablePath { recorded: paths.0, fresh: paths.1 })
            == "executable recorded='"@ + paths.0.display@ + "' fresh='"@ + paths.1.display@
            + "'"@,
{
}

/// What is said of a daemon that runs another build or another executable than this client;
/// nothing where both are the same, or where no daemon was verified.
pub proof fn law_remarks_on_other_builds(
    daemon: DoctorDaemonReport,
    installation: InstallationIdentity,
)
    ensures
        daemon.verified is None ==> client_mismatch_remarks(daemon, installation).len() == 0,
        daemon.verified matches Some(v) ==> {
            &&& v.record.identity is None ==> client_mismatch_remarks(daemon, installation).len()
                == 0
            &&& v.record.identity matches Some(id) ==> client_mismatch_remarks(daemon, installation)
                == (if id.mcp_version@ != installation.mcp.source@ {
                seq![
                    remark(
                        "daemon_client_build_mismatch"@,
                        "The live daemon MCP build '"@ + id.mcp_version@
                            + "' differs from this client build '"@ + installation.mcp.source@
                            + "'."@,
                    ),
                ]
            } else {
                Seq::empty()
            }) + (if id.executable_path.display@ != installation.native_executable.display@
                || id.executable_path.encoding != installation.native_executable.encoding {
                seq![
                    remark(
                        "daemon_client_executable_mismatch"@,
                        "The live daemon executable '"@ + id.executable_path.display@
                            + "' differs from this client executable '"@
                            + installation.native_executable.display@ + "'."@,
                    ),
                ]
            } else {
                Seq::empty()
            })
        },
{
}

/// All that is remarked in a report, in this order: on the installation, on the daemon, on
/// the state path, on a deprecated option, on logs without a persistent database, on the
/// database program, on other builds, and last that paths are to be reviewed.
pub proof fn law_remarks_of_a_report(facts: DoctorFacts)
    ensures
        report_remarks(facts) == identity::findings(facts.installation.warnings@).map_values(
            |f: identity::IdentityFinding| identity_remark(f),
        ) + daemon::daemon_findings(facts.daemon.warnings@).map_values(
            |f: daemon::DaemonFinding| daemon_remark(f),
        ) + (match facts.state_error {
            Some(kind) => seq![
                remark(
                    "daemon_state_path_unavailable"@,
                    "The daemon state path could not be resolved ("@ + kind@ + ")."@,
                ),
            ],
            None => Seq::empty(),
        }) + (if facts.persistent.source is DeprecatedAlias {
            seq![
                remark(
                    "deprecated_persistent_alias"@,
                    "The persistent path came from deprecated --workspace; use --persistent-db."@,
                ),
            ]
        } else {
            Seq::empty()
        }) + (if facts.persistent.resolved is None {
            seq![
                remark(
                    "ephemeral_client_log_path_illustrative"@,
                    "No persistent database is configured (ephemeral-only mode), so the reported client log path is derived from this doctor invocation's own temporary directory and process id. It is illustrative only: a running MCP server logs under its own per-process directory, which a separate doctor run cannot identify."@,
                ),
            ]
        } else {
            Seq::empty()
        }) + (match facts.hyperd.warning {
            Some(w) => seq![(w.code@, w.message@)],
            None => Seq::empty(),
        }) + client_mismatch_remarks(facts.daemon, facts.installation) + seq![
            remark(
                "local_paths_review"@,
                "This report contains local paths; review it before sharing."@,
            ),
        ],
{
}

/// What a report tells of a daemon is what the daemon itself answered, cut to 4 KiB; nothing
/// where none was verified.
pub proof fn law_section_of_a_daemon(section: DoctorDaemonSection, report: DoctorDaemonReport)
    requires
        is_section_of(section, report),
    ensures
        section.state == report.state,
        report.verified is None ==> section.pid is None && section.hyperd_endpoint is None
            && section.health_port is None && section.started_at is None && section.version is None
            && section.mcp_version is None && section.executable_path is None,
        report.verified matches Some(v) ==> {
            &&& section.pid == Some(v.record.info.pid)
            &&& section.health_port == Some(v.record.info.health_port)
            &&& section.hyperd_endpoint matches Some(t) && t@ == text::truncated(
                v.record.info.hyperd_endpoint@,
                4096,
            )
            &&& section.started_at matches Some(t) && t@ == text::truncated(
                v.record.info.started_at@,
                4096,
            )
            &&& section.version matches Some(t) && t@ == text::truncated(
                v.record.info.version@,
                4096,
            )
            &&& v.record.identity matches Some(id) ==> section.executable_path == Some(
                id.executable_path,
            ) && (section.mcp_version matches Some(t) && t@ == text::truncated(
                id.mcp_version@,
                4096,
            ))
            &&& v.record.identity is None ==> section.mcp_version is None
                && section.executable_path is None
        },
{
}

/// A report tells the configuration as it was found and asked for.
pub proof fn law_configuration_of_a_report(
    c: DoctorConfigurationReport,
    options: DoctorOptions,
    facts: DoctorFacts,
)
    requires
        is_configuration_of(c, options, facts),
    ensures
        c.persistent_mode is PersistentAttached <==> facts.persistent.resolved is Some,
        c.persistent_mode is EphemeralOnly <==> facts.persistent.resolved is None,
        c.persistent_path_source == facts.persistent.source,
        c.observed_persistent_path == facts.persistent.observed,
        facts.persistent.resolved matches Some(p) ==> c.resolved_persistent_path == Some(p.0)
            && c.resolved_persistent_parent == Some(p.1),
        facts.persistent.resolved is None ==> c.resolved_persistent_path is None
            && c.resolved_persistent_parent is None,
        c.daemon_state_directory == facts.daemon_state_directory,
        c.daemon_discovery_file == facts.daemon_discovery_file,
        c.client_log == facts.client_log,
        c.observed_hyperd_path == facts.hyperd.observed,
        c.effective_hyperd_path == facts.hyperd.effective,
        c.upward_hyperd_candidate == facts.hyperd.upward_candidate,
        c.read_only == options.read_only,
        c.no_daemon == options.no_daemon,
{
}

/// A report tells the installation, the catalog and the remarks as they were found; versions
/// are cut to 4 KiB.
pub proof fn law_parts_of_a_report(report: DoctorReport, options: DoctorOptions, facts: DoctorFacts)
    requires
        is_doctor_report_of(report, options, facts),
    ensures
        report.status == DoctorStatus::Good,
        report.installation.native_executable == facts.installation.native_executable,
        report.installation.launcher == facts.installation.launcher,
        report.installation.mcp_version.source@ == text::truncated(
            facts.installation.mcp.source@,
            4096,
        ),
        report.installation.hyper_rust_api_version.source@ == text::truncated(
            facts.installation.hyper_rust_api.source@,
            4096,
        ),
        facts.installation.mcp.version matches Some(v) ==> (
        report.installation.mcp_version.version matches Some(t) && t@ == text::truncated(v@, 4096)),
        facts.installation.mcp.version is None ==> report.installation.mcp_version.version is None,
        facts.installation.mcp.build matches Some(v) ==> (
        report.installation.mcp_version.build matches Some(t) && t@ == text::truncated(v@, 4096)),
        facts.installation.mcp.build is None ==> report.installation.mcp_version.build is None,
        report.tool_catalog == facts.catalog,
        remarks(report.warnings@) == report_remarks(facts),
        is_configuration_of(report.configuration, options, facts),
        is_section_of(report.daemon, facts.daemon),
{
}

/// Which database program is used where one is configured: in a directory the one of the
/// platform's name and else that of the bare name, as given where it is there, and else with
/// the platform's suffix. Only where none is there is something remarked.
pub proof fn law_configured_programs(f: ConfiguredHyperdFacts, executable: Seq<char>)
    ensures
        f.is_directory && f.executable_in_directory ==> hyperd_choice(f)
            == HyperdChoice::InDirectory,
        f.is_directory && !f.executable_in_directory && f.bare_in_directory ==> hyperd_choice(f)
            == HyperdChoice::BareInDirectory,
        f.is_directory && !f.executable_in_directory && !f.bare_in_directory ==> hyperd_choice(f)
            == HyperdChoice::Unavailable && hyperd_choice_remarks(f, executable) == seq![
            remark(
                "observed_hyperd_directory_missing_executable"@,
                "HYPERD_PATH is a directory, but "@ + executable
                    + " was not found in that directory."@,
            ),
        ],
        !f.is_directory && f.exists ==> hyperd_choice(f) == HyperdChoice::AsGiven,
        !f.is_directory && !f.exists && f.suffixed_exists ==> hyperd_choice(f)
            == HyperdChoice::Suffixed,
        !f.is_directory && !f.exists && !f.suffixed_exists ==> hyperd_choice(f)
            == HyperdChoice::Unavailable && hyperd_choice_remarks(f, executable) == seq![
            remark(
                "observed_hyperd_path_missing"@,
                "HYPERD_PATH was observed, but the configured hyperd executable was not found."@,
            ),
        ],
        !(hyperd_choice(f) is Unavailable) ==> hyperd_choice_remarks(f, executable).len() == 0,
{
}

/// A configured program is used without looking upwards; where none is configured, or what is
/// configured is no text, the one that is found upwards is used.
pub proof fn law_program_that_is_used(
    r: DoctorHyperdResolution,
    variable: HyperdVariable,
    executable: Seq<char>,
    upward: Option<DoctorPathFacts>,
)
    requires
        is_hyperd_resolution(r, variable, executable, upward),
    ensures
        variable matches HyperdVariable::Configured(c) ==> {
            &&& r.observed == Some(c.observed)
            &&& r.upward_candidate is None
            &&& hyperd_choice(c.facts) is InDirectory ==> r.effective == Some(c.in_directory)
            &&& hyperd_choice(c.facts) is BareInDirectory ==> r.effective == Some(
                c.bare_in_directory,
            )
            &&& hyperd_choice(c.facts) is AsGiven ==> r.effective == Some(c.observed)
            &&& hyperd_choice(c.facts) is Suffixed ==> r.effective == Some(c.suffixed)
            &&& hyperd_choice(c.facts) is Unavailable ==> r.effective is None
            &&& hyperd_remarks(r.warning) == hyperd_choice_remarks(c.facts, executable)
        },
        variable matches HyperdVariable::NotText { observed } ==> r.observed == Some(observed)
            && r.effective == upward && r.upward_candidate == upward && (
        r.warning matches Some(w) && (w.code@, w.message@) == remark(
            "non_utf8_hyperd_path_ignored"@,
            "HYPERD_PATH is non-UTF-8; runtime ignores that override and uses upward .hyperd/current resolution when available."@,
        )),
        variable is Absent ==> r.observed is None && r.effective == upward && r.upward_candidate
            == upward && r.warning is None,
{
    if variable is NotText {
        let told = seq![
            remark("non_utf8_hyperd_path_ignored"@, NON_UTF8_HYPERD_REMARK@),
        ];
        assert(hyperd_remarks(r.warning).len() == told.len());
        assert(hyperd_remarks(r.warning)[0] == told[0]);
    }
}

} // verus!
