//! How a session comes up: its directories, the database process, and the persistent
//! database.

use vstd::prelude::*;

use crate::attach;
use crate::engine::session;
use crate::engine::session::{
    ephemeral_dir_name, process_dir_name, resolve_log_dir, CatalogCache, Engine,
};
use crate::engine::PERSISTENT_ALIAS;
use crate::error::{ErrorCode, McpError};
use crate::paths;
use crate::text;

verus! {

/// The statement that makes the schema of all tables.
pub const BOOTSTRAP_STATEMENT: &'static str = "CREATE SCHEMA IF NOT EXISTS public";

/// The persistent database of a session.
#[derive(Debug)]
pub struct PersistentPlace {
    /// Its path.
    pub path: String,
    /// The directory of its path, where the path has one.
    pub parent: Option<String>,
    /// Its path as it is written in SQL.
    pub sql_path: String,
}

/// Where a session's files are.
#[derive(Debug)]
pub struct StartupPlan {
    /// The persistent database, where there is to be one.
    pub persistent: Option<PersistentPlace>,
    /// The directory of the primary database.
    pub ephemeral_dir: String,
    /// The path of the primary database.
    pub ephemeral_path: String,
    /// The name of the primary database's file without its suffix, where it is text.
    pub ephemeral_stem: Option<String>,
    /// Where the logs are to be.
    pub log_dir: String,
}

impl PersistentPlace {
    /// The persistent database at `path`, which is written `sql_path` in SQL.
    pub fn of(path: String, sql_path: String) -> (r: PersistentPlace)
        ensures
            r.path == path,
            r.sql_path == sql_path,
            paths::parent_fits(path@, text::opt_text(r.parent)),
    {
        let parent = paths::directory_of(path.as_str());
        PersistentPlace { path, parent, sql_path }
    }
}

/// The name of the file of the primary database.
pub const PRIMARY_FILE_NAME: &'static str = "scratch.hyper";

/// Where the logs of a process without a persistent database are: in a directory of its own
/// below that of temporary files.
pub fn temporary_log_dir(temp_dir: &str, pid: u32) -> (r: String)
    ensures
        paths::join_fits(temp_dir@, "hyperdb-mcp-"@ + text::decimal(pid as nat), r@),
{
    let name = process_dir_name(pid);
    paths::path_join(temp_dir, name.as_str())
}

impl StartupPlan {
    /// Where the files of a session are: its primary database in a directory of its own below
    /// that of temporary files, and its logs beside the persistent database, where there is
    /// one.
    pub fn of(
        persistent: Option<PersistentPlace>,
        temp_dir: &str,
        pid: u32,
        seq: u64,
    ) -> (r: StartupPlan)
        ensures
            r.persistent == persistent,
            paths::join_fits(
                temp_dir@,
                "hyperdb-mcp-"@ + text::decimal(pid as nat) + "-"@ + text::decimal(seq as nat),
                r.ephemeral_dir@,
            ),
            paths::join_fits(r.ephemeral_dir@, PRIMARY_FILE_NAME@, r.ephemeral_path@),
            PRIMARY_FILE_NAME@ == "scratch.hyper"@,
            paths::stem_fits(r.ephemeral_path@, text::opt_text(r.ephemeral_stem)),
            match persistent {
                Some(p) => r.log_dir@ == session::log_dir(
                    Some(text::opt_text(p.parent)),
                    Seq::empty(),
                ),
                None => paths::join_fits(
                    temp_dir@,
                    "hyperdb-mcp-"@ + text::decimal(pid as nat),
                    r.log_dir@,
                ),
            },
    {
        let name = ephemeral_dir_name(pid, seq);
        let ephemeral_dir = paths::path_join(temp_dir, name.as_str());
        let ephemeral_path = paths::path_join(ephemeral_dir.as_str(), PRIMARY_FILE_NAME);
        let ephemeral_stem = paths::path_stem(ephemeral_path.as_str());
        let log_dir = match &persistent {
            Some(p) => match &p.parent {
                Some(dir) => resolve_log_dir(Some(Some(dir.as_str())), ""),
                None => resolve_log_dir(Some(None), ""),
            },
            None => temporary_log_dir(temp_dir, pid),
        };
        StartupPlan { persistent, ephemeral_dir, ephemeral_path, ephemeral_stem, log_dir }
    }
}

/// A session whose directories are parted by slashes has the primary database `scratch`.
pub proof fn law_primary_is_named_scratch(dir: Seq<char>, stem: Option<Seq<char>>)
    requires
        paths::stem_fits(dir + seq!['/'] + PRIMARY_FILE_NAME@, stem),
        dir.len() > 0,
        !paths::two_separators(dir),
        dir != seq!['/'] && dir != seq!['\\'],
    ensures
        session::primary_name(stem) == "scratch"@,
{
    reveal_strlit("scratch.hyper");
    reveal_strlit("scratch");
    let front = dir + seq!['/'];
    let name = PRIMARY_FILE_NAME@;
    let path = front + name;
    let none = Seq::<char>::empty();
    assert(front + name + none =~= path);
    if dir.len() == 1 {
        assert(path[0] == dir[0]);
        assert(dir =~= seq![dir[0]]);
    } else {
        assert(path[0] == dir[0] && path[1] == dir[1]);
    }
    assert(paths::ends_in_name(path, front, name, none));
    let ext = seq!['h', 'y', 'p', 'e', 'r'];
    assert(name =~= "scratch"@ + seq!['.'] + ext);
    assert(paths::has_stem(name, "scratch"@, ext));
}

/// A daemon that shares its database process.
#[derive(Debug)]
pub struct DaemonLink {
    /// Where the process answers.
    pub endpoint: String,
    /// Where the daemon itself answers.
    pub health_port: u16,
}

/// How far a session is.
#[derive(Debug)]
pub enum StartupPhase {
    /// The directory of the persistent database is to be made.
    PersistentDir(String),
    /// The directory of the primary database is to be made.
    EphemeralDir,
    /// The directory of the logs is to be made.
    LogDir,
    /// A daemon is to be found, or started.
    FindDaemon,
    /// The process of the daemon is to be connected to.
    ConnectDaemon(DaemonLink),
    /// The process of the daemon could not be connected to: the daemon is to be told.
    ReportDaemon(McpError),
    /// A process for this session alone is to be started.
    StartProcess,
    /// That process is to be connected to.
    ConnectProcess,
    /// The schema of all tables is to be made.
    Bootstrap(Option<DaemonLink>),
    /// The daemon is to be told that it is in use.
    Heartbeat(DaemonLink),
    /// It is to be found out whether the persistent database is there.
    LookForPersistent(Option<String>),
    /// The persistent database is to be made.
    CreatePersistent(Option<String>),
    /// The persistent database is to be attached.
    AttachPersistent {
        /// Where the daemon's process answers.
        endpoint: Option<String>,
        /// Whether the database was made just now.
        created: bool,
    },
    /// Names without a database are to mean the primary one.
    PinPrimary {
        /// Where the daemon's process answers.
        endpoint: Option<String>,
        /// Whether the persistent database was made just now.
        created: bool,
    },
    /// The session is up.
    Ready {
        /// Where the daemon's process answers.
        endpoint: Option<String>,
        /// Whether the persistent database was made just now.
        created: bool,
    },
    /// The session did not come up.
    Failed(McpError),
}

/// A session that is coming up.
#[derive(Debug)]
pub struct Startup {
    /// Where its files are.
    pub plan: StartupPlan,
    /// Whether no daemon is to be used.
    pub no_daemon: bool,
    /// How far it is.
    pub phase: StartupPhase,
}

/// What is to be done for a session to come up.
#[derive(Debug)]
pub enum StartupAction {
    /// Make a directory, and those above it.
    MakeDir(String),
    /// Find a daemon, or start one.
    FindDaemon,
    /// Connect to the process of a daemon, with a new primary database.
    Connect {
        /// Where the process answers.
        endpoint: String,
        /// The path of the primary database.
        path: String,
    },
    /// Tell the daemon that its process does not answer.
    ReportError,
    /// Start a process for this session alone, whose logs are in this directory.
    StartProcess(String),
    /// Connect to that process, with a new primary database at this path.
    ConnectLocal(String),
    /// Execute a statement.
    Execute(String),
    /// Send a command to the daemon that answers at this port.
    Send {
        /// The port.
        port: u16,
        /// The command.
        command: &'static str,
    },
    /// Find out whether a file is there.
    Look(String),
    /// Nothing more.
    Nothing,
}

/// What is to be done for a session to come up, as plain values.
pub enum StartupDeed {
    /// Make a directory.
    MakeDir(Seq<char>),
    /// Find a daemon, or start one.
    FindDaemon,
    /// Connect to the process of a daemon.
    Connect {
        /// Where the process answers.
        endpoint: Seq<char>,
        /// The path of the primary database.
        path: Seq<char>,
    },
    /// Tell the daemon that its process does not answer.
    ReportError,
    /// Start a process for this session alone.
    StartProcess(Seq<char>),
    /// Connect to that process.
    ConnectLocal(Seq<char>),
    /// Execute a statement.
    Execute(Seq<char>),
    /// Send a command to the daemon.
    Send {
        /// The port.
        port: u16,
        /// The command.
        command: Seq<char>,
    },
    /// Find out whether a file is there.
    Look(Seq<char>),
    /// Nothing more.
    Nothing,
}

impl View for StartupAction {
    type V = StartupDeed;

    open spec fn view(&self) -> StartupDeed {
        match *self {
            StartupAction::MakeDir(path) => StartupDeed::MakeDir(path@),
            StartupAction::FindDaemon => StartupDeed::FindDaemon,
            StartupAction::Connect { endpoint, path } => StartupDeed::Connect {
                endpoint: endpoint@,
                path: path@,
            },
            StartupAction::ReportError => StartupDeed::ReportError,
            StartupAction::StartProcess(path) => StartupDeed::StartProcess(path@),
            StartupAction::ConnectLocal(path) => StartupDeed::ConnectLocal(path@),
            StartupAction::Execute(sql) => StartupDeed::Execute(sql@),
            StartupAction::Send { port, command } => StartupDeed::Send { port, command: command@ },
            StartupAction::Look(path) => StartupDeed::Look(path@),
            StartupAction::Nothing => StartupDeed::Nothing,
        }
    }
}

/// What came of a deed that did not fail.
#[derive(Debug)]
pub enum StartupFinding {
    /// It was done.
    Done,
    /// A daemon was found.
    Daemon(DaemonLink),
    /// A file was found.
    FileThere,
    /// No file was found.
    FileMissing,
}

/// The error for a process that did not start: its text tells whether the program was
/// missing.
pub open spec fn start_error_code(message: Seq<char>) -> ErrorCode {
    if text::has_part(message, "hyperd"@) || text::has_part(message, "HYPERD_PATH"@)
        || text::has_part(message, "No such file"@) {
        ErrorCode::HyperdNotFound
    } else {
        ErrorCode::InternalError
    }
}

/// What a caller is told of a deed that failed with `reason`.
pub open spec fn failure_words(plan: StartupPlan, phase: StartupPhase, reason: Seq<char>) -> (
    ErrorCode,
    Seq<char>,
) {
    match phase {
        StartupPhase::PersistentDir(_) => (
            ErrorCode::PermissionDenied,
            "Cannot create persistent-db directory: "@ + reason,
        ),
        StartupPhase::EphemeralDir => (
            ErrorCode::InternalError,
            "Cannot create ephemeral directory: "@ + reason,
        ),
        StartupPhase::LogDir => (
            ErrorCode::PermissionDenied,
            "Cannot create log directory "@ + plan.log_dir@ + ": "@ + reason,
        ),
        StartupPhase::ConnectDaemon(link) => (
            ErrorCode::InternalError,
            "Failed to connect to daemon hyperd at "@ + link.endpoint@ + ": "@ + reason,
        ),
        StartupPhase::StartProcess => (start_error_code(reason), reason),
        StartupPhase::ConnectProcess => (
            ErrorCode::InternalError,
            "Failed to connect: "@ + reason,
        ),
        StartupPhase::Bootstrap(_) => (
            ErrorCode::InternalError,
            "Failed to bootstrap public schema: "@ + reason,
        ),
        StartupPhase::CreatePersistent(_) => (
            ErrorCode::InternalError,
            "Failed to create persistent database: "@ + reason,
        ),
        StartupPhase::AttachPersistent { .. } => (
            ErrorCode::InternalError,
            "Failed to attach persistent database: "@ + reason,
        ),
        _ => (ErrorCode::InternalError, "Failed to pin schema_search_path: "@ + reason),
    }
}

/// The phase once the connection is up: the persistent database is next, where there
/// is one.
pub open spec fn after_connection(plan: StartupPlan, endpoint: Option<String>) -> StartupPhase {
    match plan.persistent {
        Some(_) => StartupPhase::LookForPersistent(endpoint),
        None => StartupPhase::Ready { endpoint, created: false },
    }
}

impl Startup {
    /// What is to be done in this phase.
    pub open spec fn deed(self) -> StartupDeed {
        let plan = self.plan;
        let sql_path = match plan.persistent {
            Some(p) => p.sql_path@,
            None => Seq::empty(),
        };
        match self.phase {
            StartupPhase::PersistentDir(path) => StartupDeed::MakeDir(path@),
            StartupPhase::EphemeralDir => StartupDeed::MakeDir(plan.ephemeral_dir@),
            StartupPhase::LogDir => StartupDeed::MakeDir(plan.log_dir@),
            StartupPhase::FindDaemon => StartupDeed::FindDaemon,
            StartupPhase::ConnectDaemon(link) => StartupDeed::Connect {
                endpoint: link.endpoint@,
                path: plan.ephemeral_path@,
            },
            StartupPhase::ReportDaemon(_) => StartupDeed::ReportError,
            StartupPhase::StartProcess => StartupDeed::StartProcess(plan.log_dir@),
            StartupPhase::ConnectProcess => StartupDeed::ConnectLocal(plan.ephemeral_path@),
            StartupPhase::Bootstrap(_) => StartupDeed::Execute(BOOTSTRAP_STATEMENT@),
            StartupPhase::Heartbeat(link) => StartupDeed::Send {
                port: link.health_port,
                command: "HEARTBEAT"@,
            },
            StartupPhase::LookForPersistent(_) => match plan.persistent {
                Some(p) => StartupDeed::Look(p.path@),
                None => StartupDeed::Nothing,
            },
            StartupPhase::CreatePersistent(_) => StartupDeed::Execute(
                attach::create_statement(sql_path),
            ),
            StartupPhase::AttachPersistent { .. } => StartupDeed::Execute(
                attach::attach_statement(sql_path, PERSISTENT_ALIAS@),
            ),
            StartupPhase::PinPrimary { .. } => StartupDeed::Execute(
                attach::pin_statement(
                    crate::engine::session::primary_name(text::opt_text(plan.ephemeral_stem)),
                ),
            ),
            StartupPhase::Ready { .. } => StartupDeed::Nothing,
            StartupPhase::Failed(_) => StartupDeed::Nothing,
        }
    }

    /// Whether `next` is the phase that follows what came of the deed of this phase.
    pub open spec fn leads_to(self, outcome: Result<StartupFinding, String>, next: StartupPhase) -> bool {
        let (code, message) = failure_words(
            self.plan,
            self.phase,
            match outcome {
                Err(reason) => reason@,
                Ok(_) => Seq::empty(),
            },
        );
        let fails = next matches StartupPhase::Failed(e) && e.says(code, message);
        match self.phase {
            StartupPhase::PersistentDir(_) => match outcome {
                Ok(_) => next == StartupPhase::EphemeralDir,
                Err(_) => fails,
            },
            StartupPhase::EphemeralDir => match outcome {
                Ok(_) => next == StartupPhase::LogDir,
                Err(_) => fails,
            },
            StartupPhase::LogDir => match outcome {
                Ok(_) => next == (if self.no_daemon {
                    StartupPhase::StartProcess
                } else {
                    StartupPhase::FindDaemon
                }),
                Err(_) => fails,
            },
            StartupPhase::FindDaemon => match outcome {
                Ok(StartupFinding::Daemon(link)) => next == StartupPhase::ConnectDaemon(link),
                _ => next == StartupPhase::StartProcess,
            },
            StartupPhase::ConnectDaemon(link) => match outcome {
                Ok(_) => next == StartupPhase::Bootstrap(Some(link)),
                Err(_) => next matches StartupPhase::ReportDaemon(e) && e.says(code, message),
            },
            StartupPhase::ReportDaemon(error) => next == StartupPhase::Failed(error),
            StartupPhase::StartProcess => match outcome {
                Ok(_) => next == StartupPhase::ConnectProcess,
                Err(_) => fails,
            },
            StartupPhase::ConnectProcess => match outcome {
                Ok(_) => next == StartupPhase::Bootstrap(None),
                Err(_) => fails,
            },
            StartupPhase::Bootstrap(link) => match outcome {
                Ok(_) => next == (match link {
                    Some(link) => StartupPhase::Heartbeat(link),
                    None => after_connection(self.plan, None),
                }),
                Err(_) => fails,
            },
            StartupPhase::Heartbeat(link) => next == after_connection(
                self.plan,
                Some(link.endpoint),
            ),
            StartupPhase::LookForPersistent(endpoint) => next == (match outcome {
                Ok(StartupFinding::FileThere) => StartupPhase::AttachPersistent {
                    endpoint,
                    created: false,
                },
                _ => StartupPhase::CreatePersistent(endpoint),
            }),
            StartupPhase::CreatePersistent(endpoint) => match outcome {
                Ok(_) => next == (StartupPhase::AttachPersistent { endpoint, created: true }),
                Err(_) => fails,
            },
            StartupPhase::AttachPersistent { endpoint, created } => match outcome {
                Ok(_) => next == (StartupPhase::PinPrimary { endpoint, created }),
                Err(_) => fails,
            },
            StartupPhase::PinPrimary { endpoint, created } => match outcome {
                Ok(_) => next == (StartupPhase::Ready { endpoint, created }),
                Err(_) => fails,
            },
            StartupPhase::Ready { endpoint, created } => next == (StartupPhase::Ready {
                endpoint,
                created,
            }),
            StartupPhase::Failed(error) => next == StartupPhase::Failed(error),
        }
    }

    /// What is to be done now.
    pub fn action(&self) -> (r: StartupAction)
        ensures
            r@ == self.deed(),
    {
        let sql_path = match &self.plan.persistent {
            Some(p) => p.sql_path.as_str(),
            None => "",
        };
        proof {
            reveal_strlit("");
            assert(""@ =~= Seq::<char>::empty());
        }
        match &self.phase {
            StartupPhase::PersistentDir(path) => StartupAction::MakeDir(path.clone()),
            StartupPhase::EphemeralDir => StartupAction::MakeDir(self.plan.ephemeral_dir.clone()),
            StartupPhase::LogDir => StartupAction::MakeDir(self.plan.log_dir.clone()),
            StartupPhase::FindDaemon => StartupAction::FindDaemon,
            StartupPhase::ConnectDaemon(link) => StartupAction::Connect {
                endpoint: link.endpoint.clone(),
                path: self.plan.ephemeral_path.clone(),
            },
            StartupPhase::ReportDaemon(_) => StartupAction::ReportError,
            StartupPhase::StartProcess => StartupAction::StartProcess(self.plan.log_dir.clone()),
            StartupPhase::ConnectProcess => StartupAction::ConnectLocal(
                self.plan.ephemeral_path.clone(),
            ),
            StartupPhase::Bootstrap(_) => StartupAction::Execute(BOOTSTRAP_STATEMENT.to_owned()),
            StartupPhase::Heartbeat(link) => StartupAction::Send {
                port: link.health_port,
                command: "HEARTBEAT",
            },
            StartupPhase::LookForPersistent(_) => match &self.plan.persistent {
                Some(p) => StartupAction::Look(p.path.clone()),
                None => StartupAction::Nothing,
            },
            StartupPhase::CreatePersistent(_) => StartupAction::Execute(
                text::cat2("CREATE DATABASE IF NOT EXISTS ", sql_path),
            ),
            StartupPhase::AttachPersistent { .. } => StartupAction::Execute(
                attach::attach_sql(sql_path, PERSISTENT_ALIAS),
            ),
            StartupPhase::PinPrimary { .. } => {
                let primary = match &self.plan.ephemeral_stem {
                    Some(stem) => stem.as_str(),
                    None => "scratch",
                };
                StartupAction::Execute(attach::set_primary_search_path(primary))
            },
            StartupPhase::Ready { .. } => StartupAction::Nothing,
            StartupPhase::Failed(_) => StartupAction::Nothing,
        }
    }

    fn failure(&self, reason: String) -> (r: McpError)
        ensures
            r.says(
                failure_words(self.plan, self.phase, reason@).0,
                failure_words(self.plan, self.phase, reason@).1,
            ),
    {
        let why = reason.as_str();
        match &self.phase {
            StartupPhase::PersistentDir(_) => {
                let message = text::cat2("Cannot create persistent-db directory: ", why);
                McpError::new(ErrorCode::PermissionDenied, message.as_str())
            },
            StartupPhase::EphemeralDir => {
                let message = text::cat2("Cannot create ephemeral directory: ", why);
                McpError::new(ErrorCode::InternalError, message.as_str())
            },
            StartupPhase::LogDir => {
                let message = text::cat4(
                    "Cannot create log directory ",
                    self.plan.log_dir.as_str(),
                    ": ",
                    why,
                );
                McpError::new(ErrorCode::PermissionDenied, message.as_str())
            },
            StartupPhase::ConnectDaemon(link) => {
                let message = text::cat4(
                    "Failed to connect to daemon hyperd at ",
                    link.endpoint.as_str(),
                    ": ",
                    why,
                );
                McpError::new(ErrorCode::InternalError, message.as_str())
            },
            StartupPhase::StartProcess => {
                if text::contains(why, "hyperd") || text::contains(why, "HYPERD_PATH")
                    || text::contains(why, "No such file") {
                    McpError::new(ErrorCode::HyperdNotFound, why)
                } else {
                    McpError::new(ErrorCode::InternalError, why)
                }
            },
            StartupPhase::ConnectProcess => {
                let message = text::cat2("Failed to connect: ", why);
                McpError::new(ErrorCode::InternalError, message.as_str())
            },
            StartupPhase::Bootstrap(_) => {
                let message = text::cat2("Failed to bootstrap public schema: ", why);
                McpError::new(ErrorCode::InternalError, message.as_str())
            },
            StartupPhase::CreatePersistent(_) => {
                let message = text::cat2("Failed to create persistent database: ", why);
                McpError::new(ErrorCode::InternalError, message.as_str())
            },
            StartupPhase::AttachPersistent { .. } => {
                let message = text::cat2("Failed to attach persistent database: ", why);
                McpError::new(ErrorCode::InternalError, message.as_str())
            },
            _ => {
                let message = text::cat2("Failed to pin schema_search_path: ", why);
                McpError::new(ErrorCode::InternalError, message.as_str())
            },
        }
    }

    fn connected(plan: &StartupPlan, endpoint: Option<String>) -> (r: StartupPhase)
        ensures
            r == after_connection(*plan, endpoint),
    {
        match &plan.persistent {
            Some(_) => StartupPhase::LookForPersistent(endpoint),
            None => StartupPhase::Ready { endpoint, created: false },
        }
    }

    /// Takes down what came of the deed.
    pub fn observe(self, outcome: Result<StartupFinding, String>) -> (r: Startup)
        ensures
            r.plan == self.plan,
            r.no_daemon == self.no_daemon,
            self.leads_to(outcome, r.phase),
    {
        let waits = match &self.phase {
            StartupPhase::FindDaemon => true,
            StartupPhase::ReportDaemon(_) => true,
            StartupPhase::Heartbeat(_) => true,
            StartupPhase::LookForPersistent(_) => true,
            StartupPhase::Ready { .. } => true,
            StartupPhase::Failed(_) => true,
            _ => false,
        };
        let finding = match outcome {
            Err(reason) => {
                if waits {
                    StartupFinding::Done
                } else {
                    let error = self.failure(reason);
                    let reports = match &self.phase {
                        StartupPhase::ConnectDaemon(_) => true,
                        _ => false,
                    };
                    let phase = if reports {
                        StartupPhase::ReportDaemon(error)
                    } else {
                        StartupPhase::Failed(error)
                    };
                    return Startup { plan: self.plan, no_daemon: self.no_daemon, phase };
                }
            },
            Ok(finding) => finding,
        };
        let phase = match self.phase {
            StartupPhase::PersistentDir(_) => StartupPhase::EphemeralDir,
            StartupPhase::EphemeralDir => StartupPhase::LogDir,
            StartupPhase::LogDir => {
                if self.no_daemon {
                    StartupPhase::StartProcess
                } else {
                    StartupPhase::FindDaemon
                }
            },
            StartupPhase::FindDaemon => match finding {
                StartupFinding::Daemon(link) => StartupPhase::ConnectDaemon(link),
                _ => StartupPhase::StartProcess,
            },
            StartupPhase::ConnectDaemon(link) => StartupPhase::Bootstrap(Some(link)),
            StartupPhase::ReportDaemon(error) => StartupPhase::Failed(error),
            StartupPhase::StartProcess => StartupPhase::ConnectProcess,
            StartupPhase::ConnectProcess => StartupPhase::Bootstrap(None),
            StartupPhase::Bootstrap(link) => match link {
                Some(link) => StartupPhase::Heartbeat(link),
                None => Startup::connected(&self.plan, None),
            },
            StartupPhase::Heartbeat(link) => Startup::connected(&self.plan, Some(link.endpoint)),
            StartupPhase::LookForPersistent(endpoint) => match finding {
                StartupFinding::FileThere => StartupPhase::AttachPersistent {
                    endpoint,
                    created: false,
                },
                _ => StartupPhase::CreatePersistent(endpoint),
            },
            StartupPhase::CreatePersistent(endpoint) => StartupPhase::AttachPersistent {
                endpoint,
                created: true,
            },
            StartupPhase::AttachPersistent { endpoint, created } => StartupPhase::PinPrimary {
                endpoint,
                created,
            },
            StartupPhase::PinPrimary { endpoint, created } => StartupPhase::Ready {
                endpoint,
                created,
            },
            StartupPhase::Ready { endpoint, created } => StartupPhase::Ready { endpoint, created },
            StartupPhase::Failed(error) => StartupPhase::Failed(error),
        };
        Startup { plan: self.plan, no_daemon: self.no_daemon, phase }
    }

    /// The session, once it is up; what failed, where it did not come up; or the
    /// session that is still coming up.
    pub fn finish(self) -> (r: Result<Result<Engine, McpError>, Startup>)
        ensures
            match self.phase {
                StartupPhase::Ready { endpoint, created } => r matches Ok(Ok(e)) && is_session(
                    e,
                    self.plan,
                    endpoint,
                    created,
                ),
                StartupPhase::Failed(error) => r == Ok::<Result<Engine, McpError>, Startup>(
                    Err(error),
                ),
                _ => r == Err::<Result<Engine, McpError>, Startup>(self),
            },
    {
        let ready = match &self.phase {
            StartupPhase::Ready { .. } => true,
            StartupPhase::Failed(_) => true,
            _ => false,
        };
        if !ready {
            return Err(self);
        }
        let plan = self.plan;
        match self.phase {
            StartupPhase::Ready { endpoint, created } => Ok(
                Ok(
                    Engine {
                        ephemeral_path: plan.ephemeral_path,
                        ephemeral_stem: plan.ephemeral_stem,
                        persistent_path: match plan.persistent {
                            Some(p) => Some(p.path),
                            None => None,
                        },
                        persistent_was_created: created,
                        daemon_endpoint: endpoint,
                        log_dir: plan.log_dir,
                        catalog_cache: CatalogCache::new(),
                    },
                ),
            ),
            StartupPhase::Failed(error) => Ok(Err(error)),
            phase => Err(Startup { plan, no_daemon: self.no_daemon, phase }),
        }
    }
}

/// Whether `e` is the session that came up from `plan`.
pub open spec fn is_session(
    e: Engine,
    plan: StartupPlan,
    endpoint: Option<String>,
    created: bool,
) -> bool {
    &&& e.ephemeral_path == plan.ephemeral_path
    &&& e.ephemeral_stem == plan.ephemeral_stem
    &&& e.persistent_path == (match plan.persistent {
        Some(p) => Some(p.path),
        None => None,
    })
    &&& e.persistent_was_created == created
    &&& e.daemon_endpoint == endpoint
    &&& e.log_dir == plan.log_dir
    &&& forall|key: Seq<char>| #[trigger] e.catalog_cache.cached(key) is None
}

/// Whether a session begins as it should: with the directory of the persistent
/// database, where it has one.
pub open spec fn begins(s: Startup, plan: StartupPlan, no_daemon: bool) -> bool {
    &&& s.plan == plan
    &&& s.no_daemon == no_daemon
    &&& match plan.persistent {
        Some(p) => match p.parent {
            Some(dir) => s.phase matches StartupPhase::PersistentDir(path) && path@ == dir@,
            None => s.phase is EphemeralDir,
        },
        None => s.phase is EphemeralDir,
    }
}

impl Engine {
    /// Begins a session that uses the daemon's process, or one of its own where there
    /// is no daemon.
    pub fn new(plan: StartupPlan) -> (r: Startup)
        ensures
            begins(r, plan, false),
    {
        new_with_mode(plan, false)
    }

    /// Begins a session with a process of its own.
    pub fn new_no_daemon(plan: StartupPlan) -> (r: Startup)
        ensures
            begins(r, plan, true),
    {
        new_with_mode(plan, true)
    }
}

fn new_with_mode(plan: StartupPlan, no_daemon: bool) -> (r: Startup)
    ensures
        begins(r, plan, no_daemon),
{
    let dir = match &plan.persistent {
        Some(p) => match &p.parent {
            Some(dir) => Some(dir.clone()),
            None => None,
        },
        None => None,
    };
    let phase = match dir {
        Some(dir) => StartupPhase::PersistentDir(dir),
        None => StartupPhase::EphemeralDir,
    };
    Startup { plan, no_daemon, phase }
}

/// Whether a phase belongs to a session that uses a daemon.
pub open spec fn uses_daemon(phase: StartupPhase) -> bool {
    match phase {
        StartupPhase::FindDaemon => true,
        StartupPhase::ConnectDaemon(_) => true,
        StartupPhase::ReportDaemon(_) => true,
        StartupPhase::Bootstrap(link) => link is Some,
        StartupPhase::Heartbeat(_) => true,
        StartupPhase::LookForPersistent(endpoint) => endpoint is Some,
        StartupPhase::CreatePersistent(endpoint) => endpoint is Some,
        StartupPhase::AttachPersistent { endpoint, .. } => endpoint is Some,
        StartupPhase::PinPrimary { endpoint, .. } => endpoint is Some,
        StartupPhase::Ready { endpoint, .. } => endpoint is Some,
        _ => false,
    }
}

/// A session that is to have a process of its own never turns to a daemon.
pub proof fn law_no_daemon_is_kept(
    s: Startup,
    outcome: Result<StartupFinding, String>,
    next: StartupPhase,
)
    requires
        s.no_daemon,
        !uses_daemon(s.phase),
        s.leads_to(outcome, next),
    ensures
        !uses_daemon(next),
{
}

/// Where no daemon can be had, the session goes on with a process of its own.
pub proof fn law_falls_back_to_own_process(
    s: Startup,
    outcome: Result<StartupFinding, String>,
    next: StartupPhase,
)
    requires
        s.phase is FindDaemon,
        s.leads_to(outcome, next),
        !(outcome matches Ok(f) && f is Daemon),
    ensures
        next is StartProcess,
{
}

/// A session with a persistent database is up only once names without a database mean
/// the primary one.
pub proof fn law_ready_is_pinned(
    s: Startup,
    outcome: Result<StartupFinding, String>,
    next: StartupPhase,
)
    requires
        s.plan.persistent is Some,
        s.leads_to(outcome, next),
        next is Ready,
        !(s.phase is Ready),
    ensures
        outcome is Ok,
        s.deed() == StartupDeed::Execute(
            attach::pin_statement(
                crate::engine::session::primary_name(text::opt_text(s.plan.ephemeral_stem)),
            ),
        ),
{
}

/// A persistent database that is there is attached as it is, and one is told to be new
/// only if it was made.
pub proof fn law_existing_persistent_is_kept(
    s: Startup,
    outcome: Result<StartupFinding, String>,
    next: StartupPhase,
)
    requires
        s.leads_to(outcome, next),
    ensures
        s.phase is LookForPersistent && outcome == Ok::<StartupFinding, String>(
            StartupFinding::FileThere,
        ) ==> (next matches StartupPhase::AttachPersistent { created, .. } && !created),
        next matches StartupPhase::AttachPersistent { created: true, .. } ==> s.phase
            is CreatePersistent && outcome is Ok,
{
}

/// The persistent database is attached only once it is there: the look at its path found
/// it, or the statement that makes it succeeded. Whatever else came of the look, it is made
/// first, whether or not the session uses a daemon.
pub proof fn law_attached_only_if_there(
    s: Startup,
    outcome: Result<StartupFinding, String>,
    next: StartupPhase,
)
    requires
        s.leads_to(outcome, next),
    ensures
        next matches StartupPhase::AttachPersistent { endpoint, created } ==> (s.phase
            == StartupPhase::LookForPersistent(endpoint) && outcome == Ok::<StartupFinding, String>(
            StartupFinding::FileThere,
        ) && !created) || (s.phase == StartupPhase::CreatePersistent(endpoint) && outcome is Ok
            && created),
        s.phase matches StartupPhase::LookForPersistent(endpoint) ==> (outcome == Ok::<
            StartupFinding,
            String,
        >(StartupFinding::FileThere) ==> next == (StartupPhase::AttachPersistent {
            endpoint,
            created: false,
        })) && (outcome != Ok::<StartupFinding, String>(StartupFinding::FileThere) ==> next
            == StartupPhase::CreatePersistent(endpoint)),
        next matches StartupPhase::AttachPersistent { .. } ==> s.plan.persistent matches Some(place)
            ==> (s.deed() == StartupDeed::Look(place.path@) && outcome == Ok::<
            StartupFinding,
            String,
        >(StartupFinding::FileThere)) || (s.deed() == StartupDeed::Execute(
            "CREATE DATABASE IF NOT EXISTS "@ + place.sql_path@,
        ) && outcome is Ok),
        next matches StartupPhase::CreatePersistent(endpoint) ==> s.phase
            == StartupPhase::LookForPersistent(endpoint) && outcome != Ok::<StartupFinding, String>(
            StartupFinding::FileThere,
        ),
{
}

/// What has to be behind a session before it reaches a phase: directories first, then a
/// process, the connection, the schema, the daemon's heartbeat, the persistent database and
/// the pin, each of which has to have succeeded.
pub proof fn law_every_step_has_its_place(
    s: Startup,
    outcome: Result<StartupFinding, String>,
    next: StartupPhase,
)
    requires
        s.leads_to(outcome, next),
    ensures
        !(next is PersistentDir),
        next is EphemeralDir ==> s.phase is PersistentDir && outcome is Ok,
        next is LogDir ==> s.phase is EphemeralDir && outcome is Ok,
        next is FindDaemon ==> s.phase is LogDir && outcome is Ok && !s.no_daemon,
        next matches StartupPhase::ConnectDaemon(link) ==> s.phase is FindDaemon && outcome
            == Ok::<StartupFinding, String>(StartupFinding::Daemon(link)),
        next is StartProcess ==> (s.phase is LogDir && outcome is Ok && s.no_daemon) || (s.phase
            is FindDaemon && !(outcome matches Ok(f) && f is Daemon)),
        next is ConnectProcess ==> s.phase is StartProcess && outcome is Ok,
        next matches StartupPhase::Bootstrap(Some(link)) ==> s.phase == StartupPhase::ConnectDaemon(
            link,
        ) && outcome is Ok,
        next == StartupPhase::Bootstrap(None) ==> s.phase is ConnectProcess && outcome is Ok,
        next matches StartupPhase::Heartbeat(link) ==> s.phase == StartupPhase::Bootstrap(
            Some(link),
        ) && outcome is Ok,
        next matches StartupPhase::LookForPersistent(Some(endpoint)) ==> s.plan.persistent is Some
            && (s.phase matches StartupPhase::Heartbeat(link) && link.endpoint == endpoint),
        next == StartupPhase::LookForPersistent(None) ==> s.plan.persistent is Some && s.phase
            == StartupPhase::Bootstrap(None) && outcome is Ok,
        next matches StartupPhase::PinPrimary { endpoint, created } ==> s.phase
            == (StartupPhase::AttachPersistent { endpoint, created }) && outcome is Ok,
        next matches StartupPhase::Ready { endpoint, created } ==> s.phase == next || (s.phase
            == (StartupPhase::PinPrimary { endpoint, created }) && outcome is Ok) || (
        s.plan.persistent is None && !created && ((s.phase == StartupPhase::Bootstrap(None)
            && outcome is Ok && endpoint is None) || (s.phase matches StartupPhase::Heartbeat(link)
            && endpoint == Some(link.endpoint)))),
{
}

/// What fails a session: a step that failed, unless it was the search for a daemon, the
/// heartbeat or the look at the persistent database. Where the daemon's process cannot be
/// connected to, the daemon is told first. What was up stays up, and what failed stays so.
pub proof fn law_failures_end_the_session(
    s: Startup,
    outcome: Result<StartupFinding, String>,
    next: StartupPhase,
)
    requires
        s.leads_to(outcome, next),
    ensures
        outcome is Ok && !(s.phase is ReportDaemon) && !(s.phase is Failed) ==> !(next is Failed)
            && !(next is ReportDaemon),
        s.phase matches StartupPhase::ReportDaemon(error) ==> next == StartupPhase::Failed(error),
        s.phase is Failed || s.phase is Ready ==> next == s.phase,
        s.phase is FindDaemon || s.phase is Heartbeat || s.phase is LookForPersistent ==> !(next
            is Failed) && !(next is ReportDaemon),
        outcome is Err && s.phase is ConnectDaemon ==> next is ReportDaemon,
        outcome is Err && (s.phase is PersistentDir || s.phase is EphemeralDir || s.phase is LogDir
            || s.phase is StartProcess || s.phase is ConnectProcess || s.phase is Bootstrap
            || s.phase is CreatePersistent || s.phase is AttachPersistent || s.phase is PinPrimary)
            ==> next is Failed,
{
}

/// What a caller is told of a step that failed: which step it was, and why it failed.
pub proof fn law_failures_are_told(
    s: Startup,
    reason: String,
    next: StartupPhase,
)
    requires
        s.leads_to(Err(reason), next),
    ensures
        s.phase is PersistentDir ==> (next matches StartupPhase::Failed(e) && e.code
            == ErrorCode::PermissionDenied && e.message@
            == "Cannot create persistent-db directory: "@ + reason@),
        s.phase is EphemeralDir ==> (next matches StartupPhase::Failed(e) && e.code
            == ErrorCode::InternalError && e.message@ == "Cannot create ephemeral directory: "@
            + reason@),
        s.phase is LogDir ==> (next matches StartupPhase::Failed(e) && e.code
            == ErrorCode::PermissionDenied && e.message@ == "Cannot create log directory "@
            + s.plan.log_dir@ + ": "@ + reason@),
        s.phase matches StartupPhase::ConnectDaemon(link) ==> (
        next matches StartupPhase::ReportDaemon(e) && e.code == ErrorCode::InternalError
            && e.message@ == "Failed to connect to daemon hyperd at "@ + link.endpoint@ + ": "@
            + reason@),
        s.phase is StartProcess ==> (next matches StartupPhase::Failed(e) && e.message@ == reason@
            && e.code == (if text::has_part(reason@, "hyperd"@) || text::has_part(
            reason@,
            "HYPERD_PATH"@,
        ) || text::has_part(reason@, "No such file"@) {
            ErrorCode::HyperdNotFound
        } else {
            ErrorCode::InternalError
        })),
        s.phase is ConnectProcess ==> (next matches StartupPhase::Failed(e) && e.code
            == ErrorCode::InternalError && e.message@ == "Failed to connect: "@ + reason@),
        s.phase is Bootstrap ==> (next matches StartupPhase::Failed(e) && e.code
            == ErrorCode::InternalError && e.message@ == "Failed to bootstrap public schema: "@
            + reason@),
        s.phase is CreatePersistent ==> (next matches StartupPhase::Failed(e) && e.code
            == ErrorCode::InternalError && e.message@
            == "Failed to create persistent database: "@ + reason@),
        s.phase is AttachPersistent ==> (next matches StartupPhase::Failed(e) && e.code
            == ErrorCode::InternalError && e.message@
            == "Failed to attach persistent database: "@ + reason@),
        s.phase is PinPrimary ==> (next matches StartupPhase::Failed(e) && e.code
            == ErrorCode::InternalError && e.message@ == "Failed to pin schema_search_path: "@
            + reason@),
{
}

/// What is done in each phase: the session's own directories and paths are used, and the
/// statements are these.
pub proof fn law_deeds_of_a_session(s: Startup)
    ensures
        s.phase matches StartupPhase::PersistentDir(path) ==> s.deed() == StartupDeed::MakeDir(
            path@,
        ),
        s.phase is EphemeralDir ==> s.deed() == StartupDeed::MakeDir(s.plan.ephemeral_dir@),
        s.phase is LogDir ==> s.deed() == StartupDeed::MakeDir(s.plan.log_dir@),
        s.phase is FindDaemon ==> s.deed() == StartupDeed::FindDaemon,
        s.phase matches StartupPhase::ConnectDaemon(link) ==> s.deed() == (StartupDeed::Connect {
            endpoint: link.endpoint@,
            path: s.plan.ephemeral_path@,
        }),
        s.phase is ReportDaemon ==> s.deed() == StartupDeed::ReportError,
        s.phase is StartProcess ==> s.deed() == StartupDeed::StartProcess(s.plan.log_dir@),
        s.phase is ConnectProcess ==> s.deed() == StartupDeed::ConnectLocal(s.plan.ephemeral_path@),
        s.phase is Bootstrap ==> s.deed() == StartupDeed::Execute(
            "CREATE SCHEMA IF NOT EXISTS public"@,
        ),
        s.phase matches StartupPhase::Heartbeat(link) ==> s.deed() == (StartupDeed::Send {
            port: link.health_port,
            command: "HEARTBEAT"@,
        }),
        s.plan.persistent matches Some(place) ==> {
            &&& s.phase is LookForPersistent ==> s.deed() == StartupDeed::Look(place.path@)
            &&& s.phase is CreatePersistent ==> s.deed() == StartupDeed::Execute(
                "CREATE DATABASE IF NOT EXISTS "@ + place.sql_path@,
            )
            &&& s.phase is AttachPersistent ==> s.deed() == StartupDeed::Execute(
                "ATTACH DATABASE "@ + place.sql_path@ + " AS \"persistent\""@,
            )
        },
        s.phase is PinPrimary ==> s.deed() == StartupDeed::Execute(
            "SET schema_search_path = "@ + attach::string_literal(
                match s.plan.ephemeral_stem {
                    Some(stem) => stem@,
                    None => "scratch"@,
                },
            ),
        ),
        s.phase is Ready || s.phase is Failed ==> s.deed() == StartupDeed::Nothing,
{
    if s.phase is AttachPersistent {
        if let Some(place) = s.plan.persistent {
            reveal_strlit("persistent");
            reveal_strlit(" AS \"persistent\"");
            reveal_strlit(" AS ");
            reveal_strlit("\"");
            text::law_doubling(PERSISTENT_ALIAS@, Seq::empty(), '"');
            assert(" AS "@ + attach::quoted_name(PERSISTENT_ALIAS@) =~= " AS \"persistent\""@);
            assert("ATTACH DATABASE "@ + place.sql_path@ + " AS "@ + attach::quoted_name(
                PERSISTENT_ALIAS@,
            ) =~= "ATTACH DATABASE "@ + place.sql_path@ + (" AS "@ + attach::quoted_name(
                PERSISTENT_ALIAS@,
            )));
        }
    }
}

/// A session that is up has the paths of its plan, remembers whether its persistent
/// database was made just now and which daemon it uses, and knows of no catalog yet.
pub proof fn law_session_is_as_planned(
    e: Engine,
    plan: StartupPlan,
    endpoint: Option<String>,
    created: bool,
)
    requires
        is_session(e, plan, endpoint, created),
    ensures
        e.ephemeral_path == plan.ephemeral_path,
        e.ephemeral_stem == plan.ephemeral_stem,
        plan.persistent matches Some(place) ==> e.persistent_path == Some(place.path),
        plan.persistent is None ==> e.persistent_path is None,
        e.persistent_was_created == created,
        e.daemon_endpoint == endpoint,
        e.log_dir == plan.log_dir,
        forall|key: Seq<char>| #[trigger] e.catalog_cache.cached(key) is None,
{
}

/// A session begins with the directory of its persistent database, where its path has one,
/// and with that of the primary database otherwise.
pub proof fn law_session_begins_with_directories(s: Startup, plan: StartupPlan, no_daemon: bool)
    requires
        begins(s, plan, no_daemon),
    ensures
        s.plan == plan,
        s.no_daemon == no_daemon,
        plan.persistent matches Some(place) ==> place.parent matches Some(dir) ==> s.deed()
            == StartupDeed::MakeDir(dir@) && s.phase is PersistentDir,
        plan.persistent is None || plan.persistent->0.parent is None ==> s.phase is EphemeralDir,
{
}

/// An action stands for the deed of its name, with its own paths, statement and port.
pub proof fn law_actions_stand_for_deeds(
    a: String,
    b: String,
    port: u16,
    command: &'static str,
)
    ensures
        StartupAction::MakeDir(a)@ == StartupDeed::MakeDir(a@),
        StartupAction::FindDaemon@ == StartupDeed::FindDaemon,
        (StartupAction::Connect { endpoint: a, path: b })@ == (StartupDeed::Connect {
            endpoint: a@,
            path: b@,
        }),
        StartupAction::ReportError@ == StartupDeed::ReportError,
        StartupAction::StartProcess(a)@ == StartupDeed::StartProcess(a@),
        StartupAction::ConnectLocal(a)@ == StartupDeed::ConnectLocal(a@),
        StartupAction::Execute(a)@ == StartupDeed::Execute(a@),
        (StartupAction::Send { port, command })@ == (StartupDeed::Send { port, command: command@ }),
        StartupAction::Look(a)@ == StartupDeed::Look(a@),
        StartupAction::Nothing@ == StartupDeed::Nothing,
{
}

} // verus!
