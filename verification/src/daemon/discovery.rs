//! Finding the running daemon: by the file that it leaves behind, or by asking
//! at the ports on which it may answer.

use vstd::prelude::*;

use crate::diagnostics::identity::ReportedPath;
use crate::text;

verus! {

/// The longest discovery file that is looked at, in bytes.
pub const MAX_DISCOVERY_FILE_BYTES: usize = 65536;

/// The name of the discovery file in the state directory.
pub const DISCOVERY_FILE_NAME: &'static str = "daemon.json";

/// The name under which the discovery file is written before it replaces the old
/// one.
pub const DISCOVERY_TEMP_NAME: &'static str = "daemon.json.tmp";

/// The name of the state directory in the home directory.
pub const STATE_DIR_NAME: &'static str = ".hyperdb";

/// What the daemon tells its clients.
#[derive(Debug)]
pub struct DaemonInfo {
    /// The process ID of the daemon.
    pub pid: u32,
    /// Where the database process answers.
    pub hyperd_endpoint: String,
    /// The port on which the daemon itself answers.
    pub health_port: u16,
    /// When the daemon was started.
    pub started_at: String,
    /// The version of the daemon.
    pub version: String,
}

impl DaemonInfo {
    /// The same information once more.
    pub fn copied(&self) -> (r: DaemonInfo)
        ensures
            r == *self,
    {
        DaemonInfo {
            pid: self.pid,
            hyperd_endpoint: self.hyperd_endpoint.clone(),
            health_port: self.health_port,
            started_at: self.started_at.clone(),
            version: self.version.clone(),
        }
    }
}

/// Which build of the program the daemon is.
#[derive(Debug)]
pub struct DaemonBuildIdentity {
    /// The version of the program, with its build.
    pub mcp_version: String,
    /// The executable.
    pub executable_path: ReportedPath,
}

/// What the daemon tells of itself, with its build where it is new enough to tell.
#[derive(Debug)]
pub struct DaemonRecord {
    /// What every daemon tells.
    pub info: DaemonInfo,
    /// Which build it is.
    pub identity: Option<DaemonBuildIdentity>,
}

/// What came of reading the discovery file.
#[derive(Debug)]
pub enum RawDiscoveryRead {
    /// There is no file.
    Missing {
        /// Where it was looked for.
        path: ReportedPath,
    },
    /// The file could not be read.
    Unreadable {
        /// Where it is.
        path: ReportedPath,
        /// The name of the error.
        kind: String,
    },
    /// The file does not hold what it should.
    Malformed {
        /// Where it is.
        path: ReportedPath,
    },
    /// The file holds a record.
    Parsed {
        /// Where it is.
        path: ReportedPath,
        /// The record.
        record: DaemonRecord,
    },
}

/// How far reading the discovery file came.
#[derive(Debug)]
pub enum DiscoverySource {
    /// Opening it failed because there is none.
    NotFound,
    /// Opening it, asking what it is, or reading it failed otherwise.
    Failed {
        /// The name of the error.
        kind: String,
    },
    /// It was opened, but is no regular file.
    NotRegular,
    /// It was read; where there is a limit, up to one byte more than that.
    Content {
        /// How many bytes were read.
        length: usize,
        /// The record in them, where they hold one.
        record: Option<DaemonRecord>,
    },
}

/// Whether `read` is what comes of `source`, found at `path`, where a file of
/// more than `limit` bytes is not looked at.
pub open spec fn is_read_of(
    read: RawDiscoveryRead,
    path: ReportedPath,
    source: DiscoverySource,
    limit: nat,
) -> bool {
    match source {
        DiscoverySource::NotFound => read == (RawDiscoveryRead::Missing { path }),
        DiscoverySource::Failed { kind } => read == (RawDiscoveryRead::Unreadable { path, kind }),
        DiscoverySource::NotRegular => read matches RawDiscoveryRead::Unreadable {
            path: p,
            kind,
        } && p == path && kind@ == "InvalidInput"@,
        DiscoverySource::Content { length, record } => if length > limit {
            read == (RawDiscoveryRead::Malformed { path })
        } else {
            match record {
                Some(record) => read == (RawDiscoveryRead::Parsed { path, record }),
                None => read == (RawDiscoveryRead::Malformed { path }),
            }
        },
    }
}

/// What comes of reading a discovery file that holds `record`, where it holds one.
fn parse_discovery_contents(path: ReportedPath, record: Option<DaemonRecord>) -> (r:
    RawDiscoveryRead)
    ensures
        r == (match record {
            Some(record) => RawDiscoveryRead::Parsed { path, record },
            None => RawDiscoveryRead::Malformed { path },
        }),
{
    match record {
        Some(record) => RawDiscoveryRead::Parsed { path, record },
        None => RawDiscoveryRead::Malformed { path },
    }
}

/// What comes of looking at the discovery file without following links and without
/// reading more than the limit: nothing that stands in its place can hold up the
/// reader.
pub fn read_discovery_file_raw(path: ReportedPath, source: DiscoverySource) -> (r: RawDiscoveryRead)
    ensures
        is_read_of(r, path, source, MAX_DISCOVERY_FILE_BYTES as nat),
{
    match source {
        DiscoverySource::NotFound => RawDiscoveryRead::Missing { path },
        DiscoverySource::Failed { kind } => RawDiscoveryRead::Unreadable { path, kind },
        DiscoverySource::NotRegular => RawDiscoveryRead::Unreadable {
            path,
            kind: "InvalidInput".to_owned(),
        },
        DiscoverySource::Content { length, record } => {
            if length > MAX_DISCOVERY_FILE_BYTES {
                RawDiscoveryRead::Malformed { path }
            } else {
                parse_discovery_contents(path, record)
            }
        },
    }
}

/// What comes of reading the discovery file as a client does, which follows links and
/// takes a record of any length.
pub fn read_discovery_file(path: ReportedPath, source: DiscoverySource) -> (r: RawDiscoveryRead)
    ensures
        is_read_of(r, path, source, usize::MAX as nat),
{
    match source {
        DiscoverySource::NotFound => RawDiscoveryRead::Missing { path },
        DiscoverySource::Failed { kind } => RawDiscoveryRead::Unreadable { path, kind },
        DiscoverySource::NotRegular => RawDiscoveryRead::Unreadable {
            path,
            kind: "InvalidInput".to_owned(),
        },
        DiscoverySource::Content { record, .. } => parse_discovery_contents(path, record),
    }
}

/// A record that is found within the limit is found without it too.
pub proof fn law_short_records_are_read_alike(
    bounded: RawDiscoveryRead,
    unbounded: RawDiscoveryRead,
    path: ReportedPath,
    source: DiscoverySource,
)
    requires
        is_read_of(bounded, path, source, MAX_DISCOVERY_FILE_BYTES as nat),
        is_read_of(unbounded, path, source, usize::MAX as nat),
        bounded is Parsed,
    ensures
        unbounded == bounded,
{
}

/// The daemon that the discovery file names, where it names one.
pub fn discovery_candidate(read: RawDiscoveryRead) -> (r: Option<DaemonInfo>)
    ensures
        match read {
            RawDiscoveryRead::Parsed { record, .. } => r == Some(record.info),
            _ => r is None,
        },
{
    match read {
        RawDiscoveryRead::Parsed { record, .. } => Some(record.info),
        _ => None,
    }
}

/// What to do with the daemon that the discovery file names.
#[derive(Debug)]
pub enum Discovered {
    /// It is alive.
    Live(DaemonInfo),
    /// It is gone, and its file is to be removed.
    Stale,
    /// No daemon is named.
    Nothing,
}

/// What to do with the daemon that the discovery file names, where `alive` says
/// whether it answered at its port.
pub fn discover(read: RawDiscoveryRead, alive: bool) -> (r: Discovered)
    ensures
        match read {
            RawDiscoveryRead::Parsed { record, .. } => if alive {
                r == Discovered::Live(record.info)
            } else {
                r == Discovered::Stale
            },
            _ => r == Discovered::Nothing,
        },
{
    match discovery_candidate(read) {
        Some(info) => {
            if alive {
                Discovered::Live(info)
            } else {
                Discovered::Stale
            }
        },
        None => Discovered::Nothing,
    }
}

/// A path below a directory, as the names that lead to it.
#[derive(Debug)]
pub struct StatePath {
    /// The directory to start from.
    pub base: String,
    /// The names that follow, one below the other.
    pub names: Vec<String>,
}

/// Why there is no state directory.
#[derive(Debug, Clone, Copy, PartialEq, Eq, Structural)]
pub enum StateDirError {
    /// No home directory is known.
    NoHome,
}

/// The home directory, from the values of `HOME` and `USERPROFILE`.
pub open spec fn home_dir_of(home: Option<String>, user_profile: Option<String>) -> Option<String> {
    match home {
        Some(h) => Some(h),
        None => user_profile,
    }
}

/// Whether `path` leads to `names` below the state directory.
pub open spec fn leads_below_state_dir(
    path: Result<StatePath, StateDirError>,
    configured: Option<String>,
    home: Option<String>,
    user_profile: Option<String>,
    names: Seq<Seq<char>>,
) -> bool {
    match configured {
        Some(dir) => path matches Ok(p) && p.base == dir && text::texts(p.names@) == names,
        None => match home_dir_of(home, user_profile) {
            Some(h) => path matches Ok(p) && p.base == h && text::texts(p.names@) == seq![
                STATE_DIR_NAME@,
            ] + names,
            None => path == Err::<StatePath, StateDirError>(StateDirError::NoHome),
        },
    }
}

/// The state directory: the value of `HYPERDB_STATE_DIR` where it is set, else
/// `.hyperdb` in the home directory.
pub fn state_dir(
    configured: Option<String>,
    home: Option<String>,
    user_profile: Option<String>,
) -> (r: Result<StatePath, StateDirError>)
    ensures
        leads_below_state_dir(r, configured, home, user_profile, Seq::empty()),
{
    let mut names: Vec<String> = Vec::new();
    if let Some(dir) = configured {
        assert(text::texts(names@) =~= Seq::<Seq<char>>::empty());
        return Ok(StatePath { base: dir, names });
    }
    names.push(STATE_DIR_NAME.to_owned());
    assert(text::texts(names@) =~= seq![STATE_DIR_NAME@] + Seq::<Seq<char>>::empty());
    let home_dir = match home {
        Some(h) => Some(h),
        None => user_profile,
    };
    match home_dir {
        Some(base) => Ok(StatePath { base, names }),
        None => Err(StateDirError::NoHome),
    }
}

/// The discovery file: `daemon.json` in the state directory.
pub fn discovery_file_path(
    configured: Option<String>,
    home: Option<String>,
    user_profile: Option<String>,
) -> (r: Result<StatePath, StateDirError>)
    ensures
        leads_below_state_dir(r, configured, home, user_profile, seq![DISCOVERY_FILE_NAME@]),
{
    match state_dir(configured, home, user_profile) {
        Ok(dir) => {
            let ghost before = text::texts(dir.names@);
            let mut names = dir.names;
            names.push(DISCOVERY_FILE_NAME.to_owned());
            assert(text::texts(names@) =~= before + seq![DISCOVERY_FILE_NAME@]);
            assert(Seq::<Seq<char>>::empty() + seq![DISCOVERY_FILE_NAME@] =~= seq![
                DISCOVERY_FILE_NAME@,
            ]);
            assert((seq![STATE_DIR_NAME@] + Seq::<Seq<char>>::empty()) + seq![DISCOVERY_FILE_NAME@]
                =~= seq![STATE_DIR_NAME@] + seq![DISCOVERY_FILE_NAME@]);
            Ok(StatePath { base: dir.base, names })
        },
        Err(e) => Err(e),
    }
}

/// One step of writing the discovery file.
#[derive(Debug, Clone, Copy, PartialEq, Eq, Structural)]
pub enum WriteStep {
    /// Make the state directory and those above it.
    CreateStateDir,
    /// Write the whole record under the temporary name.
    WriteTemp,
    /// Give the new file its name, in place of the old one; the name holds one of the two
    /// at all times.
    RenameTemp,
}

/// What the files of the state directory hold.
pub struct StateFiles {
    /// The record under the name of the discovery file.
    pub named: Option<Seq<char>>,
    /// What stands under the temporary name.
    pub temporary: Option<Seq<char>>,
}

/// What the files hold after a step of writing `record`.
pub open spec fn after_step(files: StateFiles, step: WriteStep, record: Seq<char>) -> StateFiles {
    match step {
        WriteStep::CreateStateDir => files,
        WriteStep::WriteTemp => StateFiles { temporary: Some(record), ..files },
        WriteStep::RenameTemp => StateFiles { named: files.temporary, temporary: None },
    }
}

/// What the files hold after steps of writing `record`, in order.
pub open spec fn after_steps(
    files: StateFiles,
    steps: Seq<WriteStep>,
    record: Seq<char>,
) -> StateFiles
    decreases steps.len(),
{
    if steps.len() == 0 {
        files
    } else {
        after_step(after_steps(files, steps.drop_last(), record), steps.last(), record)
    }
}

/// Whether a step that breaks off can leave the files as they are `after`: the temporary
/// file may then hold anything, and a name changes at once or not at all.
pub open spec fn may_leave(
    files: StateFiles,
    step: WriteStep,
    record: Seq<char>,
    after: StateFiles,
) -> bool {
    match step {
        WriteStep::CreateStateDir => after == files,
        WriteStep::WriteTemp => after.named == files.named,
        WriteStep::RenameTemp => after == files || after == after_step(files, step, record),
    }
}

/// The steps of writing the discovery file.
pub open spec fn write_steps() -> Seq<WriteStep> {
    seq![WriteStep::CreateStateDir, WriteStep::WriteTemp, WriteStep::RenameTemp]
}

/// The steps of writing the discovery file, in order: the file never stands under
/// its own name half written, and is never missing once it was there.
pub fn write_discovery_file() -> (r: Vec<WriteStep>)
    ensures
        r@ == write_steps(),
{
    let mut steps: Vec<WriteStep> = Vec::new();
    steps.push(WriteStep::CreateStateDir);
    steps.push(WriteStep::WriteTemp);
    steps.push(WriteStep::RenameTemp);
    assert(steps@ =~= write_steps());
    steps
}

/// After every number of steps of writing the discovery file its name holds the whole old
/// record or, after the last step, the whole new one.
pub proof fn law_record_is_replaced_whole(files: StateFiles, record: Seq<char>, done: int)
    requires
        0 <= done <= write_steps().len(),
    ensures
        after_steps(files, write_steps().take(done), record).named == (if done
            < write_steps().len() {
            files.named
        } else {
            Some(record)
        }),
{
    let all = write_steps();
    reveal_with_fuel(after_steps, 4);
    assert(all.take(0) =~= Seq::empty());
    assert(all.take(1).drop_last() =~= all.take(0));
    assert(all.take(2).drop_last() =~= all.take(1));
    assert(all.take(3).drop_last() =~= all.take(2));
}

/// Wherever writing the discovery file breaks off, its name holds the whole old record or
/// the whole new one.
pub proof fn law_broken_off_write_keeps_a_record(
    files: StateFiles,
    record: Seq<char>,
    done: int,
    left: StateFiles,
)
    requires
        0 <= done < write_steps().len(),
        may_leave(
            after_steps(files, write_steps().take(done), record),
            write_steps()[done],
            record,
            left,
        ),
    ensures
        left.named == files.named || left.named == Some(record),
{
    law_record_is_replaced_whole(files, record, done);
    law_record_is_replaced_whole(files, record, done + 1);
    assert(write_steps().take(done + 1).drop_last() =~= write_steps().take(done));
}

/// The ports on which a daemon may answer: `span` ports from `base` on.
#[derive(Debug, Clone, Copy, PartialEq, Eq, Structural)]
pub struct PortScan {
    /// The first port.
    pub base: u16,
    /// How many ports; with one the port is pinned.
    pub span: u16,
}

impl PortScan {
    /// How many ports there are: no port lies above the largest number of 16 bits.
    pub open spec fn count(self) -> nat {
        if self.base + self.span <= 65536 {
            self.span as nat
        } else {
            (65536 - self.base) as nat
        }
    }

    /// The ports, in the order in which they are asked.
    pub open spec fn ports(self) -> Seq<u16> {
        Seq::new(self.count(), |i: int| (self.base + i) as u16)
    }

    /// The port at `offset`, where there is one.
    pub fn port_at(&self, offset: usize) -> (r: Option<u16>)
        ensures
            match r {
                Some(port) => offset < self.count() && port == self.ports()[offset as int],
                None => offset >= self.count(),
            },
    {
        if offset < self.span as usize && offset <= (65535 - self.base) as usize {
            Some(self.base + offset as u16)
        } else {
            None
        }
    }
}

/// The ports to ask: the one that the environment pins, where it names one, else
/// those that are asked by default.
pub open spec fn port_scan_of(env_value: Option<Seq<char>>, default: PortScan) -> PortScan {
    match env_value {
        Some(v) => match text::bounded_value(v, 65535) {
            Some(port) => PortScan { base: port as u16, span: 1 },
            None => default,
        },
        None => default,
    }
}

/// The ports to ask, where `env_value` is the value of `HYPERDB_DAEMON_PORT`.
pub fn resolve_port_scan(env_value: Option<&str>, default: PortScan) -> (r: PortScan)
    ensures
        r == port_scan_of(
            match env_value {
                Some(v) => Some(v@),
                None => None,
            },
            default,
        ),
{
    match env_value {
        Some(v) => match text::parse_unsigned(v, 65535) {
            Some(port) => PortScan { base: port as u16, span: 1 },
            None => default,
        },
        None => default,
    }
}

/// The first port to ask, where `env_value` is the value of `HYPERDB_DAEMON_PORT`.
pub fn resolve_port(env_value: Option<&str>, default: PortScan) -> (r: u16)
    ensures
        r == port_scan_of(
            match env_value {
                Some(v) => Some(v@),
                None => None,
            },
            default,
        ).base,
{
    resolve_port_scan(env_value, default).base
}

/// What answers at a port.
#[derive(Debug)]
pub enum ProbeResult {
    /// A daemon of this program.
    OurDaemon(Box<DaemonInfo>),
    /// Something else.
    Camped,
    /// Nothing: the port is free.
    Refused,
}

/// What to try next at a port.
#[derive(Debug, Clone, Copy, PartialEq, Eq, Structural)]
pub enum ProbeStep {
    /// Ask for the daemon's status.
    AskStatus,
    /// See whether anything accepts a connection.
    TryConnect,
}

/// What to try at a port after asking who answers there.
pub fn probe_after_ping(identified: bool) -> (r: ProbeStep)
    ensures
        r == (if identified {
            ProbeStep::AskStatus
        } else {
            ProbeStep::TryConnect
        }),
{
    if identified {
        ProbeStep::AskStatus
    } else {
        ProbeStep::TryConnect
    }
}

/// What answers at a port that said it is a daemon of this program: `status` is
/// its status where it sent one that can be read.
pub fn probe_after_status(status: Option<DaemonInfo>) -> (r: ProbeResult)
    ensures
        match status {
            Some(info) => r matches ProbeResult::OurDaemon(b) && *b == info,
            None => r is Camped,
        },
{
    match status {
        Some(info) => ProbeResult::OurDaemon(Box::new(info)),
        None => ProbeResult::Camped,
    }
}

/// What answers at a port that did not say so.
pub fn probe_after_connect(accepted: bool) -> (r: ProbeResult)
    ensures
        r is Camped <==> accepted,
        r is Refused <==> !accepted,
{
    if accepted {
        ProbeResult::Camped
    } else {
        ProbeResult::Refused
    }
}

/// What came of asking at all ports.
#[derive(Debug)]
pub enum ScanOutcome {
    /// A daemon answered.
    Found(Box<DaemonInfo>),
    /// No daemon answered, and this port is free.
    FreePort(u16),
    /// No daemon answered, and no port is free.
    AllOccupied,
}

/// The first port at which a daemon answered.
pub open spec fn first_daemon(probes: Seq<ProbeResult>) -> Option<int>
    decreases probes.len(),
{
    if probes.len() == 0 {
        None
    } else {
        match first_daemon(probes.drop_last()) {
            Some(i) => Some(i),
            None => if probes.last() is OurDaemon {
                Some(probes.len() - 1)
            } else {
                None
            },
        }
    }
}

/// The first port that is free.
pub open spec fn first_free(probes: Seq<ProbeResult>) -> Option<int>
    decreases probes.len(),
{
    if probes.len() == 0 {
        None
    } else {
        match first_free(probes.drop_last()) {
            Some(i) => Some(i),
            None => if probes.last() is Refused {
                Some(probes.len() - 1)
            } else {
                None
            },
        }
    }
}

/// Whether `outcome` is what comes of asking at `ports` and getting `probes`.
pub open spec fn is_outcome_of(
    outcome: ScanOutcome,
    ports: Seq<u16>,
    probes: Seq<ProbeResult>,
) -> bool {
    match first_daemon(probes) {
        Some(i) => outcome matches ScanOutcome::Found(b) && *b == *probes[i]->OurDaemon_0,
        None => match first_free(probes) {
            Some(i) => outcome == ScanOutcome::FreePort(ports[i]),
            None => outcome == ScanOutcome::AllOccupied,
        },
    }
}

/// Asking at one port after the other.
pub struct DaemonScan {
    scan: PortScan,
    asked: usize,
    found: Option<Box<DaemonInfo>>,
    free: Option<u16>,
    probes: Ghost<Seq<ProbeResult>>,
}

impl DaemonScan {
    /// The ports that are asked.
    pub closed spec fn ports(self) -> PortScan {
        self.scan
    }

    /// What the ports answered so far.
    pub closed spec fn probes(self) -> Seq<ProbeResult> {
        self.probes@
    }

    /// What holds at every point of the scan.
    pub closed spec fn wf(self) -> bool {
        &&& self.asked == self.probes@.len()
        &&& self.asked <= self.scan.count()
        &&& match first_daemon(self.probes@) {
            Some(i) => self.found matches Some(b) && 0 <= i < self.probes@.len()
                && self.probes@[i] is OurDaemon && *b == *self.probes@[i]->OurDaemon_0,
            None => self.found is None,
        }
        &&& match first_free(self.probes@) {
            Some(i) => 0 <= i < self.probes@.len() && self.free == Some(self.scan.ports()[i]),
            None => self.free is None,
        }
    }

    /// A scan of `scan` that has not asked anywhere yet.
    pub fn new(scan: PortScan) -> (r: DaemonScan)
        ensures
            r.wf(),
            r.ports() == scan,
            r.probes() == Seq::<ProbeResult>::empty(),
    {
        DaemonScan { scan, asked: 0, found: None, free: None, probes: Ghost(Seq::empty()) }
    }

    /// The port to ask next: none once a daemon answered or all ports were asked.
    pub fn next_port(&self) -> (r: Option<u16>)
        requires
            self.wf(),
        ensures
            match r {
                Some(port) => {
                    &&& first_daemon(self.probes()) is None
                    &&& self.probes().len() < self.ports().count()
                    &&& port == self.ports().ports()[self.probes().len() as int]
                },
                None => first_daemon(self.probes()) is Some || self.probes().len()
                    == self.ports().count(),
            },
    {
        if self.found.is_some() {
            return None;
        }
        self.scan.port_at(self.asked)
    }

    /// Takes down what the next port answered.
    pub fn observe(&mut self, probe: ProbeResult)
        requires
            old(self).wf(),
            old(self).probes().len() < old(self).ports().count(),
        ensures
            final(self).wf(),
            final(self).ports() == old(self).ports(),
            final(self).probes() == old(self).probes().push(probe),
    {
        let ghost before = self.probes@;
        assert(before.push(probe).drop_last() =~= before);
        let at: usize = self.asked;
        let port = self.scan.port_at(at);
        proof {
            self.probes = Ghost(before.push(probe));
        }
        match probe {
            ProbeResult::OurDaemon(info) => {
                if self.found.is_none() {
                    self.found = Some(info);
                }
            },
            ProbeResult::Refused => {
                if self.free.is_none() {
                    self.free = port;
                }
            },
            ProbeResult::Camped => {},
        }
        self.asked = at + 1;
    }

    /// What came of the scan.
    pub fn outcome(self) -> (r: ScanOutcome)
        requires
            self.wf(),
        ensures
            is_outcome_of(r, self.ports().ports(), self.probes()),
    {
        match self.found {
            Some(info) => ScanOutcome::Found(info),
            None => match self.free {
                Some(port) => ScanOutcome::FreePort(port),
                None => ScanOutcome::AllOccupied,
            },
        }
    }
}

/// What comes of asking at the ports of `scan`, where `probes` are their answers
/// in order.
pub fn scan_for_daemon(scan: PortScan, probes: Vec<ProbeResult>) -> (r: ScanOutcome)
    requires
        probes@.len() <= scan.count(),
    ensures
        is_outcome_of(r, scan.ports(), probes@),
{
    let mut state = DaemonScan::new(scan);
    let mut rest = probes;
    while rest.len() > 0
        invariant
            state.wf(),
            state.ports() == scan,
            probes@.len() <= scan.count(),
            state.probes() + rest@ == probes@,
        decreases rest@.len(),
    {
        let ghost before = state.probes();
        let ghost left = rest@;
        let probe = rest.remove(0);
        state.observe(probe);
        assert(state.probes() + rest@ =~= before + left);
    }
    assert(state.probes() =~= probes@);
    state.outcome()
}

/// The running daemon: the one that the discovery file names, where it is alive,
/// else one that answered at a port.
pub fn find_running_daemon(discovered: Option<DaemonInfo>, scanned: ScanOutcome) -> (r: Option<
    DaemonInfo,
>)
    ensures
        match discovered {
            Some(info) => r == Some(info),
            None => match scanned {
                ScanOutcome::Found(info) => r == Some(*info),
                _ => r is None,
            },
        },
{
    match discovered {
        Some(info) => Some(info),
        None => match scanned {
            ScanOutcome::Found(info) => Some(*info),
            _ => None,
        },
    }
}

/// The first daemon is a daemon, and nothing before it is.
pub proof fn law_first_daemon(probes: Seq<ProbeResult>)
    ensures
        match first_daemon(probes) {
            Some(i) => 0 <= i < probes.len() && probes[i] is OurDaemon && forall|j: int|
                0 <= j < i ==> !(#[trigger] probes[j] is OurDaemon),
            None => forall|j: int| 0 <= j < probes.len() ==> !(#[trigger] probes[j] is OurDaemon),
        },
    decreases probes.len(),
{
    if probes.len() > 0 {
        let t = probes.drop_last();
        law_first_daemon(t);
        assert forall|j: int| 0 <= j < t.len() implies t[j] == probes[j] by {}
    }
}

/// The first free port is free, and nothing before it is.
pub proof fn law_first_free(probes: Seq<ProbeResult>)
    ensures
        match first_free(probes) {
            Some(i) => 0 <= i < probes.len() && probes[i] is Refused && forall|j: int|
                0 <= j < i ==> !(#[trigger] probes[j] is Refused),
            None => forall|j: int| 0 <= j < probes.len() ==> !(#[trigger] probes[j] is Refused),
        },
    decreases probes.len(),
{
    if probes.len() > 0 {
        let t = probes.drop_last();
        law_first_free(t);
        assert forall|j: int| 0 <= j < t.len() implies t[j] == probes[j] by {}
    }
}

/// A running daemon anywhere in the range is preferred to starting a new one: a
/// free port is the outcome only where no port has a daemon.
pub proof fn law_daemon_before_free_port(
    outcome: ScanOutcome,
    ports: Seq<u16>,
    probes: Seq<ProbeResult>,
)
    requires
        is_outcome_of(outcome, ports, probes),
    ensures
        outcome is Found <==> exists|i: int| 0 <= i < probes.len() && #[trigger] probes[i]
            is OurDaemon,
        outcome is AllOccupied <==> forall|i: int|
            0 <= i < probes.len() ==> #[trigger] probes[i] is Camped,
{
    law_first_daemon(probes);
    law_first_free(probes);
    match first_daemon(probes) {
        Some(i) => {
            assert(probes[i] is OurDaemon);
        },
        None => {
            match first_free(probes) {
                Some(i) => {
                    assert(probes[i] is Refused);
                },
                None => {
                    assert forall|i: int| 0 <= i < probes.len() implies #[trigger] probes[i]
                        is Camped by {}
                },
            }
        },
    }
}

/// What a daemon answers behind the first one changes nothing: the scan may stop
/// there.
pub proof fn law_scan_may_stop(probes: Seq<ProbeResult>, more: Seq<ProbeResult>)
    requires
        first_daemon(probes) is Some,
    ensures
        first_daemon(probes + more) == first_daemon(probes),
    decreases more.len(),
{
    if more.len() > 0 {
        assert((probes + more).drop_last() =~= probes + more.drop_last());
        law_scan_may_stop(probes, more.drop_last());
    } else {
        assert(probes + more =~= probes);
    }
}

/// Every port of a scan lies in its range, and no port is asked twice.
pub proof fn law_ports_in_range(scan: PortScan, i: int, j: int)
    requires
        0 <= i < j < scan.count(),
    ensures
        scan.base <= scan.ports()[i] < scan.ports()[j] < scan.base + scan.span,
{
}

/// What is read of a record: nothing where there is no file, what failed where it cannot be
/// read or is no plain file, and otherwise the record, unless it is longer than allowed or
/// none. Whatever comes of it, it is told of the path that was read.
pub proof fn law_reading_a_record(
    read: RawDiscoveryRead,
    path: ReportedPath,
    source: DiscoverySource,
    limit: nat,
)
    requires
        is_read_of(read, path, source, limit),
    ensures
        source is NotFound <==> read == (RawDiscoveryRead::Missing { path }),
        source matches DiscoverySource::Failed { kind } ==> read == (RawDiscoveryRead::Unreadable {
            path,
            kind,
        }),
        source is NotRegular ==> (read matches RawDiscoveryRead::Unreadable { path: p, kind } && p
            == path && kind@ == "InvalidInput"@),
        source matches DiscoverySource::Content { length, record } ==> {
            &&& length > limit || record is None ==> read == (RawDiscoveryRead::Malformed { path })
            &&& length <= limit ==> (record matches Some(found) ==> read
                == (RawDiscoveryRead::Parsed { path, record: found }))
        },
        MAX_DISCOVERY_FILE_BYTES == 65536,
{
}

/// The directory of the daemon's files is the one that was configured, or `.hyperdb` below
/// the home directory: what HOME says, or USERPROFILE where HOME says nothing.
pub proof fn law_state_directories(
    path: Result<StatePath, StateDirError>,
    configured: Option<String>,
    home: Option<String>,
    user_profile: Option<String>,
    names: Seq<Seq<char>>,
)
    requires
        leads_below_state_dir(path, configured, home, user_profile, names),
    ensures
        configured matches Some(dir) ==> (path matches Ok(p) && p.base == dir && text::texts(
            p.names@,
        ) == names),
        configured is None ==> {
            &&& home matches Some(h) ==> (path matches Ok(p) && p.base == h && text::texts(p.names@)
                == seq![".hyperdb"@] + names)
            &&& home is None ==> (user_profile matches Some(u) ==> (path matches Ok(p) && p.base
                == u && text::texts(p.names@) == seq![".hyperdb"@] + names))
            &&& home is None && user_profile is None ==> path == Err::<StatePath, StateDirError>(
                StateDirError::NoHome,
            )
        },
        DISCOVERY_FILE_NAME@ == "daemon.json"@,
        DISCOVERY_TEMP_NAME@ == "daemon.json.tmp"@,
{
}

/// A record is written in three steps: its directory is made, the record is written beside
/// the file and the file is then replaced by it. Only the last step touches the file.
pub proof fn law_steps_of_a_write(files: StateFiles, record: Seq<char>)
    ensures
        write_steps() == seq![
            WriteStep::CreateStateDir,
            WriteStep::WriteTemp,
            WriteStep::RenameTemp,
        ],
        after_step(files, WriteStep::CreateStateDir, record) == files,
        after_step(files, WriteStep::WriteTemp, record).named == files.named,
        after_step(files, WriteStep::WriteTemp, record).temporary == Some(record),
        after_step(files, WriteStep::RenameTemp, record).named == files.temporary,
        after_step(files, WriteStep::RenameTemp, record).temporary is None,
{
}

/// The ports of a scan go up one by one from its base, as many as it spans, as far as there
/// are ports.
pub proof fn law_ports_of_a_scan(scan: PortScan, i: int)
    ensures
        scan.base + scan.span <= 65536 ==> scan.ports().len() == scan.span,
        scan.base + scan.span > 65536 ==> scan.ports().len() == 65536 - scan.base,
        0 <= i < scan.ports().len() ==> scan.ports()[i] == scan.base + i,
{
}

/// A port that was configured is scanned alone; what is no port is passed over.
pub proof fn law_configured_port(value: Seq<char>, default: PortScan)
    ensures
        port_scan_of(None, default) == default,
        text::unsigned_value(value) matches Some(port) ==> port <= 65535 ==> port_scan_of(
            Some(value),
            default,
        ) == (PortScan { base: port as u16, span: 1 }),
        text::unsigned_value(value) is None || text::unsigned_value(value)->0 > 65535
            ==> port_scan_of(Some(value), default) == default,
{
}

/// What comes of a scan is the first daemon that answered, or else the first port that
/// refused, or else that all ports are taken.
pub proof fn law_outcome_of_a_scan(
    outcome: ScanOutcome,
    ports: Seq<u16>,
    probes: Seq<ProbeResult>,
    i: int,
)
    requires
        is_outcome_of(outcome, ports, probes),
        0 <= i < probes.len(),
    ensures
        (probes[i] matches ProbeResult::OurDaemon(info) && (forall|j: int|
            0 <= j < i ==> !(#[trigger] probes[j] is OurDaemon))) ==> (outcome matches ScanOutcome::Found(
            found,
        ) && *found == *probes[i]->OurDaemon_0),
        (forall|j: int| 0 <= j < probes.len() ==> !(#[trigger] probes[j] is OurDaemon))
            && probes[i] is Refused && (forall|j: int|
            0 <= j < i ==> !(#[trigger] probes[j] is Refused)) ==> outcome == ScanOutcome::FreePort(
            ports[i],
        ),
{
    law_first_daemon(probes);
    law_first_free(probes);
}

} // verus!
