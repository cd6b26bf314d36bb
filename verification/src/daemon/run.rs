//! The daemon's main loop: it starts the database process, watches over it, and stops
//! when it is asked to, when nobody uses it, or when the process does not stay up.

use vstd::prelude::*;

use crate::daemon::discovery::DaemonInfo;
use crate::daemon::health::DaemonState;
use crate::text;

verus! {

/// How the daemon is run.
#[derive(Debug)]
pub struct DaemonConfig {
    /// The port at which it answers.
    pub port: u16,
    /// After how many seconds without activity it stops, where it does.
    pub idle_timeout: Option<u64>,
}

/// After how many seconds without activity the daemon stops: the argument decides,
/// then the environment, where its value is a number.
pub open spec fn idle_timeout_of(argument: Option<u64>, env_value: Option<Seq<char>>) -> Option<u64> {
    match argument {
        Some(secs) => Some(secs),
        None => match env_value {
            Some(v) => match text::bounded_value(v, u64::MAX as nat) {
                Some(secs) => Some(secs as u64),
                None => None,
            },
            None => None,
        },
    }
}

impl DaemonConfig {
    /// How the daemon is run, where `env_value` is the value of
    /// `HYPERDB_DAEMON_IDLE_TIMEOUT`.
    pub fn from_args(port: u16, idle_timeout_secs: Option<u64>, env_value: Option<&str>) -> (r:
        DaemonConfig)
        ensures
            r.port == port,
            r.idle_timeout == idle_timeout_of(
                idle_timeout_secs,
                match env_value {
                    Some(v) => Some(v@),
                    None => None,
                },
            ),
    {
        let idle_timeout = match idle_timeout_secs {
            Some(secs) => Some(secs),
            None => match env_value {
                Some(v) => text::parse_unsigned(v, u64::MAX),
                None => None,
            },
        };
        DaemonConfig { port, idle_timeout }
    }
}

/// For how many milliseconds a restart counts.
pub const RESTART_WINDOW: u64 = 60000;

/// How many restarts there may be in that time.
pub const RESTART_LIMIT: usize = 3;

/// How many milliseconds pass between two looks at the database process.
pub const HYPERD_POLL_INTERVAL: u64 = 5000;

/// How many milliseconds pass between two looks at the activity.
pub const IDLE_POLL_INTERVAL: u64 = 10000;

/// Whether a restart may be tried.
#[derive(Debug, Clone, Copy, PartialEq, Eq, Structural)]
pub enum RestartAttempt {
    /// It may, and it counts.
    Recorded,
    /// There were too many already.
    LimitExceeded,
}

/// Whether a restart at `t` still counts at `now`.
pub open spec fn counts(t: u64, now: u64) -> bool {
    now - t < RESTART_WINDOW
}

/// The restarts that still count at `now`, in order.
pub open spec fn recent(history: Seq<u64>, now: u64) -> Seq<u64>
    decreases history.len(),
{
    if history.len() == 0 {
        Seq::empty()
    } else if counts(history.last(), now) {
        recent(history.drop_last(), now).push(history.last())
    } else {
        recent(history.drop_last(), now)
    }
}

/// The restarts that are remembered after one was tried at `now`.
pub open spec fn history_after(history: Seq<u64>, now: u64) -> Seq<u64> {
    let left = recent(history, now);
    if left.len() >= RESTART_LIMIT {
        left
    } else {
        left.push(now)
    }
}

/// Forgets the restarts that do not count any more, and records one at `now`, unless
/// there were too many already.
pub fn try_record_restart_attempt(history: &mut Vec<u64>, now: u64) -> (r: RestartAttempt)
    ensures
        final(history)@ == history_after(old(history)@, now),
        r == RestartAttempt::LimitExceeded <==> recent(old(history)@, now).len() >= RESTART_LIMIT,
{
    let mut kept: Vec<u64> = Vec::new();
    let mut i: usize = 0;
    while i < history.len()
        invariant
            i <= history@.len(),
            kept@ == recent(history@.take(i as int), now),
            *history == *old(history),
        decreases history@.len() - i,
    {
        proof {
            assert(history@.take(i + 1).drop_last() =~= history@.take(i as int));
        }
        if history[i] >= now || now - history[i] < RESTART_WINDOW {
            kept.push(history[i]);
        }
        i = i + 1;
    }
    assert(history@.take(history@.len() as int) =~= history@);
    if kept.len() >= RESTART_LIMIT {
        *history = kept;
        return RestartAttempt::LimitExceeded;
    }
    kept.push(now);
    *history = kept;
    RestartAttempt::Recorded
}

/// The restarts that are remembered once restarts were tried at `times`.
pub open spec fn history_of(times: Seq<u64>) -> Seq<u64>
    decreases times.len(),
{
    if times.len() == 0 {
        Seq::empty()
    } else {
        history_after(history_of(times.drop_last()), times.last())
    }
}

/// The restarts that were recorded when restarts were tried at `times`, in order.
pub open spec fn recorded(times: Seq<u64>) -> Seq<u64>
    decreases times.len(),
{
    if times.len() == 0 {
        Seq::empty()
    } else {
        let before = recorded(times.drop_last());
        if recent(history_of(times.drop_last()), times.last()).len() >= RESTART_LIMIT {
            before
        } else {
            before.push(times.last())
        }
    }
}

/// Whether times never run backwards.
pub open spec fn in_order(times: Seq<u64>) -> bool {
    forall|i: int, j: int| 0 <= i <= j < times.len() ==> times[i] <= times[j]
}

proof fn lemma_recent_twice(history: Seq<u64>, earlier: u64, now: u64)
    requires
        earlier <= now,
    ensures
        recent(recent(history, earlier), now) == recent(history, now),
    decreases history.len(),
{
    if history.len() > 0 {
        let rest = history.drop_last();
        lemma_recent_twice(rest, earlier, now);
        if counts(history.last(), earlier) {
            let kept = recent(rest, earlier);
            assert(kept.push(history.last()).drop_last() =~= kept);
        }
    }
}

/// What is remembered is what was recorded and still counts.
proof fn lemma_history(times: Seq<u64>)
    requires
        in_order(times),
        times.len() > 0,
    ensures
        history_of(times) == recent(recorded(times), times.last()),
        in_order(recorded(times)),
        forall|i: int| 0 <= i < recorded(times).len() ==> #[trigger] recorded(times)[i]
            <= times.last(),
    decreases times.len(),
{
    let now = times.last();
    let rest = times.drop_last();
    let before = recorded(rest);
    let history = history_of(rest);
    if rest.len() > 0 {
        lemma_history(rest);
        assert(rest.last() <= now);
        lemma_recent_twice(before, rest.last(), now);
    }
    assert(recent(history, now) == recent(before, now));
    if recent(history, now).len() >= RESTART_LIMIT {
    } else {
        assert(before.push(now).drop_last() =~= before);
        assert(recent(before.push(now), now) == recent(before, now).push(now));
    }
}

proof fn lemma_recent_tail(history: Seq<u64>, now: u64, from: int)
    requires
        in_order(history),
        0 <= from < history.len(),
        counts(history[from], now),
    ensures
        recent(history, now).len() >= history.len() - from,
    decreases history.len(),
{
    assert(history[from] <= history.last());
    if from < history.len() - 1 {
        lemma_recent_tail(history.drop_last(), now, from);
    }
}

/// However often restarts are tried, no four of those that are recorded begin within
/// the time in which one counts.
pub proof fn law_restarts_are_rare(times: Seq<u64>, i: int)
    requires
        in_order(times),
        0 <= i,
        i + RESTART_LIMIT < recorded(times).len(),
    ensures
        recorded(times)[i + RESTART_LIMIT as int] - recorded(times)[i] >= RESTART_WINDOW,
    decreases times.len(),
{
    let now = times.last();
    let rest = times.drop_last();
    let before = recorded(rest);
    lemma_history(times);
    if rest.len() > 0 {
        lemma_history(rest);
        lemma_recent_twice(before, rest.last(), now);
    }
    if i + RESTART_LIMIT < before.len() {
        law_restarts_are_rare(rest, i);
    } else {
        assert(recent(before, now).len() < RESTART_LIMIT);
        if counts(before[i], now) {
            lemma_recent_tail(before, now, i);
        }
    }
}

/// A restart is refused only while the limit is reached: where nothing was tried for
/// long enough, it may be tried.
pub proof fn law_restart_after_a_pause(history: Seq<u64>, now: u64)
    requires
        forall|i: int| 0 <= i < history.len() ==> now - #[trigger] history[i] >= RESTART_WINDOW,
    ensures
        history_after(history, now) == seq![now],
{
    lemma_none_recent(history, now);
    assert(Seq::<u64>::empty().push(now) =~= seq![now]);
}

proof fn lemma_none_recent(history: Seq<u64>, now: u64)
    requires
        forall|i: int| 0 <= i < history.len() ==> now - #[trigger] history[i] >= RESTART_WINDOW,
    ensures
        recent(history, now) == Seq::<u64>::empty(),
    decreases history.len(),
{
    if history.len() > 0 {
        assert forall|i: int| 0 <= i < history.drop_last().len() implies now
            - #[trigger] history.drop_last()[i] >= RESTART_WINDOW by {
            assert(history.drop_last()[i] == history[i]);
        }
        lemma_none_recent(history.drop_last(), now);
        assert(now - history[history.len() - 1] >= RESTART_WINDOW);
    }
}

/// Whether the daemon stops at a look at the activity: it was asked to, or nobody was
/// active for long enough.
pub fn idle_monitor(state: &DaemonState, now: u64, idle_timeout_secs: u64) -> (r: bool)
    ensures
        r == (state.shutdown || (now - state.last_activity >= 1000 * idle_timeout_secs
            || idle_timeout_secs == 0)),
{
    let idle = state.idle_duration(now);
    state.should_shutdown() || idle / 1000 >= idle_timeout_secs
}

/// What is to be done at a look at the database process.
#[derive(Debug, Clone, Copy, PartialEq, Eq, Structural)]
pub enum MonitorStep {
    /// The daemon is stopping: look no more.
    Stop,
    /// Nothing.
    Wait,
    /// Restart the process.
    Restart,
}

/// What is to be done at a look at the database process, and what becomes of a
/// client's report: it is used up, unless the daemon is stopping.
pub fn hyperd_monitor(state: &mut DaemonState, process_dead: bool) -> (r: MonitorStep)
    ensures
        r == (if old(state).shutdown {
            MonitorStep::Stop
        } else if process_dead || old(state).restart_requested {
            MonitorStep::Restart
        } else {
            MonitorStep::Wait
        }),
        *final(state) == (if old(state).shutdown {
            *old(state)
        } else {
            DaemonState { restart_requested: false, ..*old(state) }
        }),
{
    if state.should_shutdown() {
        return MonitorStep::Stop;
    }
    let requested = state.consume_restart_request();
    if process_dead || requested {
        MonitorStep::Restart
    } else {
        MonitorStep::Wait
    }
}

/// Why the database process was not restarted.
#[derive(Debug)]
pub enum RestartError {
    /// There were too many restarts already.
    TooManyRestarts,
    /// The process could not be started, or its place not be told.
    SpawnFailed(String),
}

/// What follows a restart: with too many the daemon stops; reports that came in while
/// a restart went well spoke of the old process and are used up.
pub fn after_restart(state: &mut DaemonState, outcome: &Result<String, RestartError>) -> (r:
    MonitorStep)
    ensures
        r == (if outcome is Err && outcome->Err_0 is TooManyRestarts {
            MonitorStep::Stop
        } else {
            MonitorStep::Wait
        }),
        *final(state) == (if outcome is Ok {
            DaemonState { restart_requested: false, ..*old(state) }
        } else {
            *old(state)
        }),
{
    match outcome {
        Ok(_) => {
            let _requested = state.consume_restart_request();
            MonitorStep::Wait
        },
        Err(RestartError::TooManyRestarts) => MonitorStep::Stop,
        Err(RestartError::SpawnFailed(_)) => MonitorStep::Wait,
    }
}

/// Whether a restart may be tried at `now`: each one counts, however it ends.
pub fn begin_restart(history: &mut Vec<u64>, now: u64) -> (r: Result<(), RestartError>)
    ensures
        final(history)@ == history_after(old(history)@, now),
        if recent(old(history)@, now).len() >= RESTART_LIMIT {
            r == Err::<(), RestartError>(RestartError::TooManyRestarts)
        } else {
            r is Ok
        },
{
    match try_record_restart_attempt(history, now) {
        RestartAttempt::LimitExceeded => Err(RestartError::TooManyRestarts),
        RestartAttempt::Recorded => Ok(()),
    }
}

/// Where the new process answers, where it was started and says so; `info` then tells
/// it.
pub fn restarted(info: &mut DaemonInfo, outcome: Result<Option<String>, String>) -> (r: Result<
    String,
    RestartError,
>)
    ensures
        match outcome {
            Ok(Some(endpoint)) => {
                &&& r == Ok::<String, RestartError>(endpoint)
                &&& *final(info) == (DaemonInfo { hyperd_endpoint: endpoint, ..*old(info) })
            },
            Ok(None) => {
                &&& r matches Err(RestartError::SpawnFailed(m))
                &&& m@ == "hyperd did not report endpoint"@
                &&& *final(info) == *old(info)
            },
            Err(reason) => {
                &&& r == Err::<String, RestartError>(RestartError::SpawnFailed(reason))
                &&& *final(info) == *old(info)
            },
        },
{
    match outcome {
        Ok(Some(endpoint)) => {
            info.hyperd_endpoint = endpoint.clone();
            Ok(endpoint)
        },
        Ok(None) => Err(RestartError::SpawnFailed("hyperd did not report endpoint".to_owned())),
        Err(reason) => Err(RestartError::SpawnFailed(reason)),
    }
}

/// What comes of a restart once the discovery file was written, or was not.
pub fn published(endpoint: String, outcome: Result<(), String>) -> (r: Result<String, RestartError>)
    ensures
        match outcome {
            Ok(_) => r == Ok::<String, RestartError>(endpoint),
            Err(reason) => r matches Err(RestartError::SpawnFailed(m)) && m@
                == "discovery write: "@ + reason@,
        },
{
    match outcome {
        Ok(_) => Ok(endpoint),
        Err(reason) => Err(
            RestartError::SpawnFailed(text::cat2("discovery write: ", reason.as_str())),
        ),
    }
}

/// Why a port could not be taken.
#[derive(Debug)]
pub struct BindFailure {
    /// Whether somebody else has it.
    pub in_use: bool,
    /// The words of the failure.
    pub reason: String,
}

/// How far the daemon is.
#[derive(Debug)]
pub enum DaemonPhase {
    /// The health port is to be taken: no two daemons can have it.
    Bind,
    /// The database process is to be started.
    StartProcess {
        /// The port that was taken.
        port: u16,
    },
    /// The discovery file is to be written.
    Announce(DaemonInfo),
    /// The daemon serves its clients.
    Serve(DaemonInfo),
    /// The discovery file is to be removed.
    Withdraw,
    /// The daemon is done.
    Stopped,
    /// The daemon did not come up.
    Failed(String),
}

/// What the daemon tells of itself beside its port and its process.
#[derive(Debug)]
pub struct DaemonSelf {
    /// Its process ID.
    pub pid: u32,
    /// When it was started.
    pub started_at: String,
    /// Its version.
    pub version: String,
}

/// The words for a port that was not taken.
pub open spec fn bind_words(port: u16, failure: BindFailure) -> Seq<char> {
    if failure.in_use {
        "Another hyperdb daemon is already running on port "@ + text::decimal(port as nat)
            + ". Use `hyperdb-mcp daemon status` to check or `hyperdb-mcp daemon stop` to stop it."@
    } else {
        "Failed to bind health port "@ + text::decimal(port as nat) + ": "@ + failure.reason@
    }
}

impl DaemonPhase {
    /// The phase once the health port was taken, or was not.
    pub fn bound(config: &DaemonConfig, outcome: Result<u16, BindFailure>) -> (r: DaemonPhase)
        ensures
            match outcome {
                Ok(port) => r == (DaemonPhase::StartProcess { port }),
                Err(failure) => r matches DaemonPhase::Failed(m) && m@ == bind_words(
                    config.port,
                    failure,
                ),
            },
    {
        match outcome {
            Ok(port) => DaemonPhase::StartProcess { port },
            Err(failure) => {
                let port = text::decimal_text(config.port as u64);
                if failure.in_use {
                    DaemonPhase::Failed(
                        text::cat3(
                            "Another hyperdb daemon is already running on port ",
                            port.as_str(),
                            ". Use `hyperdb-mcp daemon status` to check or `hyperdb-mcp daemon stop` to stop it.",
                        ),
                    )
                } else {
                    DaemonPhase::Failed(
                        text::cat4(
                            "Failed to bind health port ",
                            port.as_str(),
                            ": ",
                            failure.reason.as_str(),
                        ),
                    )
                }
            },
        }
    }

    /// The phase once the database process was started, or was not: it must say where
    /// it answers.
    pub fn started(port: u16, me: DaemonSelf, outcome: Result<Option<String>, String>) -> (r:
        DaemonPhase)
        ensures
            match outcome {
                Ok(Some(endpoint)) => r == DaemonPhase::Announce(
                    DaemonInfo {
                        pid: me.pid,
                        hyperd_endpoint: endpoint,
                        health_port: port,
                        started_at: me.started_at,
                        version: me.version,
                    },
                ),
                Ok(None) => r matches DaemonPhase::Failed(m) && m@
                    == "hyperd did not report an endpoint"@,
                Err(reason) => r == DaemonPhase::Failed(reason),
            },
    {
        match outcome {
            Ok(Some(endpoint)) => DaemonPhase::Announce(
                DaemonInfo {
                    pid: me.pid,
                    hyperd_endpoint: endpoint,
                    health_port: port,
                    started_at: me.started_at,
                    version: me.version,
                },
            ),
            Ok(None) => DaemonPhase::Failed("hyperd did not report an endpoint".to_owned()),
            Err(reason) => DaemonPhase::Failed(reason),
        }
    }

    /// The phase that follows once what this phase asks for was done, or failed. The
    /// daemon serves until something stops it, and then withdraws.
    pub fn next(self, outcome: Result<(), String>) -> (r: DaemonPhase)
        ensures
            r == (match self {
                DaemonPhase::Announce(info) => match outcome {
                    Ok(_) => DaemonPhase::Serve(info),
                    Err(reason) => DaemonPhase::Failed(reason),
                },
                DaemonPhase::Serve(_) => DaemonPhase::Withdraw,
                DaemonPhase::Withdraw => DaemonPhase::Stopped,
                other => other,
            }),
    {
        match self {
            DaemonPhase::Announce(info) => match outcome {
                Ok(_) => DaemonPhase::Serve(info),
                Err(reason) => DaemonPhase::Failed(reason),
            },
            DaemonPhase::Serve(_) => DaemonPhase::Withdraw,
            DaemonPhase::Withdraw => DaemonPhase::Stopped,
            other => other,
        }
    }
}

/// The time after which an idle daemon ends is the one that was asked for, or else what the
/// environment says, where that is a number; otherwise it never ends for that.
pub proof fn law_idle_timeouts(secs: u64, env_value: Option<Seq<char>>, value: Seq<char>)
    ensures
        idle_timeout_of(Some(secs), env_value) == Some(secs),
        idle_timeout_of(None, None) is None,
        text::unsigned_value(value) matches Some(n) ==> n <= u64::MAX ==> idle_timeout_of(
            None,
            Some(value),
        ) == Some(n as u64),
        text::unsigned_value(value) is None || text::unsigned_value(value)->0 > u64::MAX
            ==> idle_timeout_of(None, Some(value)) is None,
{
}

/// A restart counts for less than sixty seconds; those that still count stay, in order, and
/// a new one is noted only where fewer than three count.
pub proof fn law_restarts_that_count(a: Seq<u64>, t: u64, b: Seq<u64>, now: u64)
    ensures
        recent(Seq::empty(), now) == Seq::<u64>::empty(),
        recent(a + seq![t] + b, now) == recent(a, now) + (if now - t < 60000 {
            seq![t]
        } else {
            Seq::empty()
        }) + recent(b, now),
        recent(a, now).len() >= 3 ==> history_after(a, now) == recent(a, now),
        recent(a, now).len() < 3 ==> history_after(a, now) == recent(a, now).push(now),
        RESTART_LIMIT == 3,
        HYPERD_POLL_INTERVAL == 5000,
        IDLE_POLL_INTERVAL == 10000,
    decreases b.len(),
{
    let all = a + seq![t] + b;
    let own = if now - t < 60000 {
        seq![t]
    } else {
        Seq::<u64>::empty()
    };
    if b.len() == 0 {
        assert(all.drop_last() =~= a);
        assert(all.last() == t);
        assert(recent(all, now) =~= recent(a, now) + own + recent(b, now));
    } else {
        law_restarts_that_count(a, t, b.drop_last(), now);
        assert(all.drop_last() =~= a + seq![t] + b.drop_last());
        assert(all.last() == b.last());
        assert(recent(all, now) =~= recent(a, now) + own + recent(b, now));
    }
}

/// The words for a port that could not be had: that another daemon has it, or why not.
pub proof fn law_bind_words(port: u16, failure: BindFailure)
    ensures
        failure.in_use ==> bind_words(port, failure)
            == "Another hyperdb daemon is already running on port "@ + text::decimal(port as nat)
            + ". Use `hyperdb-mcp daemon status` to check or `hyperdb-mcp daemon stop` to stop it."@,
        !failure.in_use ==> bind_words(port, failure) == "Failed to bind health port "@
            + text::decimal(port as nat) + ": "@ + failure.reason@,
{
}

} // verus!
