//! The daemon's health port: one-line commands, one-line answers.
//!
//! - `PING` is answered `PONG hyperdb-mcp <version>`
//! - `HEARTBEAT` is answered `OK` and counts as activity
//! - `STOP` is answered `STOPPING` and stops the daemon
//! - `STATUS` is answered with what the daemon tells of itself
//! - `REPORT_HYPERD_ERROR` is answered `OK` and asks for a restart of the
//!   database process

use vstd::prelude::*;

use crate::text;

verus! {

/// The word by which a daemon of this program is told from anything else that may
/// answer at its port.
pub const PONG_TOKEN: &'static str = "hyperdb-mcp";

/// The longest answer that is read, in bytes.
pub const MAX_HEALTH_RESPONSE_BYTES: usize = 65536;

/// What the health port and the daemon's main loop share. Times are milliseconds
/// of a clock that does not run backwards.
#[derive(Debug)]
pub struct DaemonState {
    /// When a client was last active.
    pub last_activity: u64,
    /// Whether the daemon is to stop.
    pub shutdown: bool,
    /// Whether a client said that the database process is gone.
    pub restart_requested: bool,
}

impl DaemonState {
    /// The state of a daemon that starts at `now`.
    pub fn new(now: u64) -> (r: DaemonState)
        ensures
            r == (DaemonState { last_activity: now, shutdown: false, restart_requested: false }),
    {
        DaemonState { last_activity: now, shutdown: false, restart_requested: false }
    }

    /// Records activity.
    pub fn touch(&mut self, now: u64)
        ensures
            *final(self) == (DaemonState { last_activity: now, ..*old(self) }),
    {
        self.last_activity = now;
    }

    /// How long nobody has been active.
    pub fn idle_duration(&self, now: u64) -> (r: u64)
        ensures
            r == (if now >= self.last_activity {
                now - self.last_activity
            } else {
                0
            }),
    {
        if now >= self.last_activity {
            now - self.last_activity
        } else {
            0
        }
    }

    /// Asks the daemon to stop.
    pub fn request_shutdown(&mut self)
        ensures
            *final(self) == (DaemonState { shutdown: true, ..*old(self) }),
    {
        self.shutdown = true;
    }

    /// Whether the daemon is to stop.
    pub fn should_shutdown(&self) -> (r: bool)
        ensures
            r == self.shutdown,
    {
        self.shutdown
    }

    /// Says that the database process seems to be gone.
    pub fn request_restart(&mut self)
        ensures
            *final(self) == (DaemonState { restart_requested: true, ..*old(self) }),
    {
        self.restart_requested = true;
    }

    /// Whether a restart was asked for since the last call.
    pub fn consume_restart_request(&mut self) -> (r: bool)
        ensures
            r == old(self).restart_requested,
            *final(self) == (DaemonState { restart_requested: false, ..*old(self) }),
    {
        let requested = self.restart_requested;
        self.restart_requested = false;
        requested
    }
}

/// The answer to `PING` of a daemon of version `version`.
pub open spec fn pong(version: Seq<char>) -> Seq<char> {
    "PONG "@ + PONG_TOKEN@ + " "@ + version + "\n"@
}

/// The answer to `PING` of a daemon of version `version`.
pub fn pong_response(version: &str) -> (r: String)
    ensures
        r@ == pong(version@),
{
    text::cat5("PONG ", PONG_TOKEN, " ", version, "\n")
}

/// The answer to `command`, where the daemon is of version `version` and tells
/// `status` of itself.
pub open spec fn answer(command: Seq<char>, version: Seq<char>, status: Seq<char>) -> Seq<char> {
    if command == "PING"@ {
        pong(version)
    } else if command == "HEARTBEAT"@ {
        "OK\n"@
    } else if command == "STOP"@ {
        "STOPPING\n"@
    } else if command == "STATUS"@ {
        status + "\n"@
    } else if command == "REPORT_HYPERD_ERROR"@ {
        "OK\n"@
    } else {
        "ERR unknown command\n"@
    }
}

/// The state of the daemon after `command` came at `now`.
pub open spec fn state_after(state: DaemonState, command: Seq<char>, now: u64) -> DaemonState {
    if command == "HEARTBEAT"@ {
        DaemonState { last_activity: now, ..state }
    } else if command == "STOP"@ {
        DaemonState { shutdown: true, ..state }
    } else if command == "REPORT_HYPERD_ERROR"@ {
        DaemonState { restart_requested: true, ..state }
    } else {
        state
    }
}

proof fn lemma_commands_differ()
    ensures
        "PING"@ != "HEARTBEAT"@,
        "PING"@ != "STOP"@,
        "PING"@ != "STATUS"@,
        "PING"@ != "REPORT_HYPERD_ERROR"@,
        "HEARTBEAT"@ != "STOP"@,
        "HEARTBEAT"@ != "STATUS"@,
        "HEARTBEAT"@ != "REPORT_HYPERD_ERROR"@,
        "STOP"@ != "STATUS"@,
        "STOP"@ != "REPORT_HYPERD_ERROR"@,
        "STATUS"@ != "REPORT_HYPERD_ERROR"@,
{
    reveal_strlit("PING");
    reveal_strlit("HEARTBEAT");
    reveal_strlit("STOP");
    reveal_strlit("STATUS");
    reveal_strlit("REPORT_HYPERD_ERROR");
    assert("PING"@.len() == 4 && "STOP"@.len() == 4 && "PING"@[0] != "STOP"@[0]);
    assert("HEARTBEAT"@.len() == 9 && "STATUS"@.len() == 6 && "REPORT_HYPERD_ERROR"@.len() == 19);
}

/// Answers one line that came at `now`.
pub fn handle_line(
    state: &mut DaemonState,
    line: &str,
    now: u64,
    version: &str,
    status: &str,
) -> (r: String)
    ensures
        r@ == answer(text::trimmed(line@), version@, status@),
        *final(state) == state_after(*old(state), text::trimmed(line@), now),
{
    proof {
        lemma_commands_differ();
    }
    let trimmed = text::trim(line);
    let command = trimmed.as_str();
    if text::same_text(command, "PING") {
        pong_response(version)
    } else if text::same_text(command, "HEARTBEAT") {
        state.touch(now);
        "OK\n".to_owned()
    } else if text::same_text(command, "STOP") {
        state.request_shutdown();
        "STOPPING\n".to_owned()
    } else if text::same_text(command, "STATUS") {
        text::cat2(status, "\n")
    } else if text::same_text(command, "REPORT_HYPERD_ERROR") {
        state.request_restart();
        "OK\n".to_owned()
    } else {
        "ERR unknown command\n".to_owned()
    }
}

/// Whether the first two words of `response` are those of this program's daemon.
pub open spec fn is_pong(response: Seq<char>) -> bool {
    let w = text::words(response);
    w.len() >= 2 && w[0] == "PONG"@ && w[1] == PONG_TOKEN@
}

/// Whether the first two words of `response` are those of this program's daemon.
pub fn is_identified_pong(response: &str) -> (r: bool)
    ensures
        r == is_pong(response@),
{
    let w = text::split_words(response);
    assert(text::texts(w@).len() == w@.len());
    if w.len() < 2 {
        return false;
    }
    assert(text::texts(w@)[0] == w@[0]@);
    assert(text::texts(w@)[1] == w@[1]@);
    text::same_text(w[0].as_str(), "PONG") && text::same_text(w[1].as_str(), PONG_TOKEN)
}

/// The version of the daemon that answered `response` to `PING`: empty where it
/// did not tell, none where it is no daemon of this program.
pub open spec fn ponged_version(response: Seq<char>) -> Option<Seq<char>> {
    if is_pong(response) {
        if text::words(response).len() > 2 {
            Some(text::words(response)[2])
        } else {
            Some(Seq::empty())
        }
    } else {
        None
    }
}

/// The version of the daemon that answered `PING`; none where nothing answered or
/// what answered is no daemon of this program.
pub fn ping_identified(response: Option<&str>) -> (r: Option<String>)
    ensures
        text::opt_text(r) == (match response {
            Some(t) => ponged_version(t@),
            None => None,
        }),
{
    let response = match response {
        Some(t) => t,
        None => {
            return None;
        },
    };
    if !is_identified_pong(response) {
        return None;
    }
    let w = text::split_words(response);
    assert(text::texts(w@).len() == w@.len());
    if w.len() > 2 {
        assert(text::texts(w@)[2] == w@[2]@);
        Some(w[2].clone())
    } else {
        Some(String::new())
    }
}

/// A command to send, and how long it may take. Times are milliseconds.
#[derive(Debug)]
pub struct CommandRequest {
    /// The port to send it to.
    pub port: u16,
    /// The command as it is sent, with the end of its line.
    pub message: String,
    /// How long connecting may take.
    pub connect_timeout: u64,
    /// How long sending and receiving may take together.
    pub io_timeout: u64,
}

impl CommandRequest {
    /// Whether this sends `command` to `port` within these times.
    pub open spec fn sends(
        self,
        port: u16,
        command: Seq<char>,
        connect_timeout: u64,
        io_timeout: u64,
    ) -> bool {
        &&& self.port == port
        &&& self.message@ == command + "\n"@
        &&& self.connect_timeout == connect_timeout
        &&& self.io_timeout == io_timeout
    }
}

/// The request that sends `command` within the given times.
pub fn send_command_with_timeout(
    port: u16,
    command: &str,
    connect_timeout: u64,
    io_timeout: u64,
) -> (r: CommandRequest)
    ensures
        r.sends(port, command@, connect_timeout, io_timeout),
{
    CommandRequest { port, message: text::cat2(command, "\n"), connect_timeout, io_timeout }
}

/// The request that sends `command` with the patience of a caller who waits for
/// the answer.
pub fn send_command(port: u16, command: &str) -> (r: CommandRequest)
    ensures
        r.sends(port, command@, 2000, 5000),
{
    send_command_with_timeout(port, command, 2000, 5000)
}

/// The request that tells the daemon that the database process seems to be gone,
/// with little patience: the answer does not matter.
pub fn report_hyperd_error_to_daemon(health_port: u16) -> (r: CommandRequest)
    ensures
        r.sends(health_port, "REPORT_HYPERD_ERROR"@, 200, 200),
{
    send_command_with_timeout(health_port, "REPORT_HYPERD_ERROR", 200, 200)
}

/// Why a command did not get its answer.
#[derive(Debug, Clone, Copy, PartialEq, Eq, Structural)]
pub enum ExchangeErrorKind {
    /// The timeout is too long to be added to the present time.
    InvalidInput,
    /// It took too long.
    TimedOut,
    /// The other side stopped accepting the command.
    WriteZero,
    /// The answer is too long, or is no text.
    InvalidData,
    /// Sending or receiving failed otherwise.
    Io,
}

/// Why a command did not get its answer, in words.
#[derive(Debug)]
pub struct ExchangeError {
    /// The kind of failure.
    pub kind: ExchangeErrorKind,
    /// The failure in words.
    pub message: String,
}

impl ExchangeError {
    /// Whether this is the failure of `kind` in the words `message`.
    pub open spec fn says(self, kind: ExchangeErrorKind, message: Seq<char>) -> bool {
        self.kind == kind && self.message@ == message
    }
}

fn failure(kind: ExchangeErrorKind, message: &str) -> (r: ExchangeError)
    ensures
        r.says(kind, message@),
{
    ExchangeError { kind, message: message.to_owned() }
}

/// When the exchange that begins at `now` is to be over.
pub fn io_deadline(now: u64, io_timeout: u64) -> (r: Result<u64, ExchangeError>)
    ensures
        match r {
            Ok(d) => d == now + io_timeout,
            Err(e) => now + io_timeout > u64::MAX && e.says(
                ExchangeErrorKind::InvalidInput,
                "health command I/O timeout overflows deadline"@,
            ),
        },
{
    match now.checked_add(io_timeout) {
        Some(d) => Ok(d),
        None => Err(
            failure(
                ExchangeErrorKind::InvalidInput,
                "health command I/O timeout overflows deadline",
            ),
        ),
    }
}

/// How much time is left at `now`.
pub fn remaining_io_time(deadline: u64, now: u64) -> (r: Result<u64, ExchangeError>)
    ensures
        match r {
            Ok(left) => now < deadline && left == deadline - now,
            Err(e) => now >= deadline && e.says(
                ExchangeErrorKind::TimedOut,
                "health command I/O deadline expired"@,
            ),
        },
{
    if now < deadline {
        Ok(deadline - now)
    } else {
        Err(failure(ExchangeErrorKind::TimedOut, "health command I/O deadline expired"))
    }
}

/// A failure of sending or receiving, as the operating system reports it.
#[derive(Debug)]
pub struct IoFailure {
    /// Whether it says that the operation took too long or would have to wait.
    pub timed_out: bool,
    /// The failure in words.
    pub message: String,
}

/// What a failure at `now` is to the caller: a failure at or behind the deadline is
/// one of time.
pub fn normalize_expired_io_error(error: IoFailure, deadline: u64, now: u64) -> (r: ExchangeError)
    ensures
        if error.timed_out || now >= deadline {
            r.says(ExchangeErrorKind::TimedOut, "health command I/O deadline expired"@)
        } else {
            r.says(ExchangeErrorKind::Io, error.message@)
        },
{
    if error.timed_out || now >= deadline {
        failure(ExchangeErrorKind::TimedOut, "health command I/O deadline expired")
    } else {
        ExchangeError { kind: ExchangeErrorKind::Io, message: error.message }
    }
}

/// Sending a command and receiving its answer, byte by byte.
#[derive(Debug)]
pub struct CommandExchange {
    /// The command as it is sent.
    pub message: Vec<u8>,
    /// How many bytes of it were sent.
    pub written: usize,
    /// The bytes of the answer that came so far.
    pub response: Vec<u8>,
    /// When the exchange is to be over.
    pub deadline: u64,
    /// Whether the answer is complete.
    pub complete: bool,
}

/// What to do next in an exchange.
#[derive(Debug, Clone, Copy, PartialEq, Eq, Structural)]
pub enum ExchangeStep {
    /// Send what is left of the command, within this many milliseconds.
    Write {
        /// How much was sent before.
        from: usize,
        /// The time that is left.
        timeout: u64,
    },
    /// Receive a byte, within this many milliseconds.
    Read {
        /// The time that is left.
        timeout: u64,
    },
    /// Nothing: the answer is complete.
    Finish,
}

impl CommandExchange {
    /// What holds at every point of an exchange: the answer is within its limit, and
    /// nothing comes behind the end of its line.
    pub open spec fn wf(self) -> bool {
        &&& self.written <= self.message@.len()
        &&& self.response@.len() <= MAX_HEALTH_RESPONSE_BYTES
        &&& (self.written < self.message@.len() ==> self.response@.len() == 0 && !self.complete)
        &&& forall|i: int| 0 <= i < self.response@.len() - 1 ==> self.response@[i] != 10u8
        &&& (!self.complete && self.response@.len() > 0 ==> self.response@.last() != 10u8)
    }

    /// The exchange for `request`, which begins at `now`.
    pub fn new(request: &CommandRequest, now: u64) -> (r: Result<CommandExchange, ExchangeError>)
        requires
            request.message@.len() > 0,
        ensures
            match r {
                Ok(x) => {
                    &&& x.wf()
                    &&& x.message@ == vstd::utf8::encode_utf8(request.message@)
                    &&& x.written == 0
                    &&& x.response@ == Seq::<u8>::empty()
                    &&& x.deadline == now + request.io_timeout
                    &&& !x.complete
                },
                Err(e) => now + request.io_timeout > u64::MAX && e.says(
                    ExchangeErrorKind::InvalidInput,
                    "health command I/O timeout overflows deadline"@,
                ),
            },
    {
        match io_deadline(now, request.io_timeout) {
            Ok(deadline) => Ok(
                CommandExchange {
                    message: request.message.as_str().as_bytes_vec(),
                    written: 0,
                    response: Vec::new(),
                    deadline,
                    complete: false,
                },
            ),
            Err(e) => Err(e),
        }
    }

    /// What to do next at `now`.
    pub fn next(&self, now: u64) -> (r: Result<ExchangeStep, ExchangeError>)
        ensures
            match r {
                Ok(ExchangeStep::Finish) => self.complete,
                Ok(ExchangeStep::Write { from, timeout }) => {
                    &&& !self.complete && self.written < self.message@.len()
                    &&& now < self.deadline && timeout == self.deadline - now
                    &&& from == self.written
                },
                Ok(ExchangeStep::Read { timeout }) => {
                    &&& !self.complete && self.written >= self.message@.len()
                    &&& now < self.deadline && timeout == self.deadline - now
                },
                Err(e) => !self.complete && now >= self.deadline && e.says(
                    ExchangeErrorKind::TimedOut,
                    "health command I/O deadline expired"@,
                ),
            },
    {
        if self.complete {
            return Ok(ExchangeStep::Finish);
        }
        match remaining_io_time(self.deadline, now) {
            Ok(timeout) => {
                if self.written < self.message.len() {
                    Ok(ExchangeStep::Write { from: self.written, timeout })
                } else {
                    Ok(ExchangeStep::Read { timeout })
                }
            },
            Err(e) => Err(e),
        }
    }

    /// Takes down that `count` more bytes of the command were sent by `now`.
    pub fn wrote(&mut self, count: usize, now: u64) -> (r: Result<(), ExchangeError>)
        requires
            old(self).wf(),
            count <= old(self).message@.len() - old(self).written,
        ensures
            final(self).wf(),
            final(self).message == old(self).message,
            final(self).response == old(self).response,
            final(self).deadline == old(self).deadline,
            final(self).complete == old(self).complete,
            final(self).written == old(self).written + count,
            match r {
                Ok(_) => count > 0 && now < old(self).deadline,
                Err(e) => if count == 0 {
                    e.says(
                        ExchangeErrorKind::WriteZero,
                        "health command write returned zero bytes"@,
                    )
                } else {
                    now >= old(self).deadline && e.says(
                        ExchangeErrorKind::TimedOut,
                        "health command I/O deadline expired"@,
                    )
                },
            },
    {
        if count == 0 {
            return Err(
                failure(ExchangeErrorKind::WriteZero, "health command write returned zero bytes"),
            );
        }
        let n: usize = self.message.len();
        assert(self.written + count <= n);
        self.written = self.written + count;
        match remaining_io_time(self.deadline, now) {
            Ok(_) => Ok(()),
            Err(e) => Err(e),
        }
    }

    /// Takes down the byte that came by `now`, or that no more will come.
    pub fn received(&mut self, byte: Option<u8>, now: u64) -> (r: Result<(), ExchangeError>)
        requires
            old(self).wf(),
            !old(self).complete,
            old(self).written == old(self).message@.len(),
        ensures
            final(self).wf(),
            final(self).message == old(self).message,
            final(self).written == old(self).written,
            final(self).deadline == old(self).deadline,
            match byte {
                None => {
                    &&& r is Ok
                    &&& final(self).complete
                    &&& final(self).response@ == old(self).response@
                },
                Some(b) => if old(self).response@.len() == MAX_HEALTH_RESPONSE_BYTES {
                    &&& r matches Err(e) && e.says(
                        ExchangeErrorKind::InvalidData,
                        "health response exceeds the 64 KiB limit"@,
                    )
                    &&& final(self).response@ == old(self).response@
                    &&& !final(self).complete
                } else {
                    &&& final(self).response@ == old(self).response@.push(b)
                    &&& final(self).complete == (b == 10)
                    &&& match r {
                        Ok(_) => now < old(self).deadline,
                        Err(e) => now >= old(self).deadline && e.says(
                            ExchangeErrorKind::TimedOut,
                            "health command I/O deadline expired"@,
                        ),
                    }
                },
            },
    {
        match byte {
            None => {
                self.complete = true;
                Ok(())
            },
            Some(b) => {
                if self.response.len() == MAX_HEALTH_RESPONSE_BYTES {
                    return Err(
                        failure(
                            ExchangeErrorKind::InvalidData,
                            "health response exceeds the 64 KiB limit",
                        ),
                    );
                }
                self.response.push(b);
                self.complete = b == 10;
                match remaining_io_time(self.deadline, now) {
                    Ok(_) => Ok(()),
                    Err(e) => Err(e),
                }
            },
        }
    }

    /// The answer as text.
    pub fn finish(self) -> (r: Result<String, ExchangeError>)
        ensures
            match r {
                Ok(s) => vstd::utf8::valid_utf8(self.response@) && s@ == vstd::utf8::decode_utf8(
                    self.response@,
                ),
                Err(e) => !vstd::utf8::valid_utf8(self.response@) && e.says(
                    ExchangeErrorKind::InvalidData,
                    "health response is not valid UTF-8: "@ + text::utf8_complaint(self.response@),
                ),
            },
    {
        match text::utf8_text(self.response) {
            Ok(s) => Ok(s),
            Err(complaint) => Err(
                ExchangeError {
                    kind: ExchangeErrorKind::InvalidData,
                    message: text::cat2(
                        "health response is not valid UTF-8: ",
                        complaint.as_str(),
                    ),
                },
            ),
        }
    }
}

/// What the daemon answers to `PING` identifies it, and tells its version where
/// the version is one word.
pub proof fn law_pong_is_identified(version: Seq<char>)
    requires
        version.len() > 0,
        forall|i: int| 0 <= i < version.len() ==> !text::is_white_space(#[trigger] version[i]),
    ensures
        ponged_version(pong(version)) == Some(version),
{
    reveal_strlit("PONG ");
    reveal_strlit("PONG");
    reveal_strlit("hyperdb-mcp");
    reveal_strlit(" ");
    reveal_strlit("\n");
    let token = PONG_TOKEN@;
    assert(token =~= "hyperdb-mcp"@);
    let rest2 = version + "\n"@;
    let rest1 = " "@ + rest2;
    let after_token = token + rest1;
    let after_pong = " "@ + after_token;
    let whole = "PONG"@ + after_pong;
    assert("PONG "@ =~= "PONG"@ + " "@);
    assert(pong(version) =~= whole);
    assert("PONG"@.len() == 4 && token.len() == 11);
    text::lemma_words_step("PONG"@, after_pong);
    text::lemma_words_skip(" "@[0], after_token);
    assert(after_pong =~= seq![" "@[0]] + after_token);
    text::lemma_words_step(token, rest1);
    text::lemma_words_skip(" "@[0], rest2);
    assert(rest1 =~= seq![" "@[0]] + rest2);
    text::lemma_words_step(version, "\n"@);
    let w = text::words(whole);
    assert(w =~= seq!["PONG"@, token, version] + text::words("\n"@));
}

/// A command that the health port does not know is refused and changes nothing.
pub proof fn law_unknown_command_is_harmless(
    state: DaemonState,
    command: Seq<char>,
    now: u64,
    version: Seq<char>,
    status: Seq<char>,
)
    requires
        command != "PING"@,
        command != "HEARTBEAT"@,
        command != "STOP"@,
        command != "STATUS"@,
        command != "REPORT_HYPERD_ERROR"@,
    ensures
        answer(command, version, status) == "ERR unknown command\n"@,
        state_after(state, command, now) == state,
{
}

/// Asking what the daemon is doing does not count as activity: `PING` and `STATUS`
/// change nothing.
pub proof fn law_asking_changes_nothing(state: DaemonState, now: u64)
    ensures
        state_after(state, "PING"@, now) == state,
        state_after(state, "STATUS"@, now) == state,
{
    lemma_commands_differ();
}

/// What each command is answered, and what it changes: a heartbeat notes the time, STOP and
/// the report of an error set their marks, and nothing else is changed by any.
pub proof fn law_commands(state: DaemonState, now: u64, version: Seq<char>, status: Seq<char>)
    ensures
        answer("PING"@, version, status) == "PONG hyperdb-mcp "@ + version + "\n"@,
        answer("HEARTBEAT"@, version, status) == "OK\n"@,
        answer("STOP"@, version, status) == "STOPPING\n"@,
        answer("STATUS"@, version, status) == status + "\n"@,
        answer("REPORT_HYPERD_ERROR"@, version, status) == "OK\n"@,
        state_after(state, "HEARTBEAT"@, now) == (DaemonState {
            last_activity: now,
            shutdown: state.shutdown,
            restart_requested: state.restart_requested,
        }),
        state_after(state, "STOP"@, now) == (DaemonState {
            last_activity: state.last_activity,
            shutdown: true,
            restart_requested: state.restart_requested,
        }),
        state_after(state, "REPORT_HYPERD_ERROR"@, now) == (DaemonState {
            last_activity: state.last_activity,
            shutdown: state.shutdown,
            restart_requested: true,
        }),
        pong(version) == "PONG hyperdb-mcp "@ + version + "\n"@,
{
    reveal_strlit("PING");
    reveal_strlit("HEARTBEAT");
    reveal_strlit("STOP");
    reveal_strlit("STATUS");
    reveal_strlit("REPORT_HYPERD_ERROR");
    reveal_strlit("PONG ");
    reveal_strlit("hyperdb-mcp");
    reveal_strlit(" ");
    reveal_strlit("PONG hyperdb-mcp ");
    assert("PONG "@ + PONG_TOKEN@ + " "@ =~= "PONG hyperdb-mcp "@);
    assert("PING"@.len() == 4 && "STOP"@.len() == 4 && "STATUS"@.len() == 6 && "HEARTBEAT"@.len()
        == 9 && "REPORT_HYPERD_ERROR"@.len() == 19);
    assert("PING"@[0] == 'P' && "STOP"@[0] == 'S');
}

/// An answer counts as one of a daemon if and only if its first two words are `PONG` and the
/// daemon's token; the third word, where there is one, is the daemon's version.
pub proof fn law_answers_to_a_ping(response: Seq<char>)
    ensures
        is_pong(response) <==> text::words(response).len() >= 2 && text::words(response)[0]
            == "PONG"@ && text::words(response)[1] == "hyperdb-mcp"@,
        ponged_version(response) is Some <==> is_pong(response),
        is_pong(response) && text::words(response).len() >= 3 ==> ponged_version(response) == Some(
            text::words(response)[2],
        ),
        is_pong(response) && text::words(response).len() == 2 ==> ponged_version(response) == Some(
            Seq::<char>::empty(),
        ),
{
}

/// A command is sent to its port as one line, within the times that were given.
pub proof fn law_commands_are_lines(
    request: CommandRequest,
    port: u16,
    command: Seq<char>,
    connect_timeout: u64,
    io_timeout: u64,
)
    requires
        request.sends(port, command, connect_timeout, io_timeout),
    ensures
        request.port == port,
        request.message@.len() == command.len() + 1,
        request.message@.take(command.len() as int) == command,
        request.message@.last() == '\n',
        request.connect_timeout == connect_timeout,
        request.io_timeout == io_timeout,
        MAX_HEALTH_RESPONSE_BYTES == 65536,
{
    reveal_strlit("\n");
    assert(request.message@.take(command.len() as int) =~= command);
}

/// A failed exchange says its kind and its message.
pub proof fn law_failures_say(e: ExchangeError, kind: ExchangeErrorKind, message: Seq<char>)
    ensures
        e.says(kind, message) <==> e.kind == kind && e.message@ == message,
{
}

} // verus!
