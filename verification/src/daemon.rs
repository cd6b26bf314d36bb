//! The daemon that shares one database process among many clients.

use vstd::prelude::*;

pub mod discovery;
pub mod health;
pub mod run;
pub mod spawn;

verus! {

/// The port on which the daemon answers by default.
pub const DEFAULT_DAEMON_PORT: u16 = 7484;

/// How many ports from the default one on are asked for a daemon.
pub const DAEMON_PORT_SCAN_SPAN: u16 = 16;

/// How many milliseconds a port is given to answer.
pub const PROBE_TIMEOUT: u64 = 300;

/// After how many seconds without activity the daemon may stop.
pub const DEFAULT_IDLE_TIMEOUT_SECS: u64 = 1800;

/// The environment variable that names another port.
pub const ENV_DAEMON_PORT: &'static str = "HYPERDB_DAEMON_PORT";

/// The environment variable that names another idle timeout, in seconds.
pub const ENV_IDLE_TIMEOUT: &'static str = "HYPERDB_DAEMON_IDLE_TIMEOUT";

} // verus!
