//! Command-line arguments of the runtime binary. Paths are held as text.
use vstd::prelude::*;

use std::time::Duration;

verus! {

/// The parsed command line.
#[derive(Debug, Clone)]
pub struct Cli {
    pub command: Command,
}

/// The subcommands.
#[derive(Debug, Clone)]
pub enum Command {
    Serve(ServeArgs),
    Submit(RemoteTaskArgs),
    Status(StatusArgs),
    Wait(WaitArgs),
    Kill(StatusArgs),
    Run(RemoteTaskArgs),
    InternalShim(InternalShimArgs),
}

/// Arguments of `serve`.
#[derive(Debug, Clone)]
pub struct ServeArgs {
    pub listen_addr: String,
    pub data_dir: String,
    pub max_running_tasks: usize,
    pub max_queued_tasks: usize,
    pub termination_grace_ms: u64,
    pub result_retention_secs: u64,
    pub gc_interval_ms: u64,
    pub dispatch_poll_interval_ms: u64,
    pub cgroup_root: String,
}

/// Arguments of `submit` and `run`; exactly one of `file` and `json` is given.
#[derive(Debug, Clone)]
pub struct RemoteTaskArgs {
    pub server: String,
    pub file: Option<String>,
    pub json: Option<String>,
    pub poll_interval_ms: u64,
    pub timeout_ms: Option<u64>,
}

/// Arguments of `status` and `kill`.
#[derive(Debug, Clone)]
pub struct StatusArgs {
    pub server: String,
    pub task_id: String,
}

/// Arguments of `wait`.
#[derive(Debug, Clone)]
pub struct WaitArgs {
    pub server: String,
    pub task_id: String,
    pub timeout_ms: Option<u64>,
    pub poll_interval_ms: u64,
}

/// Arguments of the hidden `internal-shim` subcommand.
#[derive(Debug, Clone)]
pub struct InternalShimArgs {
    pub database: String,
    pub data_dir: String,
    pub task_id: String,
    pub termination_grace_ms: u64,
    pub cgroup_root: String,
}

/// The duration that `Duration::from_millis` makes of a number of milliseconds.
pub uninterp spec fn duration_of_millis(ms: u64) -> Duration;

/// Calls `std::time::Duration::from_millis`. Claimed: the result is the
/// duration of `ms` milliseconds, the same for the same argument; nothing
/// is said of its inside, which Verus cannot see.
#[verifier::external_body]
fn millis(ms: u64) -> (d: Duration)
    ensures
        d == duration_of_millis(ms),
{
    Duration::from_millis(ms)
}

impl WaitArgs {
    /// How long to wait, if a limit was given.
    pub fn timeout(&self) -> (t: Option<Duration>)
        ensures
            t == match self.timeout_ms {
                Some(ms) => Some(duration_of_millis(ms)),
                None => None::<Duration>,
            },
    {
        match self.timeout_ms {
            Some(ms) => Some(millis(ms)),
            None => None,
        }
    }
}

} // verus!
