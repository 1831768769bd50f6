//! What the supervisor asks of whoever drives it: the operating-system work
//! that no state machine can do itself.

use super::signal::ChildSignal;
use vstd::prelude::*;

verus! {

/// One piece of work for the driver. Each is answered, where it has an
/// outcome, by handing the matching event back to the supervisor.
#[derive(Clone, Copy, Debug, PartialEq, Eq, Structural)]
pub enum Action {
    /// Launch the configured command, then report the new process id or the
    /// failure to launch.
    Spawn,
    /// Deliver `signal` to the process `pid`.
    Signal { pid: u32, signal: ChildSignal },
    /// Report back once `seconds` have passed, naming `pid` again.
    ArmDeadline { pid: u32, seconds: u64 },
    /// Create the control pipe and start listening, then report how it went.
    OpenControlChannel,
    /// Stop listening and remove the control pipe from the file system.
    CloseControlChannel,
    /// End the supervisor's own process with this exit code.
    Exit { code: i32 },
}

} // verus!
