//! The life of the supervised child as a state machine: what each request or
//! observed event makes of the current state, and what has to be done next.

use super::action::Action;
use super::signal::ChildSignal;
use crate::text::push_text;
use vstd::prelude::*;

verus! {

/// Grace period, in seconds, of a termination that names none.
pub const DEFAULT_GRACE_SECONDS: u64 = 10;

/// Exit code that stands for a child that could not be launched.
pub const EXIT_SPAWN_FAILED: i32 = 127;

/// Exit code that stands for a child killed by a signal whose number is
/// outside `1..=127`.
pub const EXIT_KILLED: i32 = 255;

/// Why the child counts as failed.
#[derive(Clone, Copy, Debug, PartialEq, Eq, Structural)]
pub enum FailureReason {
    /// The command could not be launched.
    SpawnFailed,
    /// The child was ended by the signal with this number.
    Signaled(i32),
}

/// How a reaped child ended.
#[derive(Clone, Copy, Debug, PartialEq, Eq, Structural)]
pub enum ChildExit {
    /// It exited by itself with this code.
    Code(i32),
    /// It was ended by the signal with this number.
    Signal(i32),
}

/// Where the child is in its life. A process id is held only while a child
/// exists, that is in `Running` and `Stopping`.
#[derive(Clone, Copy, Debug, PartialEq, Eq, Structural)]
pub enum LifecycleState {
    Idle,
    Starting,
    Running(u32),
    Stopping(u32),
    Exited(i32),
    Failed(FailureReason),
}

/// Why a lifecycle request was turned down.
#[derive(Clone, Copy, Debug, PartialEq, Eq, Structural)]
pub enum LifecycleError {
    NoActiveProcess,
    UnsupportedSignal,
    RestartInProgress,
}

/// What the end of a child means for the one who supervises it.
#[derive(Clone, Copy, Debug, PartialEq, Eq, Structural)]
pub enum ExitOutcome {
    /// No child was being waited for; nothing changed.
    Ignored,
    /// A restart was pending: the command is to be launched again.
    Respawn,
    /// The child is gone for good. `unsolicited` tells whether it ended
    /// without any request to stop it.
    Stopped { unsolicited: bool },
}

/// The exit code that stands for death by the signal with number `signal`:
/// 128 plus the number, for the numbers that leave the sum below 256.
pub open spec fn signal_exit_code(signal: i32) -> i32 {
    if 0 < signal && signal < 128 {
        (128 + signal) as i32
    } else {
        EXIT_KILLED
    }
}

impl ChildExit {
    /// The state that records this ending.
    pub open spec fn final_state(self) -> LifecycleState {
        match self {
            ChildExit::Code(code) => LifecycleState::Exited(code),
            ChildExit::Signal(signal) => LifecycleState::Failed(FailureReason::Signaled(signal)),
        }
    }

    /// The exit code that this ending is reported with: the child's own
    /// code, or the code that stands for the signal that ended it.
    pub open spec fn exit_code(self) -> i32 {
        match self {
            ChildExit::Code(code) => code,
            ChildExit::Signal(signal) => signal_exit_code(signal),
        }
    }

    /// The exit code that this ending is reported with.
    pub fn code(&self) -> (code: i32)
        ensures
            code == self.exit_code(),
    {
        match self {
            ChildExit::Code(code) => *code,
            ChildExit::Signal(signal) => {
                if 0 < *signal && *signal < 128 {
                    128 + *signal
                } else {
                    EXIT_KILLED
                }
            },
        }
    }

    /// The state that records this ending.
    pub fn recorded(&self) -> (state: LifecycleState)
        ensures
            state == self.final_state(),
    {
        match self {
            ChildExit::Code(code) => LifecycleState::Exited(*code),
            ChildExit::Signal(signal) => LifecycleState::Failed(FailureReason::Signaled(*signal)),
        }
    }
}

impl LifecycleState {
    /// The process id of the child, while there is one.
    pub open spec fn pid(self) -> Option<u32> {
        match self {
            LifecycleState::Running(pid) => Some(pid),
            LifecycleState::Stopping(pid) => Some(pid),
            _ => None,
        }
    }

    /// Whether a child process exists in this state.
    pub open spec fn has_child(self) -> bool {
        self.pid() is Some
    }

    /// Whether no child exists and none is being launched.
    pub open spec fn at_rest(self) -> bool {
        self is Idle || self is Exited || self is Failed
    }

    /// The exit code that a finished child is reported with: its own code,
    /// or the code that stands for the way it failed.
    pub open spec fn exit_code(self) -> Option<i32> {
        match self {
            LifecycleState::Exited(code) => Some(code),
            LifecycleState::Failed(FailureReason::Signaled(signal)) => Some(
                signal_exit_code(signal),
            ),
            LifecycleState::Failed(FailureReason::SpawnFailed) => Some(EXIT_SPAWN_FAILED),
            _ => None,
        }
    }

    /// The process id of the child, while there is one.
    pub fn child_pid(&self) -> (r: Option<u32>)
        ensures
            r == self.pid(),
    {
        match self {
            LifecycleState::Running(pid) => Some(*pid),
            LifecycleState::Stopping(pid) => Some(*pid),
            _ => None,
        }
    }

    /// The exit code that a finished child is reported with.
    pub fn reported_exit_code(&self) -> (r: Option<i32>)
        ensures
            r == self.exit_code(),
    {
        match self {
            LifecycleState::Exited(code) => Some(*code),
            LifecycleState::Failed(FailureReason::Signaled(signal)) => {
                if 0 < *signal && *signal < 128 {
                    Some(128 + *signal)
                } else {
                    Some(EXIT_KILLED)
                }
            },
            LifecycleState::Failed(FailureReason::SpawnFailed) => Some(EXIT_SPAWN_FAILED),
            _ => None,
        }
    }
}

impl LifecycleError {
    /// The words in which the refusal is reported to the operator.
    pub open spec fn message_text(self) -> Seq<char> {
        match self {
            LifecycleError::NoActiveProcess => "no active process"@,
            LifecycleError::UnsupportedSignal => "unsupported signal"@,
            LifecycleError::RestartInProgress => "restart in progress"@,
        }
    }

    /// The words in which the refusal is reported to the operator.
    pub fn message(&self) -> (text: String)
        ensures
            text@ == self.message_text(),
    {
        let mut text = String::new();
        match self {
            LifecycleError::NoActiveProcess => push_text(&mut text, "no active process"),
            LifecycleError::UnsupportedSignal => push_text(&mut text, "unsupported signal"),
            LifecycleError::RestartInProgress => push_text(&mut text, "restart in progress"),
        }
        text
    }
}

/// The lifecycle manager as a value: the published state, and whether a
/// restart is waiting for the child to end.
pub struct ManagerView {
    pub state: LifecycleState,
    pub restart_pending: bool,
}

impl ManagerView {
    /// A restart can only be waiting while the child is being stopped.
    pub open spec fn wf(self) -> bool {
        self.restart_pending ==> self.state is Stopping
    }

    /// The manager before anything was launched.
    pub open spec fn fresh() -> ManagerView {
        ManagerView { state: LifecycleState::Idle, restart_pending: false }
    }

    /// The same manager in another state, with no restart waiting.
    pub open spec fn settled(state: LifecycleState) -> ManagerView {
        ManagerView { state, restart_pending: false }
    }

    /// A launch is asked for where no child exists and none is on its way.
    pub open spec fn start(self) -> (ManagerView, Seq<Action>) {
        if self.state.at_rest() {
            (ManagerView::settled(LifecycleState::Starting), seq![Action::Spawn])
        } else {
            (self, Seq::empty())
        }
    }

    /// The launch succeeded: the child runs under `pid`.
    pub open spec fn on_spawned(self, pid: u32) -> ManagerView {
        if self.state is Starting {
            ManagerView::settled(LifecycleState::Running(pid))
        } else {
            self
        }
    }

    /// The launch failed.
    pub open spec fn on_spawn_failed(self) -> ManagerView {
        if self.state is Starting {
            ManagerView::settled(LifecycleState::Failed(FailureReason::SpawnFailed))
        } else {
            self
        }
    }

    /// A signal goes to the child that exists, if its name is supported.
    pub open spec fn signal(self, name: Seq<char>) -> Result<Action, LifecycleError> {
        match self.state.pid() {
            None => Err(LifecycleError::NoActiveProcess),
            Some(pid) => match ChildSignal::named(name) {
                None => Err(LifecycleError::UnsupportedSignal),
                Some(signal) => Ok(Action::Signal { pid, signal }),
            },
        }
    }

    /// The two steps that begin the stopping of the child `pid`.
    pub open spec fn stop_actions(pid: u32, grace: u64) -> Seq<Action> {
        seq![
            Action::Signal { pid, signal: ChildSignal::Term },
            Action::ArmDeadline { pid, seconds: grace },
        ]
    }

    /// A running child is asked to end and given `grace` seconds; a child
    /// that is already stopping or gone is left as it is.
    pub open spec fn terminate(self, grace: u64) -> Result<(ManagerView, Seq<Action>), LifecycleError> {
        match self.state {
            LifecycleState::Running(pid) => Ok(
                (
                    ManagerView { state: LifecycleState::Stopping(pid), ..self },
                    ManagerView::stop_actions(pid, grace),
                ),
            ),
            LifecycleState::Stopping(_) | LifecycleState::Exited(_) | LifecycleState::Failed(_) => Ok(
                (self, Seq::empty()),
            ),
            LifecycleState::Idle | LifecycleState::Starting => Err(LifecycleError::NoActiveProcess),
        }
    }

    /// The child is stopped with the default grace period and launched again
    /// once it has ended; with no child to stop, it is launched at once.
    pub open spec fn restart(self) -> Result<(ManagerView, Seq<Action>), LifecycleError> {
        if self.restart_pending {
            Err(LifecycleError::RestartInProgress)
        } else {
            match self.state {
                LifecycleState::Starting => Err(LifecycleError::RestartInProgress),
                LifecycleState::Running(pid) => Ok(
                    (
                        ManagerView { state: LifecycleState::Stopping(pid), restart_pending: true },
                        ManagerView::stop_actions(pid, DEFAULT_GRACE_SECONDS),
                    ),
                ),
                LifecycleState::Stopping(pid) => Ok(
                    (
                        ManagerView { state: LifecycleState::Stopping(pid), restart_pending: true },
                        Seq::empty(),
                    ),
                ),
                _ => Ok((ManagerView::settled(LifecycleState::Starting), seq![Action::Spawn])),
            }
        }
    }

    /// A waiting restart is given up.
    pub open spec fn cancel_restart(self) -> ManagerView {
        ManagerView { restart_pending: false, ..self }
    }

    /// The child was reaped. Its ending is recorded, unless a restart was
    /// waiting for it: then the next launch begins.
    pub open spec fn on_exit(self, exit: ChildExit) -> (ManagerView, ExitOutcome) {
        match self.state {
            LifecycleState::Running(_) => (
                ManagerView::settled(exit.final_state()),
                ExitOutcome::Stopped { unsolicited: true },
            ),
            LifecycleState::Stopping(_) => if self.restart_pending {
                (ManagerView::settled(LifecycleState::Starting), ExitOutcome::Respawn)
            } else {
                (
                    ManagerView::settled(exit.final_state()),
                    ExitOutcome::Stopped { unsolicited: false },
                )
            },
            _ => (self, ExitOutcome::Ignored),
        }
    }

    /// The grace period granted to the child `pid` is over: if that child is
    /// still stopping, it is killed.
    pub open spec fn on_deadline(self, pid: u32) -> Seq<Action> {
        if self.state == LifecycleState::Stopping(pid) {
            seq![Action::Signal { pid, signal: ChildSignal::Kill }]
        } else {
            Seq::empty()
        }
    }
}

/// Owner of the child's lifecycle state. Nothing else changes that state;
/// others read it through `current_state`.
pub struct LifecycleManager {
    state: LifecycleState,
    restart_pending: bool,
}

impl View for LifecycleManager {
    type V = ManagerView;

    closed spec fn view(&self) -> ManagerView {
        ManagerView { state: self.state, restart_pending: self.restart_pending }
    }
}

impl LifecycleManager {
    #[verifier::type_invariant]
    spec fn restart_waits_for_stop(self) -> bool {
        self.restart_pending ==> self.state is Stopping
    }

    /// A manager with nothing launched yet.
    pub fn new() -> (manager: Self)
        ensures
            manager@ == ManagerView::fresh(),
    {
        LifecycleManager { state: LifecycleState::Idle, restart_pending: false }
    }

    /// A snapshot of the state; never waits.
    pub fn current_state(&self) -> (state: LifecycleState)
        ensures
            state == self@.state,
            self@.wf(),
    {
        proof {
            use_type_invariant(self);
        }
        self.state
    }

    /// Whether a restart is waiting for the child to end.
    pub fn restart_pending(&self) -> (pending: bool)
        ensures
            pending == self@.restart_pending,
    {
        self.restart_pending
    }

    /// Begins a launch where none is under way and no child exists.
    pub fn start(&mut self) -> (actions: Vec<Action>)
        ensures
            final(self)@ == old(self)@.start().0,
            actions@ == old(self)@.start().1,
            final(self)@.wf(),
    {
        proof {
            use_type_invariant(&*self);
        }
        match self.state {
            LifecycleState::Idle | LifecycleState::Exited(_) | LifecycleState::Failed(_) => {
                *self = LifecycleManager { state: LifecycleState::Starting, restart_pending: false };
                vec![Action::Spawn]
            },
            _ => Vec::new(),
        }
    }

    /// Records that the launch succeeded and the child runs under `pid`.
    pub fn on_spawned(&mut self, pid: u32)
        ensures
            final(self)@ == old(self)@.on_spawned(pid),
            final(self)@.wf(),
    {
        proof {
            use_type_invariant(&*self);
        }
        if let LifecycleState::Starting = self.state {
            *self = LifecycleManager { state: LifecycleState::Running(pid), restart_pending: false };
        }
    }

    /// Records that the launch failed.
    pub fn on_spawn_failed(&mut self)
        ensures
            final(self)@ == old(self)@.on_spawn_failed(),
            final(self)@.wf(),
    {
        proof {
            use_type_invariant(&*self);
        }
        if let LifecycleState::Starting = self.state {
            *self = LifecycleManager {
                state: LifecycleState::Failed(FailureReason::SpawnFailed),
                restart_pending: false,
            };
        }
    }

    /// Asks for the signal called `name` to be delivered to the child.
    pub fn signal(&self, name: &str) -> (r: Result<Action, LifecycleError>)
        ensures
            r == self@.signal(name@),
    {
        match self.state.child_pid() {
            None => Err(LifecycleError::NoActiveProcess),
            Some(pid) => match ChildSignal::from_name(name) {
                None => Err(LifecycleError::UnsupportedSignal),
                Some(signal) => Ok(Action::Signal { pid, signal }),
            },
        }
    }

    /// Asks the child to end, and grants it `grace` seconds before it is
    /// killed.
    pub fn terminate(&mut self, grace: u64) -> (r: Result<Vec<Action>, LifecycleError>)
        ensures
            match old(self)@.terminate(grace) {
                Ok((next, todo)) => r matches Ok(actions) && final(self)@ == next && actions@
                    == todo,
                Err(e) => r == Err::<Vec<Action>, _>(e) && final(self)@ == old(self)@,
            },
            final(self)@.wf(),
    {
        proof {
            use_type_invariant(&*self);
        }
        match self.state {
            LifecycleState::Running(pid) => {
                *self = LifecycleManager {
                    state: LifecycleState::Stopping(pid),
                    restart_pending: self.restart_pending,
                };
                Ok(
                    vec![
                        Action::Signal { pid, signal: ChildSignal::Term },
                        Action::ArmDeadline { pid, seconds: grace },
                    ],
                )
            },
            LifecycleState::Stopping(_) | LifecycleState::Exited(_) | LifecycleState::Failed(_) => Ok(
                Vec::new(),
            ),
            LifecycleState::Idle | LifecycleState::Starting => Err(LifecycleError::NoActiveProcess),
        }
    }

    /// Stops the child and has it launched again once it has ended.
    pub fn restart(&mut self) -> (r: Result<Vec<Action>, LifecycleError>)
        ensures
            match old(self)@.restart() {
                Ok((next, todo)) => r matches Ok(actions) && final(self)@ == next && actions@
                    == todo,
                Err(e) => r == Err::<Vec<Action>, _>(e) && final(self)@ == old(self)@,
            },
            final(self)@.wf(),
    {
        proof {
            use_type_invariant(&*self);
        }
        if self.restart_pending {
            return Err(LifecycleError::RestartInProgress);
        }
        match self.state {
            LifecycleState::Starting => Err(LifecycleError::RestartInProgress),
            LifecycleState::Running(pid) => {
                *self = LifecycleManager { state: LifecycleState::Stopping(pid), restart_pending: true };
                Ok(
                    vec![
                        Action::Signal { pid, signal: ChildSignal::Term },
                        Action::ArmDeadline { pid, seconds: DEFAULT_GRACE_SECONDS },
                    ],
                )
            },
            LifecycleState::Stopping(pid) => {
                *self = LifecycleManager { state: LifecycleState::Stopping(pid), restart_pending: true };
                Ok(Vec::new())
            },
            _ => {
                *self = LifecycleManager { state: LifecycleState::Starting, restart_pending: false };
                Ok(vec![Action::Spawn])
            },
        }
    }

    /// Gives up a waiting restart.
    pub fn cancel_restart(&mut self)
        ensures
            final(self)@ == old(self)@.cancel_restart(),
            final(self)@.wf(),
    {
        *self = LifecycleManager { state: self.state, restart_pending: false };
    }

    /// Records how the reaped child ended, and says what that means.
    pub fn on_exit(&mut self, exit: ChildExit) -> (outcome: ExitOutcome)
        ensures
            final(self)@ == old(self)@.on_exit(exit).0,
            outcome == old(self)@.on_exit(exit).1,
            final(self)@.wf(),
    {
        proof {
            use_type_invariant(&*self);
        }
        match self.state {
            LifecycleState::Running(_) => {
                *self = LifecycleManager { state: exit.recorded(), restart_pending: false };
                ExitOutcome::Stopped { unsolicited: true }
            },
            LifecycleState::Stopping(_) => {
                if self.restart_pending {
                    *self = LifecycleManager { state: LifecycleState::Starting, restart_pending: false };
                    ExitOutcome::Respawn
                } else {
                    *self = LifecycleManager { state: exit.recorded(), restart_pending: false };
                    ExitOutcome::Stopped { unsolicited: false }
                }
            },
            _ => ExitOutcome::Ignored,
        }
    }

    /// The grace period granted to the child `pid` is over.
    pub fn on_deadline(&self, pid: u32) -> (actions: Vec<Action>)
        ensures
            actions@ == self@.on_deadline(pid),
    {
        match self.state {
            LifecycleState::Stopping(current) => {
                if current == pid {
                    vec![Action::Signal { pid, signal: ChildSignal::Kill }]
                } else {
                    Vec::new()
                }
            },
            _ => Vec::new(),
        }
    }
}

} // verus!
