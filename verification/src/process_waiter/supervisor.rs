//! The supervisor: one lifecycle manager and one control channel, and the
//! rules by which commands and observed events move both.
//!
//! The supervisor does no operating-system work itself. Each function takes
//! one command or event, moves the state, and returns the work that the
//! driver has to do next, in order. The driver applies events one at a time.

use super::action::Action;
use super::lifecycle::{
    ChildExit, ExitOutcome, LifecycleManager, LifecycleState, ManagerView,
    DEFAULT_GRACE_SECONDS, EXIT_SPAWN_FAILED,
};
use super::protocol::{
    decode, decode_line, encode, response_text, CommandView, ControlCommand, ControlResponse,
    ResponseView,
};
use crate::text::push_text;
use vstd::prelude::*;

verus! {

/// Exit code that stands for a control channel that could not be set up or
/// was lost.
pub const EXIT_CONTROL_PATH_UNAVAILABLE: i32 = 126;

/// Exit code that stands for a fault of the supervisor's own, after which
/// nothing can be decided any more.
pub const EXIT_SUPERVISOR_FAULT: i32 = 125;

/// Where the supervisor itself is in its life.
#[derive(Clone, Copy, Debug, PartialEq, Eq, Structural)]
pub enum Phase {
    /// Commands are served and the child is watched.
    Supervising,
    /// The end was decided, with this exit code; the child is still to be
    /// reaped.
    ShuttingDown(i32),
    /// Ended at the operator's request, or with a child that exited with 0.
    CleanShutdown,
    /// Ended on a fault, with this exit code.
    FaultShutdown(i32),
}

impl Phase {
    /// Whether the supervisor has ended.
    pub open spec fn finished(self) -> bool {
        self is CleanShutdown || self is FaultShutdown
    }

    /// The final phase that goes with an exit code.
    pub open spec fn ended_with(code: i32) -> Phase {
        if code == 0 {
            Phase::CleanShutdown
        } else {
            Phase::FaultShutdown(code)
        }
    }

    /// The exit code of a supervisor that has ended.
    pub open spec fn exit_code(self) -> Option<i32> {
        match self {
            Phase::CleanShutdown => Some(0),
            Phase::FaultShutdown(code) => Some(code),
            _ => None,
        }
    }
}

/// What the operator is told when a restart is asked of a supervisor that is
/// on its way out.
pub open spec fn shutting_down_text() -> Seq<char> {
    "supervisor is shutting down"@
}

/// The supervisor as a value.
pub struct SupervisorView {
    pub lifecycle: ManagerView,
    pub phase: Phase,
    pub channel_open: bool,
}

impl SupervisorView {
    /// What holds of every supervisor: a restart waits only while commands
    /// are served; a supervisor that has ended has no child, no launch under
    /// way and no control channel; and a fault has an exit code other than 0.
    pub open spec fn wf(self) -> bool {
        &&& self.lifecycle.wf()
        &&& self.lifecycle.restart_pending ==> self.phase is Supervising
        &&& self.phase.finished() ==> !self.channel_open && self.lifecycle.state.at_rest()
        &&& self.phase matches Phase::FaultShutdown(code) ==> code != 0
    }

    /// The supervisor before anything was launched.
    pub open spec fn fresh() -> SupervisorView {
        SupervisorView {
            lifecycle: ManagerView::fresh(),
            phase: Phase::Supervising,
            channel_open: false,
        }
    }

    /// The removal of the control channel, where there is one.
    pub open spec fn closing(self) -> Seq<Action> {
        if self.channel_open {
            seq![Action::CloseControlChannel]
        } else {
            Seq::empty()
        }
    }

    /// The last step: the control channel goes, then the process ends with
    /// `code`.
    pub open spec fn finish(self, lifecycle: ManagerView, code: i32) -> (
        SupervisorView,
        Seq<Action>,
    ) {
        (
            SupervisorView { lifecycle, phase: Phase::ended_with(code), channel_open: false },
            self.closing().push(Action::Exit { code }),
        )
    }

    /// The end is decided, with exit code `code`. A running child is asked to
    /// stop first, a waiting restart is given up, and with no child left the
    /// supervisor ends at once.
    pub open spec fn wind_down(self, code: i32) -> (SupervisorView, Seq<Action>) {
        match self.lifecycle.state {
            LifecycleState::Running(pid) => (
                SupervisorView {
                    lifecycle: ManagerView::settled(LifecycleState::Stopping(pid)),
                    phase: Phase::ShuttingDown(code),
                    ..self
                },
                ManagerView::stop_actions(pid, DEFAULT_GRACE_SECONDS),
            ),
            LifecycleState::Stopping(_) => (
                SupervisorView {
                    lifecycle: self.lifecycle.cancel_restart(),
                    phase: Phase::ShuttingDown(code),
                    ..self
                },
                Seq::empty(),
            ),
            LifecycleState::Starting => (
                SupervisorView { phase: Phase::ShuttingDown(code), ..self },
                Seq::empty(),
            ),
            _ => self.finish(self.lifecycle, code),
        }
    }

    /// The first launch.
    pub open spec fn start(self) -> (SupervisorView, Seq<Action>) {
        if self.phase is Supervising {
            (SupervisorView { lifecycle: self.lifecycle.start().0, ..self }, self.lifecycle.start().1)
        } else {
            (self, Seq::empty())
        }
    }

    /// The launch succeeded. The control channel is opened after the first
    /// launch; a child that arrives after the end was decided is stopped.
    pub open spec fn on_spawned(self, pid: u32) -> (SupervisorView, Seq<Action>) {
        if !(self.lifecycle.state is Starting) {
            (self, Seq::empty())
        } else {
            match self.phase {
                Phase::Supervising => (
                    SupervisorView { lifecycle: self.lifecycle.on_spawned(pid), ..self },
                    if self.channel_open {
                        Seq::empty()
                    } else {
                        seq![Action::OpenControlChannel]
                    },
                ),
                Phase::ShuttingDown(_) => (
                    SupervisorView {
                        lifecycle: ManagerView::settled(LifecycleState::Stopping(pid)),
                        ..self
                    },
                    ManagerView::stop_actions(pid, DEFAULT_GRACE_SECONDS),
                ),
                _ => (self, Seq::empty()),
            }
        }
    }

    /// The launch failed: the supervisor ends, with the exit code that was
    /// decided before or else with the one that stands for this failure.
    pub open spec fn on_spawn_failed(self) -> (SupervisorView, Seq<Action>) {
        if !(self.lifecycle.state is Starting) {
            (self, Seq::empty())
        } else {
            match self.phase {
                Phase::Supervising => self.finish(
                    self.lifecycle.on_spawn_failed(),
                    EXIT_SPAWN_FAILED,
                ),
                Phase::ShuttingDown(code) => self.finish(self.lifecycle.on_spawn_failed(), code),
                _ => (self, Seq::empty()),
            }
        }
    }

    /// The control channel was set up. Should the supervisor have ended in
    /// the meantime, the channel is removed again.
    pub open spec fn on_channel_opened(self) -> (SupervisorView, Seq<Action>) {
        if self.phase.finished() {
            (self, seq![Action::CloseControlChannel])
        } else {
            (SupervisorView { channel_open: true, ..self }, Seq::empty())
        }
    }

    /// The control channel could not be set up, or was lost: what is left of
    /// it is removed and the supervisor winds down on a fault.
    pub open spec fn on_channel_failure(self) -> (SupervisorView, Seq<Action>) {
        let closed = SupervisorView { channel_open: false, ..self };
        match self.phase {
            Phase::Supervising => (
                closed.wind_down(EXIT_CONTROL_PATH_UNAVAILABLE).0,
                self.closing() + closed.wind_down(EXIT_CONTROL_PATH_UNAVAILABLE).1,
            ),
            Phase::ShuttingDown(_) => (closed, self.closing()),
            _ => (self, Seq::empty()),
        }
    }

    /// The child was reaped. An end that nobody asked for ends the supervisor
    /// with the child's exit code; an end that was asked for is recorded, or
    /// followed by the launch that a restart was waiting for; an end after
    /// the supervisor's own end was decided completes that end.
    pub open spec fn on_child_exit(self, exit: ChildExit) -> (SupervisorView, Seq<Action>) {
        let lifecycle = self.lifecycle.on_exit(exit).0;
        match self.lifecycle.on_exit(exit).1 {
            ExitOutcome::Ignored => (self, Seq::empty()),
            ExitOutcome::Respawn => (SupervisorView { lifecycle, ..self }, seq![Action::Spawn]),
            ExitOutcome::Stopped { unsolicited } => match self.phase {
                Phase::ShuttingDown(code) => self.finish(lifecycle, code),
                Phase::Supervising => if unsolicited {
                    self.finish(lifecycle, exit.exit_code())
                } else {
                    (SupervisorView { lifecycle, ..self }, Seq::empty())
                },
                _ => (SupervisorView { lifecycle, ..self }, Seq::empty()),
            },
        }
    }

    /// The grace period granted to the child `pid` is over.
    pub open spec fn on_deadline(self, pid: u32) -> (SupervisorView, Seq<Action>) {
        (self, self.lifecycle.on_deadline(pid))
    }

    /// What a command makes of the supervisor, what is answered, and what is
    /// to be done.
    pub open spec fn handle(self, command: CommandView) -> (
        SupervisorView,
        ResponseView,
        Seq<Action>,
    ) {
        match command {
            CommandView::Status => (
                self,
                ResponseView::StatusReport(self.lifecycle.state),
                Seq::empty(),
            ),
            CommandView::Signal(name) => match self.lifecycle.signal(name) {
                Ok(action) => (self, ResponseView::Okay, seq![action]),
                Err(e) => (self, ResponseView::Error(e.message_text()), Seq::empty()),
            },
            CommandView::Terminate(grace) => match self.lifecycle.terminate(grace) {
                Ok((lifecycle, actions)) => (
                    SupervisorView { lifecycle, ..self },
                    ResponseView::Okay,
                    actions,
                ),
                Err(e) => (self, ResponseView::Error(e.message_text()), Seq::empty()),
            },
            CommandView::Restart => if !(self.phase is Supervising) {
                (self, ResponseView::Error(shutting_down_text()), Seq::empty())
            } else {
                match self.lifecycle.restart() {
                    Ok((lifecycle, actions)) => (
                        SupervisorView { lifecycle, ..self },
                        ResponseView::Okay,
                        actions,
                    ),
                    Err(e) => (self, ResponseView::Error(e.message_text()), Seq::empty()),
                }
            },
            CommandView::Shutdown => if self.phase is Supervising {
                (self.wind_down(0).0, ResponseView::Okay, self.wind_down(0).1)
            } else {
                (self, ResponseView::Okay, Seq::empty())
            },
        }
    }

    /// What one line from the control channel makes of the supervisor. A
    /// line that is no command changes nothing and is answered with the
    /// error.
    pub open spec fn handle_line(self, line: Seq<char>) -> (
        SupervisorView,
        ResponseView,
        Seq<Action>,
    ) {
        match decode_line(line) {
            Ok(command) => self.handle(command),
            Err(e) => (self, ResponseView::Error(e.message_text()), Seq::empty()),
        }
    }
}

/// The supervisor. It owns the lifecycle manager; nothing else moves the
/// state of the child.
pub struct Supervisor {
    lifecycle: LifecycleManager,
    phase: Phase,
    channel_open: bool,
}

impl View for Supervisor {
    type V = SupervisorView;

    closed spec fn view(&self) -> SupervisorView {
        SupervisorView {
            lifecycle: self.lifecycle@,
            phase: self.phase,
            channel_open: self.channel_open,
        }
    }
}

impl Supervisor {
    /// A supervisor with nothing launched and no control channel.
    pub fn new() -> (supervisor: Self)
        ensures
            supervisor@ == SupervisorView::fresh(),
            supervisor@.wf(),
    {
        Supervisor {
            lifecycle: LifecycleManager::new(),
            phase: Phase::Supervising,
            channel_open: false,
        }
    }

    /// A snapshot of the state of the child; never waits.
    pub fn current_state(&self) -> (state: LifecycleState)
        ensures
            state == self@.lifecycle.state,
    {
        self.lifecycle.current_state()
    }

    /// Where the supervisor itself is in its life.
    pub fn phase(&self) -> (phase: Phase)
        ensures
            phase == self@.phase,
    {
        self.phase
    }

    /// Whether the control channel exists.
    pub fn channel_open(&self) -> (open: bool)
        ensures
            open == self@.channel_open,
    {
        self.channel_open
    }

    /// The exit code of the supervisor, once it has ended.
    pub fn exit_code(&self) -> (code: Option<i32>)
        ensures
            code == self@.phase.exit_code(),
    {
        match self.phase {
            Phase::CleanShutdown => Some(0),
            Phase::FaultShutdown(code) => Some(code),
            _ => None,
        }
    }

    /// Ends the supervisor with `code`, once no child is left.
    fn finish(&mut self, code: i32) -> (actions: Vec<Action>)
        ensures
            final(self)@ == old(self)@.finish(old(self)@.lifecycle, code).0,
            actions@ == old(self)@.finish(old(self)@.lifecycle, code).1,
    {
        let mut actions: Vec<Action> = Vec::new();
        if self.channel_open {
            actions.push(Action::CloseControlChannel);
        }
        actions.push(Action::Exit { code });
        self.channel_open = false;
        self.phase = if code == 0 {
            Phase::CleanShutdown
        } else {
            Phase::FaultShutdown(code)
        };
        actions
    }

    /// Begins the end of the supervisor, with exit code `code`.
    fn wind_down(&mut self, code: i32) -> (actions: Vec<Action>)
        ensures
            final(self)@ == old(self)@.wind_down(code).0,
            actions@ == old(self)@.wind_down(code).1,
    {
        match self.lifecycle.current_state() {
            LifecycleState::Running(_) => {
                self.lifecycle.cancel_restart();
                self.phase = Phase::ShuttingDown(code);
                match self.lifecycle.terminate(DEFAULT_GRACE_SECONDS) {
                    Ok(actions) => actions,
                    Err(_) => Vec::new(),
                }
            },
            LifecycleState::Stopping(_) => {
                self.lifecycle.cancel_restart();
                self.phase = Phase::ShuttingDown(code);
                Vec::new()
            },
            LifecycleState::Starting => {
                self.phase = Phase::ShuttingDown(code);
                Vec::new()
            },
            _ => self.finish(code),
        }
    }

    /// Begins the first launch of the command.
    pub fn start(&mut self) -> (actions: Vec<Action>)
        ensures
            final(self)@ == old(self)@.start().0,
            actions@ == old(self)@.start().1,
            old(self)@.wf() ==> final(self)@.wf(),
    {
        match self.phase {
            Phase::Supervising => self.lifecycle.start(),
            _ => Vec::new(),
        }
    }

    /// Takes note that the launch succeeded and the child runs under `pid`.
    pub fn on_spawned(&mut self, pid: u32) -> (actions: Vec<Action>)
        ensures
            final(self)@ == old(self)@.on_spawned(pid).0,
            actions@ == old(self)@.on_spawned(pid).1,
            old(self)@.wf() ==> final(self)@.wf(),
    {
        match self.lifecycle.current_state() {
            LifecycleState::Starting => match self.phase {
                Phase::Supervising => {
                    self.lifecycle.on_spawned(pid);
                    if self.channel_open {
                        Vec::new()
                    } else {
                        vec![Action::OpenControlChannel]
                    }
                },
                Phase::ShuttingDown(_) => {
                    self.lifecycle.on_spawned(pid);
                    match self.lifecycle.terminate(DEFAULT_GRACE_SECONDS) {
                        Ok(actions) => actions,
                        Err(_) => Vec::new(),
                    }
                },
                _ => Vec::new(),
            },
            _ => Vec::new(),
        }
    }

    /// Takes note that the launch failed.
    pub fn on_spawn_failed(&mut self) -> (actions: Vec<Action>)
        ensures
            final(self)@ == old(self)@.on_spawn_failed().0,
            actions@ == old(self)@.on_spawn_failed().1,
            old(self)@.wf() ==> final(self)@.wf(),
    {
        match self.lifecycle.current_state() {
            LifecycleState::Starting => match self.phase {
                Phase::Supervising => {
                    self.lifecycle.on_spawn_failed();
                    self.finish(EXIT_SPAWN_FAILED)
                },
                Phase::ShuttingDown(code) => {
                    self.lifecycle.on_spawn_failed();
                    self.finish(code)
                },
                _ => Vec::new(),
            },
            _ => Vec::new(),
        }
    }

    /// Takes note that the control channel was set up.
    pub fn on_channel_opened(&mut self) -> (actions: Vec<Action>)
        ensures
            final(self)@ == old(self)@.on_channel_opened().0,
            actions@ == old(self)@.on_channel_opened().1,
            old(self)@.wf() ==> final(self)@.wf(),
    {
        match self.phase {
            Phase::CleanShutdown | Phase::FaultShutdown(_) => vec![Action::CloseControlChannel],
            _ => {
                self.channel_open = true;
                Vec::new()
            },
        }
    }

    /// Takes note that the control channel could not be set up, or was lost.
    pub fn on_channel_failure(&mut self) -> (actions: Vec<Action>)
        ensures
            final(self)@ == old(self)@.on_channel_failure().0,
            actions@ == old(self)@.on_channel_failure().1,
            old(self)@.wf() ==> final(self)@.wf(),
    {
        match self.phase {
            Phase::Supervising => {
                let mut actions: Vec<Action> = Vec::new();
                if self.channel_open {
                    actions.push(Action::CloseControlChannel);
                }
                self.channel_open = false;
                let mut rest = self.wind_down(EXIT_CONTROL_PATH_UNAVAILABLE);
                actions.append(&mut rest);
                actions
            },
            Phase::ShuttingDown(_) => {
                let mut actions: Vec<Action> = Vec::new();
                if self.channel_open {
                    actions.push(Action::CloseControlChannel);
                }
                self.channel_open = false;
                actions
            },
            _ => Vec::new(),
        }
    }

    /// Takes note that the child was reaped, and how it ended.
    pub fn on_child_exit(&mut self, exit: ChildExit) -> (actions: Vec<Action>)
        ensures
            final(self)@ == old(self)@.on_child_exit(exit).0,
            actions@ == old(self)@.on_child_exit(exit).1,
            old(self)@.wf() ==> final(self)@.wf(),
    {
        match self.lifecycle.on_exit(exit) {
            ExitOutcome::Ignored => Vec::new(),
            ExitOutcome::Respawn => vec![Action::Spawn],
            ExitOutcome::Stopped { unsolicited } => match self.phase {
                Phase::ShuttingDown(code) => self.finish(code),
                Phase::Supervising => {
                    if unsolicited {
                        self.finish(exit.code())
                    } else {
                        Vec::new()
                    }
                },
                _ => Vec::new(),
            },
        }
    }

    /// Takes note that the grace period granted to the child `pid` is over.
    pub fn on_deadline(&mut self, pid: u32) -> (actions: Vec<Action>)
        ensures
            final(self)@ == old(self)@.on_deadline(pid).0,
            actions@ == old(self)@.on_deadline(pid).1,
            old(self)@.wf() ==> final(self)@.wf(),
    {
        self.lifecycle.on_deadline(pid)
    }

    /// Applies one command: moves the state, and returns the answer and the
    /// work to be done.
    pub fn handle_command(&mut self, command: &ControlCommand) -> (r: (
        ControlResponse,
        Vec<Action>,
    ))
        ensures
            final(self)@ == old(self)@.handle(command@).0,
            r.0@ == old(self)@.handle(command@).1,
            r.1@ == old(self)@.handle(command@).2,
            old(self)@.wf() ==> final(self)@.wf(),
    {
        match command {
            ControlCommand::Status => (
                ControlResponse::StatusReport(self.lifecycle.current_state()),
                Vec::new(),
            ),
            ControlCommand::Signal(name) => match self.lifecycle.signal(name.as_str()) {
                Ok(action) => (ControlResponse::Okay, vec![action]),
                Err(e) => (ControlResponse::Error(e.message()), Vec::new()),
            },
            ControlCommand::Terminate(grace) => match self.lifecycle.terminate(*grace) {
                Ok(actions) => (ControlResponse::Okay, actions),
                Err(e) => (ControlResponse::Error(e.message()), Vec::new()),
            },
            ControlCommand::Restart => match self.phase {
                Phase::Supervising => match self.lifecycle.restart() {
                    Ok(actions) => (ControlResponse::Okay, actions),
                    Err(e) => (ControlResponse::Error(e.message()), Vec::new()),
                },
                _ => {
                    let mut message = String::new();
                    push_text(&mut message, "supervisor is shutting down");
                    (ControlResponse::Error(message), Vec::new())
                },
            },
            ControlCommand::Shutdown => match self.phase {
                Phase::Supervising => {
                    let actions = self.wind_down(0);
                    (ControlResponse::Okay, actions)
                },
                _ => (ControlResponse::Okay, Vec::new()),
            },
        }
    }

    /// Serves one line from the control channel: reads it as a command,
    /// applies the command, and returns the line to answer with and the work
    /// to be done.
    pub fn handle_line(&mut self, line: &str) -> (r: (String, Vec<Action>))
        ensures
            final(self)@ == old(self)@.handle_line(line@).0,
            r.0@ == response_text(old(self)@.handle_line(line@).1),
            r.1@ == old(self)@.handle_line(line@).2,
            old(self)@.wf() ==> final(self)@.wf(),
    {
        match decode(line) {
            Ok(command) => {
                let (response, actions) = self.handle_command(&command);
                (encode(&response), actions)
            },
            Err(e) => {
                let response = ControlResponse::Error(e.message());
                (encode(&response), Vec::new())
            },
        }
    }
}

} // verus!
