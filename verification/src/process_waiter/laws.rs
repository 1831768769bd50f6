//! What holds of the supervisor whatever happens to it: statements over
//! every state, every command and every event, each with its proof.

use super::action::Action;
use super::lifecycle::{ChildExit, LifecycleError, LifecycleState, ManagerView, DEFAULT_GRACE_SECONDS};
use super::protocol::{
    command_text, is_word, lemma_decode_inverts_encode, CommandView, ResponseView,
};
use super::signal::{lemma_signal_names_distinct, ChildSignal};
use super::supervisor::{Phase, SupervisorView};
use vstd::prelude::*;

verus! {

/// Anything that can happen to a supervisor.
pub enum Event {
    Start,
    Spawned(u32),
    SpawnFailed,
    ChannelOpened,
    ChannelFailure,
    ChildExit(ChildExit),
    Deadline(u32),
    Command(CommandView),
    Line(Seq<char>),
}

/// The supervisor after an event, and the work that the event calls for.
pub open spec fn step(s: SupervisorView, event: Event) -> (SupervisorView, Seq<Action>) {
    match event {
        Event::Start => s.start(),
        Event::Spawned(pid) => s.on_spawned(pid),
        Event::SpawnFailed => s.on_spawn_failed(),
        Event::ChannelOpened => s.on_channel_opened(),
        Event::ChannelFailure => s.on_channel_failure(),
        Event::ChildExit(exit) => s.on_child_exit(exit),
        Event::Deadline(pid) => s.on_deadline(pid),
        Event::Command(command) => (s.handle(command).0, s.handle(command).2),
        Event::Line(line) => (s.handle_line(line).0, s.handle_line(line).2),
    }
}

/// Whether an action ends the supervisor's process.
pub open spec fn is_exit(action: Action) -> bool {
    action is Exit
}

/// No event leads out of the well-formed states.
pub proof fn lemma_step_preserves_wf(s: SupervisorView, event: Event)
    requires
        s.wf(),
    ensures
        step(s, event).0.wf(),
{
}

/// A process id is held exactly while a child exists.
pub proof fn lemma_pid_only_with_child(state: LifecycleState)
    ensures
        state.pid() is Some <==> state is Running || state is Stopping,
{
}

/// The name of each supported signal is one word, so a line can carry it.
pub proof fn lemma_signal_name_is_word(signal: ChildSignal)
    ensures
        is_word(signal.name_text()),
{
    reveal_strlit("TERM");
    reveal_strlit("INT");
    reveal_strlit("HUP");
    reveal_strlit("KILL");
    reveal_strlit("USR1");
    reveal_strlit("USR2");
}

/// A line written for a command does to the supervisor what the command
/// itself does.
pub proof fn lemma_line_carries_command(s: SupervisorView, command: CommandView)
    requires
        command.valid(),
    ensures
        s.handle_line(command_text(command)) == s.handle(command),
{
    lemma_decode_inverts_encode(command);
}

/// Each supported signal, asked for by name while a child exists, is
/// delivered to that child and changes nothing else; with no child, the
/// request fails with `NoActiveProcess`. The same holds of the line
/// `SIGNAL <name>`.
pub proof fn lemma_signal_delivery(s: SupervisorView, signal: ChildSignal)
    ensures
        s.lifecycle.state.pid() matches Some(pid) ==> s.handle(
            CommandView::Signal(signal.name_text()),
        ) == (s, ResponseView::Okay, seq![Action::Signal { pid, signal }]),
        s.lifecycle.state.pid() is None ==> s.handle(CommandView::Signal(signal.name_text())) == (
            s,
            ResponseView::Error(LifecycleError::NoActiveProcess.message_text()),
            Seq::<Action>::empty(),
        ),
        s.handle_line(command_text(CommandView::Signal(signal.name_text()))) == s.handle(
            CommandView::Signal(signal.name_text()),
        ),
{
    lemma_signal_names_distinct(signal);
    lemma_signal_name_is_word(signal);
    lemma_line_carries_command(s, CommandView::Signal(signal.name_text()));
}

/// A name that is none of the supported ones is turned down while a child
/// exists, and nothing is delivered.
pub proof fn lemma_unsupported_signal(s: SupervisorView, name: Seq<char>)
    requires
        ChildSignal::named(name) is None,
        s.lifecycle.state.pid() is Some,
    ensures
        s.handle(CommandView::Signal(name)) == (
            s,
            ResponseView::Error(LifecycleError::UnsupportedSignal.message_text()),
            Seq::<Action>::empty(),
        ),
{
}

/// Termination of a running child, whatever the grace period (zero too):
/// the child is asked to end and a deadline is set; when the deadline passes
/// and the child is still there, it is killed; and once it is reaped, the
/// state records how it ended.
pub proof fn lemma_terminate_escalates(s: SupervisorView, pid: u32, grace: u64, exit: ChildExit)
    requires
        s.wf(),
        s.lifecycle.state == LifecycleState::Running(pid),
    ensures
        ({
            let (stopping, answer, asked) = s.handle(CommandView::Terminate(grace));
            let (waiting, killed) = stopping.on_deadline(pid);
            let (reaped, _) = waiting.on_child_exit(exit);
            &&& answer == ResponseView::Okay
            &&& asked == seq![
                Action::Signal { pid, signal: ChildSignal::Term },
                Action::ArmDeadline { pid, seconds: grace },
            ]
            &&& stopping.lifecycle.state == LifecycleState::Stopping(pid)
            &&& killed == seq![Action::Signal { pid, signal: ChildSignal::Kill }]
            &&& waiting == stopping
            &&& reaped.lifecycle.state == exit.final_state()
            &&& reaped.lifecycle.state is Exited || reaped.lifecycle.state is Failed
        }),
{
}

/// A deadline that passes for a child that is no longer being stopped does
/// nothing.
pub proof fn lemma_stale_deadline(s: SupervisorView, pid: u32)
    requires
        s.lifecycle.state != LifecycleState::Stopping(pid),
    ensures
        s.on_deadline(pid) == (s, Seq::<Action>::empty()),
{
}

/// Termination is idempotent: asked of a child that is already stopping or
/// gone, it succeeds and changes nothing.
pub proof fn lemma_terminate_idempotent(s: SupervisorView, grace: u64)
    requires
        s.lifecycle.state is Stopping || s.lifecycle.state is Exited || s.lifecycle.state is Failed,
    ensures
        s.handle(CommandView::Terminate(grace)) == (s, ResponseView::Okay, Seq::<Action>::empty()),
{
}

/// A status request reports the state exactly as it stands and changes
/// nothing: what is observed is always a state that the supervisor was in
/// between two events, never a mixture.
pub proof fn lemma_status_observes_state(s: SupervisorView)
    ensures
        s.handle(CommandView::Status) == (
            s,
            ResponseView::StatusReport(s.lifecycle.state),
            Seq::<Action>::empty(),
        ),
{
}

/// One restart at a time. A restart of a running child stops it with the
/// default grace period; until the child has ended a second restart fails
/// with `RestartInProgress` and changes nothing; when the child is reaped the
/// command is launched again; and the new process id is the one reported for
/// the new launch.
pub proof fn lemma_restart_in_flight(s: SupervisorView, pid: u32, exit: ChildExit, new_pid: u32)
    requires
        s.wf(),
        s.phase is Supervising,
        s.lifecycle.state == LifecycleState::Running(pid),
    ensures
        ({
            let (stopping, answer, asked) = s.handle(CommandView::Restart);
            let (again, refusal, nothing) = stopping.handle(CommandView::Restart);
            let (starting, launch) = stopping.on_child_exit(exit);
            let (running, _) = starting.on_spawned(new_pid);
            &&& answer == ResponseView::Okay
            &&& asked == ManagerView::stop_actions(pid, DEFAULT_GRACE_SECONDS)
            &&& stopping.lifecycle.state == LifecycleState::Stopping(pid)
            &&& again == stopping
            &&& refusal == ResponseView::Error(LifecycleError::RestartInProgress.message_text())
            &&& nothing == Seq::<Action>::empty()
            &&& starting.lifecycle.state == LifecycleState::Starting
            &&& launch == seq![Action::Spawn]
            &&& running.lifecycle.state == LifecycleState::Running(new_pid)
            &&& running.phase is Supervising
        }),
{
}

/// The supervisor ends in exactly one way. An event asks for the process to
/// exit if and only if it takes the supervisor from a phase in which it has
/// not ended into one in which it has. The exit is then the last thing asked
/// for, its code is the exit code of the final phase, and a control channel
/// that was open is closed just before it. Afterwards no control channel
/// is left.
pub proof fn lemma_exit_removes_channel(s: SupervisorView, event: Event)
    requires
        s.wf(),
    ensures
        ({
            let (next, actions) = step(s, event);
            let ends = !s.phase.finished() && next.phase.finished();
            &&& (exists|i: int| 0 <= i < actions.len() && is_exit(#[trigger] actions[i])) <==> ends
            &&& ends ==> {
                &&& actions.last() == Action::Exit { code: next.phase.exit_code().unwrap() }
                &&& forall|i: int| 0 <= i < actions.len() - 1 ==> !is_exit(#[trigger] actions[i])
                &&& s.channel_open ==> actions.len() >= 2 && actions[actions.len() - 2]
                    == Action::CloseControlChannel
                &&& !next.channel_open
            }
            &&& next.phase.finished() ==> !next.channel_open
        }),
{
    let (next, actions) = step(s, event);
    let ends = !s.phase.finished() && next.phase.finished();
    if ends {
        assert(is_exit(actions[actions.len() - 1]));
    }
}

/// A supervisor that has ended stays as it is: no event changes it, and none
/// launches, signals or exits again.
pub proof fn lemma_finished_is_final(s: SupervisorView, event: Event)
    requires
        s.wf(),
        s.phase.finished(),
    ensures
        step(s, event).0 == s,
        forall|i: int|
            0 <= i < step(s, event).1.len() ==> #[trigger] step(s, event).1[i]
                == Action::CloseControlChannel,
{
}

/// A child that ends without having been asked to ends the supervisor with
/// the child's own exit code, or with the code that stands for the signal
/// that ended it; the end is clean exactly if that code is 0.
pub proof fn lemma_unsolicited_exit(s: SupervisorView, pid: u32, exit: ChildExit)
    requires
        s.wf(),
        s.phase is Supervising,
        s.lifecycle.state == LifecycleState::Running(pid),
    ensures
        ({
            let (next, actions) = s.on_child_exit(exit);
            &&& next.phase == Phase::ended_with(exit.exit_code())
            &&& next.phase.exit_code() == Some(exit.exit_code())
            &&& next.lifecycle.state == exit.final_state()
            &&& actions == s.closing().push(Action::Exit { code: exit.exit_code() })
        }),
{
}

/// A shutdown at the operator's request is answered with `OK` and ends
/// cleanly: a running child is stopped with the default grace period first,
/// and once it is reaped, however it ended, the exit code is 0.
pub proof fn lemma_shutdown_is_clean(s: SupervisorView, pid: u32, exit: ChildExit)
    requires
        s.wf(),
        s.phase is Supervising,
        s.lifecycle.state == LifecycleState::Running(pid),
    ensures
        ({
            let (draining, answer, asked) = s.handle(CommandView::Shutdown);
            let (done, last) = draining.on_child_exit(exit);
            &&& answer == ResponseView::Okay
            &&& asked == ManagerView::stop_actions(pid, DEFAULT_GRACE_SECONDS)
            &&& draining.phase == Phase::ShuttingDown(0)
            &&& done.phase == Phase::CleanShutdown
            &&& last == s.closing().push(Action::Exit { code: 0 })
        }),
{
}

/// Errors of a single session end nothing: a line that is no command, or a
/// command that is turned down, leaves the supervisor exactly as it was and
/// asks for no work.
pub proof fn lemma_errors_change_nothing(s: SupervisorView, line: Seq<char>)
    requires
        s.handle_line(line).1 is Error,
    ensures
        s.handle_line(line).0 == s,
        s.handle_line(line).2 == Seq::<Action>::empty(),
{
}

/// How far a state is along the life of one child.
pub open spec fn progress(state: LifecycleState) -> nat {
    match state {
        LifecycleState::Idle => 0,
        LifecycleState::Starting => 1,
        LifecycleState::Running(_) => 2,
        LifecycleState::Stopping(_) => 3,
        LifecycleState::Exited(_) => 4,
        LifecycleState::Failed(_) => 4,
    }
}

/// The life of a child only moves forward: whatever happens, the state
/// either stays where it is along that life, or moves on, or a new launch
/// begins.
pub proof fn lemma_state_moves_forward(s: SupervisorView, event: Event)
    requires
        s.wf(),
    ensures
        progress(step(s, event).0.lifecycle.state) >= progress(s.lifecycle.state) || step(
            s,
            event,
        ).0.lifecycle.state is Starting,
{
}

/// A child keeps its process id for as long as it exists, and a state
/// without a child is reached only by reaping it: a report of its end is
/// what takes the process id away.
pub proof fn lemma_pid_is_stable(s: SupervisorView, event: Event)
    requires
        s.wf(),
        s.lifecycle.state.pid() is Some,
    ensures
        step(s, event).0.lifecycle.state.pid() is Some ==> step(s, event).0.lifecycle.state.pid()
            == s.lifecycle.state.pid(),
        step(s, event).0.lifecycle.state.pid() is None ==> event is ChildExit,
{
}

/// A process id appears only when a launch is reported to have succeeded.
pub proof fn lemma_pid_comes_from_launch(s: SupervisorView, event: Event)
    requires
        s.wf(),
        s.lifecycle.state.pid() is None,
        step(s, event).0.lifecycle.state.pid() is Some,
    ensures
        s.lifecycle.state is Starting,
        event matches Event::Spawned(pid) && step(s, event).0.lifecycle.state.pid() == Some(pid),
{
}

} // verus!
