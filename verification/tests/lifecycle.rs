use miscutils::process_waiter::action::Action;
use miscutils::process_waiter::lifecycle::{
    ChildExit, ExitOutcome, FailureReason, LifecycleError, LifecycleManager, LifecycleState,
    DEFAULT_GRACE_SECONDS, EXIT_KILLED, EXIT_SPAWN_FAILED,
};
use miscutils::process_waiter::signal::ChildSignal;

const ALL_SIGNALS: [(ChildSignal, &str); 6] = [
    (ChildSignal::Term, "TERM"),
    (ChildSignal::Int, "INT"),
    (ChildSignal::Hup, "HUP"),
    (ChildSignal::Kill, "KILL"),
    (ChildSignal::Usr1, "USR1"),
    (ChildSignal::Usr2, "USR2"),
];

fn running(pid: u32) -> LifecycleManager {
    let mut manager = LifecycleManager::new();
    assert_eq!(manager.start(), vec![Action::Spawn]);
    manager.on_spawned(pid);
    assert_eq!(manager.current_state(), LifecycleState::Running(pid));
    manager
}

fn stop(pid: u32, grace: u64) -> Vec<Action> {
    vec![
        Action::Signal { pid, signal: ChildSignal::Term },
        Action::ArmDeadline { pid, seconds: grace },
    ]
}

#[test]
fn signal_names_are_found_again() {
    for (signal, name) in ALL_SIGNALS {
        assert_eq!(ChildSignal::from_name(name), Some(signal));
        assert_eq!(signal.name(), name);
    }
}

#[test]
fn signal_names_are_exact() {
    for name in ["term", "SIGTERM", "TERM ", "", "STOP", "USR3", "Kill", "9"] {
        assert_eq!(ChildSignal::from_name(name), None);
    }
}

#[test]
fn a_new_manager_is_idle() {
    let manager = LifecycleManager::new();
    assert_eq!(manager.current_state(), LifecycleState::Idle);
    assert!(!manager.restart_pending());
}

#[test]
fn start_goes_through_starting_to_running() {
    let mut manager = LifecycleManager::new();
    assert_eq!(manager.start(), vec![Action::Spawn]);
    assert_eq!(manager.current_state(), LifecycleState::Starting);
    manager.on_spawned(41);
    assert_eq!(manager.current_state(), LifecycleState::Running(41));
}

#[test]
fn start_does_nothing_while_a_child_exists_or_is_on_its_way() {
    let mut manager = LifecycleManager::new();
    manager.start();
    assert_eq!(manager.start(), vec![]);
    assert_eq!(manager.current_state(), LifecycleState::Starting);
    manager.on_spawned(5);
    assert_eq!(manager.start(), vec![]);
    assert_eq!(manager.current_state(), LifecycleState::Running(5));
    manager.terminate(1).unwrap();
    assert_eq!(manager.start(), vec![]);
    assert_eq!(manager.current_state(), LifecycleState::Stopping(5));
}

#[test]
fn a_failed_launch_is_recorded() {
    let mut manager = LifecycleManager::new();
    manager.start();
    manager.on_spawn_failed();
    assert_eq!(
        manager.current_state(),
        LifecycleState::Failed(FailureReason::SpawnFailed)
    );
    assert_eq!(manager.start(), vec![Action::Spawn]);
}

#[test]
fn launch_reports_are_ignored_when_no_launch_is_under_way() {
    let mut manager = running(8);
    manager.on_spawned(9);
    assert_eq!(manager.current_state(), LifecycleState::Running(8));
    manager.on_spawn_failed();
    assert_eq!(manager.current_state(), LifecycleState::Running(8));
    let mut idle = LifecycleManager::new();
    idle.on_spawned(1);
    assert_eq!(idle.current_state(), LifecycleState::Idle);
}

#[test]
fn every_supported_signal_reaches_a_running_child() {
    let manager = running(77);
    for (signal, name) in ALL_SIGNALS {
        assert_eq!(manager.signal(name), Ok(Action::Signal { pid: 77, signal }));
    }
    assert_eq!(manager.current_state(), LifecycleState::Running(77));
}

#[test]
fn every_supported_signal_reaches_a_stopping_child() {
    let mut manager = running(78);
    manager.terminate(30).unwrap();
    for (signal, name) in ALL_SIGNALS {
        assert_eq!(manager.signal(name), Ok(Action::Signal { pid: 78, signal }));
    }
}

#[test]
fn signals_fail_without_a_child() {
    let idle = LifecycleManager::new();
    let mut starting = LifecycleManager::new();
    starting.start();
    let mut exited = running(3);
    exited.on_exit(ChildExit::Code(0));
    let mut failed = running(4);
    failed.on_exit(ChildExit::Signal(11));
    for manager in [&idle, &starting, &exited, &failed] {
        for (_, name) in ALL_SIGNALS {
            assert_eq!(manager.signal(name), Err(LifecycleError::NoActiveProcess));
        }
        assert_eq!(manager.signal("bogus"), Err(LifecycleError::NoActiveProcess));
    }
}

#[test]
fn unsupported_signals_are_turned_down() {
    let manager = running(12);
    for name in ["STOP", "term", "SIGKILL", "", "15"] {
        assert_eq!(manager.signal(name), Err(LifecycleError::UnsupportedSignal));
    }
}

#[test]
fn terminate_stops_a_running_child() {
    let mut manager = running(100);
    assert_eq!(manager.terminate(4), Ok(stop(100, 4)));
    assert_eq!(manager.current_state(), LifecycleState::Stopping(100));
}

#[test]
fn terminate_is_idempotent() {
    let mut manager = running(100);
    manager.terminate(4).unwrap();
    assert_eq!(manager.terminate(9), Ok(vec![]));
    assert_eq!(manager.current_state(), LifecycleState::Stopping(100));
    manager.on_exit(ChildExit::Code(2));
    assert_eq!(manager.terminate(9), Ok(vec![]));
    assert_eq!(manager.current_state(), LifecycleState::Exited(2));
}

#[test]
fn terminate_fails_before_a_child_exists() {
    let mut manager = LifecycleManager::new();
    assert_eq!(manager.terminate(1), Err(LifecycleError::NoActiveProcess));
    manager.start();
    assert_eq!(manager.terminate(1), Err(LifecycleError::NoActiveProcess));
    assert_eq!(manager.current_state(), LifecycleState::Starting);
}

#[test]
fn the_deadline_kills_a_child_that_is_still_stopping() {
    let mut manager = running(55);
    assert_eq!(manager.on_deadline(55), vec![]);
    manager.terminate(0).unwrap();
    assert_eq!(
        manager.on_deadline(55),
        vec![Action::Signal { pid: 55, signal: ChildSignal::Kill }]
    );
    assert_eq!(manager.on_deadline(56), vec![]);
    manager.on_exit(ChildExit::Signal(9));
    assert_eq!(manager.on_deadline(55), vec![]);
}

#[test]
fn restart_stops_then_launches_again() {
    let mut manager = running(20);
    assert_eq!(manager.restart(), Ok(stop(20, DEFAULT_GRACE_SECONDS)));
    assert_eq!(manager.current_state(), LifecycleState::Stopping(20));
    assert!(manager.restart_pending());
    assert_eq!(manager.on_exit(ChildExit::Signal(15)), ExitOutcome::Respawn);
    assert_eq!(manager.current_state(), LifecycleState::Starting);
    assert!(!manager.restart_pending());
    manager.on_spawned(21);
    assert_eq!(manager.current_state(), LifecycleState::Running(21));
}

#[test]
fn a_second_restart_fails_while_one_is_pending() {
    let mut manager = running(20);
    manager.restart().unwrap();
    assert_eq!(manager.restart(), Err(LifecycleError::RestartInProgress));
    assert_eq!(manager.current_state(), LifecycleState::Stopping(20));
    manager.on_exit(ChildExit::Code(0));
    assert_eq!(manager.restart(), Err(LifecycleError::RestartInProgress));
    manager.on_spawned(22);
    assert_eq!(manager.restart(), Ok(stop(22, DEFAULT_GRACE_SECONDS)));
}

#[test]
fn restart_of_a_stopping_child_waits_for_its_end() {
    let mut manager = running(30);
    manager.terminate(2).unwrap();
    assert_eq!(manager.restart(), Ok(vec![]));
    assert!(manager.restart_pending());
    assert_eq!(manager.on_exit(ChildExit::Code(0)), ExitOutcome::Respawn);
}

#[test]
fn restart_without_a_child_is_a_fresh_start() {
    let mut idle = LifecycleManager::new();
    assert_eq!(idle.restart(), Ok(vec![Action::Spawn]));
    assert_eq!(idle.current_state(), LifecycleState::Starting);
    let mut exited = running(3);
    exited.on_exit(ChildExit::Code(1));
    assert_eq!(exited.restart(), Ok(vec![Action::Spawn]));
    assert_eq!(exited.current_state(), LifecycleState::Starting);
    assert!(!exited.restart_pending());
}

#[test]
fn cancel_restart_gives_up_the_launch() {
    let mut manager = running(30);
    manager.restart().unwrap();
    manager.cancel_restart();
    assert!(!manager.restart_pending());
    assert_eq!(
        manager.on_exit(ChildExit::Code(0)),
        ExitOutcome::Stopped { unsolicited: false }
    );
    assert_eq!(manager.current_state(), LifecycleState::Exited(0));
}

#[test]
fn an_end_nobody_asked_for_is_unsolicited() {
    let mut manager = running(9);
    assert_eq!(
        manager.on_exit(ChildExit::Code(3)),
        ExitOutcome::Stopped { unsolicited: true }
    );
    assert_eq!(manager.current_state(), LifecycleState::Exited(3));
    let mut killed = running(10);
    assert_eq!(
        killed.on_exit(ChildExit::Signal(9)),
        ExitOutcome::Stopped { unsolicited: true }
    );
    assert_eq!(
        killed.current_state(),
        LifecycleState::Failed(FailureReason::Signaled(9))
    );
}

#[test]
fn an_end_after_terminate_is_solicited() {
    let mut manager = running(9);
    manager.terminate(1).unwrap();
    assert_eq!(
        manager.on_exit(ChildExit::Signal(15)),
        ExitOutcome::Stopped { unsolicited: false }
    );
    assert_eq!(
        manager.current_state(),
        LifecycleState::Failed(FailureReason::Signaled(15))
    );
}

#[test]
fn exit_reports_without_a_child_are_ignored() {
    let mut manager = LifecycleManager::new();
    assert_eq!(manager.on_exit(ChildExit::Code(0)), ExitOutcome::Ignored);
    assert_eq!(manager.current_state(), LifecycleState::Idle);
    manager.start();
    assert_eq!(manager.on_exit(ChildExit::Code(0)), ExitOutcome::Ignored);
    assert_eq!(manager.current_state(), LifecycleState::Starting);
    let mut exited = running(1);
    exited.on_exit(ChildExit::Code(5));
    assert_eq!(exited.on_exit(ChildExit::Code(6)), ExitOutcome::Ignored);
    assert_eq!(exited.current_state(), LifecycleState::Exited(5));
}

#[test]
fn pids_are_held_only_while_a_child_exists() {
    assert_eq!(LifecycleState::Idle.child_pid(), None);
    assert_eq!(LifecycleState::Starting.child_pid(), None);
    assert_eq!(LifecycleState::Running(4).child_pid(), Some(4));
    assert_eq!(LifecycleState::Stopping(4).child_pid(), Some(4));
    assert_eq!(LifecycleState::Exited(4).child_pid(), None);
    assert_eq!(
        LifecycleState::Failed(FailureReason::Signaled(4)).child_pid(),
        None
    );
}

#[test]
fn exit_codes_of_finished_children() {
    assert_eq!(LifecycleState::Idle.reported_exit_code(), None);
    assert_eq!(LifecycleState::Running(1).reported_exit_code(), None);
    assert_eq!(LifecycleState::Exited(0).reported_exit_code(), Some(0));
    assert_eq!(LifecycleState::Exited(42).reported_exit_code(), Some(42));
    let signaled = |n| LifecycleState::Failed(FailureReason::Signaled(n)).reported_exit_code();
    assert_eq!(signaled(1), Some(129));
    assert_eq!(signaled(9), Some(137));
    assert_eq!(signaled(15), Some(143));
    assert_eq!(signaled(127), Some(255));
    assert_eq!(signaled(128), Some(EXIT_KILLED));
    assert_eq!(signaled(0), Some(EXIT_KILLED));
    assert_eq!(signaled(-128), Some(EXIT_KILLED));
    assert_eq!(signaled(i32::MAX), Some(EXIT_KILLED));
    assert_eq!(
        LifecycleState::Failed(FailureReason::SpawnFailed).reported_exit_code(),
        Some(EXIT_SPAWN_FAILED)
    );
}

#[test]
fn exit_codes_of_endings() {
    assert_eq!(ChildExit::Code(0).code(), 0);
    assert_eq!(ChildExit::Code(-7).code(), -7);
    assert_eq!(ChildExit::Signal(2).code(), 130);
    assert_eq!(ChildExit::Signal(200).code(), 255);
    assert_eq!(ChildExit::Code(3).recorded(), LifecycleState::Exited(3));
    assert_eq!(
        ChildExit::Signal(6).recorded(),
        LifecycleState::Failed(FailureReason::Signaled(6))
    );
}

#[test]
fn lifecycle_error_messages() {
    assert_eq!(LifecycleError::NoActiveProcess.message(), "no active process");
    assert_eq!(LifecycleError::UnsupportedSignal.message(), "unsupported signal");
    assert_eq!(LifecycleError::RestartInProgress.message(), "restart in progress");
}
