use b2b::roles::RoleKind;
use b2b::supervise::{
    child_transition, escalation_step, exit_message, interrupt_message, monitor_step, ChildEvent,
    ChildState, EscalationAction, EscalationPhase, ExitKind, MonitorDecision, ShutdownCause,
    ShutdownOutcome, SHUTDOWN_POLL_MS,
};

#[test]
fn first_exited_child_triggers_shutdown() {
    let exits = vec![None, Some(ExitKind::Code(3)), Some(ExitKind::Signal(9))];
    assert_eq!(
        monitor_step(&exits, true),
        MonitorDecision::ShutDown(ShutdownCause::ChildExited(1, ExitKind::Code(3)))
    );
}

#[test]
fn interrupt_triggers_shutdown_when_all_alive() {
    assert_eq!(
        monitor_step(&vec![None, None], true),
        MonitorDecision::ShutDown(ShutdownCause::Interrupt)
    );
    assert_eq!(monitor_step(&vec![None, None], false), MonitorDecision::KeepPolling);
    assert_eq!(monitor_step(&vec![], false), MonitorDecision::KeepPolling);
}

#[test]
fn exit_messages_name_the_cause() {
    assert_eq!(
        exit_message(RoleKind::Sink, ExitKind::Code(2)),
        "child Sink exited with code 2; shutting down others"
    );
    assert_eq!(
        exit_message(RoleKind::Mixer, ExitKind::Code(-1)),
        "child Mixer exited with code -1; shutting down others"
    );
    assert_eq!(
        exit_message(RoleKind::Source, ExitKind::Signal(15)),
        "child Source terminated by signal 15 ; shutting down others"
    );
    assert_eq!(
        exit_message(RoleKind::Sink, ExitKind::Unknown),
        "child Sink exited; shutting down others"
    );
    assert_eq!(interrupt_message(), "Ctrl+C received; shutting down children");
}

/// Runs the escalation against a child that ignores the graceful signal and
/// exits 30 ms after the kill signal; returns the actions and the time spent.
fn run_stubborn_child(grace_ms: u64, kill_ms: u64) -> (Vec<EscalationAction>, u64) {
    let mut phase = EscalationPhase::Start;
    let mut now = 0u64;
    let mut killed_at: Option<u64> = None;
    let mut actions = Vec::new();
    loop {
        let alive = match killed_at {
            Some(t) if now >= t + 30 => 0,
            _ => 1,
        };
        let (next, action) = escalation_step(phase, now, alive, grace_ms, kill_ms);
        actions.push(action);
        phase = next;
        match action {
            EscalationAction::SendKill => killed_at = Some(now),
            EscalationAction::Poll => now += SHUTDOWN_POLL_MS,
            EscalationAction::Finish(_) => return (actions, now),
            EscalationAction::SendTerm => {}
        }
    }
}

#[test]
fn stubborn_child_is_killed_and_confirmed_exited_within_bound() {
    let (actions, elapsed) = run_stubborn_child(200, 300);
    assert_eq!(actions[0], EscalationAction::SendTerm);
    assert!(actions.contains(&EscalationAction::SendKill));
    assert_eq!(
        *actions.last().unwrap(),
        EscalationAction::Finish(ShutdownOutcome::AllExited)
    );
    assert!(elapsed <= 200 + 300 + SHUTDOWN_POLL_MS);
}

#[test]
fn unkillable_child_is_orphaned_after_both_windows() {
    let mut phase = EscalationPhase::Grace;
    let mut now = 0u64;
    loop {
        let (next, action) = escalation_step(phase, now, 1, 100, 100);
        phase = next;
        match action {
            EscalationAction::Finish(o) => {
                assert_eq!(o, ShutdownOutcome::Orphaned(1));
                break;
            }
            _ => now += SHUTDOWN_POLL_MS,
        }
    }
    assert_eq!(now, 200);
}

#[test]
fn children_exiting_in_grace_window_finish_early() {
    assert_eq!(
        escalation_step(EscalationPhase::Grace, 50, 0, 5000, 15000),
        (EscalationPhase::Done, EscalationAction::Finish(ShutdownOutcome::AllExited))
    );
    assert_eq!(
        escalation_step(EscalationPhase::Grace, 50, 2, 5000, 15000),
        (EscalationPhase::Grace, EscalationAction::Poll)
    );
    assert_eq!(
        escalation_step(EscalationPhase::Kill, u64::MAX, 2, u64::MAX, u64::MAX),
        (EscalationPhase::Kill, EscalationAction::Poll)
    );
}

#[test]
fn child_record_transitions() {
    let s = child_transition(ChildState::Starting, ChildEvent::Spawned);
    assert_eq!(s, ChildState::Running);
    let s = child_transition(s, ChildEvent::ReadyLine);
    assert_eq!(s, ChildState::Ready);
    let s = child_transition(s, ChildEvent::Exit(ExitKind::Code(0)));
    assert_eq!(s, ChildState::Ended(ExitKind::Code(0)));
    assert_eq!(child_transition(s, ChildEvent::Spawned), s);
    assert_eq!(child_transition(ChildState::Starting, ChildEvent::ReadyLine), ChildState::Starting);
}
