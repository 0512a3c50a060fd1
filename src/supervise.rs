use vstd::prelude::*;

use crate::roles::{role_label, role_label_str, RoleKind};
use crate::text::{signed_decimal, signed_decimal_text};

verus! {

/// Interval at which the monitor polls the children.
pub const MONITOR_POLL_MS: u64 = 100;

/// Interval at which shutdown polls the children for exit.
pub const SHUTDOWN_POLL_MS: u64 = 50;

/// How a child process ended.
#[derive(Debug, Clone, Copy, PartialEq, Eq, Structural)]
pub enum ExitKind {
    /// It exited with this code.
    Code(i32),
    /// It was terminated by this signal.
    Signal(i32),
    /// Neither a code nor a signal is known.
    Unknown,
}

/// Why the orchestrator tears the group down.
#[derive(Debug, Clone, Copy, PartialEq, Eq, Structural)]
pub enum ShutdownCause {
    /// The child at this index ended, in this way.
    ChildExited(usize, ExitKind),
    /// The operator interrupted the run.
    Interrupt,
}

/// Decision of one monitor poll.
#[derive(Debug, Clone, Copy, PartialEq, Eq, Structural)]
pub enum MonitorDecision {
    KeepPolling,
    ShutDown(ShutdownCause),
}

/// Lifecycle state of a child process record.
#[derive(Debug, Clone, Copy, PartialEq, Eq, Structural)]
pub enum ChildState {
    Starting,
    Running,
    Ready,
    Ended(ExitKind),
}

/// What the orchestrator observed of a child.
#[derive(Debug, Clone, Copy, PartialEq, Eq, Structural)]
pub enum ChildEvent {
    /// The operating system reported the process started.
    Spawned,
    /// Its readiness line was read.
    ReadyLine,
    /// It ended.
    Exit(ExitKind),
}

/// Next state of a child record. An ended child stays ended; a readiness line
/// counts only for a running child.
pub open spec fn child_next(s: ChildState, e: ChildEvent) -> ChildState {
    match s {
        ChildState::Ended(_) => s,
        _ => match e {
            ChildEvent::Exit(k) => ChildState::Ended(k),
            ChildEvent::Spawned => if s == ChildState::Starting {
                ChildState::Running
            } else {
                s
            },
            ChildEvent::ReadyLine => if s == ChildState::Running {
                ChildState::Ready
            } else {
                s
            },
        },
    }
}

/// Next state of a child record (see `child_next`).
pub fn child_transition(s: ChildState, e: ChildEvent) -> (r: ChildState)
    ensures
        r == child_next(s, e),
{
    match s {
        ChildState::Ended(_) => s,
        _ => match e {
            ChildEvent::Exit(k) => ChildState::Ended(k),
            ChildEvent::Spawned => match s {
                ChildState::Starting => ChildState::Running,
                _ => s,
            },
            ChildEvent::ReadyLine => match s {
                ChildState::Running => ChildState::Ready,
                _ => s,
            },
        },
    }
}

/// Whether some child in `exits` has ended.
pub open spec fn any_exited(exits: Seq<Option<ExitKind>>) -> bool {
    exists|i: int| 0 <= i < exits.len() && #[trigger] exits[i] is Some
}

/// One monitor poll: given, for each tracked child in order, how it ended if
/// it did, and whether an operator interrupt arrived. The first child found
/// ended, or else the interrupt, starts the shutdown of the whole group.
pub fn monitor_step(exits: &Vec<Option<ExitKind>>, interrupted: bool) -> (r: MonitorDecision)
    ensures
        match r {
            MonitorDecision::ShutDown(ShutdownCause::ChildExited(i, k)) => i < exits@.len()
                && exits@[i as int] == Some(k) && forall|j: int| 0 <= j < i ==> #[trigger] exits@[j] is None,
            MonitorDecision::ShutDown(ShutdownCause::Interrupt) => !any_exited(exits@) && interrupted,
            MonitorDecision::KeepPolling => !any_exited(exits@) && !interrupted,
        },
{
    let mut i: usize = 0;
    while i < exits.len()
        invariant
            i <= exits@.len(),
            forall|j: int| 0 <= j < i ==> #[trigger] exits@[j] is None,
        decreases exits.len() - i,
    {
        if let Some(k) = exits[i] {
            return MonitorDecision::ShutDown(ShutdownCause::ChildExited(i, k));
        }
        i = i + 1;
    }
    if interrupted {
        MonitorDecision::ShutDown(ShutdownCause::Interrupt)
    } else {
        MonitorDecision::KeepPolling
    }
}

/// The message logged when a child's end starts the shutdown.
pub open spec fn exit_report(role: RoleKind, how: ExitKind) -> Seq<char> {
    match how {
        ExitKind::Code(c) => "child "@ + role_label(role) + " exited with code "@ + signed_decimal(
            c as int,
        ) + "; shutting down others"@,
        ExitKind::Signal(s) => "child "@ + role_label(role) + " terminated by signal "@
            + signed_decimal(s as int) + " ; shutting down others"@,
        ExitKind::Unknown => "child "@ + role_label(role) + " exited; shutting down others"@,
    }
}

/// The message logged when a child's end starts the shutdown.
pub fn exit_message(role: RoleKind, how: ExitKind) -> (r: String)
    ensures
        r@ == exit_report(role, how),
{
    let mut s = String::from_str("child ");
    s.append(role_label_str(role));
    match how {
        ExitKind::Code(c) => {
            s.append(" exited with code ");
            let d = signed_decimal_text(c as i64);
            s.append(d.as_str());
            s.append("; shutting down others");
        },
        ExitKind::Signal(g) => {
            s.append(" terminated by signal ");
            let d = signed_decimal_text(g as i64);
            s.append(d.as_str());
            s.append(" ; shutting down others");
        },
        ExitKind::Unknown => {
            s.append(" exited; shutting down others");
        },
    }
    s
}

/// The message logged when an operator interrupt starts the shutdown.
pub fn interrupt_message() -> (r: &'static str)
    ensures
        r@ == "Ctrl+C received; shutting down children"@,
{
    "Ctrl+C received; shutting down children"
}

/// Phase of the escalating shutdown of the children.
#[derive(Debug, Clone, Copy, PartialEq, Eq, Structural)]
pub enum EscalationPhase {
    /// Nothing sent yet.
    Start,
    /// The graceful termination signal was sent; waiting within the grace
    /// window.
    Grace,
    /// The kill signal was sent; waiting within the kill window.
    Kill,
    /// Shutdown is over.
    Done,
}

/// How the shutdown ended.
#[derive(Debug, Clone, Copy, PartialEq, Eq, Structural)]
pub enum ShutdownOutcome {
    /// Every child was seen to exit.
    AllExited,
    /// This many children were still alive after the kill window; they are
    /// left behind.
    Orphaned(usize),
}

/// What shutdown does next.
#[derive(Debug, Clone, Copy, PartialEq, Eq, Structural)]
pub enum EscalationAction {
    /// Send the graceful termination signal to every tracked child.
    SendTerm,
    /// Sleep `SHUTDOWN_POLL_MS`, then poll the children again.
    Poll,
    /// Send the kill signal to every child still alive.
    SendKill,
    /// Return.
    Finish(ShutdownOutcome),
}

/// One step of the escalating shutdown, `elapsed_ms` after it began, with
/// `alive` children not yet seen to exit. The grace window lasts `grace_ms`
/// from the start; the kill window follows it and lasts `kill_ms`.
pub open spec fn escalation_spec(
    phase: EscalationPhase,
    elapsed_ms: u64,
    alive: usize,
    grace_ms: u64,
    kill_ms: u64,
) -> (EscalationPhase, EscalationAction) {
    match phase {
        EscalationPhase::Start => (EscalationPhase::Grace, EscalationAction::SendTerm),
        EscalationPhase::Grace => if alive == 0 {
            (EscalationPhase::Done, EscalationAction::Finish(ShutdownOutcome::AllExited))
        } else if elapsed_ms < grace_ms {
            (EscalationPhase::Grace, EscalationAction::Poll)
        } else {
            (EscalationPhase::Kill, EscalationAction::SendKill)
        },
        EscalationPhase::Kill => if alive == 0 {
            (EscalationPhase::Done, EscalationAction::Finish(ShutdownOutcome::AllExited))
        } else if elapsed_ms < grace_ms + kill_ms {
            (EscalationPhase::Kill, EscalationAction::Poll)
        } else {
            (EscalationPhase::Done, EscalationAction::Finish(ShutdownOutcome::Orphaned(alive)))
        },
        EscalationPhase::Done => if alive == 0 {
            (EscalationPhase::Done, EscalationAction::Finish(ShutdownOutcome::AllExited))
        } else {
            (EscalationPhase::Done, EscalationAction::Finish(ShutdownOutcome::Orphaned(alive)))
        },
    }
}

/// One step of the escalating shutdown (see `escalation_spec`).
pub fn escalation_step(
    phase: EscalationPhase,
    elapsed_ms: u64,
    alive: usize,
    grace_ms: u64,
    kill_ms: u64,
) -> (r: (EscalationPhase, EscalationAction))
    ensures
        r == escalation_spec(phase, elapsed_ms, alive, grace_ms, kill_ms),
{
    match phase {
        EscalationPhase::Start => (EscalationPhase::Grace, EscalationAction::SendTerm),
        EscalationPhase::Grace => {
            if alive == 0 {
                (EscalationPhase::Done, EscalationAction::Finish(ShutdownOutcome::AllExited))
            } else if elapsed_ms < grace_ms {
                (EscalationPhase::Grace, EscalationAction::Poll)
            } else {
                (EscalationPhase::Kill, EscalationAction::SendKill)
            }
        },
        EscalationPhase::Kill => {
            if alive == 0 {
                (EscalationPhase::Done, EscalationAction::Finish(ShutdownOutcome::AllExited))
            } else if (elapsed_ms as u128) < (grace_ms as u128) + (kill_ms as u128) {
                (EscalationPhase::Kill, EscalationAction::Poll)
            } else {
                (EscalationPhase::Done, EscalationAction::Finish(ShutdownOutcome::Orphaned(alive)))
            }
        },
        EscalationPhase::Done => {
            if alive == 0 {
                (EscalationPhase::Done, EscalationAction::Finish(ShutdownOutcome::AllExited))
            } else {
                (EscalationPhase::Done, EscalationAction::Finish(ShutdownOutcome::Orphaned(alive)))
            }
        },
    }
}

/// Shutdown is bounded and honest: once `grace_ms + kill_ms` have passed it
/// never waits again; a child that ignores the graceful signal is sent the kill
/// signal once the grace window is over; and shutdown reports that every child
/// exited exactly when none is left alive.
pub proof fn lemma_escalation_bounded(
    phase: EscalationPhase,
    elapsed_ms: u64,
    alive: usize,
    grace_ms: u64,
    kill_ms: u64,
)
    ensures
        phase != EscalationPhase::Start && elapsed_ms >= grace_ms + kill_ms ==> escalation_spec(
            phase,
            elapsed_ms,
            alive,
            grace_ms,
            kill_ms,
        ).1 != EscalationAction::Poll,
        phase == EscalationPhase::Grace && alive > 0 && elapsed_ms >= grace_ms ==> escalation_spec(
            phase,
            elapsed_ms,
            alive,
            grace_ms,
            kill_ms,
        ) == (EscalationPhase::Kill, EscalationAction::SendKill),
        phase != EscalationPhase::Start ==> (escalation_spec(
            phase,
            elapsed_ms,
            alive,
            grace_ms,
            kill_ms,
        ).1 == EscalationAction::Finish(ShutdownOutcome::AllExited) <==> alive == 0),
{
}

} // verus!
