use vstd::prelude::*;

use crate::error::Error;

verus! {

/// How long `start` waits for the confirmation job to come back from the
/// engine thread.
pub const START_CONFIRM_MS: u64 = 2000;

/// How long `shutdown` waits for the cancellation job to be acknowledged by the
/// engine thread before it goes on to wait for the loop to exit.
pub const CANCEL_ACK_MS: u64 = 200;

/// Default bound on the wait for the engine loop to exit during `shutdown`.
pub const SHUTDOWN_TIMEOUT_MS: u64 = 5000;

/// State of the mailbox handle: unset before the engine thread signals
/// readiness, open while jobs are accepted, closed once shutdown completed.
#[derive(Debug, Clone, Copy, PartialEq, Eq, Structural)]
pub enum HandleState {
    Unset,
    Open,
    Closed,
}

/// The queue of deferred jobs consumed by the engine thread, together with the
/// state of the handle through which they are submitted.
pub struct Mailbox<T> {
    state: HandleState,
    pending: Vec<T>,
}

/// Mathematical model of a mailbox.
pub ghost struct MailboxModel<T> {
    pub state: HandleState,
    pub pending: Seq<T>,
}

impl<T> View for Mailbox<T> {
    type V = MailboxModel<T>;

    closed spec fn view(&self) -> MailboxModel<T> {
        MailboxModel { state: self.state, pending: self.pending@ }
    }
}

/// The mailbox after one submission, and what the submitter is told.
pub open spec fn submit_step<T>(m: MailboxModel<T>, job: T) -> (MailboxModel<T>, Result<(), Error>) {
    if m.state == HandleState::Open {
        (MailboxModel { state: m.state, pending: m.pending.push(job) }, Ok(()))
    } else {
        (m, Err(Error::Closed))
    }
}

/// The mailbox after the engine thread takes the next job, and that job.
pub open spec fn take_step<T>(m: MailboxModel<T>) -> (MailboxModel<T>, Option<T>) {
    if m.pending.len() > 0 {
        (MailboxModel { state: m.state, pending: m.pending.drop_first() }, Some(m.pending[0]))
    } else {
        (m, None)
    }
}

/// The mailbox after the jobs `js` were submitted one after another.
pub open spec fn submit_all<T>(m: MailboxModel<T>, js: Seq<T>) -> MailboxModel<T>
    decreases js.len(),
{
    if js.len() == 0 {
        m
    } else {
        submit_step(submit_all(m, js.drop_last()), js.last()).0
    }
}

/// The jobs handed to the engine thread by `n` successive takes.
pub open spec fn take_all<T>(m: MailboxModel<T>, n: nat) -> Seq<T>
    decreases n,
{
    if n == 0 {
        Seq::empty()
    } else {
        match take_step(m).1 {
            Some(j) => seq![j] + take_all(take_step(m).0, (n - 1) as nat),
            None => Seq::empty(),
        }
    }
}

impl<T> Mailbox<T> {
    /// A mailbox whose handle is not set yet: every submission fails.
    pub fn new() -> (r: Mailbox<T>)
        ensures
            r@.state == HandleState::Unset,
            r@.pending.len() == 0,
    {
        Mailbox { state: HandleState::Unset, pending: Vec::new() }
    }

    /// Sets the handle once the engine thread is ready. The handle is set at
    /// most once: a mailbox that is already open or closed is left as it is and
    /// `Closed` is returned.
    pub fn install(&mut self) -> (r: Result<(), Error>)
        ensures
            old(self)@.state == HandleState::Unset ==> r is Ok && final(self)@ == (MailboxModel {
                state: HandleState::Open,
                pending: old(self)@.pending,
            }),
            old(self)@.state != HandleState::Unset ==> r == Err::<(), Error>(Error::Closed)
                && final(self)@ == old(self)@,
    {
        match self.state {
            HandleState::Unset => {
                self.state = HandleState::Open;
                Ok(())
            },
            _ => Err(Error::Closed),
        }
    }

    /// Whether submissions are currently accepted.
    pub fn is_open(&self) -> (r: bool)
        ensures
            r == (self@.state == HandleState::Open),
    {
        match self.state {
            HandleState::Open => true,
            _ => false,
        }
    }

    /// The state of the handle.
    pub fn state(&self) -> (r: HandleState)
        ensures
            r == self@.state,
    {
        self.state
    }

    /// Number of jobs waiting for the engine thread.
    pub fn len(&self) -> (r: usize)
        ensures
            r == self@.pending.len(),
    {
        self.pending.len()
    }

    /// Queues a job behind all earlier ones. Fails with `Closed`, and keeps the
    /// job out of the queue, when the handle is unset or closed.
    pub fn submit(&mut self, job: T) -> (r: Result<(), Error>)
        ensures
            (final(self)@, r) == submit_step(old(self)@, job),
    {
        match self.state {
            HandleState::Open => {
                self.pending.push(job);
                Ok(())
            },
            _ => Err(Error::Closed),
        }
    }

    /// Takes the oldest waiting job, if any.
    pub fn take_next(&mut self) -> (r: Option<T>)
        ensures
            (final(self)@, r) == take_step(old(self)@),
    {
        if self.pending.len() > 0 {
            let j = self.pending.remove(0);
            proof {
                assert(self.pending@ =~= old(self)@.pending.drop_first());
            }
            Some(j)
        } else {
            None
        }
    }

    /// Last step of the shutdown protocol. When the engine loop was observed to
    /// exit, the handle is closed for good (later submissions fail) and jobs
    /// still waiting are discarded; otherwise `Timeout` is returned and the
    /// mailbox is left as it is, so that a later call can still succeed.
    pub fn finish_shutdown(&mut self, loop_exited: bool) -> (r: Result<(), Error>)
        ensures
            loop_exited ==> r is Ok && final(self)@ == (MailboxModel::<T> {
                state: HandleState::Closed,
                pending: Seq::empty(),
            }),
            !loop_exited ==> r == Err::<(), Error>(Error::Timeout) && final(self)@ == old(self)@,
    {
        if loop_exited {
            self.state = HandleState::Closed;
            self.pending = Vec::new();
            Ok(())
        } else {
            Err(Error::Timeout)
        }
    }
}

/// What a job reported when the engine thread ran it.
#[derive(Debug, Clone, Copy, PartialEq, Eq, Structural)]
pub enum JobOutcome {
    /// The job ran to completion.
    Completed,
    /// The job failed or panicked; the failure was caught where it was invoked.
    Failed,
    /// The job asked the engine loop to stop (the cancellation job).
    CancelRequested,
}

/// What the engine thread does after a job.
#[derive(Debug, Clone, Copy, PartialEq, Eq, Structural)]
pub enum LoopStep {
    Continue,
    Exit,
}

/// Whether the engine loop ends after a job with this outcome.
pub open spec fn loop_exits(outcome: JobOutcome) -> bool {
    outcome == JobOutcome::CancelRequested
}

/// The engine thread goes on with the next job after every job but the
/// cancellation job: a failing job never stops it.
pub fn after_job(outcome: JobOutcome) -> (r: LoopStep)
    ensures
        r == LoopStep::Exit <==> loop_exits(outcome),
{
    match outcome {
        JobOutcome::CancelRequested => LoopStep::Exit,
        _ => LoopStep::Continue,
    }
}

/// Result of `start`, from what was observed while starting: whether the
/// engine thread could be spawned, whether it allocated its mailbox, and
/// whether the confirmation job came back within `START_CONFIRM_MS`.
pub fn startup_outcome(thread_spawned: bool, mailbox_ready: bool, confirmed: bool) -> (r: Result<
    (),
    Error,
>)
    ensures
        r is Ok <==> thread_spawned && mailbox_ready && confirmed,
        !(thread_spawned && mailbox_ready) ==> r == Err::<(), Error>(Error::Spawn),
        thread_spawned && mailbox_ready && !confirmed ==> r == Err::<(), Error>(Error::Timeout),
{
    if !thread_spawned || !mailbox_ready {
        Err(Error::Spawn)
    } else if !confirmed {
        Err(Error::Timeout)
    } else {
        Ok(())
    }
}

/// Submitting to an open mailbox appends the jobs in submission order.
proof fn lemma_submit_all_open<T>(m: MailboxModel<T>, js: Seq<T>)
    requires
        m.state == HandleState::Open,
    ensures
        submit_all(m, js) == (MailboxModel { state: HandleState::Open, pending: m.pending + js }),
    decreases js.len(),
{
    if js.len() > 0 {
        lemma_submit_all_open(m, js.drop_last());
        assert(m.pending + js.drop_last() + seq![js.last()] =~= m.pending + js);
        assert((m.pending + js.drop_last()).push(js.last()) =~= m.pending + js);
    } else {
        assert(m.pending + js =~= m.pending);
    }
}

/// Taking as many jobs as are waiting yields exactly the waiting jobs, oldest
/// first.
proof fn lemma_take_all_pending<T>(m: MailboxModel<T>)
    ensures
        take_all(m, m.pending.len()) == m.pending,
    decreases m.pending.len(),
{
    if m.pending.len() > 0 {
        let next = take_step(m).0;
        lemma_take_all_pending(next);
        assert(seq![m.pending[0]] + m.pending.drop_first() =~= m.pending);
    } else {
        assert(m.pending =~= Seq::<T>::empty());
    }
}

/// Jobs submitted one after another by one producer to an open mailbox,
/// followed by the cancellation job, reach the engine thread each exactly once,
/// in submission order, behind the jobs already waiting, and all of them before
/// the cancellation job that ends the engine loop.
pub proof fn lemma_jobs_run_in_order_before_cancel<T>(m: MailboxModel<T>, js: Seq<T>, cancel: T)
    requires
        m.state == HandleState::Open,
    ensures
        take_all(submit_all(m, js.push(cancel)), m.pending.len() + js.len() + 1) == m.pending + js
            + seq![cancel],
{
    lemma_submit_all_open(m, js.push(cancel));
    let after = submit_all(m, js.push(cancel));
    assert(m.pending + js.push(cancel) =~= m.pending + js + seq![cancel]);
    lemma_take_all_pending(after);
}

/// Once the handle is closed, every later submission, from any producer and in
/// any number, is refused with `Closed` and leaves the mailbox unchanged.
pub proof fn lemma_closed_refuses_every_submission<T>(m: MailboxModel<T>, js: Seq<T>)
    requires
        m.state == HandleState::Closed,
    ensures
        submit_all(m, js) == m,
        forall|i: int| 0 <= i < js.len() ==> #[trigger] submit_step(submit_all(m, js.take(i)), js[i]).1
            == Err::<(), Error>(Error::Closed),
    decreases js.len(),
{
    if js.len() > 0 {
        lemma_closed_refuses_every_submission(m, js.drop_last());
        assert forall|i: int| 0 <= i < js.len() implies #[trigger] submit_step(
            submit_all(m, js.take(i)),
            js[i],
        ).1 == Err::<(), Error>(Error::Closed) by {
            lemma_closed_refuses_every_submission(m, js.take(i));
        }
    }
}

/// A failing job does not stop the engine thread: after it, the loop goes on
/// and the next take hands out the job that was queued behind it.
pub proof fn lemma_failed_job_does_not_block_next<T>(m: MailboxModel<T>)
    requires
        m.pending.len() >= 2,
    ensures
        !loop_exits(JobOutcome::Failed),
        take_step(take_step(m).0).1 == Some(m.pending[1]),
{
}

} // verus!
