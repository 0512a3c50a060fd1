use b2b::engine::{engine_config_text, init_sequence, EngineOptions, InitStep};
use b2b::error::{ctry, Error};
use b2b::mailbox::{after_job, startup_outcome, HandleState, JobOutcome, LoopStep, Mailbox};

#[test]
fn ctry_maps_ok_and_err() {
    assert!(ctry(0).is_ok());
    assert_eq!(Err(Error::CErr(7)), ctry(7));
}

#[test]
fn submit_before_install_is_closed() {
    let mut m: Mailbox<u32> = Mailbox::new();
    assert_eq!(m.state(), HandleState::Unset);
    assert_eq!(m.submit(1), Err(Error::Closed));
    assert_eq!(m.len(), 0);
}

#[test]
fn jobs_come_out_in_submission_order() {
    let mut m: Mailbox<u32> = Mailbox::new();
    assert_eq!(m.install(), Ok(()));
    for j in 1..=5 {
        assert_eq!(m.submit(j), Ok(()));
    }
    let mut seen = Vec::new();
    while let Some(j) = m.take_next() {
        seen.push(j);
    }
    assert_eq!(seen, vec![1, 2, 3, 4, 5]);
}

#[test]
fn install_happens_once() {
    let mut m: Mailbox<u32> = Mailbox::new();
    assert_eq!(m.install(), Ok(()));
    assert_eq!(m.install(), Err(Error::Closed));
    assert!(m.is_open());
}

#[test]
fn all_jobs_run_before_cancel_ends_the_loop() {
    // Jobs 1..=4 are work; 99 is the cancellation job.
    let mut m: Mailbox<u32> = Mailbox::new();
    m.install().unwrap();
    for j in 1..=4 {
        m.submit(j).unwrap();
    }
    m.submit(99).unwrap();
    let mut ran = Vec::new();
    loop {
        let j = m.take_next().expect("loop ended before cancellation");
        let outcome = if j == 99 { JobOutcome::CancelRequested } else { JobOutcome::Completed };
        if j != 99 {
            ran.push(j);
        }
        if after_job(outcome) == LoopStep::Exit {
            break;
        }
    }
    assert_eq!(m.finish_shutdown(true), Ok(()));
    assert_eq!(ran, vec![1, 2, 3, 4]);
}

#[test]
fn submissions_after_shutdown_are_closed() {
    let mut m: Mailbox<u32> = Mailbox::new();
    m.install().unwrap();
    m.submit(1).unwrap();
    assert_eq!(m.finish_shutdown(true), Ok(()));
    assert_eq!(m.state(), HandleState::Closed);
    assert_eq!(m.len(), 0);
    for j in 0..10 {
        assert_eq!(m.submit(j), Err(Error::Closed));
    }
    assert_eq!(m.install(), Err(Error::Closed));
}

#[test]
fn failing_job_does_not_stop_later_jobs() {
    // Job 1 fails, job 2 increments a counter, job 3 cancels.
    let mut m: Mailbox<u32> = Mailbox::new();
    m.install().unwrap();
    m.submit(1).unwrap();
    m.submit(2).unwrap();
    m.submit(3).unwrap();
    let mut counter = 0;
    while let Some(j) = m.take_next() {
        let outcome = match j {
            1 => JobOutcome::Failed,
            2 => {
                counter += 1;
                JobOutcome::Completed
            }
            _ => JobOutcome::CancelRequested,
        };
        if after_job(outcome) == LoopStep::Exit {
            break;
        }
    }
    assert_eq!(m.finish_shutdown(true), Ok(()));
    assert_eq!(counter, 1);
}

#[test]
fn shutdown_timeout_keeps_mailbox_then_later_call_succeeds() {
    let mut m: Mailbox<u32> = Mailbox::new();
    m.install().unwrap();
    m.submit(5).unwrap();
    assert_eq!(m.finish_shutdown(false), Err(Error::Timeout));
    assert!(m.is_open());
    assert_eq!(m.len(), 1);
    assert_eq!(m.finish_shutdown(true), Ok(()));
    assert_eq!(m.submit(6), Err(Error::Closed));
}

#[test]
fn after_job_continues_unless_cancelled() {
    assert_eq!(after_job(JobOutcome::Completed), LoopStep::Continue);
    assert_eq!(after_job(JobOutcome::Failed), LoopStep::Continue);
    assert_eq!(after_job(JobOutcome::CancelRequested), LoopStep::Exit);
}

#[test]
fn startup_outcomes() {
    assert_eq!(startup_outcome(true, true, true), Ok(()));
    assert_eq!(startup_outcome(false, true, true), Err(Error::Spawn));
    assert_eq!(startup_outcome(true, false, true), Err(Error::Spawn));
    assert_eq!(startup_outcome(true, true, false), Err(Error::Timeout));
}

#[test]
fn init_sequence_follows_options() {
    let none = EngineOptions { init_core: false, init_ua: false };
    assert_eq!(init_sequence(none), vec![InitStep::Runtime]);
    let core = EngineOptions { init_core: true, init_ua: false };
    assert_eq!(init_sequence(core), vec![InitStep::Runtime, InitStep::Core]);
    let ua = EngineOptions { init_core: false, init_ua: true };
    assert_eq!(init_sequence(ua), vec![InitStep::Runtime, InitStep::Core, InitStep::UserAgent]);
}

#[test]
fn engine_config_defaults_to_empty_line() {
    assert_eq!(engine_config_text(None), "\n");
    assert_eq!(engine_config_text(Some("module\tg711\n")), "module\tg711\n");
}
