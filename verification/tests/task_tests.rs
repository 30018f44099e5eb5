use coop_futures::task::{spawn, Executor, PollOutcome, Task};
use coop_futures::waker::{spurious_wakeup_diagnostic, AtomicWaker, WakeState};
use coop_futures::multithread::{
    is_safari_agent, plan_wait, is_wait_async_available, MtRunResult, MtTask, WaitPlan,
};

#[test]
fn task_completes_on_ready_poll() {
    let mut t = Task::new();
    assert!(t.run(PollOutcome::Pending)); // polled, still running
    assert!(t.run(PollOutcome::Ready)); // polled, completes
}

#[test]
fn completed_task_ignores_spurious_reentry() {
    let mut t = Task::new();
    assert!(t.run(PollOutcome::Ready));
    // Polled to completion, then spuriously re-entered: no further work, no
    // error.
    assert!(!t.run(PollOutcome::Ready));
    assert!(!t.run(PollOutcome::Pending));
}

#[test]
fn spawn_queues_first_run() {
    let mut ex = Executor::new();
    let (id0, request0) = spawn(&mut ex);
    assert_eq!(id0, 0);
    assert!(request0); // first spawn must ask the host for a flush
    let (id1, request1) = spawn(&mut ex);
    assert_eq!(id1, 1);
    assert!(!request1); // flush already pending
    assert!(ex.run_task(id0, PollOutcome::Ready));
    assert!(!ex.run_task(id0, PollOutcome::Ready)); // spurious re-entry
    assert!(ex.run_task(id1, PollOutcome::Pending));
    assert!(ex.run_task(id1, PollOutcome::Ready));
}

#[test]
fn waker_notifies_once_per_sleep() {
    let mut w = AtomicWaker::new();
    // Fresh waker is awake: wakes coalesce, no notify.
    assert!(!w.wake_by_ref());
    assert!(!w.wake_by_ref());
    // The task goes to sleep; the first wake notifies, later ones coalesce.
    let prev = w.prepare_poll();
    assert_eq!(prev, WakeState::Awake);
    assert!(w.wake_by_ref());
    assert!(!w.wake_by_ref());
    assert!(!w.wake_by_ref());
    // Sleep again: exactly one more notify for the next transition.
    w.prepare_poll();
    assert!(w.wake_by_ref());
}

#[test]
fn spurious_wakeup_is_logged_but_not_on_quirky_host() {
    assert!(!spurious_wakeup_diagnostic(WakeState::Awake, false));
    assert!(spurious_wakeup_diagnostic(WakeState::Sleeping, false));
    assert!(!spurious_wakeup_diagnostic(WakeState::Sleeping, true));
}

#[test]
fn mt_task_polls_until_parked() {
    let mut t = MtTask::new();
    // Two pending polls with mid-poll wakes, then a pending poll with the
    // flag still sleeping: the task parks after three polls.
    let polls = vec![PollOutcome::Pending, PollOutcome::Pending, PollOutcome::Pending];
    let flags = vec![WakeState::Awake, WakeState::Awake, WakeState::Sleeping];
    let r = t.run(WakeState::Awake, &polls, &flags);
    assert_eq!(r.result, MtRunResult::Parked);
    assert_eq!(r.polls_taken, 2);
    assert!(!r.spurious_entry);
}

#[test]
fn mt_task_completes_and_ignores_reentry() {
    let mut t = MtTask::new();
    let polls = vec![PollOutcome::Pending, PollOutcome::Ready];
    let flags = vec![WakeState::Awake, WakeState::Awake];
    let r = t.run(WakeState::Awake, &polls, &flags);
    assert_eq!(r.result, MtRunResult::Completed);
    assert_eq!(r.polls_taken, 1);
    // Spurious re-entry after completion does nothing.
    let r2 = t.run(WakeState::Sleeping, &polls, &flags);
    assert_eq!(r2.result, MtRunResult::NoWork);
    assert_eq!(r2.polls_taken, 0);
}

#[test]
fn mt_task_reports_spurious_entry() {
    let mut t = MtTask::new();
    let polls = vec![PollOutcome::Ready];
    let flags = vec![WakeState::Awake];
    let r = t.run(WakeState::Sleeping, &polls, &flags);
    assert!(r.spurious_entry);
    assert_eq!(r.result, MtRunResult::Completed);
}

#[test]
fn wait_plan_prefers_native() {
    assert_eq!(plan_wait(true, false, WakeState::Sleeping), WaitPlan::Native);
    assert_eq!(plan_wait(true, true, WakeState::Awake), WaitPlan::Native);
}

#[test]
fn wait_plan_falls_back_to_polyfill() {
    assert_eq!(
        plan_wait(false, false, WakeState::Sleeping),
        WaitPlan::Polyfill { timeout_ms: None }
    );
    // The quirky host family gets a one second timeout.
    assert_eq!(
        plan_wait(false, true, WakeState::Sleeping),
        WaitPlan::Polyfill { timeout_ms: Some(1000) }
    );
    // A wake that already arrived means no wait at all.
    assert_eq!(plan_wait(false, false, WakeState::Awake), WaitPlan::AlreadyAwake);
}

#[test]
fn is_wait_async_available_needs_all_three() {
    assert!(is_wait_async_available(false, true, false));
    assert!(!is_wait_async_available(true, true, false)); // disabled by config
    assert!(!is_wait_async_available(false, false, false)); // not offered
    assert!(!is_wait_async_available(false, true, true)); // quirky host
}

#[test]
fn safari_detection_matches_agent_strings() {
    assert!(is_safari_agent(b"Mozilla/5.0 (Macintosh) AppleWebKit Safari/605.1"));
    // Chrome advertises Safari too and must not count.
    assert!(!is_safari_agent(b"Mozilla/5.0 Chrome/120.0 Safari/537.36"));
    assert!(!is_safari_agent(b"Mozilla/5.0 (X11; Linux) Gecko/20100101 Firefox/115.0"));
    assert!(!is_safari_agent(b""));
    assert!(is_safari_agent(b"Safari"));
}
