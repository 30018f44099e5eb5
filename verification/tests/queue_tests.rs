use coop_futures::queue::{flush_primitive, FlushPrimitive, QueueState};

#[test]
fn flush_prefers_the_microtask_primitive() {
    assert_eq!(flush_primitive(true), FlushPrimitive::Microtask);
    assert_eq!(flush_primitive(false), FlushPrimitive::ResolvedDeferred);
}

#[test]
fn schedule_requests_flush_only_once() {
    let mut q = QueueState::new();
    assert!(q.schedule_task(1)); // no flush pending: request one
    assert!(!q.schedule_task(2)); // already pending: coalesced
    assert!(!q.push_task(3)); // push is schedule
}

#[test]
fn flush_runs_exactly_the_snapshot_in_order() {
    let mut q = QueueState::new();
    q.schedule_task(10);
    q.schedule_task(11);
    q.schedule_task(12);
    // None of the three tasks schedules anything while running.
    let appends = vec![vec![], vec![], vec![]];
    let (ran, request_next) = q.run_all(&appends);
    assert_eq!(ran, vec![10, 11, 12]);
    assert!(!request_next);
    // The queue is drained and no flush is pending: scheduling requests a
    // fresh callback.
    assert!(q.schedule_task(9));
}

#[test]
fn tasks_scheduled_during_flush_run_next_flush() {
    let mut q = QueueState::new();
    q.schedule_task(0);
    q.schedule_task(1);
    // Task 0 reschedules itself (id 0) and spawns id 5; task 1 spawns id 7.
    let appends = vec![vec![0, 5], vec![7]];
    let (ran, request_next) = q.run_all(&appends);
    // Only the snapshot ran, in scheduling order.
    assert_eq!(ran, vec![0, 1]);
    // The first mid-flush schedule requested the next flush callback.
    assert!(request_next);
    // The deferred tasks run in the next flush, in scheduling order.
    let appends2 = vec![vec![], vec![], vec![]];
    let (ran2, request3) = q.run_all(&appends2);
    assert_eq!(ran2, vec![0, 5, 7]);
    assert!(!request3);
}

#[test]
fn self_rescheduling_task_cannot_run_away() {
    let mut q = QueueState::new();
    q.schedule_task(4);
    // The task reschedules itself every time it runs; each flush still runs
    // exactly one task.
    for _ in 0..5 {
        let (ran, request_next) = q.run_all(&vec![vec![4]]);
        assert_eq!(ran, vec![4]);
        assert!(request_next);
    }
}

#[test]
fn empty_flush_runs_nothing() {
    let mut q = QueueState::new();
    q.schedule_task(1);
    let (ran, _) = q.run_all(&vec![vec![]]);
    assert_eq!(ran, vec![1]);
    let r = q.schedule_task(2);
    assert!(r);
    let (ran2, request) = q.run_all(&vec![vec![]]);
    assert_eq!(ran2, vec![2]);
    assert!(!request);
}
