use coop_futures::thread::ThreadHold;
use coop_futures::thread_spawn::{
    panic_payload_as_str, select_step, JoinHandle, PanicPayload, SpawnEvent,
};

#[test]
fn completion_resolves_handle_to_value() {
    // The computation finishes with 42: the selection decides Ok(42) and the
    // handle records exactly that.
    let step = select_step(SpawnEvent::Completed(42u32));
    let mut h = JoinHandle::new();
    h.resolve(step);
    assert!(h.is_resolved());
    let r = h.take_result();
    assert_eq!(r.unwrap(), 42);
}

#[test]
fn panic_resolves_handle_to_panic_message() {
    let payload = PanicPayload::from_message("boom".to_string());
    let step = select_step::<u32>(SpawnEvent::Panicked(payload));
    let mut h = JoinHandle::new();
    h.resolve(step);
    let err = h.take_result().unwrap_err();
    assert!(err.is_panic());
    assert!(!err.is_cancelled());
    assert!(!err.is_failed());
    let payload = err.into_panic();
    assert_eq!(panic_payload_as_str(&payload), Some("boom"));
}

#[test]
fn opaque_panic_payload_has_no_message() {
    let payload = PanicPayload::opaque();
    assert_eq!(panic_payload_as_str(&payload), None);
}

#[test]
fn abort_before_completion_resolves_to_cancelled() {
    let mut h = JoinHandle::<u32>::new();
    // The handle's abort sends the one-shot signal...
    assert!(h.abort());
    // ...the thread sees it first and resolves the race to cancellation.
    let step = select_step::<u32>(SpawnEvent::AbortRequested);
    h.resolve(step);
    let err = h.take_result().unwrap_err();
    assert!(err.is_cancelled());
    assert!(!err.is_panic());
    assert!(!err.is_failed());
}

#[test]
fn abort_after_completion_has_no_effect() {
    let mut h = JoinHandle::new();
    h.resolve(select_step(SpawnEvent::Completed(7i64)));
    // Aborting a task that already completed: the signal is never observed
    // and the original result stands.
    h.abort();
    assert_eq!(h.take_result().unwrap(), 7);
}

#[test]
fn abort_signal_is_one_shot() {
    let mut h = JoinHandle::<u32>::new();
    assert!(h.abort());
    assert!(!h.abort());
}

#[test]
fn dropped_abort_channel_keeps_waiting() {
    // The handle went away without aborting: not decisive, the selection
    // keeps waiting for the computation.
    let step = select_step::<u32>(SpawnEvent::AbortDropped);
    assert!(step.is_none());
}

#[test]
fn dead_thread_resolves_to_failed() {
    let mut h = JoinHandle::<u32>::new();
    // The thread died without sending any result.
    h.resolve(None);
    let err = h.take_result().unwrap_err();
    assert!(err.is_failed());
    assert!(!err.is_panic());
    assert!(!err.is_cancelled());
}

#[test]
fn try_into_panic_returns_non_panics() {
    let mut h = JoinHandle::<u32>::new();
    h.abort();
    h.resolve(select_step(SpawnEvent::AbortRequested));
    let err = h.take_result().unwrap_err();
    let back = err.try_into_panic().unwrap_err();
    assert!(back.is_cancelled());

    let payload = PanicPayload::from_message("oops".to_string());
    let step = select_step::<u32>(SpawnEvent::Panicked(payload));
    let mut h2 = JoinHandle::new();
    h2.resolve(step);
    let err2 = h2.take_result().unwrap_err();
    let payload2 = err2.try_into_panic().unwrap();
    assert_eq!(panic_payload_as_str(&payload2), Some("oops"));
}

#[test]
fn thread_hold_protocol() {
    let mut hold = ThreadHold::new();
    hold.hold();
    hold.release();
}
