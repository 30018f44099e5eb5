//! The cross-thread wake flag and its protocol.
//!
//! A multi-thread task shares a two-state atomic flag, `AWAKE` or `SLEEPING`,
//! with every waker bound to it. Waking swaps the flag to `AWAKE`; only the
//! transition out of `SLEEPING` issues the native notify instruction, so
//! repeated wake-ups coalesce instead of causing a notify storm. The task
//! swaps the flag to `SLEEPING` just before polling, to catch wakes that
//! arrive mid-poll.
//!
//! The flag is mutated only through atomic read-modify-write operations; the
//! host embedding owns the shared cell and the notify instruction, and each
//! method here is the decision made on one such operation's result.

use vstd::prelude::*;

verus! {

/// The two states of the shared wake flag.
#[derive(Clone, Copy, PartialEq, Eq, Structural, Debug)]
pub enum WakeState {
    /// The bound task is (about to go) waiting for a notify.
    Sleeping,
    /// The bound task is ready to make progress; a wake was delivered or the
    /// task is currently running.
    Awake,
}

/// One waker's view of the shared flag, together with the wake protocol.
pub struct AtomicWaker {
    state: WakeState,
}

/// What one wake call does to the flag, and whether it must issue the native
/// notify instruction: only the `SLEEPING` to `AWAKE` transition notifies.
pub open spec fn wake_transition(s: WakeState) -> (WakeState, bool) {
    (WakeState::Awake, s is Sleeping)
}

/// How many notifies a run of `n` consecutive wake calls issues, starting
/// from flag state `s`.
pub open spec fn notify_count(s: WakeState, n: nat) -> nat
    decreases n,
{
    if n == 0 {
        0
    } else {
        (if wake_transition(s).1 {
            1nat
        } else {
            0nat
        }) + notify_count(wake_transition(s).0, (n - 1) as nat)
    }
}

/// Repeated wake-ups coalesce: between two `SLEEPING` to `AWAKE` transitions
/// the native notify instruction is issued at most once, however many times
/// the waker is called. A run of wakes from `AWAKE` — that is, after the
/// transition that last notified, and before the task goes back to sleep —
/// notifies zero times; from `SLEEPING`, exactly once, by the first call.
pub proof fn lemma_wake_coalesces(s: WakeState, n: nat)
    ensures
        notify_count(s, n) <= 1,
        s is Awake ==> notify_count(s, n) == 0,
        s is Sleeping && n > 0 ==> notify_count(s, n) == 1,
    decreases n,
{
    if n > 0 {
        lemma_wake_coalesces(WakeState::Awake, (n - 1) as nat);
    }
}

impl AtomicWaker {
    /// The flag's current value.
    pub closed spec fn state(self) -> WakeState {
        self.state
    }

    /// A fresh waker; a task starts out `AWAKE` (it is about to be polled).
    pub fn new() -> (w: AtomicWaker)
        ensures
            w.state() is Awake,
    {
        AtomicWaker { state: WakeState::Awake }
    }

    /// One wake call: atomically swaps the flag to `AWAKE`. Returns whether
    /// the native notify instruction must be issued, which is the case only
    /// for the `SLEEPING` to `AWAKE` transition; if the flag was already
    /// `AWAKE` a previous call has notified and there is nothing to do.
    pub fn wake_by_ref(&mut self) -> (notify: bool)
        ensures
            final(self).state() is Awake,
            notify == (old(self).state() is Sleeping),
            (final(self).state(), notify) == wake_transition(old(self).state()),
    {
        let prev = self.state;
        self.state = WakeState::Awake;
        match prev {
            WakeState::Awake => false,
            WakeState::Sleeping => true,
        }
    }

    /// The swap the task performs just before polling: flag the task as ready
    /// to receive a notification, and return the previous value, so that a
    /// wake arriving mid-poll is caught by the wait that follows. A previous
    /// value other than `AWAKE` marks the entry as a spurious wakeup.
    pub fn prepare_poll(&mut self) -> (prev: WakeState)
        ensures
            final(self).state() is Sleeping,
            prev == old(self).state(),
    {
        let prev = self.state;
        self.state = WakeState::Sleeping;
        prev
    }
}

/// Whether a run entered with previous flag value `prev` is a spurious
/// wakeup worth a diagnostic: the flag should have been `AWAKE`, and the
/// quirk is expected (and stays silent) on the one host family that delivers
/// such wakeups routinely.
pub fn spurious_wakeup_diagnostic(prev: WakeState, quirky_host: bool) -> (log: bool)
    ensures
        log == (!(prev is Awake) && !quirky_host),
{
    match prev {
        WakeState::Awake => false,
        WakeState::Sleeping => !quirky_host,
    }
}

} // verus!
