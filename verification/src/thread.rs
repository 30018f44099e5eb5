//! Thread holding.
//!
//! A background thread may be kept alive past the return of its entry
//! routine, so that deferred callbacks scheduled on it (by the queue or by
//! the wait polyfill) can still run; releasing the hold lets the thread
//! terminate once its current callback finishes. The host boundary offers the
//! two primitives; this state machine enforces their ordering contract: hold
//! is called at most once per thread, and release exactly once for every
//! hold — a released hold cannot be taken again, and a hold never released
//! leaks the thread permanently.

use vstd::prelude::*;

verus! {

/// Where one thread stands in the hold protocol.
#[derive(Clone, Copy, PartialEq, Eq, Structural, Debug)]
pub enum HoldState {
    /// The entry routine runs normally; no hold was requested.
    NotHeld,
    /// The thread will stay alive past its entry routine's return.
    Held,
    /// The hold has ended; the thread terminates after its current callback.
    Released,
}

/// The hold protocol of one background thread.
pub struct ThreadHold {
    state: HoldState,
}

impl ThreadHold {
    /// The thread's current place in the protocol.
    pub closed spec fn state(self) -> HoldState {
        self.state
    }

    /// A thread that has not requested a hold.
    pub fn new() -> (t: ThreadHold)
        ensures
            t.state() is NotHeld,
    {
        ThreadHold { state: HoldState::NotHeld }
    }

    /// Marks the calling thread as kept alive past the return of its entry
    /// routine. May be called at most once per thread, and only before the
    /// entry routine returns; the embedding issues the host's hold primitive
    /// together with this transition.
    pub fn hold(&mut self)
        requires
            old(self).state() is NotHeld,
        ensures
            final(self).state() is Held,
    {
        self.state = HoldState::Held;
    }

    /// Ends the hold: the thread terminates once its current callback
    /// completes. Must be called exactly once for every hold; the embedding
    /// issues the host's release primitive together with this transition.
    pub fn release(&mut self)
        requires
            old(self).state() is Held,
        ensures
            final(self).state() is Released,
    {
        self.state = HoldState::Released;
    }
}

} // verus!
