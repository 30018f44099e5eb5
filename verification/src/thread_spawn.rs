//! Spawning computations on dedicated threads, as cancellable, awaitable
//! handles.
//!
//! The spawned thread holds itself alive, runs the computation inside the
//! cooperative scheduler, and combines completion, panic and a racing
//! cancellation request with a first-resolved-wins selection: `select_step`
//! is that selection, applied to the events in the order they arrive, with
//! the computation's own result favoured over a simultaneous abort. The one
//! result it produces is sent back once; `JoinHandle` records it, or records
//! thread failure when the thread died without ever sending one. Panics are
//! caught only at this boundary; the payload travels as `PanicPayload`.

use vstd::prelude::*;

verus! {

/// What a spawned computation's panic left behind: its message, when the
/// payload was a string (the common case), or nothing nameable.
#[derive(Debug)]
pub struct PanicPayload {
    message: Option<String>,
}

impl PanicPayload {
    /// The panic message, if one was carried.
    pub closed spec fn message_view(self) -> Option<Seq<char>> {
        match self.message {
            Some(m) => Some(m@),
            None => None,
        }
    }

    /// A payload carrying a panic message.
    pub fn from_message(message: String) -> (p: PanicPayload)
        ensures
            p.message_view() == Some(message@),
    {
        PanicPayload { message: Some(message) }
    }

    /// A payload of some other, opaque shape.
    pub fn opaque() -> (p: PanicPayload)
        ensures
            p.message_view() is None,
    {
        PanicPayload { message: None }
    }
}

/// The panic message inside `payload`, if it carried one.
pub fn panic_payload_as_str(payload: &PanicPayload) -> (r: Option<&str>)
    ensures
        match r {
            Some(s) => payload.message_view() == Some(s@),
            None => payload.message_view() is None,
        },
{
    match &payload.message {
        Some(m) => Some(m.as_str()),
        None => None,
    }
}

/// Why a spawned task failed to execute to completion.
#[derive(Debug)]
enum Repr {
    /// Aborted.
    Aborted,
    /// Panicked.
    Panicked(PanicPayload),
    /// Thread failed.
    Failed,
}

/// Task failed to execute to completion.
#[derive(Debug)]
pub struct JoinError {
    repr: Repr,
}

impl JoinError {
    /// The error records a cancellation.
    pub closed spec fn is_aborted_spec(self) -> bool {
        self.repr is Aborted
    }

    /// The error records a panic of the computation.
    pub closed spec fn is_panicked_spec(self) -> bool {
        self.repr is Panicked
    }

    /// The error records a thread that died without sending a result.
    pub closed spec fn is_failed_spec(self) -> bool {
        self.repr is Failed
    }

    /// The panic payload, for an error that records a panic.
    pub closed spec fn payload_spec(self) -> PanicPayload
        recommends
            self.is_panicked_spec(),
    {
        self.repr->Panicked_0
    }

    /// Returns true if the error was caused by the task being cancelled.
    pub fn is_cancelled(&self) -> (r: bool)
        ensures
            r == self.is_aborted_spec(),
    {
        matches!(self.repr, Repr::Aborted)
    }

    /// Returns true if the error was caused by thread failure.
    pub fn is_failed(&self) -> (r: bool)
        ensures
            r == self.is_failed_spec(),
    {
        matches!(self.repr, Repr::Failed)
    }

    /// Returns true if the error was caused by the task panicking.
    pub fn is_panic(&self) -> (r: bool)
        ensures
            r == self.is_panicked_spec(),
    {
        matches!(self.repr, Repr::Panicked(_))
    }

    /// Consumes the join error, returning the object with which the task
    /// panicked. Callable only on an error that records a panic.
    pub fn into_panic(self) -> (p: PanicPayload)
        requires
            self.is_panicked_spec(),
        ensures
            p == self.payload_spec(),
    {
        match self.repr {
            Repr::Panicked(p) => p,
            Repr::Aborted => PanicPayload { message: None },  // unreachable by the precondition
            Repr::Failed => PanicPayload { message: None },  // unreachable by the precondition
        }
    }

    /// Consumes the join error, returning the object with which the task
    /// panicked if the task terminated due to a panic. Otherwise, `self` is
    /// returned.
    pub fn try_into_panic(self) -> (r: Result<PanicPayload, JoinError>)
        ensures
            self.is_panicked_spec() ==> r == Ok::<PanicPayload, JoinError>(self.payload_spec()),
            !self.is_panicked_spec() ==> r == Err::<PanicPayload, JoinError>(self),
    {
        match self.repr {
            Repr::Panicked(p) => Ok(p),
            Repr::Aborted => Err(JoinError { repr: Repr::Aborted }),
            Repr::Failed => Err(JoinError { repr: Repr::Failed }),
        }
    }

    /// An error is in exactly one of its three states: aborted, panicked, or
    /// thread failure — never two at once.
    pub proof fn lemma_states_exclusive(self)
        ensures
            self.is_aborted_spec() ==> !self.is_panicked_spec() && !self.is_failed_spec(),
            self.is_panicked_spec() ==> !self.is_aborted_spec() && !self.is_failed_spec(),
            self.is_failed_spec() ==> !self.is_aborted_spec() && !self.is_panicked_spec(),
            self.is_aborted_spec() || self.is_panicked_spec() || self.is_failed_spec(),
    {
    }
}

/// One event observed by the spawned thread's selection loop.
pub enum SpawnEvent<T> {
    /// The computation finished with a value.
    Completed(T),
    /// The computation panicked; the payload was caught at this boundary.
    Panicked(PanicPayload),
    /// The handle requested cancellation.
    AbortRequested,
    /// The handle was dropped without requesting cancellation; the
    /// computation keeps running.
    AbortDropped,
}

/// What the selection loop decides on one event; `None` keeps waiting.
pub closed spec fn select_step_spec<T>(ev: SpawnEvent<T>) -> Option<Result<T, JoinError>> {
    match ev {
        SpawnEvent::Completed(v) => Some(Ok(v)),
        SpawnEvent::Panicked(p) => Some(Err(JoinError { repr: Repr::Panicked(p) })),
        SpawnEvent::AbortRequested => Some(Err(JoinError { repr: Repr::Aborted })),
        SpawnEvent::AbortDropped => None,
    }
}

/// One step of the first-resolved-wins selection on the spawned thread:
/// whichever decisive event arrives first — the computation finishing (with
/// a value or a panic) or a cancellation request — determines the result
/// that is sent back, and the selection stops there. A dropped abort channel
/// is not decisive: the loop keeps waiting for the computation.
pub fn select_step<T>(ev: SpawnEvent<T>) -> (r: Option<Result<T, JoinError>>)
    ensures
        r == select_step_spec(ev),
        match ev {
            SpawnEvent::Completed(v) => r == Some(Ok::<T, JoinError>(v)),
            SpawnEvent::Panicked(p) => r matches Some(Err(e)) && e.is_panicked_spec()
                && e.payload_spec() == p,
            SpawnEvent::AbortRequested => r matches Some(Err(e)) && e.is_aborted_spec(),
            SpawnEvent::AbortDropped => r is None,
        },
{
    match ev {
        SpawnEvent::Completed(v) => Some(Ok(v)),
        SpawnEvent::Panicked(p) => Some(Err(JoinError { repr: Repr::Panicked(p) })),
        SpawnEvent::AbortRequested => Some(Err(JoinError { repr: Repr::Aborted })),
        SpawnEvent::AbortDropped => None,
    }
}

/// What the handle records from the completion channel: the result the
/// thread sent, or thread failure when the channel died without a message.
pub closed spec fn resolve_spec<T>(received: Option<Result<T, JoinError>>) -> Result<
    T,
    JoinError,
> {
    match received {
        Some(r) => r,
        None => Err(JoinError { repr: Repr::Failed }),
    }
}

/// An owned permission to join on a task: records the task's one terminal
/// state, and carries the one-shot cancellation signal.
pub struct JoinHandle<T> {
    resolved: Option<Result<T, JoinError>>,
    abort_sent: bool,
}

impl<T> JoinHandle<T> {
    /// The terminal state, once the handle has resolved.
    pub closed spec fn resolved(self) -> Option<Result<T, JoinError>> {
        self.resolved
    }

    /// Whether the one-shot cancellation signal has been spent.
    pub closed spec fn abort_sent(self) -> bool {
        self.abort_sent
    }

    /// The handle for a freshly spawned task: unresolved, abort still
    /// available.
    pub fn new() -> (h: JoinHandle<T>)
        ensures
            h.resolved() is None,
            !h.abort_sent(),
    {
        JoinHandle { resolved: None, abort_sent: false }
    }

    /// Abort the task associated with the handle: spends the one-shot
    /// cancellation signal. The embedding delivers the signal when this
    /// returns true (a second call finds it already spent). What the handle
    /// has resolved to, or will resolve to once the thread answers, is not
    /// touched: aborting a task that already completed has no observable
    /// effect, the original result stands.
    pub fn abort(&mut self) -> (send_signal: bool)
        ensures
            final(self).abort_sent(),
            send_signal == !old(self).abort_sent(),
            final(self).resolved() == old(self).resolved(),
    {
        let send_signal = !self.abort_sent;
        self.abort_sent = true;
        send_signal
    }

    /// Resolves the handle with what came over the completion channel:
    /// the result the thread sent, or — when the thread died without ever
    /// sending one — thread failure. A handle resolves at most once.
    pub fn resolve(&mut self, received: Option<Result<T, JoinError>>)
        requires
            old(self).resolved() is None,
        ensures
            final(self).resolved() == Some(resolve_spec(received)),
            received matches Some(res) ==> final(self).resolved() == Some(res),
            received is None ==> (final(self).resolved() matches Some(Err(e))
                && e.is_failed_spec()),
            final(self).abort_sent() == old(self).abort_sent(),
    {
        match received {
            Some(res) => {
                self.resolved = Some(res);
            },
            None => {
                self.resolved = Some(Err(JoinError { repr: Repr::Failed }));
            },
        }
    }

    /// Whether the handle has reached its terminal state.
    pub fn is_resolved(&self) -> (r: bool)
        ensures
            r == (self.resolved() is Some),
    {
        matches!(self.resolved, Some(_))
    }

    /// Consumes the handle, returning its terminal state.
    pub fn take_result(self) -> (r: Result<T, JoinError>)
        requires
            self.resolved() is Some,
        ensures
            Some(r) == self.resolved(),
    {
        match self.resolved {
            Some(res) => res,
            None => Err(JoinError { repr: Repr::Failed }),  // unreachable by the precondition
        }
    }
}

/// A spawned computation that completes with value `v` resolves its handle
/// to that value: the thread-side selection decides `Ok(v)`, and the handle
/// records exactly what was sent.
pub proof fn lemma_completion_resolves_to_value<T>(v: T)
    ensures
        select_step_spec(SpawnEvent::Completed(v)) == Some(Ok::<T, JoinError>(v)),
        resolve_spec(select_step_spec(SpawnEvent::Completed(v))) == Ok::<T, JoinError>(v),
{
}

/// A spawned computation whose future panics resolves its handle to the
/// panic error, carrying the caught payload through unchanged.
pub proof fn lemma_panic_resolves_to_payload<T>(p: PanicPayload)
    ensures
        select_step_spec::<T>(SpawnEvent::Panicked(p)) matches Some(Err(e))
            && e.is_panicked_spec() && e.payload_spec() == p,
        resolve_spec(select_step_spec::<T>(SpawnEvent::Panicked(p))) matches Err(e)
            && e.is_panicked_spec() && e.payload_spec() == p,
{
}

/// A cancellation request that wins the race resolves the handle to the
/// cancellation error, and to nothing else.
pub proof fn lemma_abort_resolves_to_cancelled<T>()
    ensures
        select_step_spec::<T>(SpawnEvent::AbortRequested) matches Some(Err(e))
            && e.is_aborted_spec() && !e.is_panicked_spec() && !e.is_failed_spec(),
        resolve_spec(select_step_spec::<T>(SpawnEvent::AbortRequested)) matches Err(e)
            && e.is_aborted_spec(),
{
}

/// A thread that dies without sending any result resolves the handle to the
/// distinct thread-failure error, not to a panic and not to a cancellation.
pub proof fn lemma_thread_failure_is_distinct<T>()
    ensures
        resolve_spec::<T>(None) matches Err(e) && e.is_failed_spec() && !e.is_panicked_spec()
            && !e.is_aborted_spec(),
{
}

} // verus!
