//! The per-thread microtask queue.
//!
//! Ready tasks are kept in insertion order next to a single "a flush callback
//! is already pending" flag, so that many wake-ups coalesce into one host
//! callback. A flush runs exactly the tasks that were queued when it started:
//! tasks scheduled while it runs are deferred to the next flush, which bounds
//! every flush by the snapshot taken at its start.
//!
//! The host embedding owns the actual deferred-callback primitive. Whenever a
//! method here returns `true` for "request a flush callback", the embedding
//! must ask the host to invoke the flush on the next cooperative tick.

use vstd::prelude::*;

verus! {

/// Concatenation of a sequence of id batches, in order.
pub open spec fn flat(s: Seq<Seq<usize>>) -> Seq<usize>
    decreases s.len(),
{
    if s.len() == 0 {
        Seq::<usize>::empty()
    } else {
        flat(s.drop_last()) + s.last()
    }
}

proof fn lemma_flat_take_step(s: Seq<Seq<usize>>, k: int)
    requires
        0 <= k < s.len(),
    ensures
        flat(s.take(k + 1)) == flat(s.take(k)) + s[k],
{
    assert(s.take(k + 1).drop_last() =~= s.take(k));
    assert(s.take(k + 1).last() == s[k]);
}

/// The host primitive a flush callback is handed to.
#[derive(Clone, Copy, PartialEq, Eq, Structural, Debug)]
pub enum FlushPrimitive {
    /// The microtask-style primitive, which runs the callback before the
    /// event loop yields to other queued work.
    Microtask,
    /// The fallback: chain the callback onto an already-resolved deferred
    /// value, which runs it on the next cooperative tick.
    ResolvedDeferred,
}

/// Which primitive to request a flush callback through: prefer the
/// microtask-style one, falling back to an already-resolved deferred value
/// where the environment lacks it. Detected once, when the queue is set up.
pub fn flush_primitive(has_microtask_primitive: bool) -> (p: FlushPrimitive)
    ensures
        p == (if has_microtask_primitive {
            FlushPrimitive::Microtask
        } else {
            FlushPrimitive::ResolvedDeferred
        }),
{
    if has_microtask_primitive {
        FlushPrimitive::Microtask
    } else {
        FlushPrimitive::ResolvedDeferred
    }
}

/// The ordered collection of pending task ids, plus the "a flush callback is
/// already pending" flag. Tasks are identified by the ids the executor hands
/// out; the queue itself never runs anything.
pub struct QueueState {
    /// Pending tasks, front first; insertion order is run order.
    tasks: Vec<usize>,
    /// Whether a flush callback has been requested and has not started yet.
    is_scheduled: bool,
}

impl QueueState {
    /// The pending task ids, front first.
    pub closed spec fn tasks(self) -> Seq<usize> {
        self.tasks@
    }

    /// Whether a flush callback is currently pending.
    pub closed spec fn is_scheduled(self) -> bool {
        self.is_scheduled
    }

    /// An empty queue with no flush pending.
    pub fn new() -> (q: QueueState)
        ensures
            q.tasks() == Seq::<usize>::empty(),
            !q.is_scheduled(),
    {
        QueueState { tasks: Vec::new(), is_scheduled: false }
    }

    /// Enqueues a task and reports whether the host must be asked to invoke a
    /// flush on the next cooperative tick. At most one flush callback is ever
    /// pending: the request is made only when none is.
    pub fn schedule_task(&mut self, id: usize) -> (request_flush: bool)
        ensures
            final(self).tasks() == old(self).tasks().push(id),
            final(self).is_scheduled(),
            request_flush == !old(self).is_scheduled(),
    {
        self.tasks.push(id);
        let was_scheduled = self.is_scheduled;
        self.is_scheduled = true;
        !was_scheduled
    }

    /// Appends a task to the currently running queue, or schedules it.
    /// Appending into a running flush is deliberately deferred to the next
    /// tick rather than run inline, so this is the same as `schedule_task`.
    pub fn push_task(&mut self, id: usize) -> (request_flush: bool)
        ensures
            final(self).tasks() == old(self).tasks().push(id),
            final(self).is_scheduled(),
            request_flush == !old(self).is_scheduled(),
    {
        self.schedule_task(id)
    }

    /// One whole flush. Runs (pops, front first) exactly the tasks that were
    /// pending when the flush started, even if new tasks are appended
    /// meanwhile; `scheduled_during[k]` holds the ids that running the `k`-th
    /// popped task scheduled. The "flush pending" flag is consumed once, at
    /// flush start, so the first id scheduled during the flush requests the
    /// next flush callback.
    ///
    /// Returns the ids run, in order, and whether a new flush callback was
    /// requested. No task scheduled during this flush is run by it: they are
    /// all still pending afterwards, in scheduling order.
    #[verifier::loop_isolation(false)]
    pub fn run_all(&mut self, scheduled_during: &Vec<Vec<usize>>) -> (r: (Vec<usize>, bool))
        requires
            old(self).is_scheduled(),
            scheduled_during@.len() == old(self).tasks().len(),
        ensures
            r.0@ == old(self).tasks(),
            final(self).tasks() == flat(scheduled_during.deep_view()),
            final(self).is_scheduled() == (flat(scheduled_during.deep_view()).len() > 0),
            r.1 == (flat(scheduled_during.deep_view()).len() > 0),
    {
        let ghost init_tasks = self.tasks@;
        let ghost deep = scheduled_during.deep_view();

        // Consume the schedule: a new flush may be requested from here on.
        self.is_scheduled = false;

        // Stop when all tasks that were pending before this tick have been
        // run; tasks scheduled while running are left for the next tick.
        let n = self.tasks.len();
        let mut ran: Vec<usize> = Vec::new();
        let mut requested = false;
        let mut k: usize = 0;
        while k < n
            invariant
                k <= n,
                n == init_tasks.len(),
                scheduled_during@.len() == n,
                deep == scheduled_during.deep_view(),
                ran@ == init_tasks.take(k as int),
                self.tasks@ == init_tasks.skip(k as int) + flat(deep.take(k as int)),
                self.is_scheduled == (flat(deep.take(k as int)).len() > 0),
                requested == (flat(deep.take(k as int)).len() > 0),
            decreases n - k,
        {
            let id = self.tasks.remove(0);
            ran.push(id);

            let appends = &scheduled_during[k];
            proof {
                assert(id == init_tasks[k as int]);
                assert(self.tasks@ =~= init_tasks.skip(k + 1) + flat(deep.take(k as int))
                    + appends@.take(0));
                assert(deep[k as int] == appends@);
            }
            let mut j: usize = 0;
            while j < appends.len()
                invariant
                    j <= appends@.len(),
                    k < n,
                    n == init_tasks.len(),
                    scheduled_during@.len() == n,
                    deep == scheduled_during.deep_view(),
                    appends@ == scheduled_during@[k as int]@,
                    self.tasks@ == init_tasks.skip(k + 1) + flat(deep.take(k as int))
                        + appends@.take(j as int),
                    self.is_scheduled == (flat(deep.take(k as int)).len() + j > 0),
                    requested == (flat(deep.take(k as int)).len() + j > 0),
                decreases appends@.len() - j,
            {
                let request = self.schedule_task(appends[j]);
                if request {
                    requested = true;
                }
                proof {
                    assert(self.tasks@ =~= init_tasks.skip(k + 1) + flat(deep.take(k as int))
                        + appends@.take(j + 1));
                }
                j += 1;
            }

            proof {
                lemma_flat_take_step(deep, k as int);
                assert(deep[k as int] == appends@);
                assert(ran@ =~= init_tasks.take(k + 1));
                assert(self.tasks@ =~= init_tasks.skip(k + 1) + flat(deep.take(k + 1)));
            }
            k += 1;
        }
        proof {
            assert(deep.take(n as int) =~= deep);
            assert(ran@ =~= init_tasks);
            assert(self.tasks@ =~= flat(deep));
        }
        (ran, requested)
    }
}

} // verus!
