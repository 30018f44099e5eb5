//! Single-thread tasks and the executor that owns them.
//!
//! A task wraps one suspended computation. The computation itself lives with
//! the host embedding; polling it is the one step the scheduler cannot take
//! on its own, so `Task::run` receives the poll's outcome and makes every
//! decision around it: whether the computation may be entered at all, and
//! when its resources are torn down. Completion destroys the inner state at
//! once, which makes a spurious re-entry a guaranteed no-op.

use vstd::prelude::*;
use crate::queue::QueueState;

verus! {

/// What polling the suspended computation reported.
#[derive(Clone, Copy, PartialEq, Eq, Structural, Debug)]
pub enum PollOutcome {
    /// The computation finished.
    Ready,
    /// The computation suspended itself; a captured waker will re-schedule it.
    Pending,
}

/// The lifecycle of one task's inner state.
#[derive(Clone, Copy, PartialEq, Eq, Structural, Debug)]
pub enum TaskState {
    /// The suspended computation is still held and may be polled.
    Running,
    /// The computation finished and its state was torn down.
    Completed,
}

/// A single-thread task: holds a suspended computation until it completes.
pub struct Task {
    state: TaskState,
}

impl Task {
    /// The task's lifecycle state.
    pub closed spec fn state(self) -> TaskState {
        self.state
    }

    /// A freshly spawned task, still holding its computation.
    pub fn new() -> (t: Task)
        ensures
            t.state() is Running,
    {
        Task { state: TaskState::Running }
    }

    /// One run of the task, invoked by a queue flush.
    ///
    /// `polled` reports whether the computation was entered; when it was,
    /// `outcome` is what the poll reported. A completed task detects its
    /// torn-down inner state and returns immediately, without error: the
    /// computation is never entered again. On `Ready` the inner state is
    /// dropped at once; on `Pending` the task stays as it was, relying on
    /// whatever waker the computation captured to re-enqueue it later.
    pub fn run(&mut self, outcome: PollOutcome) -> (polled: bool)
        ensures
            polled == (old(self).state() is Running),
            old(self).state() is Completed ==> *final(self) == *old(self),
            old(self).state() is Running ==> final(self).state() == (match outcome {
                PollOutcome::Ready => TaskState::Completed,
                PollOutcome::Pending => TaskState::Running,
            }),
    {
        match self.state {
            TaskState::Completed => false,
            TaskState::Running => {
                match outcome {
                    PollOutcome::Ready => {
                        self.state = TaskState::Completed;
                    },
                    PollOutcome::Pending => {},
                }
                true
            },
        }
    }
}

/// One thread's executor: its microtask queue and the tasks the queue's ids
/// refer to. Task ids are indices into `tasks`; a task is never removed, only
/// marked completed, so ids stay stable.
pub struct Executor {
    queue: QueueState,
    tasks: Vec<Task>,
}

impl Executor {
    /// The queue of pending task ids.
    pub closed spec fn queue(self) -> QueueState {
        self.queue
    }

    /// All tasks ever spawned on this executor, by id.
    pub closed spec fn tasks(self) -> Seq<Task> {
        self.tasks@
    }

    /// Every id the queue holds names a task of this executor.
    pub open spec fn wf(self) -> bool {
        forall|i: int|
            0 <= i < self.queue().tasks().len() ==> self.queue().tasks()[i] < self.tasks().len()
    }

    /// An executor with no tasks and an idle queue.
    pub fn new() -> (e: Executor)
        ensures
            e.wf(),
            e.tasks().len() == 0,
            e.queue().tasks().len() == 0,
            !e.queue().is_scheduled(),
    {
        Executor { queue: QueueState::new(), tasks: Vec::new() }
    }

    /// Runs the task `id` with the outcome its poll reported; see `Task::run`.
    pub fn run_task(&mut self, id: usize, outcome: PollOutcome) -> (polled: bool)
        requires
            id < old(self).tasks().len(),
        ensures
            final(self).queue() == old(self).queue(),
            final(self).tasks().len() == old(self).tasks().len(),
            forall|i: int|
                0 <= i < old(self).tasks().len() && i != id ==> final(self).tasks()[i]
                    == old(self).tasks()[i],
            polled == (old(self).tasks()[id as int].state() is Running),
            old(self).tasks()[id as int].state() is Completed ==> final(self).tasks()[id as int]
                == old(self).tasks()[id as int],
            old(self).tasks()[id as int].state() is Running ==> final(self).tasks()[id as int]
                .state() == (match outcome {
                PollOutcome::Ready => TaskState::Completed,
                PollOutcome::Pending => TaskState::Running,
            }),
            old(self).wf() ==> final(self).wf(),
    {
        let task = &mut self.tasks[id];
        task.run(outcome)
    }
}

/// Spawns a suspended computation: wraps it in a task and queues the task's
/// first run on the next cooperative tick. Returns the new task's id and
/// whether the host must be asked for a flush callback (true only when no
/// flush was already pending).
pub fn spawn(executor: &mut Executor) -> (r: (usize, bool))
    requires
        old(executor).wf(),
    ensures
        final(executor).wf(),
        r.0 == old(executor).tasks().len(),
        final(executor).tasks().len() == old(executor).tasks().len() + 1,
        final(executor).tasks()[r.0 as int].state() is Running,
        forall|i: int|
            0 <= i < old(executor).tasks().len() ==> final(executor).tasks()[i]
                == old(executor).tasks()[i],
        final(executor).queue().tasks() == old(executor).queue().tasks().push(r.0),
        final(executor).queue().is_scheduled(),
        r.1 == !old(executor).queue().is_scheduled(),
{
    let id = executor.tasks.len();
    executor.tasks.push(Task::new());
    let request = executor.queue.schedule_task(id);
    proof {
        assert forall|i: int| 0 <= i < executor.queue().tasks().len()
            implies executor.queue().tasks()[i] < executor.tasks().len() by {
            if i < old(executor).queue().tasks().len() {
                assert(executor.queue().tasks()[i] == old(executor).queue().tasks()[i]);
            } else {
                assert(executor.queue().tasks()[i] == id);
            }
        }
    }
    (id, request)
}

} // verus!
