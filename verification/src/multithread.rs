//! Multi-thread tasks: the run loop around the shared wake flag.
//!
//! A multi-thread task is re-entered either by a same-thread deferred
//! callback or by a cross-thread wait/notify signal on its wake flag. Its run
//! loop swaps the flag to `SLEEPING` before each poll so that wakes arriving
//! mid-poll are caught, and after a `Pending` poll it issues a non-blocking
//! wait on the flag: if the flag has already been woken back to `AWAKE`, the
//! task polls again in the same call instead of waiting, which closes the
//! race without a lock.
//!
//! The host embedding performs the polls and the waits; `MtTask::run` is
//! handed, per loop iteration, the poll's outcome and the flag value the wait
//! observed, and decides everything else. The wait itself is planned by
//! `plan_wait`: native non-blocking wait where the environment offers a
//! usable one, otherwise the helper-pool polyfill.

use vstd::prelude::*;
use crate::task::{PollOutcome, TaskState};
use crate::waker::WakeState;

verus! {

/// How a run of a multi-thread task ended.
#[derive(Clone, Copy, PartialEq, Eq, Structural, Debug)]
pub enum MtRunResult {
    /// The task had already completed; the spurious re-entry did nothing.
    NoWork,
    /// The computation finished; its state was torn down.
    Completed,
    /// The computation is pending and the task is parked on its wake flag:
    /// the wait will deliver the next re-entry.
    Parked,
}

/// One run of a multi-thread task, summarized.
pub struct MtRunOutcome {
    /// How the run ended.
    pub result: MtRunResult,
    /// The index of the poll that ended the run (0 when no poll happened).
    pub polls_taken: usize,
    /// Whether the run was entered with the flag not `AWAKE`: a spurious
    /// wakeup, worth a diagnostic but never an error.
    pub spurious_entry: bool,
}

/// A task driven by the cross-thread wake protocol.
pub struct MtTask {
    state: TaskState,
}

/// Iteration `i` ends the run loop: either the poll completed the
/// computation, or the flag was still `SLEEPING` when the wait was issued, so
/// the task parks.
pub open spec fn loop_breaks(polls: Seq<PollOutcome>, flags: Seq<WakeState>, i: int) -> bool {
    polls[i] is Ready || flags[i] is Sleeping
}

impl MtTask {
    /// The task's lifecycle state.
    pub closed spec fn state(self) -> TaskState {
        self.state
    }

    /// A freshly spawned multi-thread task.
    pub fn new() -> (t: MtTask)
        ensures
            t.state() is Running,
    {
        MtTask { state: TaskState::Running }
    }

    /// One re-entry of the task.
    ///
    /// `entry_flag` is the flag value the first swap to `SLEEPING` returned;
    /// `polls[i]` is what the `i`-th poll of this run reported, and
    /// `flags[i]` is the flag value observed by the wait issued after it
    /// (`AWAKE` exactly when a wake arrived mid-poll, in which case the wait
    /// returns immediately and the loop polls again inline). The scripts must
    /// reach a poll that completes or a wait that parks.
    ///
    /// A task that already completed is detected structurally and re-entered
    /// for nothing: no poll happens and nothing changes. Otherwise the loop
    /// polls exactly up to the first iteration that completes or parks.
    #[verifier::loop_isolation(false)]
    pub fn run(
        &mut self,
        entry_flag: WakeState,
        polls: &Vec<PollOutcome>,
        flags: &Vec<WakeState>,
    ) -> (r: MtRunOutcome)
        requires
            polls@.len() == flags@.len(),
            old(self).state() is Running ==> exists|i: int|
                0 <= i < polls@.len() && loop_breaks(polls@, flags@, i),
        ensures
            old(self).state() is Completed ==> {
                &&& r.result is NoWork
                &&& r.polls_taken == 0
                &&& !r.spurious_entry
                &&& *final(self) == *old(self)
            },
            old(self).state() is Running ==> {
                &&& r.spurious_entry == !(entry_flag is Awake)
                &&& r.polls_taken < polls@.len()
                &&& loop_breaks(polls@, flags@, r.polls_taken as int)
                &&& forall|j: int|
                    0 <= j < r.polls_taken ==> !loop_breaks(polls@, flags@, j)
                &&& r.result == (if polls@[r.polls_taken as int] is Ready {
                    MtRunResult::Completed
                } else {
                    MtRunResult::Parked
                })
                &&& final(self).state() == (if polls@[r.polls_taken as int] is Ready {
                    TaskState::Completed
                } else {
                    TaskState::Running
                })
            },
    {
        match self.state {
            TaskState::Completed => {
                // A wake signal arrived after completion: the inner state is
                // already torn down, so there is nothing to do.
                MtRunOutcome { result: MtRunResult::NoWork, polls_taken: 0, spurious_entry: false }
            },
            TaskState::Running => {
                let spurious = match entry_flag {
                    WakeState::Awake => false,
                    WakeState::Sleeping => true,
                };
                let n = polls.len();
                let mut i: usize = 0;
                while i < n && !(polls[i] == PollOutcome::Ready || flags[i] == WakeState::Sleeping)
                    invariant
                        i <= n,
                        forall|j: int| 0 <= j < i ==> !loop_breaks(polls@, flags@, j),
                    decreases n - i,
                {
                    // Pending, but the flag went back to `AWAKE` during the
                    // poll: treat it as immediate readiness and poll again.
                    i += 1;
                }
                proof {
                    let w = choose|w: int|
                        0 <= w < polls@.len() && loop_breaks(polls@, flags@, w);
                    assert(i <= w);
                }
                if polls[i] == PollOutcome::Ready {
                    // Clean up the resources of the computation as soon as it
                    // finishes.
                    self.state = TaskState::Completed;
                    MtRunOutcome {
                        result: MtRunResult::Completed,
                        polls_taken: i,
                        spurious_entry: spurious,
                    }
                } else {
                    // Pending, and the wait saw the flag still `SLEEPING`:
                    // the task parks until the wait resolves.
                    MtRunOutcome {
                        result: MtRunResult::Parked,
                        polls_taken: i,
                        spurious_entry: spurious,
                    }
                }
            },
        }
    }
}

/// How to wait for the wake flag to leave `SLEEPING` after a `Pending` poll.
#[derive(Clone, Copy, PartialEq, Eq, Debug)]
pub enum WaitPlan {
    /// No wait is needed: the flag already changed back, poll again inline.
    AlreadyAwake,
    /// Issue the native non-blocking wait instruction.
    Native,
    /// Dispatch the wait to the helper-pool polyfill, with an optional
    /// timeout in milliseconds.
    Polyfill {
        /// A timeout for the polyfilled wait, used on the quirky host family
        /// whose wakeups are unreliable.
        timeout_ms: Option<i32>,
    },
}

/// Plans the wait after a `Pending` poll. With a usable native non-blocking
/// wait, use it (the host reports, from the instruction's own result,
/// whether it parked or returned immediately). Without one, consult the flag
/// directly: if it already left `SLEEPING` the readiness is immediate and no
/// wait is issued; otherwise the polyfill performs the wait, with a one
/// second timeout on the quirky host family.
pub fn plan_wait(native_available: bool, quirky_host: bool, flag_now: WakeState) -> (p: WaitPlan)
    ensures
        native_available ==> p is Native,
        !native_available && flag_now is Awake ==> p is AlreadyAwake,
        !native_available && flag_now is Sleeping ==> p == (WaitPlan::Polyfill {
            timeout_ms: if quirky_host {
                Some(1000i32)
            } else {
                None
            },
        }),
{
    if native_available {
        WaitPlan::Native
    } else {
        match flag_now {
            WakeState::Awake => WaitPlan::AlreadyAwake,
            WakeState::Sleeping => {
                let timeout_ms = if quirky_host {
                    Some(1000i32)
                } else {
                    None
                };
                WaitPlan::Polyfill { timeout_ms }
            },
        }
    }
}

/// `needle` occurs as a contiguous run somewhere in `hay`.
pub open spec fn contains_seq(hay: Seq<u8>, needle: Seq<u8>) -> bool {
    exists|i: int|
        #![trigger hay.subrange(i, i + needle.len())]
        0 <= i && i + needle.len() <= hay.len() && hay.subrange(i, i + needle.len()) == needle
}

/// Whether `needle` occurs as a contiguous run somewhere in `hay`.
#[verifier::loop_isolation(false)]
pub fn contains_slice(hay: &[u8], needle: &[u8]) -> (r: bool)
    ensures
        r == contains_seq(hay@, needle@),
{
    let n = hay.len();
    let m = needle.len();
    if m > n {
        proof {
            assert(!contains_seq(hay@, needle@)) by {
                if contains_seq(hay@, needle@) {
                    let i = choose|i: int|
                        #![trigger hay@.subrange(i, i + needle@.len())]
                        0 <= i && i + needle@.len() <= hay@.len() && hay@.subrange(
                            i,
                            i + needle@.len(),
                        ) == needle@;
                }
            }
        }
        return false;
    }
    let mut i: usize = 0;
    while i <= n - m
        invariant
            m <= n,
            i <= n - m + 1,
            forall|p: int|
                #![trigger hay@.subrange(p, p + m as int)]
                0 <= p < i ==> hay@.subrange(p, p + m as int) != needle@,
        decreases n - m + 1 - i,
    {
        let mut j: usize = 0;
        while j < m && hay[i + j] == needle[j]
            invariant
                j <= m,
                i + m <= n,
                forall|t: int| 0 <= t < j ==> hay@[i + t] == needle@[t],
            decreases m - j,
        {
            j += 1;
        }
        if j == m {
            proof {
                assert(hay@.subrange(i as int, i + m as int) =~= needle@);
            }
            return true;
        }
        proof {
            assert(hay@.subrange(i as int, i + m as int)[j as int] == hay@[i + j]);
            assert(hay@[i + j] != needle@[j as int]);
            assert(hay@.subrange(i as int, i + m as int) != needle@);
        }
        i += 1;
    }
    proof {
        assert(!contains_seq(hay@, needle@)) by {
            if contains_seq(hay@, needle@) {
                let p = choose|p: int|
                    #![trigger hay@.subrange(p, p + needle@.len())]
                    0 <= p && p + needle@.len() <= hay@.len() && hay@.subrange(
                        p,
                        p + needle@.len(),
                    ) == needle@;
                assert(hay@.subrange(p, p + m as int) != needle@);
            }
        }
    }
    false
}

/// The bytes of the browser-family marker the quirk detection looks for.
pub open spec fn safari_marker() -> Seq<u8> {
    seq![83u8, 97u8, 102u8, 97u8, 114u8, 105u8]
}

/// The bytes of the browser-family marker that rules the quirk out.
pub open spec fn chrome_marker() -> Seq<u8> {
    seq![67u8, 104u8, 114u8, 111u8, 109u8, 101u8]
}

/// Whether a user-agent string (as UTF-8 bytes) names the quirky host
/// family: it carries the ASCII marker `Safari` but not `Chrome` (whose
/// agents advertise both). The embedding reads the string from the
/// environment once and caches this answer.
pub fn is_safari_agent(user_agent: &[u8]) -> (r: bool)
    ensures
        r == (contains_seq(user_agent@, safari_marker()) && !contains_seq(
            user_agent@,
            chrome_marker(),
        )),
{
    let mut safari: Vec<u8> = Vec::new();
    safari.push(83u8);
    safari.push(97u8);
    safari.push(102u8);
    safari.push(97u8);
    safari.push(114u8);
    safari.push(105u8);
    let mut chrome: Vec<u8> = Vec::new();
    chrome.push(67u8);
    chrome.push(104u8);
    chrome.push(114u8);
    chrome.push(111u8);
    chrome.push(109u8);
    chrome.push(101u8);
    proof {
        assert(safari@ =~= safari_marker());
        assert(chrome@ =~= chrome_marker());
    }
    contains_slice(user_agent, safari.as_slice()) && !contains_slice(
        user_agent,
        chrome.as_slice(),
    )
}

/// Whether the native non-blocking wait may be used at all: it must not be
/// disabled by configuration, the environment must offer it, and the quirky
/// host family is excluded because its implementation delivers unreliable
/// wakeups. Each input is detected once by the embedding and cached.
pub fn is_wait_async_available(disabled_by_config: bool, native_present: bool, quirky_host: bool) -> (r:
    bool)
    ensures
        r == (!disabled_by_config && native_present && !quirky_host),
{
    !disabled_by_config && native_present && !quirky_host
}

} // verus!
