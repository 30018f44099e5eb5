//! The non-native wait fallback: a pool of recyclable wait helpers.
//!
//! When the environment offers no usable non-blocking wait instruction, each
//! wait is performed for real on a disposable background execution context (a
//! helper), which posts one message back when the wait ends and is then
//! recycled. Helpers are identified by the ids this pool hands out; the host
//! embedding creates the actual execution context when the pool says an id is
//! fresh, and tears it down when the pool declines to retain it.
//!
//! A helper is either in the free pool or assigned to exactly one in-flight
//! wait; it comes back to the pool only after delivering its result, and the
//! pool never retains more than its configured cache size of idle helpers.

use vstd::prelude::*;

verus! {

/// Number of idle wait helpers to keep alive.
pub const HELPER_CACHE_SIZE: usize = 32;

/// The bounded free pool of wait helpers, plus (as ghost state) the set of
/// helpers currently assigned to an in-flight wait.
pub struct HelperPool {
    /// Idle helpers, available for the next wait.
    free: Vec<u64>,
    /// The next never-used helper id.
    next_id: u64,
    /// How many idle helpers are retained; beyond this they are torn down.
    cache_size: usize,
    /// The helpers currently out of the pool, each assigned to one wait.
    busy: Ghost<Set<u64>>,
}

impl HelperPool {
    /// The idle helpers, most recently recycled last.
    pub closed spec fn free(self) -> Seq<u64> {
        self.free@
    }

    /// The helpers currently assigned to an in-flight wait.
    pub closed spec fn busy(self) -> Set<u64> {
        self.busy@
    }

    /// The configured number of idle helpers to retain.
    pub closed spec fn cache_size(self) -> usize {
        self.cache_size
    }

    /// The next never-used helper id.
    pub closed spec fn next_id(self) -> u64 {
        self.next_id
    }

    /// The pool's invariant: no more idle helpers than the cache size; ids
    /// are distinct; no helper is both idle and assigned to a wait; ids never
    /// used stay fresh.
    pub open spec fn wf(self) -> bool {
        &&& self.free().len() <= self.cache_size()
        &&& forall|i: int, j: int|
            0 <= i < j < self.free().len() ==> self.free()[i] != self.free()[j]
        &&& forall|i: int| 0 <= i < self.free().len() ==> !self.busy().contains(self.free()[i])
        &&& forall|i: int| 0 <= i < self.free().len() ==> self.free()[i] < self.next_id()
        &&& forall|h: u64| self.busy().contains(h) ==> h < self.next_id()
        &&& self.busy().finite()
    }

    /// An empty pool retaining at most `cache_size` idle helpers.
    pub fn new(cache_size: usize) -> (p: HelperPool)
        ensures
            p.wf(),
            p.free().len() == 0,
            p.busy() == Set::<u64>::empty(),
            p.cache_size() == cache_size,
    {
        HelperPool { free: Vec::new(), next_id: 0, cache_size, busy: Ghost(Set::empty()) }
    }

    /// Takes a helper for one wait: an idle one if any, otherwise a fresh id
    /// (the embedding must create the execution context for a fresh id, which
    /// is what the second component reports). The helper returned is not
    /// assigned to any other in-flight wait, and it is assigned to this one
    /// until `release`. Succeeds however many waits are already in flight —
    /// exhausting the cache only means creating fresh helpers — and fails
    /// only when the id space is used up.
    pub fn acquire(&mut self) -> (r: Option<(u64, bool)>)
        requires
            old(self).wf(),
        ensures
            final(self).wf(),
            final(self).cache_size() == old(self).cache_size(),
            r is Some <==> (old(self).free().len() > 0 || old(self).next_id() < u64::MAX),
            r is None ==> final(self).free() == old(self).free() && final(self).busy()
                == old(self).busy() && final(self).next_id() == old(self).next_id(),
            r matches Some((h, fresh)) ==> {
                &&& !old(self).busy().contains(h)
                &&& final(self).busy() == old(self).busy().insert(h)
                &&& fresh == (old(self).free().len() == 0)
                &&& if old(self).free().len() > 0 {
                    h == old(self).free().last() && final(self).free()
                        == old(self).free().drop_last()
                } else {
                    h == old(self).next_id() && final(self).free() == old(self).free()
                }
            },
    {
        match self.free.pop() {
            Some(h) => {
                proof {
                    self.busy@ = self.busy@.insert(h);
                }
                Some((h, false))
            },
            None => {
                if self.next_id < u64::MAX {
                    let h = self.next_id;
                    self.next_id = self.next_id + 1;
                    proof {
                        self.busy@ = self.busy@.insert(h);
                    }
                    Some((h, true))
                } else {
                    None
                }
            },
        }
    }

    /// Returns a helper whose wait has delivered its result. The helper is no
    /// longer assigned; it is kept for reuse only while fewer idle helpers
    /// than the cache size are held, which the returned flag reports — on
    /// `false` the embedding tears the execution context down.
    pub fn release(&mut self, h: u64) -> (retained: bool)
        requires
            old(self).wf(),
            old(self).busy().contains(h),
        ensures
            final(self).wf(),
            final(self).cache_size() == old(self).cache_size(),
            final(self).busy() == old(self).busy().remove(h),
            retained == (old(self).free().len() < old(self).cache_size()),
            retained ==> final(self).free() == old(self).free().push(h),
            !retained ==> final(self).free() == old(self).free(),
    {
        proof {
            self.busy@ = self.busy@.remove(h);
        }
        if self.free.len() < self.cache_size {
            self.free.push(h);
            true
        } else {
            false
        }
    }
}

/// `s` is a non-empty run of ASCII decimal digits.
pub open spec fn is_digit_run(s: Seq<u8>) -> bool {
    s.len() > 0 && forall|i: int| 0 <= i < s.len() ==> 48 <= #[trigger] s[i] <= 57
}

/// The number a run of ASCII decimal digits denotes.
pub open spec fn digits_value(s: Seq<u8>) -> int
    decreases s.len(),
{
    if s.len() == 0 {
        0
    } else {
        digits_value(s.drop_last()) * 10 + (s.last() - 48)
    }
}

proof fn lemma_digits_nonneg(s: Seq<u8>)
    requires
        forall|i: int| 0 <= i < s.len() ==> 48 <= #[trigger] s[i] <= 57,
    ensures
        digits_value(s) >= 0,
    decreases s.len(),
{
    if s.len() > 0 {
        lemma_digits_nonneg(s.drop_last());
    }
}

proof fn lemma_digits_prefix_le(s: Seq<u8>, k: int)
    requires
        forall|i: int| 0 <= i < s.len() ==> 48 <= #[trigger] s[i] <= 57,
        0 <= k <= s.len(),
    ensures
        digits_value(s.take(k)) <= digits_value(s),
    decreases s.len() - k,
{
    if k < s.len() {
        lemma_digits_prefix_le(s, k + 1);
        assert(s.take(k + 1).drop_last() =~= s.take(k));
        assert(forall|i: int| 0 <= i < k ==> 48 <= #[trigger] s.take(k)[i] <= 57);
        lemma_digits_nonneg(s.take(k));
    } else {
        assert(s.take(k) =~= s);
    }
}

/// Parses the long-wait warning threshold, a configuration string read once
/// at process start: a non-empty run of decimal digits whose value fits the
/// threshold's width, anything else meaning "no diagnostic timer".
#[verifier::loop_isolation(false)]
pub fn parse_warning_threshold(s: &[u8]) -> (r: Option<u32>)
    ensures
        r is Some <==> (is_digit_run(s@) && digits_value(s@) <= u32::MAX),
        r matches Some(v) ==> v == digits_value(s@),
{
    let n = s.len();
    if n == 0 {
        return None;
    }
    let mut acc: u32 = 0;
    let mut i: usize = 0;
    while i < n
        invariant
            i <= n,
            n == s@.len(),
            forall|j: int| 0 <= j < i ==> 48 <= #[trigger] s@[j] <= 57,
            acc == digits_value(s@.take(i as int)),
        decreases n - i,
    {
        let c = s[i];
        if !(48 <= c && c <= 57) {
            return None;
        }
        let d = (c - 48) as u32;
        proof {
            assert(s@.take(i + 1).drop_last() =~= s@.take(i as int));
        }
        let next = match acc.checked_mul(10) {
            Some(a) => a.checked_add(d),
            None => None,
        };
        match next {
            Some(a) => {
                acc = a;
            },
            None => {
                // This prefix already exceeds the threshold's width, and a
                // longer digit run only grows.
                proof {
                    assert(digits_value(s@.take(i + 1)) > u32::MAX);
                    if is_digit_run(s@) {
                        lemma_digits_prefix_le(s@, i + 1);
                    }
                }
                return None;
            },
        }
        i += 1;
    }
    proof {
        assert(s@.take(n as int) =~= s@);
    }
    Some(acc)
}

/// The request message handed to a wait helper: the location to watch, given
/// as an index into the shared memory viewed as 32-bit words, the value the
/// location is expected to still hold, and an optional timeout.
pub struct WaitRequest {
    /// Index of the watched 32-bit word in the shared memory.
    pub index: u32,
    /// The value the wait is conditioned on.
    pub expected: i32,
    /// Give up after this many milliseconds, if set.
    pub timeout_ms: Option<i32>,
}

/// Builds the wait request for the 32-bit word at `byte_offset`, which must
/// be 4-byte aligned.
pub fn wait_request(byte_offset: u32, expected: i32, timeout_ms: Option<i32>) -> (m: WaitRequest)
    requires
        byte_offset % 4 == 0,
    ensures
        m.index == byte_offset / 4,
        m.expected == expected,
        m.timeout_ms == timeout_ms,
{
    WaitRequest { index: byte_offset / 4, expected, timeout_ms }
}

} // verus!
