//! The visit counter: one non-negative integer whose sole exposed operation
//! both increments and reads it, so there is no split increment/read window.
//!
//! A single owner (in the service, one instance behind the process-wide lock)
//! calls `increment_and_get`; the lemmas below state what any run of such
//! calls returns: strictly increasing values, and from a fresh counter exactly
//! the values `1, 2, ..., n` with no gap and no duplicate.

use vstd::prelude::*;

verus! {

/// A monotonically non-decreasing visit counter. It starts at zero and is
/// never reset or decremented; the only mutation is `increment_and_get`.
pub struct VisitCounter {
    count: u64,
}

impl VisitCounter {
    /// The current value of the counter.
    pub closed spec fn count(self) -> nat {
        self.count as nat
    }

    /// A fresh counter reads zero.
    pub fn new() -> (c: VisitCounter)
        ensures
            c.count() == 0,
    {
        VisitCounter { count: 0 }
    }

    /// Adds one to the stored value and returns the new value, in one step.
    /// Overflow of the counter is out of scope: the operation asks that the
    /// maximum has not been reached, and so never fails.
    pub fn increment_and_get(&mut self) -> (r: u64)
        requires
            old(self).count() < u64::MAX,
        ensures
            final(self).count() == old(self).count() + 1,
            r as nat == final(self).count(),
    {
        self.count = self.count + 1;
        self.count
    }
}

/// Holds of the sequence of values that a run of `increment_and_get` calls
/// returns when the counter reads `c0` before the first call: the first call
/// returns `c0 + 1`, and every later call returns one more than the call
/// before it, exactly as the contract of `increment_and_get` promises.
pub open spec fn return_history(c0: nat, h: Seq<nat>) -> bool {
    &&& (h.len() > 0 ==> h[0] == c0 + 1)
    &&& (forall|i: int| 1 <= i < h.len() ==> #[trigger] h[i] == h[i - 1] + 1)
}

/// In a run that starts at `c0`, the call at position `i` returns
/// `c0 + i + 1`.
pub proof fn lemma_history_at(c0: nat, h: Seq<nat>, i: int)
    requires
        return_history(c0, h),
        0 <= i < h.len(),
    ensures
        h[i] == c0 + i + 1,
    decreases i,
{
    if i > 0 {
        lemma_history_at(c0, h, i - 1);
    }
}

/// In a run that starts at `c0`, the `i`-th call returns `c0 + i + 1`.
pub proof fn lemma_history_indexed(c0: nat, h: Seq<nat>)
    requires
        return_history(c0, h),
    ensures
        forall|i: int| 0 <= i < h.len() ==> #[trigger] h[i] == c0 + i + 1,
{
    assert forall|i: int| 0 <= i < h.len() implies #[trigger] h[i] == c0 + i + 1 by {
        lemma_history_at(c0, h, i);
    }
}

/// Monotonicity: within one run, a later call returns a strictly greater
/// value than any earlier call.
pub proof fn lemma_returns_strictly_increasing(c0: nat, h: Seq<nat>, i: int, j: int)
    requires
        return_history(c0, h),
        0 <= i < j < h.len(),
    ensures
        h[i] < h[j],
{
    lemma_history_indexed(c0, h);
}

/// Exact coverage: a run of `n` completed calls on a fresh counter returns
/// each of the values `1, 2, ..., n` exactly once — no duplicate is ever
/// handed to two callers, and no value is skipped. The multiset of returned
/// values is therefore exactly `{1, 2, ..., n}`.
pub proof fn lemma_returns_exactly_one_to_n(h: Seq<nat>)
    requires
        return_history(0, h),
    ensures
        h =~= Seq::new(h.len(), |i: int| (i + 1) as nat),
        forall|i: int, j: int|
            0 <= i < h.len() && 0 <= j < h.len() && i != j ==> h[i] != h[j],
        forall|v: nat| 1 <= v <= h.len() ==> #[trigger] h.contains(v),
        forall|v: nat| #[trigger] h.contains(v) ==> 1 <= v <= h.len(),
{
    lemma_history_indexed(0, h);
    assert forall|v: nat| 1 <= v <= h.len() implies #[trigger] h.contains(v) by {
        assert(h[v - 1] == v);
    }
}

} // verus!
