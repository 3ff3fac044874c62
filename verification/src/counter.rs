//! The `Counter` capability and the law that counts accumulate.

use vstd::prelude::*;

verus! {

/// Describes types which count things. What they count is up to them.
pub trait Counter {
    /// The current count, as a mathematical number.
    spec fn spec_count(&self) -> nat;

    /// Returns the current count of items counted.
    fn count(&self) -> (c: usize)
        ensures
            c as nat == self.spec_count(),
    ;
}

/// The sum of a sequence of counts.
pub open spec fn sum_of(s: Seq<nat>) -> nat
    decreases s.len(),
{
    if s.len() == 0 {
        0
    } else {
        sum_of(s.drop_last()) + s.last()
    }
}

/// A run of successful transfers accumulates: if every step adds to the
/// count exactly the bytes it reports — which is what the contracts of
/// `ReadCounter::read` and `WriteCounter::write` ensure of every successful
/// call — then the count after the last step equals the count before the
/// first step plus the sum of all reported byte counts.
pub proof fn lemma_count_accumulates(counts: Seq<nat>, reported: Seq<nat>)
    requires
        counts.len() == reported.len() + 1,
        forall|i: int| 0 <= i < reported.len() ==> counts[i + 1] == counts[i] + reported[i],
    ensures
        counts.last() == counts.first() + sum_of(reported),
    decreases reported.len(),
{
    if reported.len() > 0 {
        lemma_count_accumulates(counts.drop_last(), reported.drop_last());
    }
}

} // verus!
