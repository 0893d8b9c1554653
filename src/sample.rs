use vstd::prelude::*;

verus! {

/// What one echo probe produced: a round-trip time, or nothing.
#[derive(Clone, Copy, Debug, PartialEq, Eq, Structural)]
pub enum Outcome {
    /// The reply arrived after this many milliseconds.
    Latency(u32),
    /// No reply (timeout, unreachable, transport failure).
    Lost,
}

/// One probe outcome together with the instant (in ms) the probe completed.
#[derive(Clone, Copy, Debug, PartialEq, Eq, Structural)]
pub struct Sample {
    pub timestamp: u64,
    pub outcome: Outcome,
}

/// 1 when the sample is a loss, 0 otherwise.
pub open spec fn lost_weight(s: Sample) -> nat {
    if s.outcome is Lost {
        1
    } else {
        0
    }
}

/// The number of `Lost` samples in `s`.
pub open spec fn count_lost(s: Seq<Sample>) -> nat
    decreases s.len(),
{
    if s.len() == 0 {
        0
    } else {
        count_lost(s.drop_last()) + lost_weight(s.last())
    }
}

/// Timestamps never decrease from one entry to the next.
pub open spec fn time_ordered(s: Seq<Sample>) -> bool {
    forall|i: int, j: int| 0 <= i <= j < s.len() ==> s[i].timestamp <= s[j].timestamp
}

/// Appending one sample adds its weight to the count.
pub proof fn lemma_count_lost_push(s: Seq<Sample>, x: Sample)
    ensures
        count_lost(s.push(x)) == count_lost(s) + lost_weight(x),
{
    assert(s.push(x).drop_last() =~= s);
}

/// Removing the first sample takes its weight off the count.
pub proof fn lemma_count_lost_drop_first(s: Seq<Sample>)
    requires
        s.len() > 0,
    ensures
        count_lost(s) == lost_weight(s[0]) + count_lost(s.drop_first()),
    decreases s.len(),
{
    if s.len() > 1 {
        lemma_count_lost_drop_first(s.drop_last());
        assert(s.drop_last().drop_first() =~= s.drop_first().drop_last());
    } else {
        assert(s.drop_first() =~= Seq::<Sample>::empty());
        assert(s.drop_last() =~= Seq::<Sample>::empty());
    }
}

/// The count never exceeds the number of entries.
pub proof fn lemma_count_lost_bound(s: Seq<Sample>)
    ensures
        count_lost(s) <= s.len(),
    decreases s.len(),
{
    if s.len() > 0 {
        lemma_count_lost_bound(s.drop_last());
    }
}

} // verus!
