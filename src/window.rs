use std::collections::VecDeque;
use vstd::prelude::*;

use crate::sample::{
    count_lost, lemma_count_lost_bound, lemma_count_lost_drop_first, lemma_count_lost_push,
    lost_weight, time_ordered, Outcome, Sample,
};

verus! {

/// How far back (in ms) from the newest sample the window reaches.
pub const WINDOW_MS: u64 = 30_000;

/// A sample is kept while it is at most `WINDOW_MS` older than `now`.
pub open spec fn within_window(s: Sample, now: int) -> bool {
    now - s.timestamp <= WINDOW_MS
}

/// The entries of `s` that are still inside the window ending at `now`.
pub open spec fn retained(s: Seq<Sample>, now: int) -> Seq<Sample> {
    s.filter(|e: Sample| within_window(e, now))
}

/// The shape every window has: ordered by time, and no entry older than the window
/// relative to the newest one.
pub open spec fn window_shape(s: Seq<Sample>) -> bool {
    &&& time_ordered(s)
    &&& s.len() > 0 ==> forall|i: int|
        0 <= i < s.len() ==> #[trigger] within_window(s[i], s.last().timestamp as int)
}

/// When the entries failing `within_window` are exactly a prefix, keeping the
/// others leaves the suffix behind that prefix.
proof fn lemma_retained_suffix(s: Seq<Sample>, now: int, k: int)
    requires
        0 <= k <= s.len(),
        forall|i: int| 0 <= i < k ==> !#[trigger] within_window(s[i], now),
        forall|i: int| k <= i < s.len() ==> #[trigger] within_window(s[i], now),
    ensures
        retained(s, now) == s.subrange(k, s.len() as int),
    decreases s.len(),
{
    reveal(Seq::filter);
    if s.len() > 0 {
        let d = s.drop_last();
        let kd = if k == s.len() {
            d.len() as int
        } else {
            k
        };
        assert forall|i: int| 0 <= i < kd implies !#[trigger] within_window(d[i], now) by {
            assert(d[i] == s[i]);
        }
        assert forall|i: int| kd <= i < d.len() implies #[trigger] within_window(d[i], now) by {
            assert(d[i] == s[i]);
        }
        lemma_retained_suffix(d, now, kd);
        if k == s.len() {
            assert(!within_window(s[s.len() - 1], now));
            assert(retained(s, now) == retained(d, now));
        } else {
            assert(within_window(s[s.len() - 1], now));
            assert(retained(s, now) == retained(d, now).push(s.last()));
        }
    }
    assert(retained(s, now) =~= s.subrange(k, s.len() as int));
}

/// The probe outcomes of the last `WINDOW_MS` milliseconds, oldest first, with a
/// running count of the losses among them.
pub struct SampleWindow {
    entries: VecDeque<Sample>,
    lost_count: usize,
}

impl SampleWindow {
    /// The retained samples, oldest first.
    pub closed spec fn view(&self) -> Seq<Sample> {
        self.entries@
    }

    pub closed spec fn wf(&self) -> bool {
        &&& window_shape(self.entries@)
        &&& self.lost_count == count_lost(self.entries@)
    }

    /// What every well-formed window satisfies, stated over its view.
    pub proof fn lemma_wf_shape(&self)
        requires
            self.wf(),
        ensures
            window_shape(self@),
    {
    }

    /// An empty window.
    pub fn new() -> (w: Self)
        ensures
            w.wf(),
            w@ == Seq::<Sample>::empty(),
    {
        SampleWindow { entries: VecDeque::new(), lost_count: 0 }
    }

    /// Appends `sample`, then evicts from the front every entry more than
    /// `WINDOW_MS` older than `sample`.
    pub fn insert(&mut self, sample: Sample)
        requires
            old(self).wf(),
            old(self)@.len() < usize::MAX,
            old(self)@.len() > 0 ==> old(self)@.last().timestamp <= sample.timestamp,
        ensures
            final(self).wf(),
            final(self)@ == retained(old(self)@.push(sample), sample.timestamp as int),
            0 < final(self)@.len() <= old(self)@.len() + 1,
            final(self)@.last() == sample,
            forall|i: int|
                0 <= i < final(self)@.len() ==> #[trigger] within_window(
                    final(self)@[i],
                    sample.timestamp as int,
                ),
    {
        let ghost s = old(self)@.push(sample);
        let ghost now = sample.timestamp as int;
        assert(time_ordered(s)) by {
            assert forall|i: int, j: int| 0 <= i <= j < s.len() implies s[i].timestamp
                <= s[j].timestamp by {
                if j < s.len() - 1 {
                    assert(s[i] == old(self)@[i] && s[j] == old(self)@[j]);
                } else if i < s.len() - 1 {
                    assert(s[i] == old(self)@[i]);
                }
            }
        }
        proof {
            lemma_count_lost_push(old(self)@, sample);
            lemma_count_lost_bound(old(self)@);
        }
        self.entries.push_back(sample);
        if matches!(sample.outcome, Outcome::Lost) {
            self.lost_count = self.lost_count + 1;
        }
        let ghost mut k: int = 0;
        while self.entries.len() > 0 && sample.timestamp - self.entries[0].timestamp > WINDOW_MS
            invariant
                time_ordered(s),
                s.len() > 0,
                s.last() == sample,
                now == sample.timestamp,
                0 <= k < s.len(),
                self.entries@ == s.subrange(k, s.len() as int),
                self.lost_count == count_lost(self.entries@),
                forall|i: int| 0 <= i < k ==> !#[trigger] within_window(s[i], now),
            decreases self.entries@.len(),
        {
            proof {
                lemma_count_lost_drop_first(self.entries@);
                lemma_count_lost_bound(self.entries@.drop_first());
            }
            let front = self.entries.pop_front();
            if let Some(old_entry) = front {
                if matches!(old_entry.outcome, Outcome::Lost) {
                    self.lost_count = self.lost_count - 1;
                }
            }
            proof {
                assert(!within_window(s[k], now));
                k = k + 1;
                assert(self.entries@ =~= s.subrange(k, s.len() as int));
            }
        }
        proof {
            assert forall|i: int| k <= i < s.len() implies #[trigger] within_window(s[i], now) by {
                assert(s[k].timestamp <= s[i].timestamp);
            }
            lemma_retained_suffix(s, now, k);
            assert forall|i: int| 0 <= i < self.entries@.len() implies within_window(
                self.entries@[i],
                now,
            ) by {
                assert(self.entries@[i] == s[k + i]);
            }
            assert forall|i: int, j: int| 0 <= i <= j < self.entries@.len() implies self.entries@[i].timestamp
                <= self.entries@[j].timestamp by {
                assert(self.entries@[i] == s[k + i] && self.entries@[j] == s[k + j]);
            }
        }
    }

    /// The number of retained samples.
    pub fn size(&self) -> (r: usize)
        ensures
            r == self@.len(),
    {
        self.entries.len()
    }

    /// The number of retained samples that are losses.
    pub fn loss_count(&self) -> (r: usize)
        requires
            self.wf(),
        ensures
            r == count_lost(self@),
    {
        self.lost_count
    }

    /// The retained sample at position `i`, oldest first.
    pub fn get(&self, i: usize) -> (r: Sample)
        requires
            i < self@.len(),
        ensures
            r == self@[i as int],
    {
        self.entries[i]
    }

    /// `floor(loss_count * 100 / size)`.
    pub fn loss_percentage(&self) -> (r: u32)
        requires
            self.wf(),
            self@.len() > 0,
        ensures
            r as int == (count_lost(self@) * 100) as int / (self@.len() as int),
            r <= 100,
    {
        let lost = self.lost_count as u128;
        let total = self.entries.len() as u128;
        proof {
            lemma_count_lost_bound(self@);
            let l = lost as int;
            let n = total as int;
            assert(l * 100 <= n * 100) by (nonlinear_arith)
                requires l <= n;
            assert((l * 100) / n <= 100) by (nonlinear_arith)
                requires l * 100 <= n * 100, n > 0;
        }
        let pct = lost * 100 / total;
        pct as u32
    }
}

} // verus!
