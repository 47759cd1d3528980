//! The compressed series: a bounded, ordered sequence of entries.

use crate::deviate::Deviate;
use crate::order::gt_spec;
use crate::range::Range;
use vstd::prelude::*;
use vstd::laws_cmp::obeys_partial_cmp_spec_properties;
use vstd::std_specs::cmp::PartialOrdSpec;

verus! {

/// One compressed segment of a series: a time range together with the
/// single representative value for that whole range.
#[derive(Debug, Eq, PartialEq, Clone)]
pub struct SerieEntry<I, T> {
    /// The time range this entry represents.
    pub range: Range<I>,
    /// The representative value for this time range.
    pub value: T,
}

/// The entry a fresh sample produces: a point range at `at` carrying the
/// sample's value.
pub open spec fn point_entry<I, T>(at: I, value: T) -> SerieEntry<I, T> {
    SerieEntry { range: Range { start: at, end: None }, value }
}

/// The entry a merging sample turns the last entry into: the same start
/// and the same representative value, with the end moved to `at`.
pub open spec fn merged_entry<I, T>(e: SerieEntry<I, T>, at: I) -> SerieEntry<I, T> {
    SerieEntry { range: Range { start: e.range.start, end: Some(at) }, value: e.value }
}

/// A time series that compresses monotonically appended samples into at
/// most `N` entries.
///
/// A sample within `max_deviation` of the current run's representative
/// value extends the last entry's time range; a sample that deviates more
/// starts a new entry. Appends that are out of order, or that arrive when
/// the series is full, are rejected and leave the series untouched.
#[derive(Debug, Eq, PartialEq, Clone)]
pub struct Series<const N: usize, I, T> {
    /// Maximum allowed deviation between a run's representative value and
    /// an incoming value before a new entry is started. Fixed at
    /// construction.
    pub max_deviation: T,
    /// The compressed entries, in strictly increasing chronological order.
    pub buckets: Vec<SerieEntry<I, T>>,
}

impl<const N: usize, I: Ord, T: Deviate> Series<N, I, T> {
    /// The well-formedness invariant: at most `N` entries, every entry's
    /// range well formed, and consecutive entries strictly ordered — each
    /// entry starts strictly after the previous entry's effective end.
    pub open spec fn wf(self) -> bool {
        &&& self.buckets@.len() <= N
        &&& forall|k: int|
            0 <= k < self.buckets@.len() ==> (#[trigger] self.buckets@[k]).range.wf()
        &&& forall|k: int|
            1 <= k < self.buckets@.len() ==> gt_spec(
                (#[trigger] self.buckets@[k]).range.start,
                self.buckets@[k - 1].range.effective_end(),
            )
    }

    /// Whether an append at timestamp `at` passes the capacity and
    /// monotonicity gates: the series is not full, and `at` lies strictly
    /// after both the last entry's start and, when present, its end.
    pub open spec fn admits(self, at: I) -> bool {
        &&& self.buckets@.len() < N
        &&& self.buckets@.len() > 0 ==> {
            &&& gt_spec(at, self.buckets@.last().range.start)
            &&& match self.buckets@.last().range.end {
                Some(e) => gt_spec(at, e),
                None => true,
            }
        }
    }

    /// Whether an admitted sample carrying `value` merges into the last
    /// entry's run rather than starting a new one: it does not deviate
    /// from the run's representative value by more than `max_deviation`.
    pub open spec fn merges_with(self, value: T) -> bool
        recommends
            self.buckets@.len() > 0,
    {
        !self.buckets@.last().value.deviate_spec(&value, &self.max_deviation)
    }

    /// Creates a new, empty series with the given deviation threshold.
    pub fn new(max_deviation: T) -> (r: Series<N, I, T>)
        ensures
            r.max_deviation == max_deviation,
            r.buckets@ == Seq::<SerieEntry<I, T>>::empty(),
            r.wf(),
    {
        Series { max_deviation, buckets: Vec::new() }
    }

    /// Appends a data point, enforcing capacity and monotonic ordering.
    ///
    /// The capacity gate comes first: a full series rejects every sample.
    /// Otherwise the new timestamp must lie strictly after both the last
    /// entry's start and, when present, its end; a sample out of order is
    /// rejected. A rejected append returns `false` and leaves the series
    /// untouched. An admitted sample either merges into the last entry —
    /// extending its range to `at` while keeping the value with which the
    /// run began as representative — or, when it deviates from it by more
    /// than `max_deviation`, starts a new point entry of its own.
    pub fn append_monotonic(&mut self, at: I, value: T) -> (r: bool)
        requires
            old(self).wf(),
            I::obeys_partial_cmp_spec(),
        ensures
            final(self).wf(),
            final(self).max_deviation == old(self).max_deviation,
            r == old(self).admits(at),
            old(self).buckets@.len() == N ==> !r,
            !r ==> final(self).buckets@ == old(self).buckets@,
            (r && old(self).buckets@.len() == 0) ==> final(self).buckets@ == seq![
                point_entry(at, value),
            ],
            (r && old(self).buckets@.len() > 0 && !old(self).merges_with(value))
                ==> final(self).buckets@ == old(self).buckets@.push(point_entry(at, value)),
            (r && old(self).buckets@.len() > 0 && old(self).merges_with(value))
                ==> final(self).buckets@ == old(self).buckets@.update(
                old(self).buckets@.len() - 1,
                merged_entry(old(self).buckets@.last(), at),
            ),
            (r && old(self).buckets@.len() > 0 && old(self).merges_with(value)) ==> (
            final(self).buckets@.last().value == old(self).buckets@.last().value
                && final(self).buckets@.last().range.start == old(
                self,
            ).buckets@.last().range.start),
            old(self).buckets@.len() > 0 ==> final(self).buckets@[0].range.start == old(
                self,
            ).buckets@[0].range.start,
    {
        let ghost old_seq = old(self).buckets@;
        if self.buckets.len() >= N {
            return false;
        }
        match self.buckets.pop() {
            Some(v) => {
                let gt_start = at.gt(&v.range.start);
                let gt_end = match &v.range.end {
                    Some(e) => at.gt(e),
                    None => true,
                };
                if gt_start && gt_end {
                    if v.value.deviate(&value, &self.max_deviation) {
                        self.buckets.push(v);
                        self.buckets.push(SerieEntry { range: Range::new(at), value });
                        proof {
                            assert(self.buckets@ =~= old_seq.push(point_entry(at, value)));
                        }
                    } else {
                        let new_range = v.range.extend(at);
                        self.buckets.push(SerieEntry { range: new_range, value: v.value });
                        proof {
                            assert(self.buckets@ =~= old_seq.update(
                                old_seq.len() - 1,
                                merged_entry(old_seq.last(), at),
                            ));
                        }
                    }
                    true
                } else {
                    self.buckets.push(v);
                    proof {
                        assert(self.buckets@ =~= old_seq);
                    }
                    false
                }
            },
            None => {
                self.buckets.push(SerieEntry { range: Range::new(at), value });
                proof {
                    assert(self.buckets@ =~= seq![point_entry(at, value)]);
                }
                true
            },
        }
    }

    /// Returns the earliest timestamp in the series: the first entry's
    /// start, or `None` if the series holds no entries.
    pub fn starts_at(&self) -> (r: Option<&I>)
        ensures
            match r {
                None => self.buckets@.len() == 0,
                Some(x) => self.buckets@.len() > 0 && *x == self.buckets@[0].range.start,
            },
    {
        if self.buckets.len() == 0 {
            None
        } else {
            Some(&self.buckets[0].range.start)
        }
    }

    /// Returns the latest timestamp in the series, or `None` if the
    /// series holds no entries.
    ///
    /// The scan takes the maximum over every entry's effective end (its
    /// `end` when present, else its `start`); because entries are strictly
    /// ordered, that maximum is the last entry's effective end.
    pub fn ends_at(&self) -> (r: Option<&I>)
        requires
            self.wf(),
            I::obeys_partial_cmp_spec(),
        ensures
            match r {
                None => self.buckets@.len() == 0,
                Some(x) => self.buckets@.len() > 0 && *x == self.buckets@[
                    self.buckets@.len() - 1
                ].range.effective_end(),
            },
    {
        let mut r: Option<&I> = None;
        let mut k: usize = 0;
        while k < self.buckets.len()
            invariant
                self.wf(),
                I::obeys_partial_cmp_spec(),
                k <= self.buckets@.len(),
                match r {
                    None => k == 0,
                    Some(x) => 0 < k && *x == self.buckets@[k - 1].range.effective_end(),
                },
            decreases self.buckets@.len() - k,
        {
            let b = &self.buckets[k];
            let better_start = match r {
                None => true,
                Some(cur) => b.range.start.gt(cur),
            };
            if better_start {
                r = Some(&b.range.start);
            }
            if let Some(e) = &b.range.end {
                let better_end = match r {
                    None => true,
                    Some(cur) => e.gt(cur),
                };
                if better_end {
                    r = Some(e);
                }
            }
            k = k + 1;
        }
        r
    }

    /// Checks whether the series has reached its capacity of `N` entries.
    pub fn is_full(&self) -> (r: bool)
        requires
            self.wf(),
        ensures
            r == (self.buckets@.len() == N),
    {
        self.buckets.len() == N
    }
}

/// Law: a well-formed series never holds more than `N` entries; since
/// every constructor and mutation of the series establishes
/// well-formedness, the entry count can never exceed the capacity.
pub proof fn lemma_capacity_bounded<const N: usize, I: Ord, T: Deviate>(s: Series<N, I, T>)
    requires
        s.wf(),
    ensures
        s.buckets@.len() <= N,
{
}

/// Law: in a well-formed series the entries are strictly chronologically
/// ordered and non-overlapping — every entry after the first starts
/// strictly after the previous entry's effective end.
pub proof fn lemma_entries_strictly_ordered<const N: usize, I: Ord, T: Deviate>(
    s: Series<N, I, T>,
)
    requires
        s.wf(),
    ensures
        forall|k: int|
            1 <= k < s.buckets@.len() ==> gt_spec(
                (#[trigger] s.buckets@[k]).range.start,
                s.buckets@[k - 1].range.effective_end(),
            ),
{
}

/// Steps the strict ordering of a well-formed series across any distance:
/// a later entry's effective end lies strictly after an earlier one's,
/// provided the index type's ordering is transitive.
proof fn lemma_end_dominates<const N: usize, I: Ord, T: Deviate>(s: Series<N, I, T>, k: int, j: int)
    requires
        s.wf(),
        obeys_partial_cmp_spec_properties::<I>(),
        0 <= k < j < s.buckets@.len(),
    ensures
        gt_spec(s.buckets@[j].range.effective_end(), s.buckets@[k].range.effective_end()),
    decreases j - k,
{
    reveal(obeys_partial_cmp_spec_properties);
    assert(gt_spec(s.buckets@[j].range.start, s.buckets@[j - 1].range.effective_end()));
    assert(s.buckets@[j].range.wf());
    if k < j - 1 {
        lemma_end_dominates(s, k, j - 1);
    }
}

/// Law: the maximum effective endpoint across all entries of a non-empty
/// well-formed series is the last entry's effective end — the value
/// [`Series::ends_at`] returns — provided the index type's ordering is
/// transitive, as a strict total order is.
pub proof fn lemma_last_entry_ends_latest<const N: usize, I: Ord, T: Deviate>(s: Series<N, I, T>)
    requires
        s.wf(),
        s.buckets@.len() > 0,
        obeys_partial_cmp_spec_properties::<I>(),
    ensures
        forall|k: int|
            0 <= k < s.buckets@.len() - 1 ==> gt_spec(
                s.buckets@[s.buckets@.len() - 1].range.effective_end(),
                (#[trigger] s.buckets@[k]).range.effective_end(),
            ),
{
    assert forall|k: int| 0 <= k < s.buckets@.len() - 1 implies gt_spec(
        s.buckets@[s.buckets@.len() - 1].range.effective_end(),
        (#[trigger] s.buckets@[k]).range.effective_end(),
    ) by {
        lemma_end_dominates(s, k, s.buckets@.len() - 1);
    }
}

} // verus!
