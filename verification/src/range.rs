//! A time range: either a single point or a closed interval.

use crate::order::gt_spec;
use vstd::prelude::*;

verus! {

/// A time range with a start timestamp and an optional end timestamp.
///
/// When `end` is `None` the range is a single point in time equal to
/// `start`; when `end` is `Some` it spans the closed interval from `start`
/// to `end`. A range never mutates its `start`: the only transformation is
/// [`Range::extend`], which consumes the point form and returns the
/// interval form.
#[derive(Debug, Eq, PartialEq, Clone)]
pub struct Range<I> {
    /// The starting timestamp of the range.
    pub start: I,
    /// The optional ending timestamp of the range.
    pub end: Option<I>,
}

impl<I: Ord> Range<I> {
    /// The latest timestamp the range covers: `end` when present, else
    /// `start`.
    pub open spec fn effective_end(self) -> I {
        match self.end {
            Some(e) => e,
            None => self.start,
        }
    }

    /// A range is well formed when a present `end` lies strictly after
    /// `start`. (A point range is always well formed.)
    pub open spec fn wf(self) -> bool {
        match self.end {
            Some(e) => gt_spec(e, self.start),
            None => true,
        }
    }

    /// Creates a point range at `start`, with no end timestamp.
    pub fn new(start: I) -> (r: Range<I>)
        ensures
            r.start == start,
            r.end is None,
    {
        Range { start, end: None }
    }

    /// Consumes this range and returns one with the same start and the
    /// given end.
    ///
    /// The caller is responsible for only extending to a timestamp that
    /// lies strictly after `start`; no ordering check happens here.
    pub fn extend(self, value: I) -> (r: Range<I>)
        ensures
            r.start == self.start,
            r.end == Some(value),
    {
        Range { start: self.start, end: Some(value) }
    }
}

} // verus!
