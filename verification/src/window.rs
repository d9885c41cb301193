//! Half-open time windows `[start, end)` and their overlap test.

use vstd::prelude::*;

verus! {

/// A half-open interval of time, `[start, end)`, in seconds since the Unix
/// epoch. A window is valid only when `start < end`; windows with
/// `start >= end` can be built (requests arrive that way) but are rejected
/// by every operation that validates its input.
#[derive(Clone, Copy, Debug, PartialEq, Eq, Structural)]
pub struct TimeWindow {
    pub start: i64,
    pub end: i64,
}

/// A window is valid when it spans at least one instant.
pub open spec fn spec_valid_window(w: TimeWindow) -> bool {
    w.start < w.end
}

/// Two half-open windows overlap exactly when each one starts before the
/// other ends; touching endpoints do not overlap.
pub open spec fn spec_overlaps(a: TimeWindow, b: TimeWindow) -> bool {
    a.start < b.end && b.start < a.end
}

impl TimeWindow {
    /// Builds the window `[start, end)` without validating it.
    pub fn new(start: i64, end: i64) -> (w: TimeWindow)
        ensures
            w.start == start,
            w.end == end,
    {
        TimeWindow { start, end }
    }

    /// True when the window spans at least one instant.
    pub fn is_valid(&self) -> (r: bool)
        ensures
            r == spec_valid_window(*self),
    {
        self.start < self.end
    }

    /// Half-open interval intersection test.
    pub fn overlaps(&self, other: &TimeWindow) -> (r: bool)
        ensures
            r == spec_overlaps(*self, *other),
    {
        self.start < other.end && other.start < self.end
    }

    /// True when the instant `t` lies inside the half-open window.
    pub fn contains(&self, t: i64) -> (r: bool)
        ensures
            r == (self.start <= t < self.end),
    {
        self.start <= t && t < self.end
    }

    /// The window as a `(start, end)` pair, the storage encoding of a range.
    pub fn to_range(&self) -> (r: (i64, i64))
        ensures
            r.0 == self.start,
            r.1 == self.end,
    {
        (self.start, self.end)
    }
}

/// Law: the overlap test is symmetric, and every valid window overlaps
/// itself.
pub proof fn lemma_overlaps_symmetric(a: TimeWindow, b: TimeWindow)
    ensures
        spec_overlaps(a, b) == spec_overlaps(b, a),
        spec_valid_window(a) ==> spec_overlaps(a, a),
{
}

} // verus!
