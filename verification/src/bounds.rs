//! Inclusive integer intervals as specifications see them.

use std::ops::RangeInclusive;
use vstd::prelude::*;

verus! {

/// An inclusive interval of integers, from `lo` up to `hi`.
pub struct Bounds {
    pub lo: int,
    pub hi: int,
}

impl Bounds {
    /// Whether the interval holds at least one integer.
    pub open spec fn is_ordered(self) -> bool {
        self.lo <= self.hi
    }

    /// Whether `value` lies in the interval.
    pub open spec fn holds(self, value: int) -> bool {
        self.lo <= value <= self.hi
    }

    /// Whether `inner` is an interval with at least one integer, all of
    /// whose integers lie in this one.
    pub open spec fn encloses(self, inner: Bounds) -> bool {
        self.lo <= inner.lo <= inner.hi <= self.hi
    }
}

/// The interval that a range of step counts stands for.
pub open spec fn step_bounds(range: RangeInclusive<u32>) -> Bounds {
    Bounds { lo: range@.start as int, hi: range@.end as int }
}

/// The interval that a range of sensor values stands for.
pub open spec fn value_bounds(range: RangeInclusive<i32>) -> Bounds {
    Bounds { lo: range@.start as int, hi: range@.end as int }
}

/// `RangeInclusive::start` of the standard library: it hands out the lower
/// bound that the range was made with.
pub assume_specification<Idx>[ RangeInclusive::<Idx>::start ](range: &RangeInclusive<Idx>) -> (
    bound: &Idx
)
    ensures
        *bound == range@.start,
;

/// `RangeInclusive::end` of the standard library: it hands out the upper
/// bound that the range was made with.
pub assume_specification<Idx>[ RangeInclusive::<Idx>::end ](range: &RangeInclusive<Idx>) -> (
    bound: &Idx
)
    ensures
        *bound == range@.end,
;

} // verus!
