//! The ranges of std that select bits: a single index `i`, `a..b`, `a..=b`, `a..`, `..b`
//! and `..`.
use vstd::prelude::*;

use core::ops::{Bound, Range, RangeFrom, RangeFull, RangeInclusive, RangeTo};

use crate::BitIndex;

verus! {

/// Relies on `core::ops::Bound`: an enum of `Included`, `Excluded` and `Unbounded`, whose
/// variants are public.
#[verifier::external_type_specification]
#[verifier::reject_recursive_types(T)]
pub struct ExBound<T>(Bound<T>);

/// Relies on `core::ops::RangeFull`, the range `..`, a struct without fields.
#[verifier::external_type_specification]
pub struct ExRangeFull(RangeFull);

/// Relies on `core::ops::RangeFrom`, the range `a..`, whose one field `start` is public.
#[verifier::external_type_specification]
#[verifier::reject_recursive_types(Idx)]
pub struct ExRangeFrom<Idx>(RangeFrom<Idx>);

/// Relies on `core::ops::RangeTo`, the range `..b`, whose one field `end` is public.
#[verifier::external_type_specification]
#[verifier::reject_recursive_types(Idx)]
pub struct ExRangeTo<Idx>(RangeTo<Idx>);

/// Relies on `RangeInclusive::start`: the lower bound of the range, which `new` sets.
pub assume_specification<Idx>[ RangeInclusive::<Idx>::start ](r: &RangeInclusive<Idx>) -> (s: &Idx)
    ensures
        *s == r@.start,
;

/// Relies on `RangeInclusive::end`: the upper bound of the range, which `new` sets.
pub assume_specification<Idx>[ RangeInclusive::<Idx>::end ](r: &RangeInclusive<Idx>) -> (e: &Idx)
    ensures
        *e == r@.end,
;

/// `a..=b` selects the bits `a` to `b`, both included. (Of a range that has been iterated to
/// its end, std leaves the bounds unspecified.)
impl BitIndex for RangeInclusive<u32> {
    open spec fn spec_low(&self) -> Bound<&u32> {
        Bound::Included(&self@.start)
    }

    open spec fn spec_upper(&self) -> Bound<&u32> {
        Bound::Included(&self@.end)
    }

    fn low(&self) -> (r: Bound<&u32>) {
        Bound::Included(self.start())
    }

    fn upper(&self) -> (r: Bound<&u32>) {
        Bound::Included(self.end())
    }
}

impl BitIndex for RangeFull {
    open spec fn spec_low(&self) -> Bound<&u32> {
        Bound::Included(&0)
    }

    open spec fn spec_upper(&self) -> Bound<&u32> {
        Bound::Unbounded
    }

    fn low(&self) -> (r: Bound<&u32>) {
        Bound::Included(&0)
    }

    fn upper(&self) -> (r: Bound<&u32>) {
        Bound::Unbounded
    }
}

impl BitIndex for RangeFrom<u32> {
    open spec fn spec_low(&self) -> Bound<&u32> {
        Bound::Included(&self.start)
    }

    open spec fn spec_upper(&self) -> Bound<&u32> {
        Bound::Unbounded
    }

    fn low(&self) -> (r: Bound<&u32>) {
        Bound::Included(&self.start)
    }

    fn upper(&self) -> (r: Bound<&u32>) {
        Bound::Unbounded
    }
}

impl BitIndex for RangeTo<u32> {
    open spec fn spec_low(&self) -> Bound<&u32> {
        Bound::Included(&0)
    }

    open spec fn spec_upper(&self) -> Bound<&u32> {
        Bound::Excluded(&self.end)
    }

    fn low(&self) -> (r: Bound<&u32>) {
        Bound::Included(&0)
    }

    fn upper(&self) -> (r: Bound<&u32>) {
        Bound::Excluded(&self.end)
    }
}

impl BitIndex for Range<u32> {
    open spec fn spec_low(&self) -> Bound<&u32> {
        Bound::Included(&self.start)
    }

    open spec fn spec_upper(&self) -> Bound<&u32> {
        Bound::Excluded(&self.end)
    }

    fn low(&self) -> (r: Bound<&u32>) {
        Bound::Included(&self.start)
    }

    fn upper(&self) -> (r: Bound<&u32>) {
        Bound::Excluded(&self.end)
    }
}

impl BitIndex for u32 {
    open spec fn spec_low(&self) -> Bound<&u32> {
        Bound::Included(self)
    }

    open spec fn spec_upper(&self) -> Bound<&u32> {
        Bound::Included(self)
    }

    fn low(&self) -> (r: Bound<&u32>) {
        Bound::Included(self)
    }

    fn upper(&self) -> (r: Bound<&u32>) {
        Bound::Included(self)
    }
}

} // verus!
