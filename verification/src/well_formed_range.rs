//! The per-type well-formedness test for ranges.

use core::ops::Range;

use vstd::prelude::*;

use crate::as_u8::AsU8;
use crate::types::{Hour, Minute, Month, MonthDay, Weekday};

verus! {

/// A component type whose ranges can be tested for well-formedness.
///
/// A range is well formed exactly when the canonical value of its start is
/// strictly below that of its end: single-point and descending ranges are
/// rejected.
pub trait WellFormedRange: AsU8 {
    /// True exactly when the range's bounds strictly increase.
    fn is_well_formed(range: &Range<Self>) -> (r: bool)
        ensures
            r == (range.start.canon() < range.end.canon()),
    ;
}

impl WellFormedRange for Month {
    fn is_well_formed(range: &Range<Self>) -> bool {
        range.start.number_from_month() < range.end.number_from_month()
    }
}

impl WellFormedRange for MonthDay {
    fn is_well_formed(range: &Range<Self>) -> bool {
        range.start.as_u8() < range.end.as_u8()
    }
}

impl WellFormedRange for Hour {
    fn is_well_formed(range: &Range<Self>) -> bool {
        range.start.as_u8() < range.end.as_u8()
    }
}

impl WellFormedRange for Minute {
    fn is_well_formed(range: &Range<Self>) -> bool {
        range.start.as_u8() < range.end.as_u8()
    }
}

impl WellFormedRange for Weekday {
    fn is_well_formed(range: &Range<Self>) -> bool {
        range.start.num_days_from_sunday() < range.end.num_days_from_sunday()
    }
}

} // verus!
