//! The canonical numeric projection shared by every date-time component type.

use vstd::prelude::*;

use crate::types::{Hour, Minute, Month, MonthDay, Weekday};

verus! {

/// A bounded date-time component with a canonical `u8` projection.
///
/// The projection is the value used everywhere for comparison and
/// containment: hours and minutes are 0-based, days of the month and months
/// are 1-based, weekdays are 0-based starting at Sunday.
pub trait AsU8: Sized {
    /// The canonical numeric value, at the specification level.
    spec fn canon(&self) -> u8;

    /// The canonical numeric value.
    fn as_u8(&self) -> (r: u8)
        ensures
            r == self.canon(),
    ;
}

impl AsU8 for Hour {
    open spec fn canon(&self) -> u8 {
        self.0
    }

    fn as_u8(&self) -> u8 {
        self.get()
    }
}

impl AsU8 for Minute {
    open spec fn canon(&self) -> u8 {
        self.0
    }

    fn as_u8(&self) -> u8 {
        self.get()
    }
}

impl AsU8 for MonthDay {
    open spec fn canon(&self) -> u8 {
        self.0
    }

    fn as_u8(&self) -> u8 {
        self.get()
    }
}

impl AsU8 for Month {
    open spec fn canon(&self) -> u8 {
        match *self {
            Month::January => 1,
            Month::February => 2,
            Month::March => 3,
            Month::April => 4,
            Month::May => 5,
            Month::June => 6,
            Month::July => 7,
            Month::August => 8,
            Month::September => 9,
            Month::October => 10,
            Month::November => 11,
            Month::December => 12,
        }
    }

    fn as_u8(&self) -> u8 {
        match *self {
            Month::January => 1,
            Month::February => 2,
            Month::March => 3,
            Month::April => 4,
            Month::May => 5,
            Month::June => 6,
            Month::July => 7,
            Month::August => 8,
            Month::September => 9,
            Month::October => 10,
            Month::November => 11,
            Month::December => 12,
        }
    }
}

impl AsU8 for Weekday {
    open spec fn canon(&self) -> u8 {
        match *self {
            Weekday::Sunday => 0,
            Weekday::Monday => 1,
            Weekday::Tuesday => 2,
            Weekday::Wednesday => 3,
            Weekday::Thursday => 4,
            Weekday::Friday => 5,
            Weekday::Saturday => 6,
        }
    }

    fn as_u8(&self) -> u8 {
        match *self {
            Weekday::Sunday => 0,
            Weekday::Monday => 1,
            Weekday::Tuesday => 2,
            Weekday::Wednesday => 3,
            Weekday::Thursday => 4,
            Weekday::Friday => 5,
            Weekday::Saturday => 6,
        }
    }
}

} // verus!
