//! The validated date-time component types and the parts built from them.

use vstd::prelude::*;

use crate::as_u8::AsU8;
use crate::error::{Error, ErrView};
use crate::text::eq_ign_seq;
use crate::text::eq_ignore_case;
use vstd::string::StringExecFns;

verus! {

/// An hour of the day, `0` to `23`.
///
/// The inner value is exposed for specification purposes; use [`Hour::new`]
/// to construct one.
#[derive(Clone, Copy, Debug, PartialEq, Eq, Structural)]
pub struct Hour(pub u8);

impl Hour {
    /// Builds an hour, failing on a value above `23`.
    pub fn new(val: u8) -> (r: Option<Hour>)
        ensures
            val <= 23 ==> (r matches Some(h) && h.canon() == val && h == Hour(val)),
            val > 23 ==> r is None,
    {
        if val <= 23 {
            Some(Hour(val))
        } else {
            None
        }
    }

    /// The hour number, always `0` to `23`.
    pub fn get(&self) -> (r: u8)
        ensures
            r == self.canon(),
    {
        self.0
    }
}

/// A minute of the hour, `0` to `59`.
///
/// The inner value is exposed for specification purposes; use
/// [`Minute::new`] to construct one.
#[derive(Clone, Copy, Debug, PartialEq, Eq, Structural)]
pub struct Minute(pub u8);

impl Minute {
    /// Builds a minute, failing on a value above `59`.
    pub fn new(val: u8) -> (r: Option<Minute>)
        ensures
            val <= 59 ==> (r matches Some(m) && m.canon() == val && m == Minute(val)),
            val > 59 ==> r is None,
    {
        if val <= 59 {
            Some(Minute(val))
        } else {
            None
        }
    }

    /// The minute number, always `0` to `59`.
    pub fn get(&self) -> (r: u8)
        ensures
            r == self.canon(),
    {
        self.0
    }
}

/// A day of the month, `1` to `31`.
///
/// The inner value is exposed for specification purposes; use
/// [`MonthDay::from_u8`] to construct one.
#[derive(Clone, Copy, Debug, PartialEq, Eq, Structural)]
pub struct MonthDay(pub u8);

impl MonthDay {
    /// Builds a day of the month, failing outside `1` to `31`.
    pub fn from_u8(day: u8) -> (r: Option<MonthDay>)
        ensures
            1 <= day <= 31 ==> (r matches Some(d) && d.canon() == day && d == MonthDay(day)),
            day == 0 || day > 31 ==> r is None,
    {
        if day > 0 && day <= 31 {
            Some(MonthDay(day))
        } else {
            None
        }
    }

    /// The day number, always `1` to `31`.
    pub fn get(&self) -> (r: u8)
        ensures
            r == self.canon(),
    {
        self.0
    }
}

/// The month with calendar number `v`, for `v` between `1` and `12`.
pub open spec fn month_of_num(v: u8) -> Month {
    if v == 1 {
        Month::January
    } else if v == 2 {
        Month::February
    } else if v == 3 {
        Month::March
    } else if v == 4 {
        Month::April
    } else if v == 5 {
        Month::May
    } else if v == 6 {
        Month::June
    } else if v == 7 {
        Month::July
    } else if v == 8 {
        Month::August
    } else if v == 9 {
        Month::September
    } else if v == 10 {
        Month::October
    } else if v == 11 {
        Month::November
    } else {
        Month::December
    }
}

/// The weekday with Sunday-based number `v`, for `v` up to `6`.
pub open spec fn weekday_of_num(v: u8) -> Weekday {
    if v == 0 {
        Weekday::Sunday
    } else if v == 1 {
        Weekday::Monday
    } else if v == 2 {
        Weekday::Tuesday
    } else if v == 3 {
        Weekday::Wednesday
    } else if v == 4 {
        Weekday::Thursday
    } else if v == 5 {
        Weekday::Friday
    } else {
        Weekday::Saturday
    }
}

/// A calendar month, carrying its calendar number `1` to `12`.
#[derive(Clone, Copy, Debug, PartialEq, Eq, Structural)]
pub enum Month {
    January,
    February,
    March,
    April,
    May,
    June,
    July,
    August,
    September,
    October,
    November,
    December,
}

impl Month {
    /// Builds a month from its calendar number, failing outside `1` to `12`.
    pub fn from_u8(num: u8) -> (r: Option<Month>)
        ensures
            1 <= num <= 12 ==> (r matches Some(m) && m.canon() == num && m == month_of_num(
                num,
            )),
            num == 0 || num > 12 ==> r is None,
    {
        if num == 1 {
            Some(Month::January)
        } else if num == 2 {
            Some(Month::February)
        } else if num == 3 {
            Some(Month::March)
        } else if num == 4 {
            Some(Month::April)
        } else if num == 5 {
            Some(Month::May)
        } else if num == 6 {
            Some(Month::June)
        } else if num == 7 {
            Some(Month::July)
        } else if num == 8 {
            Some(Month::August)
        } else if num == 9 {
            Some(Month::September)
        } else if num == 10 {
            Some(Month::October)
        } else if num == 11 {
            Some(Month::November)
        } else if num == 12 {
            Some(Month::December)
        } else {
            None
        }
    }

    /// The calendar number of the month, `1` to `12`.
    pub fn number_from_month(&self) -> (r: u8)
        ensures
            r == self.canon(),
            1 <= r <= 12,
    {
        self.as_u8()
    }
}

/// A day of the week, counted from Sunday.
#[derive(Clone, Copy, Debug, PartialEq, Eq, Structural)]
pub enum Weekday {
    Sunday,
    Monday,
    Tuesday,
    Wednesday,
    Thursday,
    Friday,
    Saturday,
}

impl Weekday {
    /// Builds a weekday from its Sunday-based number, failing above `6`.
    pub fn from_u8(num: u8) -> (r: Option<Weekday>)
        ensures
            num <= 6 ==> (r matches Some(w) && w.canon() == num && w == weekday_of_num(num)),
            num > 6 ==> r is None,
    {
        if num == 0 {
            Some(Weekday::Sunday)
        } else if num == 1 {
            Some(Weekday::Monday)
        } else if num == 2 {
            Some(Weekday::Tuesday)
        } else if num == 3 {
            Some(Weekday::Wednesday)
        } else if num == 4 {
            Some(Weekday::Thursday)
        } else if num == 5 {
            Some(Weekday::Friday)
        } else if num == 6 {
            Some(Weekday::Saturday)
        } else {
            None
        }
    }

    /// The Sunday-based number of the weekday, `0` to `6`.
    pub fn num_days_from_sunday(&self) -> (r: u8)
        ensures
            r == self.canon(),
            r <= 6,
    {
        self.as_u8()
    }
}

/// The axis of a schedule that a declaration constrains.
#[derive(Clone, Copy, Debug, PartialEq, Eq, Structural)]
pub enum DateTimePartKind {
    Month,
    Day,
    Hour,
    Minute,
    Every,
    Weekday,
}

impl DateTimePartKind {
    /// Which axis the identifier `t` names, compared ignoring ASCII case;
    /// an unrecognized identifier is reported with the offending token.
    pub open spec fn spec_parse(t: Seq<char>) -> Result<DateTimePartKind, ErrView> {
        if eq_ign_seq(t, "month"@) {
            Ok(DateTimePartKind::Month)
        } else if eq_ign_seq(t, "day"@) {
            Ok(DateTimePartKind::Day)
        } else if eq_ign_seq(t, "weekday"@) {
            Ok(DateTimePartKind::Weekday)
        } else if eq_ign_seq(t, "hour"@) {
            Ok(DateTimePartKind::Hour)
        } else if eq_ign_seq(t, "minute"@) {
            Ok(DateTimePartKind::Minute)
        } else if eq_ign_seq(t, "every"@) {
            Ok(DateTimePartKind::Every)
        } else {
            Err(ErrView::UnknownDateTimePart(t))
        }
    }

    /// Resolves the identifier naming a date-time axis.
    pub fn parse(value: &str) -> (r: Result<Self, Error>)
        ensures
            (match r {
                Ok(k) => Self::spec_parse(value@) == Ok::<DateTimePartKind, ErrView>(k),
                Err(e) => Self::spec_parse(value@) matches Err(ev) && e@ == ev,
            }),
    {
        if eq_ignore_case(value, "month") {
            Ok(Self::Month)
        } else if eq_ignore_case(value, "day") {
            Ok(Self::Day)
        } else if eq_ignore_case(value, "weekday") {
            Ok(Self::Weekday)
        } else if eq_ignore_case(value, "hour") {
            Ok(Self::Hour)
        } else if eq_ignore_case(value, "minute") {
            Ok(Self::Minute)
        } else if eq_ignore_case(value, "every") {
            Ok(Self::Every)
        } else {
            Err(Error::UnknownDateTimePart(String::from_str(value)))
        }
    }
}

/// Either a single date-time part or a range of them.
///
/// E.g. `when day 2` or `when weekday Thu to Fri`.
#[derive(Clone, Copy, Debug)]
pub enum DateTimePart<T> {
    Single(T),
    Range { starting: T, ending: T },
}

impl<T: AsU8> DateTimePart<T> {
    /// A `Range` part is well formed only when its bounds strictly increase.
    pub open spec fn wf(self) -> bool {
        match self {
            DateTimePart::Single(_) => true,
            DateTimePart::Range { starting, ending } => starting.canon() < ending.canon(),
        }
    }

    /// Whether the canonical value `v` is inside this part: equality for a
    /// `Single`, inclusive bounds for a `Range`.
    pub open spec fn contains_spec(self, v: u8) -> bool {
        match self {
            DateTimePart::Single(single) => single.canon() == v,
            DateTimePart::Range { starting, ending } => starting.canon() <= v && v
                <= ending.canon(),
        }
    }

    /// Whether `other` is inside this part.
    pub fn contains(&self, other: &T) -> (r: bool)
        ensures
            r == self.contains_spec(other.canon()),
    {
        match self {
            DateTimePart::Single(single) => single.as_u8() == other.as_u8(),
            DateTimePart::Range { starting, ending } => {
                let v = other.as_u8();
                starting.as_u8() <= v && v <= ending.as_u8()
            },
        }
    }
}

} // verus!
