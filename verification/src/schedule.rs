//! The schedule itself: five per-axis lists of parts, and the membership
//! test of a timestamp.

use vstd::prelude::*;

use crate::as_u8::AsU8;
use crate::datetime;
use crate::types::{DateTimePart, Hour, Minute, Month, MonthDay, Weekday};

verus! {

/// Whether the canonical value `v` matches the axis constrained by
/// `parts`: an empty list is a wildcard and matches everything, otherwise
/// at least one part must contain `v`.
pub open spec fn axis_matches<T: AsU8>(parts: Seq<DateTimePart<T>>, v: u8) -> bool {
    parts.len() == 0 || exists|i: int| 0 <= i < parts.len() && parts[i].contains_spec(v)
}

/// Whether `element` matches the axis constrained by `parts`.
pub fn contains_element<T: AsU8>(parts: &[DateTimePart<T>], element: &T) -> (r: bool)
    ensures
        r == axis_matches(parts@, element.canon()),
{
    let n = parts.len();
    if n == 0 {
        // Wild-card
        return true;
    }
    let mut i: usize = 0;
    while i < n
        invariant
            n == parts@.len(),
            i <= n,
            forall|j: int| 0 <= j < i ==> !parts@[j].contains_spec(element.canon()),
        decreases n - i,
    {
        if parts[i].contains(element) {
            return true;
        }
        i += 1;
    }
    false
}

/// The specification-level image of a [`Schedule`]: one sequence of parts
/// per axis.
pub struct ScheduleView {
    pub hours: Seq<DateTimePart<Hour>>,
    pub minutes: Seq<DateTimePart<Minute>>,
    pub days: Seq<DateTimePart<MonthDay>>,
    pub months: Seq<DateTimePart<Month>>,
    pub weekdays: Seq<DateTimePart<Weekday>>,
}

/// The view of a schedule with no declared alternative on any axis.
pub open spec fn empty_schedule() -> ScheduleView {
    ScheduleView {
        hours: Seq::empty(),
        minutes: Seq::empty(),
        days: Seq::empty(),
        months: Seq::empty(),
        weekdays: Seq::empty(),
    }
}

/// Every range part on every axis has strictly increasing bounds.
pub open spec fn schedule_wf(v: ScheduleView) -> bool {
    &&& forall|i: int| 0 <= i < v.hours.len() ==> v.hours[i].wf()
    &&& forall|i: int| 0 <= i < v.minutes.len() ==> v.minutes[i].wf()
    &&& forall|i: int| 0 <= i < v.days.len() ==> v.days[i].wf()
    &&& forall|i: int| 0 <= i < v.months.len() ==> v.months[i].wf()
    &&& forall|i: int| 0 <= i < v.weekdays.len() ==> v.weekdays[i].wf()
}

/// The five calendar fields read from one timestamp, as canonical values.
pub struct TimeParts {
    pub hour: u8,
    pub minute: u8,
    pub day: u8,
    pub month: u8,
    pub weekday: u8,
}

/// The ranges the calendar guarantees for extracted fields.
pub open spec fn time_parts_wf(t: TimeParts) -> bool {
    t.hour <= 23 && t.minute <= 59 && 1 <= t.day <= 31 && 1 <= t.month <= 12 && t.weekday <= 6
}

/// The membership test: on each axis an empty list matches anything and a
/// non-empty list matches when one of its parts contains the value; the
/// overall match is the conjunction over the five axes.
pub open spec fn spec_matches(s: ScheduleView, t: TimeParts) -> bool {
    &&& axis_matches(s.months, t.month)
    &&& axis_matches(s.days, t.day)
    &&& axis_matches(s.hours, t.hour)
    &&& axis_matches(s.minutes, t.minute)
    &&& axis_matches(s.weekdays, t.weekday)
}

/// The five calendar fields of one timestamp, as canonical values: what
/// chrono reads from it, named field by field.
pub open spec fn time_parts_of(date_time: chrono::NaiveDateTime) -> TimeParts {
    TimeParts {
        hour: datetime::hour_of(date_time),
        minute: datetime::minute_of(date_time),
        day: datetime::day_of(date_time),
        month: datetime::month_of(date_time),
        weekday: datetime::weekday_of(date_time),
    }
}

/// The per-axis component values extracted from one timestamp.
pub struct DateTimePartExtractor {
    pub hour: Hour,
    pub minute: Minute,
    pub day: MonthDay,
    pub month: Month,
    pub weekday: Weekday,
}

impl View for DateTimePartExtractor {
    type V = TimeParts;

    open spec fn view(&self) -> TimeParts {
        TimeParts {
            hour: self.hour.canon(),
            minute: self.minute.canon(),
            day: self.day.canon(),
            month: self.month.canon(),
            weekday: self.weekday.canon(),
        }
    }
}

impl DateTimePartExtractor {
    /// Reads the five calendar fields of `date_time` through chrono and
    /// validates each against its documented range.
    pub fn new(date_time: chrono::NaiveDateTime) -> (r: Self)
        ensures
            r@ == time_parts_of(date_time),
            time_parts_wf(r@),
    {
        let h = datetime::extract_hour(&date_time);
        let mi = datetime::extract_minute(&date_time);
        let d = datetime::extract_day(&date_time);
        let mo = datetime::extract_month(&date_time);
        let w = datetime::extract_weekday(&date_time);
        DateTimePartExtractor {
            hour: Hour::new(h).unwrap(),
            minute: Minute::new(mi).unwrap(),
            day: MonthDay::from_u8(d).unwrap(),
            month: Month::from_u8(mo).unwrap(),
            weekday: Weekday::from_u8(w).unwrap(),
        }
    }

    pub fn hour(&self) -> (r: Hour)
        ensures
            r.canon() == self@.hour,
    {
        self.hour
    }

    pub fn minute(&self) -> (r: Minute)
        ensures
            r.canon() == self@.minute,
    {
        self.minute
    }

    pub fn month(&self) -> (r: Month)
        ensures
            r.canon() == self@.month,
    {
        self.month
    }

    pub fn month_day(&self) -> (r: MonthDay)
        ensures
            r.canon() == self@.day,
    {
        self.day
    }

    pub fn weekday(&self) -> (r: Weekday)
        ensures
            r.canon() == self@.weekday,
    {
        self.weekday
    }
}

/// A parsed schedule: per axis, the declared alternatives in declaration
/// order. An empty axis is a wildcard.
#[derive(Debug)]
pub struct Schedule {
    /// The alternatives for the hour of the day.
    pub hour_spec: Vec<DateTimePart<Hour>>,
    /// The alternatives for the minute of the hour.
    pub minute_spec: Vec<DateTimePart<Minute>>,
    /// The alternatives for the day of the month.
    pub day_spec: Vec<DateTimePart<MonthDay>>,
    /// The alternatives for the month.
    pub month_spec: Vec<DateTimePart<Month>>,
    /// The alternatives for the weekday.
    pub weekday_spec: Vec<DateTimePart<Weekday>>,
}

impl View for Schedule {
    type V = ScheduleView;

    open spec fn view(&self) -> ScheduleView {
        ScheduleView {
            hours: self.hour_spec@,
            minutes: self.minute_spec@,
            days: self.day_spec@,
            months: self.month_spec@,
            weekdays: self.weekday_spec@,
        }
    }
}

impl Default for Schedule {
    fn default() -> (r: Self)
        ensures
            r@ == empty_schedule(),
    {
        Schedule::new()
    }
}

impl Schedule {
    /// A schedule with no constraint on any axis.
    pub fn new() -> (r: Self)
        ensures
            r@ == empty_schedule(),
    {
        Schedule {
            month_spec: Vec::new(),
            day_spec: Vec::new(),
            weekday_spec: Vec::new(),
            hour_spec: Vec::new(),
            minute_spec: Vec::new(),
        }
    }

    fn contains_hour(&self, hour: Hour) -> (r: bool)
        ensures
            r == axis_matches(self@.hours, hour.canon()),
    {
        contains_element(self.hour_spec.as_slice(), &hour)
    }

    fn contains_minute(&self, minute: Minute) -> (r: bool)
        ensures
            r == axis_matches(self@.minutes, minute.canon()),
    {
        contains_element(self.minute_spec.as_slice(), &minute)
    }

    fn contains_day(&self, day: MonthDay) -> (r: bool)
        ensures
            r == axis_matches(self@.days, day.canon()),
    {
        contains_element(self.day_spec.as_slice(), &day)
    }

    fn contains_month(&self, month: Month) -> (r: bool)
        ensures
            r == axis_matches(self@.months, month.canon()),
    {
        contains_element(self.month_spec.as_slice(), &month)
    }

    fn contains_weekday(&self, weekday: Weekday) -> (r: bool)
        ensures
            r == axis_matches(self@.weekdays, weekday.canon()),
    {
        contains_element(self.weekday_spec.as_slice(), &weekday)
    }

    /// Whether the already-extracted calendar fields fall inside this
    /// schedule's window.
    pub fn matches_parts(&self, extractor: &DateTimePartExtractor) -> (r: bool)
        ensures
            r == spec_matches(self@, extractor@),
    {
        self.contains_month(extractor.month()) && self.contains_day(extractor.month_day())
            && self.contains_hour(extractor.hour()) && self.contains_minute(extractor.minute())
            && self.contains_weekday(extractor.weekday())
    }

    /// Whether the timestamp falls inside this schedule's window: the
    /// membership test of the calendar fields that `date_time` carries.
    pub fn matches(&self, date_time: chrono::NaiveDateTime) -> (r: bool)
        ensures
            r == spec_matches(self@, time_parts_of(date_time)),
    {
        let extractor = DateTimePartExtractor::new(date_time);
        self.matches_parts(&extractor)
    }
}

} // verus!
