//! General properties of the library, stated once and proved by the
//! verifier.

use vstd::prelude::*;

use crate::as_u8::AsU8;
use crate::error::ErrView;
use crate::parser::{spec_parse_schedule, AtomParse};
use crate::schedule::{axis_matches, spec_matches, ScheduleView, TimeParts};
use crate::text::{
    all_digits, eq_ign_char, eq_ign_seq, is_digit_char, is_space_char, spec_parse_num,
    trim_end_spec, trim_spec, trim_start_spec,
};
use crate::types::{DateTimePart, Month, Weekday};

verus! {

/// An axis with no declared alternative matches every value.
pub proof fn lemma_empty_axis_is_wildcard<T: AsU8>(parts: Seq<DateTimePart<T>>, v: u8)
    requires
        parts.len() == 0,
    ensures
        axis_matches(parts, v),
{
}

/// A schedule whose hour list is empty matches independently of the hour.
pub proof fn lemma_wildcard_hour(s: ScheduleView, t1: TimeParts, t2: TimeParts)
    requires
        s.hours.len() == 0,
        t1.minute == t2.minute,
        t1.day == t2.day,
        t1.month == t2.month,
        t1.weekday == t2.weekday,
    ensures
        spec_matches(s, t1) == spec_matches(s, t2),
{
}

/// A schedule whose minute list is empty matches independently of the
/// minute.
pub proof fn lemma_wildcard_minute(s: ScheduleView, t1: TimeParts, t2: TimeParts)
    requires
        s.minutes.len() == 0,
        t1.hour == t2.hour,
        t1.day == t2.day,
        t1.month == t2.month,
        t1.weekday == t2.weekday,
    ensures
        spec_matches(s, t1) == spec_matches(s, t2),
{
}

/// A schedule whose day list is empty matches independently of the day of
/// the month.
pub proof fn lemma_wildcard_day(s: ScheduleView, t1: TimeParts, t2: TimeParts)
    requires
        s.days.len() == 0,
        t1.hour == t2.hour,
        t1.minute == t2.minute,
        t1.month == t2.month,
        t1.weekday == t2.weekday,
    ensures
        spec_matches(s, t1) == spec_matches(s, t2),
{
}

/// A schedule whose month list is empty matches independently of the month.
pub proof fn lemma_wildcard_month(s: ScheduleView, t1: TimeParts, t2: TimeParts)
    requires
        s.months.len() == 0,
        t1.hour == t2.hour,
        t1.minute == t2.minute,
        t1.day == t2.day,
        t1.weekday == t2.weekday,
    ensures
        spec_matches(s, t1) == spec_matches(s, t2),
{
}

/// A schedule whose weekday list is empty matches independently of the
/// weekday.
pub proof fn lemma_wildcard_weekday(s: ScheduleView, t1: TimeParts, t2: TimeParts)
    requires
        s.weekdays.len() == 0,
        t1.hour == t2.hour,
        t1.minute == t2.minute,
        t1.day == t2.day,
        t1.month == t2.month,
    ensures
        spec_matches(s, t1) == spec_matches(s, t2),
{
}

/// A schedule that constrains only the weekday, to one single day,
/// matches exactly the timestamps whose weekday is that day.
pub proof fn lemma_single_weekday_matches(s: ScheduleView, w: Weekday, t: TimeParts)
    requires
        s.hours.len() == 0,
        s.minutes.len() == 0,
        s.days.len() == 0,
        s.months.len() == 0,
        s.weekdays == seq![DateTimePart::Single(w)],
    ensures
        spec_matches(s, t) == (t.weekday == w.canon()),
{
    assert(s.weekdays[0] == DateTimePart::Single(w));
    if t.weekday == w.canon() {
        assert(s.weekdays[0].contains_spec(t.weekday));
        assert(axis_matches(s.weekdays, t.weekday));
    }
}

/// A schedule that constrains only the weekday, to two single-day
/// alternatives, matches exactly the timestamps whose weekday is one of
/// the two.
pub proof fn lemma_weekday_alternatives_match(
    s: ScheduleView,
    w1: Weekday,
    w2: Weekday,
    t: TimeParts,
)
    requires
        s.hours.len() == 0,
        s.minutes.len() == 0,
        s.days.len() == 0,
        s.months.len() == 0,
        s.weekdays == seq![DateTimePart::Single(w1), DateTimePart::Single(w2)],
    ensures
        spec_matches(s, t) == (t.weekday == w1.canon() || t.weekday == w2.canon()),
{
    assert(s.weekdays[0] == DateTimePart::Single(w1));
    assert(s.weekdays[1] == DateTimePart::Single(w2));
    if t.weekday == w1.canon() {
        assert(s.weekdays[0].contains_spec(t.weekday));
        assert(axis_matches(s.weekdays, t.weekday));
    }
    if t.weekday == w2.canon() {
        assert(s.weekdays[1].contains_spec(t.weekday));
        assert(axis_matches(s.weekdays, t.weekday));
    }
}

/// Parsing is deterministic: two successful parses of the same text agree
/// on `matches` for every timestamp.
pub proof fn lemma_parse_idempotent(
    text: Seq<char>,
    s1: ScheduleView,
    s2: ScheduleView,
    t: TimeParts,
)
    requires
        spec_parse_schedule(text) == Ok::<ScheduleView, ErrView>(s1),
        spec_parse_schedule(text) == Ok::<ScheduleView, ErrView>(s2),
    ensures
        spec_matches(s1, t) == spec_matches(s2, t),
{
}

proof fn lemma_eq_ign_char_facts(a: char, b: char)
    requires
        eq_ign_char(a, b),
    ensures
        is_space_char(a) <==> is_space_char(b),
        is_digit_char(a) ==> a == b,
        is_digit_char(b) ==> a == b,
        a == '+' <==> b == '+',
{
}

proof fn lemma_trim_start_ign(a: Seq<char>, b: Seq<char>)
    requires
        eq_ign_seq(a, b),
    ensures
        eq_ign_seq(trim_start_spec(a), trim_start_spec(b)),
    decreases a.len(),
{
    if a.len() > 0 {
        lemma_eq_ign_char_facts(a[0], b[0]);
        if is_space_char(a[0]) {
            let a2 = a.subrange(1, a.len() as int);
            let b2 = b.subrange(1, b.len() as int);
            assert forall|i: int| 0 <= i < a2.len() implies eq_ign_char(a2[i], b2[i]) by {
                assert(eq_ign_char(a[i + 1], b[i + 1]));
            }
            lemma_trim_start_ign(a2, b2);
        }
    }
}

proof fn lemma_trim_end_ign(a: Seq<char>, b: Seq<char>)
    requires
        eq_ign_seq(a, b),
    ensures
        eq_ign_seq(trim_end_spec(a), trim_end_spec(b)),
    decreases a.len(),
{
    if a.len() > 0 {
        lemma_eq_ign_char_facts(a[a.len() - 1], b[b.len() - 1]);
        if is_space_char(a[a.len() - 1]) {
            let a2 = a.subrange(0, a.len() - 1);
            let b2 = b.subrange(0, b.len() - 1);
            assert forall|i: int| 0 <= i < a2.len() implies eq_ign_char(a2[i], b2[i]) by {
                assert(eq_ign_char(a[i], b[i]));
            }
            lemma_trim_end_ign(a2, b2);
        }
    }
}

proof fn lemma_trim_ign(a: Seq<char>, b: Seq<char>)
    requires
        eq_ign_seq(a, b),
    ensures
        eq_ign_seq(trim_spec(a), trim_spec(b)),
{
    lemma_trim_start_ign(a, b);
    lemma_trim_end_ign(trim_start_spec(a), trim_start_spec(b));
}

proof fn lemma_parse_num_ign(a: Seq<char>, b: Seq<char>)
    requires
        eq_ign_seq(a, b),
    ensures
        spec_parse_num(a) == spec_parse_num(b),
{
    if a.len() > 0 {
        lemma_eq_ign_char_facts(a[0], b[0]);
    }
    let ta = if a.len() > 0 && a[0] == '+' {
        a.subrange(1, a.len() as int)
    } else {
        a
    };
    let tb = if b.len() > 0 && b[0] == '+' {
        b.subrange(1, b.len() as int)
    } else {
        b
    };
    assert forall|i: int| 0 <= i < ta.len() implies eq_ign_char(ta[i], tb[i]) by {
        if a.len() > 0 && a[0] == '+' {
            assert(eq_ign_char(a[i + 1], b[i + 1]));
        }
    }
    if all_digits(ta) {
        assert forall|i: int| 0 <= i < tb.len() implies is_digit_char(tb[i]) by {
            lemma_eq_ign_char_facts(ta[i], tb[i]);
        }
    }
    if all_digits(tb) {
        assert forall|i: int| 0 <= i < ta.len() implies is_digit_char(ta[i]) by {
            lemma_eq_ign_char_facts(ta[i], tb[i]);
        }
    }
    if ta.len() > 0 && all_digits(ta) {
        assert forall|i: int| 0 <= i < ta.len() implies ta[i] == tb[i] by {
            lemma_eq_ign_char_facts(ta[i], tb[i]);
        }
        assert(ta =~= tb);
    }
}

/// Month atoms are case-insensitive: texts equal up to ASCII case parse to
/// the same month, or both fail.
pub proof fn lemma_month_atom_case_insensitive(t1: Seq<char>, t2: Seq<char>)
    requires
        eq_ign_seq(t1, t2),
    ensures
        Month::spec_atom(t1) == Month::spec_atom(t2),
{
    lemma_trim_ign(t1, t2);
    let a = trim_spec(t1);
    let b = trim_spec(t2);
    lemma_parse_num_ign(a, b);
    assert forall|l: Seq<char>| #[trigger] eq_ign_seq(a, l) == eq_ign_seq(b, l) by {
        if eq_ign_seq(a, l) {
            assert forall|i: int| 0 <= i < b.len() implies eq_ign_char(b[i], l[i]) by {
                assert(eq_ign_char(a[i], b[i]));
                assert(eq_ign_char(a[i], l[i]));
            }
        }
        if eq_ign_seq(b, l) {
            assert forall|i: int| 0 <= i < a.len() implies eq_ign_char(a[i], l[i]) by {
                assert(eq_ign_char(a[i], b[i]));
                assert(eq_ign_char(b[i], l[i]));
            }
        }
    }
}

/// Weekday atoms are case-insensitive: texts equal up to ASCII case parse
/// to the same weekday, or both fail.
pub proof fn lemma_weekday_atom_case_insensitive(t1: Seq<char>, t2: Seq<char>)
    requires
        eq_ign_seq(t1, t2),
    ensures
        Weekday::spec_atom(t1) == Weekday::spec_atom(t2),
{
    lemma_trim_ign(t1, t2);
    let a = trim_spec(t1);
    let b = trim_spec(t2);
    lemma_parse_num_ign(a, b);
    assert forall|l: Seq<char>| #[trigger] eq_ign_seq(a, l) == eq_ign_seq(b, l) by {
        if eq_ign_seq(a, l) {
            assert forall|i: int| 0 <= i < b.len() implies eq_ign_char(b[i], l[i]) by {
                assert(eq_ign_char(a[i], b[i]));
                assert(eq_ign_char(a[i], l[i]));
            }
        }
        if eq_ign_seq(b, l) {
            assert forall|i: int| 0 <= i < a.len() implies eq_ign_char(a[i], l[i]) by {
                assert(eq_ign_char(a[i], b[i]));
                assert(eq_ign_char(b[i], l[i]));
            }
        }
    }
}

} // verus!
