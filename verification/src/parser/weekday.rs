//! Atom parsing for weekdays: a Sunday-based number, a three-letter
//! abbreviation or a full name, names compared ignoring ASCII case.

use vstd::prelude::*;

use crate::parser::AtomParse;
use crate::text::{
    eq_ign_seq, eq_ignore_case, parse_bounded_num, spec_parse_num, trim_spec, trim_str,
};
use crate::types::{weekday_of_num, Weekday};

verus! {

/// The weekday a numeric token denotes: `0` (Sunday) to `6` (Saturday).
pub open spec fn spec_weekday_idx(t: Seq<char>) -> Option<Weekday> {
    match spec_parse_num(t) {
        Some(v) => if 0 <= v <= 6 {
            Some(weekday_of_num(v as u8))
        } else {
            None
        },
        None => None,
    }
}

/// The weekday a three-letter abbreviation denotes, ignoring case.
pub open spec fn spec_weekday_abbr(t: Seq<char>) -> Option<Weekday> {
    if eq_ign_seq(t, "mon"@) {
        Some(Weekday::Monday)
    } else if eq_ign_seq(t, "tue"@) {
        Some(Weekday::Tuesday)
    } else if eq_ign_seq(t, "wed"@) {
        Some(Weekday::Wednesday)
    } else if eq_ign_seq(t, "thu"@) {
        Some(Weekday::Thursday)
    } else if eq_ign_seq(t, "fri"@) {
        Some(Weekday::Friday)
    } else if eq_ign_seq(t, "sat"@) {
        Some(Weekday::Saturday)
    } else if eq_ign_seq(t, "sun"@) {
        Some(Weekday::Sunday)
    } else {
        None
    }
}

/// The weekday a full name denotes, ignoring case.
pub open spec fn spec_weekday_full(t: Seq<char>) -> Option<Weekday> {
    if eq_ign_seq(t, "monday"@) {
        Some(Weekday::Monday)
    } else if eq_ign_seq(t, "tuesday"@) {
        Some(Weekday::Tuesday)
    } else if eq_ign_seq(t, "wednesday"@) {
        Some(Weekday::Wednesday)
    } else if eq_ign_seq(t, "thursday"@) {
        Some(Weekday::Thursday)
    } else if eq_ign_seq(t, "friday"@) {
        Some(Weekday::Friday)
    } else if eq_ign_seq(t, "saturday"@) {
        Some(Weekday::Saturday)
    } else if eq_ign_seq(t, "sunday"@) {
        Some(Weekday::Sunday)
    } else {
        None
    }
}

/// Parses a weekday given by its Sunday-based number.
pub fn parse_weekday_idx(val: &str) -> (r: Option<Weekday>)
    ensures
        r == spec_weekday_idx(val@),
{
    match parse_bounded_num(val, 6) {
        Some(idx) => Weekday::from_u8(idx),
        None => None,
    }
}

fn parse_weekday_abbr(val: &str) -> (r: Option<Weekday>)
    ensures
        r == spec_weekday_abbr(val@),
{
    if eq_ignore_case(val, "mon") {
        Some(Weekday::Monday)
    } else if eq_ignore_case(val, "tue") {
        Some(Weekday::Tuesday)
    } else if eq_ignore_case(val, "wed") {
        Some(Weekday::Wednesday)
    } else if eq_ignore_case(val, "thu") {
        Some(Weekday::Thursday)
    } else if eq_ignore_case(val, "fri") {
        Some(Weekday::Friday)
    } else if eq_ignore_case(val, "sat") {
        Some(Weekday::Saturday)
    } else if eq_ignore_case(val, "sun") {
        Some(Weekday::Sunday)
    } else {
        None
    }
}

fn parse_weekday(val: &str) -> (r: Option<Weekday>)
    ensures
        r == spec_weekday_full(val@),
{
    if eq_ignore_case(val, "monday") {
        Some(Weekday::Monday)
    } else if eq_ignore_case(val, "tuesday") {
        Some(Weekday::Tuesday)
    } else if eq_ignore_case(val, "wednesday") {
        Some(Weekday::Wednesday)
    } else if eq_ignore_case(val, "thursday") {
        Some(Weekday::Thursday)
    } else if eq_ignore_case(val, "friday") {
        Some(Weekday::Friday)
    } else if eq_ignore_case(val, "saturday") {
        Some(Weekday::Saturday)
    } else if eq_ignore_case(val, "sunday") {
        Some(Weekday::Sunday)
    } else {
        None
    }
}

impl AtomParse for Weekday {
    open spec fn spec_atom(t: Seq<char>) -> Option<Weekday> {
        let tr = trim_spec(t);
        match spec_weekday_idx(tr) {
            Some(w) => Some(w),
            None => match spec_weekday_abbr(tr) {
                Some(w) => Some(w),
                None => spec_weekday_full(tr),
            },
        }
    }

    fn parse_atom(val: &str) -> Option<Weekday> {
        let trimmed = trim_str(val);
        match parse_weekday_idx(trimmed) {
            Some(w) => Some(w),
            None => match parse_weekday_abbr(trimmed) {
                Some(w) => Some(w),
                None => parse_weekday(trimmed),
            },
        }
    }
}

} // verus!
