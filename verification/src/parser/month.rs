//! Atom parsing for months: a calendar number, a three-letter abbreviation
//! or a full name, names compared ignoring ASCII case.

use vstd::prelude::*;

use crate::parser::AtomParse;
use crate::text::{
    eq_ign_seq, eq_ignore_case, parse_bounded_num, spec_parse_num, trim_spec, trim_str,
};
use crate::types::{month_of_num, Month};

verus! {

/// The month a numeric token denotes: `1` to `12`.
pub open spec fn spec_month_idx(t: Seq<char>) -> Option<Month> {
    match spec_parse_num(t) {
        Some(v) => if 1 <= v <= 12 {
            Some(month_of_num(v as u8))
        } else {
            None
        },
        None => None,
    }
}

/// The month a three-letter abbreviation denotes, ignoring case.
pub open spec fn spec_month_abbr(t: Seq<char>) -> Option<Month> {
    if eq_ign_seq(t, "jan"@) {
        Some(Month::January)
    } else if eq_ign_seq(t, "feb"@) {
        Some(Month::February)
    } else if eq_ign_seq(t, "mar"@) {
        Some(Month::March)
    } else if eq_ign_seq(t, "apr"@) {
        Some(Month::April)
    } else if eq_ign_seq(t, "may"@) {
        Some(Month::May)
    } else if eq_ign_seq(t, "jun"@) {
        Some(Month::June)
    } else if eq_ign_seq(t, "jul"@) {
        Some(Month::July)
    } else if eq_ign_seq(t, "aug"@) {
        Some(Month::August)
    } else if eq_ign_seq(t, "sep"@) {
        Some(Month::September)
    } else if eq_ign_seq(t, "oct"@) {
        Some(Month::October)
    } else if eq_ign_seq(t, "nov"@) {
        Some(Month::November)
    } else if eq_ign_seq(t, "dec"@) {
        Some(Month::December)
    } else {
        None
    }
}

/// The month a full calendar name denotes, ignoring case.
pub open spec fn spec_month_full(t: Seq<char>) -> Option<Month> {
    if eq_ign_seq(t, "january"@) {
        Some(Month::January)
    } else if eq_ign_seq(t, "february"@) {
        Some(Month::February)
    } else if eq_ign_seq(t, "march"@) {
        Some(Month::March)
    } else if eq_ign_seq(t, "april"@) {
        Some(Month::April)
    } else if eq_ign_seq(t, "may"@) {
        Some(Month::May)
    } else if eq_ign_seq(t, "june"@) {
        Some(Month::June)
    } else if eq_ign_seq(t, "july"@) {
        Some(Month::July)
    } else if eq_ign_seq(t, "august"@) {
        Some(Month::August)
    } else if eq_ign_seq(t, "september"@) {
        Some(Month::September)
    } else if eq_ign_seq(t, "october"@) {
        Some(Month::October)
    } else if eq_ign_seq(t, "november"@) {
        Some(Month::November)
    } else if eq_ign_seq(t, "december"@) {
        Some(Month::December)
    } else {
        None
    }
}

/// Parses a month given by its calendar number.
pub fn parse_month_idx(val: &str) -> (r: Option<Month>)
    ensures
        r == spec_month_idx(val@),
{
    match parse_bounded_num(val, 12) {
        Some(idx) => if idx >= 1 {
            Month::from_u8(idx)
        } else {
            None
        },
        None => None,
    }
}

fn parse_month_abbr(val: &str) -> (r: Option<Month>)
    ensures
        r == spec_month_abbr(val@),
{
    if eq_ignore_case(val, "jan") {
        Some(Month::January)
    } else if eq_ignore_case(val, "feb") {
        Some(Month::February)
    } else if eq_ignore_case(val, "mar") {
        Some(Month::March)
    } else if eq_ignore_case(val, "apr") {
        Some(Month::April)
    } else if eq_ignore_case(val, "may") {
        Some(Month::May)
    } else if eq_ignore_case(val, "jun") {
        Some(Month::June)
    } else if eq_ignore_case(val, "jul") {
        Some(Month::July)
    } else if eq_ignore_case(val, "aug") {
        Some(Month::August)
    } else if eq_ignore_case(val, "sep") {
        Some(Month::September)
    } else if eq_ignore_case(val, "oct") {
        Some(Month::October)
    } else if eq_ignore_case(val, "nov") {
        Some(Month::November)
    } else if eq_ignore_case(val, "dec") {
        Some(Month::December)
    } else {
        None
    }
}

fn parse_month(val: &str) -> (r: Option<Month>)
    ensures
        r == spec_month_full(val@),
{
    if eq_ignore_case(val, "january") {
        Some(Month::January)
    } else if eq_ignore_case(val, "february") {
        Some(Month::February)
    } else if eq_ignore_case(val, "march") {
        Some(Month::March)
    } else if eq_ignore_case(val, "april") {
        Some(Month::April)
    } else if eq_ignore_case(val, "may") {
        Some(Month::May)
    } else if eq_ignore_case(val, "june") {
        Some(Month::June)
    } else if eq_ignore_case(val, "july") {
        Some(Month::July)
    } else if eq_ignore_case(val, "august") {
        Some(Month::August)
    } else if eq_ignore_case(val, "september") {
        Some(Month::September)
    } else if eq_ignore_case(val, "october") {
        Some(Month::October)
    } else if eq_ignore_case(val, "november") {
        Some(Month::November)
    } else if eq_ignore_case(val, "december") {
        Some(Month::December)
    } else {
        None
    }
}

impl AtomParse for Month {
    open spec fn spec_atom(t: Seq<char>) -> Option<Month> {
        let tr = trim_spec(t);
        match spec_month_idx(tr) {
            Some(m) => Some(m),
            None => match spec_month_abbr(tr) {
                Some(m) => Some(m),
                None => spec_month_full(tr),
            },
        }
    }

    fn parse_atom(val: &str) -> Option<Month> {
        let trimmed = trim_str(val);
        match parse_month_idx(trimmed) {
            Some(m) => Some(m),
            None => match parse_month_abbr(trimmed) {
                Some(m) => Some(m),
                None => parse_month(trimmed),
            },
        }
    }
}

} // verus!
