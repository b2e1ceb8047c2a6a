//! Atom parsing for hours and minutes: bounded numeric literals only.

use vstd::prelude::*;

use crate::parser::AtomParse;
use crate::text::{parse_bounded_num, spec_parse_num, trim_spec, trim_str};
use crate::types::{Hour, Minute};

verus! {

impl AtomParse for Hour {
    open spec fn spec_atom(t: Seq<char>) -> Option<Hour> {
        match spec_parse_num(trim_spec(t)) {
            Some(v) => if 0 <= v <= 23 {
                Some(Hour(v as u8))
            } else {
                None
            },
            None => None,
        }
    }

    fn parse_atom(val: &str) -> Option<Hour> {
        let trimmed = trim_str(val);
        match parse_bounded_num(trimmed, 23) {
            Some(idx) => Hour::new(idx),
            None => None,
        }
    }
}

impl AtomParse for Minute {
    open spec fn spec_atom(t: Seq<char>) -> Option<Minute> {
        match spec_parse_num(trim_spec(t)) {
            Some(v) => if 0 <= v <= 59 {
                Some(Minute(v as u8))
            } else {
                None
            },
            None => None,
        }
    }

    fn parse_atom(val: &str) -> Option<Minute> {
        let trimmed = trim_str(val);
        match parse_bounded_num(trimmed, 59) {
            Some(idx) => Minute::new(idx),
            None => None,
        }
    }
}

} // verus!
