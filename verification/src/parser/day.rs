//! Atom parsing for days of the month: bounded numeric literals only.

use vstd::prelude::*;

use crate::parser::AtomParse;
use crate::text::{parse_bounded_num, spec_parse_num, trim_spec, trim_str};
use crate::types::MonthDay;

verus! {

impl AtomParse for MonthDay {
    open spec fn spec_atom(t: Seq<char>) -> Option<MonthDay> {
        match spec_parse_num(trim_spec(t)) {
            Some(v) => if 1 <= v <= 31 {
                Some(MonthDay(v as u8))
            } else {
                None
            },
            None => None,
        }
    }

    fn parse_atom(val: &str) -> Option<MonthDay> {
        let trimmed = trim_str(val);
        match parse_bounded_num(trimmed, 31) {
            Some(parsed) => MonthDay::from_u8(parsed),
            None => None,
        }
    }
}

} // verus!
