//! Tests of the expression parser and of schedule matching.

use core::ops::Range;

use chrono::{NaiveDate, NaiveDateTime};

use scheda::parser::{parse_range, AtomParse, Parser};
use scheda::types::Month;

fn from_ymdhm(year: i32, month: u32, day: u32, hour: u32, min: u32) -> NaiveDateTime {
    NaiveDate::from_ymd_opt(year, month, day)
        .unwrap()
        .and_hms_opt(hour, min, 0)
        .unwrap()
}

fn assert_matches(date_time: NaiveDateTime, schedule: &str) {
    let schedule = Parser::new(schedule).parse_schedule().unwrap();

    assert!(schedule.matches(date_time));
}

fn assert_no_match(date_time: NaiveDateTime, schedule: &str) {
    let schedule = Parser::new(schedule).parse_schedule().unwrap();

    assert_eq!(schedule.matches(date_time), false);
}

#[test]
fn matches_dates_to_schedule() {
    // Tuesday, 22/05/2001 20h00
    let d05_22_2001 = from_ymdhm(2001, 5, 22, 20, 00);

    assert_matches(d05_22_2001, "when weekday tuesday");
    assert_matches(d05_22_2001, "when weekday monday to wednesday");
    assert_no_match(d05_22_2001, "when weekday wednesday or saturday");
    assert_no_match(d05_22_2001, "when weekday wednesday to friday");

    assert_matches(
        d05_22_2001,
        "when month 5, day 19 to 22, hour 20, weekday tuesday",
    );
    assert_matches(
        d05_22_2001,
        "when month 5 to 7, day 19 to 22, hour 18 to 21, weekday tuesday",
    );
    assert_no_match(
        d05_22_2001,
        "when month 6 to 11, day 19 to 22, hour 18 to 21, weekday tuesday",
    );
    assert_no_match(
        d05_22_2001,
        "when month 5, day 19 to 21, hour 18 to 21, weekday tuesday",
    );
    assert_no_match(
        d05_22_2001,
        "when month 5, day 19 to 22, hour 18 to 19, weekday tuesday",
    );
    assert_matches(
        d05_22_2001,
        "when month 5, day 19 to 22, hour 20, weekday tuesday",
    );
}

#[test]
fn parses_month_specs() {
    Parser::new("when month feb to mar").parse_schedule().unwrap();
    Parser::new("when month 10").parse_schedule().unwrap();
}

#[test]
fn lib_parses_month_ranges() {
    assert_eq!(
        parse_range("Jan to Mar").unwrap(),
        Range {
            start: Month::January,
            end: Month::March
        }
    );
    assert_eq!(
        parse_range("february to 10").unwrap(),
        Range {
            start: Month::February,
            end: Month::October
        }
    );
    assert_eq!(
        parse_range("Nov to Dec").unwrap(),
        Range {
            start: Month::November,
            end: Month::December
        }
    );
    assert_eq!(
        parse_range("2 to 10").unwrap(),
        Range {
            start: Month::February,
            end: Month::October
        }
    );

    // Bad: beginning bigger than ending
    assert!(parse_range::<Month>("10 to 5").is_err());
    assert!(parse_range::<Month>("Dec to Feb").is_err());

    // Bad: single-point ranges are not allowed
    assert!(parse_range::<Month>("Dec to Dec").is_err());
    assert!(parse_range::<Month>("february to Feb").is_err());

    // Bad: non-sense month values
    assert!(parse_range::<Month>("Dec to Tuesday").is_err());
    assert!(parse_range::<Month>("13 to 19").is_err());
}

#[test]
fn parser_parses_month_ranges() {
    assert_eq!(
        parse_range("Jan to Mar").unwrap(),
        Range {
            start: Month::January,
            end: Month::March
        }
    );
    assert_eq!(
        parse_range("february to 10").unwrap(),
        Range {
            start: Month::February,
            end: Month::October
        }
    );
    assert_eq!(
        parse_range("Nov to Dec").unwrap(),
        Range {
            start: Month::November,
            end: Month::December
        }
    );
    assert_eq!(
        parse_range("2 to 10").unwrap(),
        Range {
            start: Month::February,
            end: Month::October
        }
    );

    // Bad: beginning bigger than ending
    assert!(parse_range::<Month>("10 to 5").is_err());
    assert!(parse_range::<Month>("Dec to Feb").is_err());

    // Bad: single-point ranges are not allowed
    assert!(parse_range::<Month>("Dec to Dec").is_err());
    assert!(parse_range::<Month>("february to Feb").is_err());

    // Bad: non-sense month values
    assert!(parse_range::<Month>("Dec to Tuesday").is_err());
    assert!(parse_range::<Month>("13 to 19").is_err());
}

#[test]
fn parses_month_indexes() {
    let indexes = [
        ("1", Month::January),
        ("2", Month::February),
        ("3", Month::March),
        ("4", Month::April),
        ("5", Month::May),
        ("6", Month::June),
        ("7", Month::July),
        ("8", Month::August),
        ("9", Month::September),
        ("10", Month::October),
        ("11", Month::November),
        ("12", Month::December),
    ];

    for (to_parse, expected) in indexes {
        assert_eq!(Month::parse_atom(to_parse), Some(expected));
    }

    let bad_indexes = ["0", "120", "five", "12.2"];

    for idx in bad_indexes {
        assert!(Month::parse_atom(idx).is_none());
    }
}

#[test]
fn parses_month_abbreviations() {
    let abbrvs = [
        ("Jan", Month::January),
        ("jan", Month::January),
        ("JAN", Month::January),
        ("FeB", Month::February),
        ("MAR", Month::March),
        ("apr", Month::April),
        ("mAY", Month::May),
        ("jun", Month::June),
        ("jul", Month::July),
        ("Aug", Month::August),
        ("Sep", Month::September),
        ("OcT", Month::October),
        ("nOV", Month::November),
        ("Dec", Month::December),
    ];

    for (to_parse, expected) in abbrvs {
        assert_eq!(Month::parse_atom(to_parse), Some(expected));
    }

    for abbrv in ["januar", "fb", "marc", "thursday"] {
        assert!(Month::parse_atom(abbrv).is_none())
    }
}
