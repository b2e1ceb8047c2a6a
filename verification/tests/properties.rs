//! Tests of the bounded component types, the error taxonomy and the
//! matching semantics.

use core::ops::Range;

use chrono::{NaiveDate, NaiveDateTime};

use scheda::error::{Error, RangeError};
use scheda::parser::{parse_range, parse_schedule, AtomParse};
use scheda::parser::month::parse_month_idx;
use scheda::parser::weekday::parse_weekday_idx;
use scheda::schedule::DateTimePartExtractor;
use scheda::types::{DateTimePart, DateTimePartKind, Hour, Minute, Month, MonthDay, Weekday};
use scheda::well_formed_range::WellFormedRange;

fn from_ymdhm(year: i32, month: u32, day: u32, hour: u32, min: u32) -> NaiveDateTime {
    NaiveDate::from_ymd_opt(year, month, day)
        .unwrap()
        .and_hms_opt(hour, min, 0)
        .unwrap()
}

#[test]
fn bounded_types_round_trip_in_range() {
    for v in 0u8..=23 {
        assert_eq!(Hour::new(v).unwrap().get(), v);
    }
    for v in 0u8..=59 {
        assert_eq!(Minute::new(v).unwrap().get(), v);
    }
    for v in 1u8..=31 {
        assert_eq!(MonthDay::from_u8(v).unwrap().get(), v);
    }
    for v in 1u8..=12 {
        assert_eq!(Month::from_u8(v).unwrap().number_from_month(), v);
    }
    for v in 0u8..=6 {
        assert_eq!(Weekday::from_u8(v).unwrap().num_days_from_sunday(), v);
    }
}

#[test]
fn bounded_types_reject_out_of_range() {
    assert!(Hour::new(24).is_none());
    assert!(Hour::new(255).is_none());
    assert!(Minute::new(60).is_none());
    assert!(Minute::new(255).is_none());
    assert!(MonthDay::from_u8(0).is_none());
    assert!(MonthDay::from_u8(32).is_none());
    assert!(Month::from_u8(0).is_none());
    assert!(Month::from_u8(13).is_none());
    assert!(Weekday::from_u8(7).is_none());
}

#[test]
fn well_formedness_is_strict_increase() {
    assert!(Month::is_well_formed(&Range {
        start: Month::January,
        end: Month::March
    }));
    assert!(!Month::is_well_formed(&Range {
        start: Month::December,
        end: Month::December
    }));
    assert!(!Month::is_well_formed(&Range {
        start: Month::October,
        end: Month::May
    }));
    assert!(Hour::is_well_formed(&Range {
        start: Hour::new(3).unwrap(),
        end: Hour::new(4).unwrap()
    }));
    assert!(!Hour::is_well_formed(&Range {
        start: Hour::new(4).unwrap(),
        end: Hour::new(4).unwrap()
    }));
    assert!(Minute::is_well_formed(&Range {
        start: Minute::new(0).unwrap(),
        end: Minute::new(59).unwrap()
    }));
    assert!(MonthDay::is_well_formed(&Range {
        start: MonthDay::from_u8(19).unwrap(),
        end: MonthDay::from_u8(22).unwrap()
    }));
    assert!(Weekday::is_well_formed(&Range {
        start: Weekday::Monday,
        end: Weekday::Wednesday
    }));
    assert!(!Weekday::is_well_formed(&Range {
        start: Weekday::Wednesday,
        end: Weekday::Monday
    }));
}

#[test]
fn atoms_are_case_insensitive() {
    assert_eq!(Month::parse_atom("DECEMBER"), Some(Month::December));
    assert_eq!(Month::parse_atom("december"), Some(Month::December));
    assert_eq!(Month::parse_atom("DeCeMbEr"), Some(Month::December));
    assert_eq!(Weekday::parse_atom("TUESDAY"), Some(Weekday::Tuesday));
    assert_eq!(Weekday::parse_atom("tUe"), Some(Weekday::Tuesday));
    assert_eq!(Weekday::parse_atom("Sunday"), Some(Weekday::Sunday));
    assert_eq!(Weekday::parse_atom("0"), Some(Weekday::Sunday));
    assert_eq!(Weekday::parse_atom("6"), Some(Weekday::Saturday));
    assert!(Weekday::parse_atom("7").is_none());
    assert!(Weekday::parse_atom("noday").is_none());
    assert!(Month::parse_atom("13").is_none());
    assert!(Month::parse_atom("tuesday").is_none());
}

#[test]
fn numeric_index_parsers() {
    assert_eq!(parse_month_idx("5"), Some(Month::May));
    assert_eq!(parse_month_idx("+5"), Some(Month::May));
    assert!(parse_month_idx("0").is_none());
    assert!(parse_month_idx("13").is_none());
    assert!(parse_month_idx("").is_none());
    assert_eq!(parse_weekday_idx("2"), Some(Weekday::Tuesday));
    assert!(parse_weekday_idx("9").is_none());
    assert!(parse_weekday_idx("two").is_none());
}

#[test]
fn hour_and_minute_atoms_are_numeric_only() {
    assert_eq!(Hour::parse_atom("0").map(|h| h.get()), Some(0));
    assert_eq!(Hour::parse_atom(" 23 ").map(|h| h.get()), Some(23));
    assert!(Hour::parse_atom("24").is_none());
    assert!(Hour::parse_atom("noon").is_none());
    assert_eq!(Minute::parse_atom("59").map(|m| m.get()), Some(59));
    assert!(Minute::parse_atom("60").is_none());
    assert_eq!(MonthDay::parse_atom("31").map(|d| d.get()), Some(31));
    assert!(MonthDay::parse_atom("0").is_none());
    assert!(MonthDay::parse_atom("32").is_none());
}

#[test]
fn kind_identifiers_resolve_case_insensitively() {
    assert!(matches!(
        DateTimePartKind::parse("Month"),
        Ok(DateTimePartKind::Month)
    ));
    assert!(matches!(
        DateTimePartKind::parse("WEEKDAY"),
        Ok(DateTimePartKind::Weekday)
    ));
    assert!(matches!(
        DateTimePartKind::parse("banana"),
        Err(Error::UnknownDateTimePart(_))
    ));
}

#[test]
fn each_error_kind_is_reachable() {
    assert!(matches!(
        parse_schedule("month 5"),
        Err(Error::MissingWhenStmt)
    ));
    assert!(matches!(
        parse_schedule("when banana 5"),
        Err(Error::UnknownDateTimePart(_))
    ));
    assert!(matches!(
        parse_schedule("when month"),
        Err(Error::InvalidSyntax(_))
    ));
    assert!(matches!(
        parse_schedule("when month foo"),
        Err(Error::InvalidSyntax(_))
    ));
    assert!(matches!(
        parse_schedule("when month 5 to 3"),
        Err(Error::MalformedRange(RangeError::StartNotBeforeEnd))
    ));
    assert!(matches!(
        parse_range::<Month>("Dec to"),
        Err(Error::MalformedRange(RangeError::IncorrectSyntax))
    ));
    assert!(matches!(
        parse_schedule("when every 5"),
        Err(Error::UnsupportedFeature)
    ));
    assert!(matches!(
        parse_schedule("text before when month 5"),
        Err(Error::InvalidSyntax(_))
    ));
}

#[test]
fn parsing_twice_matches_identically() {
    let text = "when month 5 to 7, day 19 to 22, hour 18 to 21, weekday tuesday";
    let s1 = parse_schedule(text).unwrap();
    let s2 = parse_schedule(text).unwrap();
    let stamps = [
        from_ymdhm(2001, 5, 22, 20, 0),
        from_ymdhm(2001, 5, 23, 20, 0),
        from_ymdhm(2003, 8, 19, 18, 30),
        from_ymdhm(2021, 1, 1, 0, 0),
    ];
    for stamp in stamps {
        assert_eq!(s1.matches(stamp), s2.matches(stamp));
    }
}

#[test]
fn empty_axis_is_a_wildcard() {
    let hour_only = parse_schedule("when hour 20").unwrap();
    assert_eq!(hour_only.minute_spec.len(), 0);
    assert!(hour_only.matches(from_ymdhm(1999, 1, 1, 20, 0)));
    assert!(hour_only.matches(from_ymdhm(2024, 12, 31, 20, 59)));
    assert!(!hour_only.matches(from_ymdhm(2024, 12, 31, 21, 0)));

    let everything = parse_schedule("when minute 0 to 59").unwrap();
    assert!(everything.matches(from_ymdhm(1980, 7, 14, 3, 30)));
    assert!(everything.matches(from_ymdhm(2030, 2, 28, 23, 1)));
}

#[test]
fn alternatives_accumulate_per_axis() {
    let schedule = parse_schedule("when day 1 or 15, day 28").unwrap();
    assert_eq!(schedule.day_spec.len(), 3);
    assert!(schedule.matches(from_ymdhm(2001, 5, 1, 0, 0)));
    assert!(schedule.matches(from_ymdhm(2001, 5, 15, 0, 0)));
    assert!(schedule.matches(from_ymdhm(2001, 5, 28, 0, 0)));
    assert!(!schedule.matches(from_ymdhm(2001, 5, 2, 0, 0)));
}

#[test]
fn extractor_reads_calendar_fields() {
    // Tuesday, 22/05/2001 20h45
    let extractor = DateTimePartExtractor::new(from_ymdhm(2001, 5, 22, 20, 45));
    assert_eq!(extractor.hour().get(), 20);
    assert_eq!(extractor.minute().get(), 45);
    assert_eq!(extractor.month_day().get(), 22);
    assert_eq!(extractor.month().number_from_month(), 5);
    assert_eq!(extractor.weekday().num_days_from_sunday(), 2);
}

#[test]
fn parts_contain_singles_and_inclusive_ranges() {
    let single = DateTimePart::Single(Hour::new(7).unwrap());
    assert!(single.contains(&Hour::new(7).unwrap()));
    assert!(!single.contains(&Hour::new(8).unwrap()));

    let range = DateTimePart::Range {
        starting: Hour::new(5).unwrap(),
        ending: Hour::new(9).unwrap(),
    };
    assert!(range.contains(&Hour::new(5).unwrap()));
    assert!(range.contains(&Hour::new(7).unwrap()));
    assert!(range.contains(&Hour::new(9).unwrap()));
    assert!(!range.contains(&Hour::new(4).unwrap()));
    assert!(!range.contains(&Hour::new(10).unwrap()));
}

#[test]
fn month_names_work_in_schedules() {
    let schedule = parse_schedule("when month December").unwrap();
    assert!(schedule.matches(from_ymdhm(2001, 12, 3, 8, 15)));
    assert!(!schedule.matches(from_ymdhm(2001, 11, 3, 8, 15)));

    let by_abbr = parse_schedule("when month jan to MAR").unwrap();
    assert!(by_abbr.matches(from_ymdhm(2010, 2, 14, 12, 0)));
    assert!(!by_abbr.matches(from_ymdhm(2010, 4, 14, 12, 0)));
}

#[test]
fn ranges_need_exactly_three_tokens() {
    assert!(parse_range::<Month>("Jan to Mar extra").is_err());
    assert!(parse_range::<Month>("Jan  to  Mar").is_err());
    assert!(parse_range::<Month>("Jan To Mar").is_err());
    assert!(parse_range::<Month>("to").is_err());
}

#[test]
fn minute_axis_constrains_matching() {
    let schedule = parse_schedule("when minute 22 to 45").unwrap();
    assert!(schedule.matches(from_ymdhm(2001, 5, 22, 20, 22)));
    assert!(schedule.matches(from_ymdhm(2001, 5, 22, 20, 45)));
    assert!(!schedule.matches(from_ymdhm(2001, 5, 22, 20, 46)));
    assert!(!schedule.matches(from_ymdhm(2001, 5, 22, 20, 21)));
}
