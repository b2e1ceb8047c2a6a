//! The expression parser: tokenizes and interprets the schedule grammar
//! `when <kind> <atom-or-range> [or <atom-or-range>]* [, <kind> ...]` into a
//! [`Schedule`].

pub mod day;
pub mod hour_and_minutes;
pub mod month;
pub mod weekday;

use vstd::prelude::*;
use vstd::string::StrSliceExecFns;
use vstd::string::StringExecFns;

use crate::as_u8::AsU8;
use crate::error::{ErrView, Error, RangeError};
use crate::schedule::{empty_schedule, schedule_wf, Schedule, ScheduleView};
use crate::text::{
    find_sub_spec, find_sub_str, lemma_find_sub_spec, split_on_str, split_sub_spec, str_eq,
    trim_spec, trim_str,
};
use crate::types::{DateTimePart, DateTimePartKind, Hour, Minute, Month, MonthDay, Weekday};
use crate::well_formed_range::WellFormedRange;

verus! {

/// Attempts to parse a single "atom": one value of a component type, in any
/// of the textual forms the type accepts.
pub trait AtomParse: Sized {
    /// The value the text denotes, if any, at the specification level.
    spec fn spec_atom(t: Seq<char>) -> Option<Self>;

    /// Parses one atom, trimming surrounding whitespace first.
    fn parse_atom(val: &str) -> (r: Option<Self>)
        ensures
            r == Self::spec_atom(val@),
    ;
}

/// The range a `<atom> to <atom>` text denotes: after trimming, exactly
/// three space-separated tokens, the middle one exactly `to`, the outer two
/// atoms of `T` with strictly increasing canonical values. A structural
/// failure and a non-increasing pair are reported as distinct errors.
pub open spec fn spec_range<T: AtomParse + AsU8>(input: Seq<char>) -> Result<(T, T), ErrView> {
    let toks = split_sub_spec(trim_spec(input), " "@);
    if toks.len() != 3 || toks[1] != "to"@ {
        Err(ErrView::MalformedRange(RangeError::IncorrectSyntax))
    } else {
        match (T::spec_atom(toks[0]), T::spec_atom(toks[2])) {
            (Some(a), Some(b)) => if a.canon() < b.canon() {
                Ok((a, b))
            } else {
                Err(ErrView::MalformedRange(RangeError::StartNotBeforeEnd))
            },
            _ => Err(ErrView::MalformedRange(RangeError::IncorrectSyntax)),
        }
    }
}

/// The part a clause denotes: a well-formed range when the clause is
/// `to`-shaped, otherwise a single atom; a range that parses but is not
/// strictly increasing is an error, not an atom.
pub open spec fn spec_part<T: AtomParse + AsU8>(clause: Seq<char>) -> Result<
    DateTimePart<T>,
    ErrView,
> {
    match spec_range::<T>(clause) {
        Ok((a, b)) => Ok(DateTimePart::Range { starting: a, ending: b }),
        Err(e) => if e == ErrView::MalformedRange(RangeError::StartNotBeforeEnd) {
            Err(e)
        } else {
            match T::spec_atom(clause) {
                Some(x) => Ok(DateTimePart::Single(x)),
                None => Err(ErrView::InvalidSyntax(clause)),
            }
        },
    }
}

/// One clause applied to the accumulated schedule: the parsed part is
/// appended to the axis named by `kind`; the `every` axis is unsupported.
pub open spec fn spec_apply_clause(
    kind: DateTimePartKind,
    clause: Seq<char>,
    acc: ScheduleView,
) -> Result<ScheduleView, ErrView> {
    match kind {
        DateTimePartKind::Month => match spec_part::<Month>(clause) {
            Ok(p) => Ok(ScheduleView { months: acc.months.push(p), ..acc }),
            Err(e) => Err(e),
        },
        DateTimePartKind::Day => match spec_part::<MonthDay>(clause) {
            Ok(p) => Ok(ScheduleView { days: acc.days.push(p), ..acc }),
            Err(e) => Err(e),
        },
        DateTimePartKind::Weekday => match spec_part::<Weekday>(clause) {
            Ok(p) => Ok(ScheduleView { weekdays: acc.weekdays.push(p), ..acc }),
            Err(e) => Err(e),
        },
        DateTimePartKind::Hour => match spec_part::<Hour>(clause) {
            Ok(p) => Ok(ScheduleView { hours: acc.hours.push(p), ..acc }),
            Err(e) => Err(e),
        },
        DateTimePartKind::Minute => match spec_part::<Minute>(clause) {
            Ok(p) => Ok(ScheduleView { minutes: acc.minutes.push(p), ..acc }),
            Err(e) => Err(e),
        },
        DateTimePartKind::Every => Err(ErrView::UnsupportedFeature),
    }
}

/// The clauses of one declaration applied left to right.
pub open spec fn spec_parse_alts(
    kind: DateTimePartKind,
    clauses: Seq<Seq<char>>,
    acc: ScheduleView,
) -> Result<ScheduleView, ErrView>
    decreases clauses.len(),
{
    if clauses.len() == 0 {
        Ok(acc)
    } else {
        match spec_apply_clause(kind, clauses[0], acc) {
            Err(e) => Err(e),
            Ok(a2) => spec_parse_alts(kind, clauses.subrange(1, clauses.len() as int), a2),
        }
    }
}

/// One declaration: after trimming, the leading identifier up to the first
/// space names the axis, and the remainder is split on ` or ` into
/// alternative clauses.
pub open spec fn spec_parse_decl(decl_raw: Seq<char>, acc: ScheduleView) -> Result<
    ScheduleView,
    ErrView,
> {
    let decl = trim_spec(decl_raw);
    match find_sub_spec(decl, " "@) {
        None => Err(
            ErrView::InvalidSyntax(
                "expected a date-time part identifier, such as `month` or `hour`"@,
            ),
        ),
        Some(i) => {
            let ident = decl.subrange(0, i);
            let rest = decl.subrange(i + " "@.len(), decl.len() as int);
            match DateTimePartKind::spec_parse(ident) {
                Err(e) => Err(e),
                Ok(kind) => spec_parse_alts(kind, split_sub_spec(rest, " or "@), acc),
            }
        },
    }
}

/// The comma-separated declarations applied left to right.
pub open spec fn spec_parse_decls(decls: Seq<Seq<char>>, acc: ScheduleView) -> Result<
    ScheduleView,
    ErrView,
>
    decreases decls.len(),
{
    if decls.len() == 0 {
        Ok(acc)
    } else {
        match spec_parse_decl(decls[0], acc) {
            Err(e) => Err(e),
            Ok(a2) => spec_parse_decls(decls.subrange(1, decls.len() as int), a2),
        }
    }
}

/// The whole grammar, accumulating into `acc`: the trimmed input must
/// carry the keyword `when` with nothing before it, and the rest is a
/// comma-separated list of declarations.
pub open spec fn spec_parse_schedule_from(input: Seq<char>, acc: ScheduleView) -> Result<
    ScheduleView,
    ErrView,
> {
    let t = trim_spec(input);
    match find_sub_spec(t, "when"@) {
        None => Err(ErrView::MissingWhenStmt),
        Some(i) => if i != 0 {
            Err(ErrView::InvalidSyntax(t.subrange(0, i)))
        } else {
            spec_parse_decls(split_sub_spec(t.subrange("when"@.len() as int, t.len() as int), ","@), acc)
        },
    }
}

/// The schedule (or error) a text denotes, starting from the empty
/// schedule.
pub open spec fn spec_parse_schedule(input: Seq<char>) -> Result<ScheduleView, ErrView> {
    spec_parse_schedule_from(input, empty_schedule())
}

/// Whether the executable result mirrors the specification-level result.
pub open spec fn result_models(r: Result<Schedule, Error>, s: Result<ScheduleView, ErrView>) -> bool {
    match r {
        Ok(sch) => s matches Ok(v) && sch@ == v,
        Err(e) => s matches Err(ev) && e@ == ev,
    }
}

/// Parses a `<atom> to <atom>` range of `T`.
pub fn parse_range<T: AtomParse + AsU8 + WellFormedRange>(input: &str) -> (r: Result<
    core::ops::Range<T>,
    Error,
>)
    ensures
        (match r {
            Ok(rng) => spec_range::<T>(input@) == Ok::<(T, T), ErrView>((rng.start, rng.end)),
            Err(e) => spec_range::<T>(input@) matches Err(ev) && e@ == ev,
        }),
{
    let trimmed = trim_str(input);
    proof {
        reveal_strlit(" ");
    }
    let toks = split_on_str(trimmed, " ");
    proof {
        assert(toks@.map_values(|t: &str| t@) == split_sub_spec(trim_spec(input@), " "@));
    }
    if toks.len() != 3 {
        return Err(Error::MalformedRange(RangeError::IncorrectSyntax));
    }
    if !str_eq(toks[1], "to") {
        return Err(Error::MalformedRange(RangeError::IncorrectSyntax));
    }
    let start = T::parse_atom(toks[0]);
    let ending = T::parse_atom(toks[2]);
    match (start, ending) {
        (Some(a), Some(b)) => {
            let rng = core::ops::Range { start: a, end: b };
            if T::is_well_formed(&rng) {
                Ok(rng)
            } else {
                Err(Error::MalformedRange(RangeError::StartNotBeforeEnd))
            }
        },
        _ => Err(Error::MalformedRange(RangeError::IncorrectSyntax)),
    }
}

/// Parses one clause: a range when it is `to`-shaped, a single atom
/// otherwise. A parsed part is always well formed.
fn parse_atom_or_range<T: AtomParse + AsU8 + WellFormedRange>(value: &str) -> (r: Result<
    DateTimePart<T>,
    Error,
>)
    ensures
        (match r {
            Ok(p) => spec_part::<T>(value@) == Ok::<DateTimePart<T>, ErrView>(p) && p.wf(),
            Err(e) => spec_part::<T>(value@) matches Err(ev) && e@ == ev,
        }),
{
    match parse_range::<T>(value) {
        Ok(range) => Ok(DateTimePart::Range { starting: range.start, ending: range.end }),
        Err(e) => match &e {
            Error::MalformedRange(RangeError::StartNotBeforeEnd) => Err(e),
            _ => match T::parse_atom(value) {
                Some(atom) => Ok(DateTimePart::Single(atom)),
                None => Err(Error::InvalidSyntax(String::from_str(value))),
            },
        },
    }
}

/// A single-pass parser holding the input text and the schedule being
/// accumulated.
pub struct Parser<'a> {
    input: &'a str,
    schedule: Schedule,
}

impl<'a> Parser<'a> {
    /// The text still to be parsed.
    pub closed spec fn input_spec(&self) -> Seq<char> {
        self.input@
    }

    /// The schedule accumulated so far.
    pub closed spec fn schedule_spec(&self) -> ScheduleView {
        self.schedule@
    }

    /// A parser over `input`, starting from an empty schedule.
    pub fn new(input: &'a str) -> (r: Parser<'a>)
        ensures
            r.input_spec() == input@,
            r.schedule_spec() == empty_schedule(),
    {
        Parser { input, schedule: Schedule::new() }
    }

    /// Parses one declaration and accumulates its parts into the schedule.
    #[verifier::loop_isolation(false)]
    fn parse_spec(&mut self, value: &str) -> (r: Result<(), Error>)
        ensures
            (match r {
                Ok(_) => spec_parse_decl(value@, old(self).schedule_spec()) == Ok::<
                    ScheduleView,
                    ErrView,
                >(final (self).schedule_spec()) && final (self).input_spec() == old(
                    self,
                ).input_spec() && (schedule_wf(old(self).schedule_spec()) ==> schedule_wf(
                    final (self).schedule_spec(),
                )),
                Err(e) => spec_parse_decl(value@, old(self).schedule_spec()) matches Err(ev) && e@
                    == ev,
            }),
    {
        let decl = trim_str(value);
        let n = decl.unicode_len();
        let sep = " ";
        let m = sep.unicode_len();
        let found = find_sub_str(decl, sep);
        match found {
            None => Err(
                Error::InvalidSyntax(
                    String::from_str("expected a date-time part identifier, such as `month` or `hour`"),
                ),
            ),
            Some(i) => {
                proof {
                    lemma_find_sub_spec(decl@, sep@);
                }
                let ident = decl.substring_char(0, i);
                let rest = decl.substring_char(i + m, n);
                let kind = match DateTimePartKind::parse(ident) {
                    Ok(k) => k,
                    Err(e) => {
                        return Err(e);
                    },
                };
                proof {
                    reveal_strlit(" or ");
                }
                let clauses = split_on_str(rest, " or ");
                let ghost cl_views = clauses@.map_values(|t: &str| t@);
                let ghost acc0 = self.schedule@;
                let ghost input0 = self.input@;
                proof {
                    assert(cl_views.subrange(0, cl_views.len() as int) =~= cl_views);
                }
                let mut k: usize = 0;
                while k < clauses.len()
                    invariant
                        k <= clauses.len(),
                        cl_views == clauses@.map_values(|t: &str| t@),
                        cl_views.len() == clauses@.len(),
                        spec_parse_alts(kind, cl_views, acc0) == spec_parse_alts(
                            kind,
                            cl_views.subrange(k as int, cl_views.len() as int),
                            self.schedule@,
                        ),
                        self.input@ == input0,
                        schedule_wf(acc0) ==> schedule_wf(self.schedule@),
                    decreases clauses.len() - k,
                {
                    let ghost acc_prev = self.schedule@;
                    let ghost tail = cl_views.subrange(k as int, cl_views.len() as int);
                    let clause = clauses[k];
                    proof {
                        assert(cl_views[k as int] == clause@);
                        assert(tail[0] == cl_views[k as int]);
                        assert(tail.subrange(1, tail.len() as int) =~= cl_views.subrange(
                            k + 1,
                            cl_views.len() as int,
                        ));
                    }
                    match kind {
                        DateTimePartKind::Month => {
                            match parse_atom_or_range::<Month>(clause) {
                                Ok(part) => self.schedule.month_spec.push(part),
                                Err(e) => {
                                    return Err(e);
                                },
                            }
                        },
                        DateTimePartKind::Day => {
                            match parse_atom_or_range::<MonthDay>(clause) {
                                Ok(part) => self.schedule.day_spec.push(part),
                                Err(e) => {
                                    return Err(e);
                                },
                            }
                        },
                        DateTimePartKind::Weekday => {
                            match parse_atom_or_range::<Weekday>(clause) {
                                Ok(part) => self.schedule.weekday_spec.push(part),
                                Err(e) => {
                                    return Err(e);
                                },
                            }
                        },
                        DateTimePartKind::Hour => {
                            match parse_atom_or_range::<Hour>(clause) {
                                Ok(part) => self.schedule.hour_spec.push(part),
                                Err(e) => {
                                    return Err(e);
                                },
                            }
                        },
                        DateTimePartKind::Minute => {
                            match parse_atom_or_range::<Minute>(clause) {
                                Ok(part) => self.schedule.minute_spec.push(part),
                                Err(e) => {
                                    return Err(e);
                                },
                            }
                        },
                        DateTimePartKind::Every => {
                            return Err(Error::UnsupportedFeature);
                        },
                    }
                    k += 1;
                }
                proof {
                    assert(cl_views.subrange(k as int, cl_views.len() as int) =~= Seq::<
                        Seq<char>,
                    >::empty());
                }
                Ok(())
            },
        }
    }

    /// Parses the whole expression, consuming the parser.
    #[verifier::loop_isolation(false)]
    pub fn parse_schedule(self) -> (r: Result<Schedule, Error>)
        ensures
            result_models(r, spec_parse_schedule_from(self.input_spec(), self.schedule_spec())),
            schedule_wf(self.schedule_spec()) ==> (r matches Ok(s) ==> schedule_wf(s@)),
    {
        let mut this = self;
        let ghost input0 = this.input@;
        let ghost acc0 = this.schedule@;
        let trimmed = trim_str(this.input);
        let wpat = "when";
        let wm = wpat.unicode_len();
        let n = trimmed.unicode_len();
        let found = find_sub_str(trimmed, wpat);
        match found {
            None => Err(Error::MissingWhenStmt),
            Some(i) => {
                proof {
                    lemma_find_sub_spec(trimmed@, wpat@);
                }
                if i != 0 {
                    let before = trimmed.substring_char(0, i);
                    return Err(Error::InvalidSyntax(String::from_str(before)));
                }
                let body = trimmed.substring_char(wm, n);
                proof {
                    reveal_strlit(",");
                }
                let decls = split_on_str(body, ",");
                let ghost d_views = decls@.map_values(|t: &str| t@);
                proof {
                    assert(d_views.subrange(0, d_views.len() as int) =~= d_views);
                }
                let mut k: usize = 0;
                while k < decls.len()
                    invariant
                        k <= decls.len(),
                        d_views == decls@.map_values(|t: &str| t@),
                        d_views.len() == decls@.len(),
                        spec_parse_decls(d_views, acc0) == spec_parse_decls(
                            d_views.subrange(k as int, d_views.len() as int),
                            this.schedule@,
                        ),
                        this.input@ == input0,
                        schedule_wf(acc0) ==> schedule_wf(this.schedule@),
                    decreases decls.len() - k,
                {
                    let ghost tail = d_views.subrange(k as int, d_views.len() as int);
                    proof {
                        assert(tail[0] == d_views[k as int]);
                        assert(tail.subrange(1, tail.len() as int) =~= d_views.subrange(
                            k + 1,
                            d_views.len() as int,
                        ));
                    }
                    let decl = decls[k];
                    proof {
                        assert(d_views[k as int] == decl@);
                    }
                    match this.parse_spec(decl) {
                        Ok(_) => {},
                        Err(e) => {
                            return Err(e);
                        },
                    }
                    k += 1;
                }
                proof {
                    assert(d_views.subrange(k as int, d_views.len() as int) =~= Seq::<
                        Seq<char>,
                    >::empty());
                }
                Ok(this.schedule)
            },
        }
    }
}

/// Parses a schedule expression: the sole entry point for turning DSL text
/// into a queryable schedule. A parsed schedule is always well formed.
pub fn parse_schedule(schedule: &str) -> (r: Result<Schedule, Error>)
    ensures
        result_models(r, spec_parse_schedule(schedule@)),
        r matches Ok(s) ==> schedule_wf(s@),
{
    Parser::new(schedule).parse_schedule()
}

} // verus!
