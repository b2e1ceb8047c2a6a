//! The parse failures the library reports.

use vstd::prelude::*;

verus! {

/// Why a `to`-range was rejected.
#[derive(Clone, Copy, Debug, PartialEq, Eq, Structural)]
pub enum RangeError {
    /// The text is not of the shape `<atom> to <atom>`.
    IncorrectSyntax,
    /// The pair parsed, but the starting point is not below the ending
    /// point.
    StartNotBeforeEnd,
}

/// A failure while parsing a schedule expression.
#[derive(Debug)]
pub enum Error {
    /// The input lacks the required `when` keyword.
    MissingWhenStmt,
    /// A `to`-range is malformed; the payload says in which way.
    MalformedRange(RangeError),
    /// The identifier naming a date-time axis is unrecognized; the payload
    /// carries the offending token.
    UnknownDateTimePart(String),
    /// A clause is neither a valid range nor a valid atom, or a structural
    /// requirement of the grammar is violated; the payload carries the
    /// offending text.
    InvalidSyntax(String),
    /// The `every` axis is recognized by the grammar but has no matching
    /// semantics yet.
    UnsupportedFeature,
}

/// The specification-level image of an [`Error`], with text payloads as
/// character sequences.
pub enum ErrView {
    MissingWhenStmt,
    MalformedRange(RangeError),
    UnknownDateTimePart(Seq<char>),
    InvalidSyntax(Seq<char>),
    UnsupportedFeature,
}

impl View for Error {
    type V = ErrView;

    open spec fn view(&self) -> ErrView {
        match self {
            Error::MissingWhenStmt => ErrView::MissingWhenStmt,
            Error::MalformedRange(r) => ErrView::MalformedRange(*r),
            Error::UnknownDateTimePart(s) => ErrView::UnknownDateTimePart(s@),
            Error::InvalidSyntax(s) => ErrView::InvalidSyntax(s@),
            Error::UnsupportedFeature => ErrView::UnsupportedFeature,
        }
    }
}

} // verus!
