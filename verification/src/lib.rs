//! A small domain-specific language for recurring time windows.
//!
//! A schedule such as `when month 5, day 19 to 22, hour 20, weekday tuesday`
//! is parsed into a [`schedule::Schedule`], which can then be asked whether a
//! concrete point in time falls inside the window it describes.
//!
//! Months may be written by number (`1` to `12`), by their abbreviated names
//! (`Jan` .. `Dec`) or by their full names (`January` .. `December`);
//! weekdays likewise by number (`0` to `6`, Sunday-based) or by name. Hours,
//! minutes and days of the month are numeric only.

pub mod as_u8;
pub mod datetime;
pub mod error;
pub mod laws;
pub mod parser;
pub mod schedule;
pub mod text;
pub mod types;
pub mod well_formed_range;
