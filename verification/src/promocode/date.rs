//! Calendar dates of date restrictions.
//!
//! A date is written `YYYY-MM-DD` and read by chrono under `DATE_FORMAT`. What the rules need of
//! a date is its place in time, so a date that was read is kept as its day
//! number: the count of days in the proleptic Gregorian calendar on which
//! 0001-01-01 is day 1. An earlier date has a smaller day number.

use chrono::{Datelike, NaiveDate, Utc};
use vstd::prelude::*;

verus! {

/// The format in which the dates of a restriction are written: year, month
/// and day, as in `2020-06-30`.
pub const DATE_FORMAT: &'static str = "%Y-%m-%d";

/// The day number of the date that chrono reads from `text` under the
/// format `format`, or `None` where chrono reads no date from it.
pub uninterp spec fn date_day_number(text: Seq<char>, format: Seq<char>) -> Option<int>;

/// The day number of the date that `text` spells as year, month and day, or
/// `None` where it spells none.
pub open spec fn day_number(text: Seq<char>) -> Option<int> {
    date_day_number(text, DATE_FORMAT@)
}

/// Calls `chrono::NaiveDate::parse_from_str(text, format)` and, where a
/// date comes back, `Datelike::num_days_from_ce` on it. Trusted: the result
/// depends on `text` and `format` alone, and is
/// `date_day_number(text@, format@)`. Only the format of year, month and
/// day is asked for.
#[verifier::external_body]
pub(crate) fn parse_date(text: &str, format: &str) -> (res: Option<i32>)
    requires
        format@ == DATE_FORMAT@,
    ensures
        res is Some <==> date_day_number(text@, format@) is Some,
        res matches Some(day) ==> date_day_number(text@, format@) == Some(day as int),
{
    match NaiveDate::parse_from_str(text, format) {
        Ok(date) => Some(date.num_days_from_ce()),
        Err(_) => None,
    }
}

/// Reads a date that is written as year, month and day.
pub(crate) fn read_date(text: &str) -> (res: Option<i32>)
    ensures
        res is Some <==> day_number(text@) is Some,
        res matches Some(day) ==> day_number(text@) == Some(day as int),
{
    parse_date(text, DATE_FORMAT)
}

/// Calls `chrono::Utc::now`, and `date_naive` and
/// `Datelike::num_days_from_ce` on what it returns: the day number of the
/// current UTC date. Nothing is claimed of the result: it depends on the
/// clock.
#[verifier::external_body]
pub(crate) fn today() -> (res: i32) {
    Utc::now().date_naive().num_days_from_ce()
}

/// The day number that was read, as a mathematical integer.
pub open spec fn day_of(day: Option<i32>) -> Option<int> {
    match day {
        Some(d) => Some(d as int),
        None => None,
    }
}

/// What is wrong with a date window whose bounds were read as `after` and
/// `before` (`None` for a bound that is no date), or `None` where both are
/// dates and `after` is not later than `before`.
pub open spec fn window_fault(after: Option<int>, before: Option<int>) -> Option<Seq<char>> {
    match (before, after) {
        (None, None) => Some("Cannot parse `before` and `after`."@),
        (None, Some(_)) => Some("Cannot parse `before`."@),
        (Some(_), None) => Some("Cannot parse `after`."@),
        (Some(b), Some(a)) => if a > b {
            Some("`before` cannot be lower than `after`."@)
        } else {
            None
        },
    }
}

/// `today` lies in the window, both ends included. A bound that is no date
/// does not bind: a window without `after` has no beginning, one without
/// `before` has no end.
pub open spec fn window_contains(after: Option<int>, before: Option<int>, today: int) -> bool {
    &&& after matches Some(a) ==> a <= today
    &&& before matches Some(b) ==> today <= b
}

/// Checks the bounds of a date window, each given as the day number that
/// was read from it.
pub fn check_date_window(after_day: Option<i32>, before_day: Option<i32>) -> (res: Result<
    (),
    String,
>)
    ensures
        match res {
            Ok(_) => window_fault(day_of(after_day), day_of(before_day)) is None,
            Err(err) => window_fault(day_of(after_day), day_of(before_day)) == Some(err@),
        },
{
    match (before_day, after_day) {
        (None, None) => Err(String::from_str("Cannot parse `before` and `after`.")),
        (None, Some(_)) => Err(String::from_str("Cannot parse `before`.")),
        (Some(_), None) => Err(String::from_str("Cannot parse `after`.")),
        (Some(before), Some(after)) => {
            if after > before {
                Err(String::from_str("`before` cannot be lower than `after`."))
            } else {
                Ok(())
            }
        },
    }
}

/// Whether the day `today` lies in the window whose bounds were read as
/// `after_day` and `before_day`.
pub fn date_window_contains(after_day: Option<i32>, before_day: Option<i32>, today: i32) -> (res:
    bool)
    ensures
        res == window_contains(day_of(after_day), day_of(before_day), today as int),
{
    let after_ok = match after_day {
        Some(after) => after <= today,
        None => true,
    };
    let before_ok = match before_day {
        Some(before) => today <= before,
        None => true,
    };
    after_ok && before_ok
}

} // verus!
