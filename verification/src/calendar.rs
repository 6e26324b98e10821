//! Calendar dates, as far as the ledger relies on `chrono` for them.
//!
//! A date is held as plain year, month and day. Parsing, formatting and the
//! arithmetic of the calendar are `chrono`'s; what they return is named here
//! and taken on trust.

use vstd::prelude::*;
use chrono::Datelike;

verus! {

/// The form in which the ledger writes a date: year, month and day.
pub const DATE_FORMAT: &'static str = "%Y-%m-%d";

/// A day of the calendar.
#[derive(Debug, Clone, Copy, PartialEq, Eq, Structural)]
pub struct Date {
    pub year: i32,
    pub month: u32,
    pub day: u32,
}

/// The date that `NaiveDate::parse_from_str` reads from a text under a format,
/// or `None` where it reports an error.
pub uninterp spec fn parsed_date(text: Seq<char>, format: Seq<char>) -> Option<Date>;

/// The date that lies `days` days after `date`, as `NaiveDate::checked_add_signed`
/// computes it, or `None` where `date` is no day of the calendar or the result
/// is out of `chrono`'s range.
pub uninterp spec fn date_after(date: Date, days: i64) -> Option<Date>;

/// The text that `NaiveDate::format` writes for a date under a format, or
/// `None` where `date` is no day of the calendar or the format cannot be
/// applied to a date.
pub uninterp spec fn formatted_date(date: Date, format: Seq<char>) -> Option<Seq<char>>;

/// `NaiveDate::parse_from_str`: reads a date from a text under a format.
#[verifier::external_body]
pub(crate) fn parse_date(text: &str, format: &str) -> (date: Option<Date>)
    ensures
        date == parsed_date(text@, format@),
{
    match chrono::NaiveDate::parse_from_str(text, format) {
        Ok(day) => Some(Date { year: day.year(), month: day.month(), day: day.day() }),
        Err(_) => None,
    }
}

/// `NaiveDate::checked_add_signed`: the date a number of days later.
#[verifier::external_body]
pub(crate) fn add_days(date: Date, days: i64) -> (later: Option<Date>)
    ensures
        later == date_after(date, days),
{
    let start = chrono::NaiveDate::from_ymd_opt(date.year, date.month, date.day)?;
    let day = start.checked_add_signed(chrono::TimeDelta::try_days(days)?)?;
    Some(Date { year: day.year(), month: day.month(), day: day.day() })
}

/// `NaiveDate::format`, written out at once: the text of a date under a
/// format.
#[verifier::external_body]
pub(crate) fn format_date(date: Date, format: &str) -> (text: Option<String>)
    ensures
        match text {
            Some(text) => formatted_date(date, format@) == Some(text@),
            None => formatted_date(date, format@) is None,
        },
{
    let day = chrono::NaiveDate::from_ymd_opt(date.year, date.month, date.day)?;
    let mut text = String::new();
    day.format(format).write_to(&mut text).ok()?;
    Some(text)
}

/// `Local::now`: the current date in the machine's time zone. It depends on
/// the clock, so nothing is promised of it.
#[verifier::external_body]
pub(crate) fn today() -> (date: Date) {
    let day = chrono::Local::now().date_naive();
    Date { year: day.year(), month: day.month(), day: day.day() }
}

} // verus!
