//! Calendar dates and times of day as plain numbers, and the two text
//! formats in which a substitution plan writes them.

use chrono::{Datelike, Timelike};
use vstd::prelude::*;

verus! {

/// A day of the calendar.
#[derive(Debug, Clone, Copy, PartialEq, Eq, Structural)]
pub struct Date {
    pub year: i32,
    pub month: u32,
    pub day: u32,
}

/// A day of the calendar with a time of day.
#[derive(Debug, Clone, Copy, PartialEq, Eq, Structural)]
pub struct DateTime {
    pub date: Date,
    pub hour: u32,
    pub minute: u32,
    pub second: u32,
}

impl Date {
    /// 1 January 1970.
    pub open spec fn epoch() -> Date {
        Date { year: 1970, month: 1, day: 1 }
    }

    /// 1 January 1870, which stands for a date that could not be read.
    pub open spec fn unread() -> Date {
        Date { year: 1870, month: 1, day: 1 }
    }

    /// The day read, or 1 January 1870 where none could be read.
    pub open spec fn or_unread(read: Option<Date>) -> Date {
        match read {
            Some(d) => d,
            None => Date::unread(),
        }
    }

    /// The day read, or 1 January 1870 where none could be read.
    pub fn read_or_unread(read: Option<Date>) -> (d: Self)
        ensures
            d == Date::or_unread(read),
    {
        match read {
            Some(d) => d,
            None => Date { year: 1870, month: 1, day: 1 },
        }
    }

    /// The given day.
    pub fn new(year: i32, month: u32, day: u32) -> (d: Self)
        ensures
            d == (Date { year, month, day }),
    {
        Date { year, month, day }
    }
}

impl DateTime {
    /// Midnight before 1 January 1970.
    pub open spec fn epoch() -> DateTime {
        DateTime { date: Date::epoch(), hour: 0, minute: 0, second: 0 }
    }

    /// The time read, or the epoch where none could be read.
    pub open spec fn or_epoch(read: Option<DateTime>) -> DateTime {
        match read {
            Some(d) => d,
            None => DateTime::epoch(),
        }
    }

    /// The time read, or the epoch where none could be read.
    pub fn read_or_epoch(read: Option<DateTime>) -> (d: Self)
        ensures
            d == DateTime::or_epoch(read),
    {
        match read {
            Some(d) => d,
            None => DateTime {
                date: Date { year: 1970, month: 1, day: 1 },
                hour: 0,
                minute: 0,
                second: 0,
            },
        }
    }

    /// The given day and time.
    pub fn new(date: Date, hour: u32, minute: u32, second: u32) -> (d: Self)
        ensures
            d == (DateTime { date, hour, minute, second }),
    {
        DateTime { date, hour, minute, second }
    }
}

/// The day that a text denotes in the format day, month, four-digit year,
/// separated by full stops, as `chrono` reads the format `%d.%m.%Y`.
pub uninterp spec fn date_of_text(s: Seq<char>) -> Option<Date>;

/// The day and minute that a text denotes in the format of
/// [`date_of_text`] followed by a space, the hour, a colon and the minute, as
/// `chrono` reads the format `%d.%m.%Y %k:%M`.
pub uninterp spec fn minute_of_text(s: Seq<char>) -> Option<DateTime>;

/// `chrono::NaiveDate::parse_from_str` with the format `%d.%m.%Y`: the day
/// that it reads, given by year, month and day of the month; nothing where it
/// reports an error. The result depends on the text alone.
#[verifier::external_body]
pub(crate) fn parse_date(s: &str) -> (r: Option<Date>)
    ensures
        r == date_of_text(s@),
{
    match chrono::NaiveDate::parse_from_str(s, "%d.%m.%Y") {
        Ok(d) => Some(Date { year: d.year(), month: d.month(), day: d.day() }),
        Err(_) => None,
    }
}

/// `chrono::NaiveDateTime::parse_from_str` with the format
/// `%d.%m.%Y %k:%M`: the day and time that it reads, given by their numbers;
/// nothing where it reports an error. The result depends on the text alone.
#[verifier::external_body]
pub(crate) fn parse_minute(s: &str) -> (r: Option<DateTime>)
    ensures
        r == minute_of_text(s@),
{
    match chrono::NaiveDateTime::parse_from_str(s, "%d.%m.%Y %k:%M") {
        Ok(d) => Some(DateTime {
            date: Date { year: d.year(), month: d.month(), day: d.day() },
            hour: d.hour(),
            minute: d.minute(),
            second: d.second(),
        }),
        Err(_) => None,
    }
}

} // verus!
