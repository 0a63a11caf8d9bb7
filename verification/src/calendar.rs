//! Calendar dates and wall-clock times for the date- and time-valued tags.
//!
//! The parsing logic works on plain values: a date is a year, month and day,
//! a time is an hour, minute and second.  Reading those fields out of the
//! textual tag payloads (`YYYY.MM.DD`, `HH:MM:SS`, optionally a trailing
//! time-zone token) is delegated to the `chrono` crate behind trusted
//! wrappers, which also validate the calendar (month lengths, leap years).

use vstd::prelude::*;

verus! {

/// A calendar date, as decoded from a `YYYY.MM.DD` tag payload.
#[derive(Debug, Clone, Copy, PartialEq, Eq, Hash, Structural)]
pub struct Date {
    pub year: i32,
    pub month: u32,
    pub day: u32,
}

/// A wall-clock time, as decoded from an `HH:MM:SS` tag payload.
#[derive(Debug, Clone, Copy, PartialEq, Eq, Hash, Structural)]
pub struct Time {
    pub hour: u32,
    pub minute: u32,
    pub second: u32,
}

impl Date {
    /// The field ranges that every decoded date satisfies.
    pub open spec fn wf(self) -> bool {
        1 <= self.month <= 12 && 1 <= self.day <= 31
    }
}

impl Time {
    /// The field ranges that every decoded time satisfies.
    pub open spec fn wf(self) -> bool {
        self.hour < 24 && self.minute < 60 && self.second < 60
    }
}

/// The date that `chrono` reads from `s` under the `%Y.%m.%d` format, as
/// `(year, month, day)`, or `None` where `chrono` rejects `s`.
pub uninterp spec fn spec_chrono_date(s: Seq<char>) -> Option<(int, int, int)>;

/// The time that `chrono` reads from `s` under the `%H:%M:%S` format, as
/// `(hour, minute, second)`, or `None` where `chrono` rejects `s`.
pub uninterp spec fn spec_chrono_time(s: Seq<char>) -> Option<(int, int, int)>;

/// The time that `chrono` reads from `s` under the `%H:%M:%S %Z` format
/// (a trailing time-zone token), or `None` where `chrono` rejects `s`.
pub uninterp spec fn spec_chrono_time_tz(s: Seq<char>) -> Option<(int, int, int)>;

/// Relies on `chrono::NaiveDate::parse_from_str` with the `%Y.%m.%d`
/// format, and on `Datelike::{year, month, day}` to read the result out as
/// plain fields; `month` is documented to lie in `1..=12` and `day` in
/// `1..=31`.
#[verifier::external_body]
pub(crate) fn chrono_parse_date(s: &str) -> (r: Option<Date>)
    ensures
        match r {
            Some(d) => spec_chrono_date(s@) == Some((d.year as int, d.month as int, d.day as int))
                && d.wf(),
            None => spec_chrono_date(s@) is None,
        },
{
    match chrono::NaiveDate::parse_from_str(s, "%Y.%m.%d") {
        Ok(d) => Some(Date { year: chrono::Datelike::year(&d), month: chrono::Datelike::month(&d), day: chrono::Datelike::day(&d) }),
        Err(_) => None,
    }
}

/// Relies on `chrono::NaiveTime::parse_from_str` with the `%H:%M:%S`
/// format, and on `Timelike::{hour, minute, second}` to read the result
/// out as plain fields; `hour` is documented to lie in `0..=23`, `minute`
/// and `second` in `0..=59`.
#[verifier::external_body]
pub(crate) fn chrono_parse_time(s: &str) -> (r: Option<Time>)
    ensures
        match r {
            Some(t) => spec_chrono_time(s@) == Some(
                (t.hour as int, t.minute as int, t.second as int),
            ) && t.wf(),
            None => spec_chrono_time(s@) is None,
        },
{
    match chrono::NaiveTime::parse_from_str(s, "%H:%M:%S") {
        Ok(t) => Some(Time { hour: chrono::Timelike::hour(&t), minute: chrono::Timelike::minute(&t), second: chrono::Timelike::second(&t) }),
        Err(_) => None,
    }
}

/// Relies on `chrono::NaiveTime::parse_from_str` with the `%H:%M:%S %Z`
/// format (tolerating a trailing time-zone token), and on
/// `Timelike::{hour, minute, second}` as in [`chrono_parse_time`].
#[verifier::external_body]
pub(crate) fn chrono_parse_time_tz(s: &str) -> (r: Option<Time>)
    ensures
        match r {
            Some(t) => spec_chrono_time_tz(s@) == Some(
                (t.hour as int, t.minute as int, t.second as int),
            ) && t.wf(),
            None => spec_chrono_time_tz(s@) is None,
        },
{
    match chrono::NaiveTime::parse_from_str(s, "%H:%M:%S %Z") {
        Ok(t) => Some(Time { hour: chrono::Timelike::hour(&t), minute: chrono::Timelike::minute(&t), second: chrono::Timelike::second(&t) }),
        Err(_) => None,
    }
}

} // verus!
