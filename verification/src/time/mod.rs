//! The time of day as the clock shows it.
//!
//! The clock is not read here. Whoever reads it hands over the seconds since
//! the start of 1970 (UTC) and the name of the timezone in force.

use crate::service::display::are_digits;
use chrono::{Datelike, Timelike};
use std::str::FromStr;
use vstd::prelude::*;

pub mod tz;

verus! {

/// A moment on the calendar and on the clock of some timezone.
#[derive(Copy, Clone, Debug, PartialEq, Eq, Structural)]
pub struct CivilTime {
    pub year: i32,
    pub month: u32,
    pub day: u32,
    pub hour: u32,
    pub minute: u32,
    pub second: u32,
}

impl CivilTime {
    /// The month is from 1 to 12, the day from 1 to 31, the hour from 0 to
    /// 23, the minute and the second from 0 to 59.
    pub open spec fn in_range(self) -> bool {
        &&& 1 <= self.month <= 12
        &&& 1 <= self.day <= 31
        &&& self.hour <= 23
        &&& self.minute <= 59
        &&& self.second <= 59
    }
}

/// Whether `chrono_tz` knows a timezone of this name.
pub uninterp spec fn known_timezone(name: Seq<char>) -> bool;

/// The civil time that `chrono` and `chrono_tz` give for an instant, in
/// seconds since the start of 1970 (UTC), in the timezone of a name; nothing
/// where the timezone is not known or the instant is outside the calendar.
pub uninterp spec fn local_time_at(unix_seconds: int, timezone: Seq<char>) -> Option<CivilTime>;

/// Calls `chrono_tz::Tz::from_str` and says whether it found the timezone.
#[verifier::external_body]
pub(crate) fn timezone_from_str(name: &str) -> (known: bool)
    ensures
        known == known_timezone(name@),
{
    chrono_tz::Tz::from_str(name).is_ok()
}

/// Calls `chrono::DateTime::from_timestamp` and `DateTime::with_timezone` for
/// the timezone that `chrono_tz::Tz::from_str` finds, and reads the fields of
/// the result. chrono documents the range of each field but the year.
#[verifier::external_body]
fn chrono_local_time(unix_seconds: i64, timezone: &str) -> (local: Option<CivilTime>)
    ensures
        local == local_time_at(unix_seconds as int, timezone@),
        local matches Some(time) ==> time.in_range(),
{
    let tz = chrono_tz::Tz::from_str(timezone).ok()?;
    let utc = chrono::DateTime::<chrono::Utc>::from_timestamp(unix_seconds, 0)?;
    let local = utc.with_timezone(&tz);
    Some(CivilTime {
        year: local.year(),
        month: local.month(),
        day: local.day(),
        hour: local.hour(),
        minute: local.minute(),
        second: local.second(),
    })
}

/// The four digits of an hour and a minute.
pub open spec fn hour_min_of(time: CivilTime) -> Seq<u8> {
    seq![
        (time.hour / 10) as u8,
        (time.hour % 10) as u8,
        (time.minute / 10) as u8,
        (time.minute % 10) as u8,
    ]
}

/// The last four digits of a year.
pub open spec fn year_of(time: CivilTime) -> Seq<u8> {
    seq![
        ((time.year / 1000) % 10) as u8,
        ((time.year / 100) % 10) as u8,
        ((time.year / 10) % 10) as u8,
        (time.year % 10) as u8,
    ]
}

/// The seconds from a moment to the start of the next minute: 60 at the
/// start of a minute, 1 in its last second.
pub open spec fn until_next_minute(time: CivilTime) -> int {
    60 - time.second
}

/// The hour and the minute of a civil time as four digits.
pub fn hour_min_digits(time: &CivilTime) -> (digits: Vec<u8>)
    requires
        time.in_range(),
    ensures
        digits@ == hour_min_of(*time),
        are_digits(digits@),
{
    let mut digits: Vec<u8> = Vec::new();
    digits.push((time.hour / 10) as u8);
    digits.push((time.hour % 10) as u8);
    digits.push((time.minute / 10) as u8);
    digits.push((time.minute % 10) as u8);
    digits
}

/// The last four digits of the year of a civil time; nothing for a year
/// before the year 0, which the display cannot show.
pub fn year_digits(time: &CivilTime) -> (digits: Option<Vec<u8>>)
    ensures
        time.year < 0 <==> digits is None,
        digits matches Some(shown) ==> shown@ == year_of(*time)
            && are_digits(shown@),
{
    if time.year < 0 {
        return None;
    }
    let year: u32 = time.year as u32;
    let mut digits: Vec<u8> = Vec::new();
    digits.push(((year / 1000) % 10) as u8);
    digits.push(((year / 100) % 10) as u8);
    digits.push(((year / 10) % 10) as u8);
    digits.push((year % 10) as u8);
    Some(digits)
}

/// The current hour and minute in a timezone as four digits.
pub fn get_hour_min(unix_seconds: i64, timezone: &str) -> (digits: Option<Vec<u8>>)
    ensures
        match local_time_at(unix_seconds as int, timezone@) {
            Some(time) => digits matches Some(shown) && shown@ == hour_min_of(time)
                && are_digits(shown@),
            None => digits is None,
        },
{
    match chrono_local_time(unix_seconds, timezone) {
        Some(time) => Some(hour_min_digits(&time)),
        None => None,
    }
}

/// The current year in a timezone as four digits; nothing for a year before
/// the year 0.
pub fn get_year(unix_seconds: i64, timezone: &str) -> (digits: Option<Vec<u8>>)
    ensures
        match local_time_at(unix_seconds as int, timezone@) {
            Some(time) => if time.year < 0 {
                digits is None
            } else {
                digits matches Some(shown) && shown@ == year_of(time)
                    && are_digits(shown@)
            },
            None => digits is None,
        },
{
    match chrono_local_time(unix_seconds, timezone) {
        Some(time) => year_digits(&time),
        None => None,
    }
}

/// The current day of the month and the month in a timezone.
pub fn get_day_month(unix_seconds: i64, timezone: &str) -> (date: Option<(u8, u8)>)
    ensures
        match local_time_at(unix_seconds as int, timezone@) {
            Some(time) => date matches Some(shown) && shown.0 == time.day && shown.1 == time.month
                && 1 <= shown.0 <= 31 && 1 <= shown.1 <= 12,
            None => date is None,
        },
{
    match chrono_local_time(unix_seconds, timezone) {
        Some(time) => Some((time.day as u8, time.month as u8)),
        None => None,
    }
}

/// The seconds to wait from now until the next minute begins in a timezone.
pub fn calculate_time_until_next_minute(unix_seconds: i64, timezone: &str) -> (seconds: Option<u64>)
    ensures
        match local_time_at(unix_seconds as int, timezone@) {
            Some(time) => seconds matches Some(wait) && wait == until_next_minute(time) && 1
                <= wait <= 60,
            None => seconds is None,
        },
{
    match chrono_local_time(unix_seconds, timezone) {
        Some(time) => Some((60 - time.second) as u64),
        None => None,
    }
}

} // verus!
