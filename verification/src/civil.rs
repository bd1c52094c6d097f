//! Wall-clock readings in the game's canonical timezone, America/Los_Angeles.
//!
//! Every rule of the schedule is stated on the civil reading of an instant:
//! its calendar date, weekday, hour and minute in that one timezone. The
//! conversion between instants and civil readings is the timezone database's
//! and is taken from `chrono` and `chrono-tz`; everything after it is plain
//! integer arithmetic.

use chrono::{Datelike, TimeZone, Timelike};
use vstd::prelude::*;

verus! {

/// The earliest instant the library converts: 0001-01-01T00:00:00Z.
pub const MIN_TIMESTAMP: i64 = -62_135_596_800;

/// The latest instant the library converts: 9999-12-31T23:59:59Z.
pub const MAX_TIMESTAMP: i64 = 253_402_300_799;

/// Whether `year` is a leap year of the proleptic Gregorian calendar.
pub open spec fn is_leap_year(year: int) -> bool {
    year % 4 == 0 && (year % 100 != 0 || year % 400 == 0)
}

/// The number of days of a month of the proleptic Gregorian calendar.
pub open spec fn days_in_month(year: int, month: int) -> int {
    if month == 2 {
        if is_leap_year(year) {
            29
        } else {
            28
        }
    } else if month == 4 || month == 6 || month == 9 || month == 11 {
        30
    } else {
        31
    }
}

/// An instant together with its civil reading in America/Los_Angeles.
#[derive(Clone, Copy, Debug)]
pub struct CivilTime {
    /// Seconds since 1970-01-01T00:00:00Z.
    pub timestamp: i64,
    pub year: i32,
    /// 1 for January up to 12 for December.
    pub month: u32,
    /// Day of the month, from 1.
    pub day: u32,
    /// 1 for Monday up to 7 for Sunday.
    pub weekday: u32,
    pub hour: u32,
    pub minute: u32,
    pub second: u32,
}

/// A civil day of America/Los_Angeles, as far as the map rotation reads it.
#[derive(Clone, Copy, Debug)]
pub struct CivilDate {
    /// Day of the month, from 1.
    pub day: u32,
    /// 1 for Monday up to 7 for Sunday.
    pub weekday: u32,
    /// The instant at which the day began, in seconds since the Unix epoch.
    pub midnight: i64,
}

/// The civil reading that `chrono-tz` gives an instant in America/Los_Angeles,
/// or `None` where `chrono` cannot represent the instant.
pub uninterp spec fn los_angeles_civil(timestamp: int) -> Option<CivilTime>;

/// The instant at which `chrono-tz` places midnight of a calendar date in
/// America/Los_Angeles, or `None` where the date is no date of the calendar
/// or its midnight is not exactly one instant.
pub uninterp spec fn los_angeles_midnight(year: int, month: int, day: int) -> Option<i64>;

/// Converts an instant to America/Los_Angeles with `chrono::DateTime::from_timestamp`
/// and `DateTime::with_timezone`, and reads the calendar fields off the result.
///
/// Trusted, for instants of the years 1 to 9999: the reading is the one named
/// `los_angeles_civil`; it carries the instant it was made from; and its
/// fields lie in the ranges that `chrono` documents for `Datelike` and
/// `Timelike`, the day being a day of its month.
#[verifier::external_body]
fn civil_in_los_angeles(timestamp: i64) -> (r: Option<CivilTime>)
    requires
        MIN_TIMESTAMP <= timestamp <= MAX_TIMESTAMP,
    ensures
        r == los_angeles_civil(timestamp as int),
        r matches Some(t) ==> t.timestamp == timestamp && t.fields_valid(),
{
    let utc = chrono::DateTime::from_timestamp(timestamp, 0)?;
    let local = utc.with_timezone(&chrono_tz::America::Los_Angeles);
    Some(CivilTime {
        timestamp,
        year: local.year(),
        month: local.month(),
        day: local.day(),
        weekday: local.weekday().number_from_monday(),
        hour: local.hour(),
        minute: local.minute(),
        second: local.second(),
    })
}

/// Asks `chrono::TimeZone::with_ymd_and_hms` for midnight of a calendar date
/// in America/Los_Angeles.
///
/// Trusted: the result is the one named `los_angeles_midnight`. `chrono`
/// answers an invalid date, a skipped or a repeated midnight with a value
/// that is not `Single`, which comes back as `None`.
#[verifier::external_body]
fn midnight_in_los_angeles(year: i32, month: u32, day: u32) -> (r: Option<i64>)
    ensures
        r == los_angeles_midnight(year as int, month as int, day as int),
{
    match chrono_tz::America::Los_Angeles.with_ymd_and_hms(year, month, day, 0, 0, 0).single() {
        Some(local) => Some(local.timestamp()),
        None => None,
    }
}

/// Reads the system clock with `chrono::Utc::now` and gives the instant in
/// whole seconds since the Unix epoch.
///
/// Trusted: nothing. A clock may answer anything, so no property of the
/// result is claimed.
#[verifier::external_body]
fn utc_now_seconds() -> i64 {
    chrono::Utc::now().timestamp()
}

impl CivilTime {
    /// The calendar fields lie in their ranges and the day exists in its month.
    pub open spec fn fields_valid(self) -> bool {
        &&& 1 <= self.month <= 12
        &&& 1 <= self.day <= days_in_month(self.year as int, self.month as int)
        &&& 1 <= self.weekday <= 7
        &&& self.hour < 24
        &&& self.minute < 60
        &&& self.second < 60
    }

    /// A reading the schedule accepts: valid fields and an instant within the
    /// range the library converts.
    pub open spec fn valid(self) -> bool {
        &&& self.fields_valid()
        &&& MIN_TIMESTAMP <= self.timestamp <= MAX_TIMESTAMP
    }

    /// The reading of `timestamp`, where the library converts it.
    pub open spec fn of_timestamp(timestamp: int) -> Option<CivilTime> {
        if MIN_TIMESTAMP <= timestamp <= MAX_TIMESTAMP {
            los_angeles_civil(timestamp)
        } else {
            None
        }
    }

    /// The civil day of this reading, where its midnight is a single instant
    /// within the range the library converts.
    pub open spec fn date_spec(self) -> Option<CivilDate> {
        match los_angeles_midnight(self.year as int, self.month as int, self.day as int) {
            Some(midnight) => if MIN_TIMESTAMP <= midnight <= MAX_TIMESTAMP {
                Some(CivilDate { day: self.day, weekday: self.weekday, midnight })
            } else {
                None
            },
            None => None,
        }
    }

    /// Whether the schedule accepts this reading.
    pub fn is_valid(&self) -> (r: bool)
        ensures
            r == self.valid(),
    {
        1 <= self.month && self.month <= 12 && 1 <= self.day && self.day <= last_day_of_month(
            self.year,
            self.month,
        ) && 1 <= self.weekday && self.weekday <= 7 && self.hour < 24 && self.minute < 60
            && self.second < 60 && MIN_TIMESTAMP <= self.timestamp && self.timestamp
            <= MAX_TIMESTAMP
    }

    /// Reads the civil time of an instant given in seconds since the Unix
    /// epoch. Instants outside `MIN_TIMESTAMP..=MAX_TIMESTAMP` have no reading.
    pub fn from_timestamp(timestamp: i64) -> (r: Option<CivilTime>)
        ensures
            r == Self::of_timestamp(timestamp as int),
            r matches Some(t) ==> t.timestamp == timestamp && t.valid(),
    {
        if timestamp < MIN_TIMESTAMP || timestamp > MAX_TIMESTAMP {
            None
        } else {
            civil_in_los_angeles(timestamp)
        }
    }

    /// Reads the civil time of the present instant off the system clock.
    /// Whatever the clock says, a reading that comes back is the reading of
    /// its own instant.
    pub fn now() -> (r: Option<CivilTime>)
        ensures
            r matches Some(t) ==> t.valid() && Self::of_timestamp(t.timestamp as int) == Some(t),
    {
        Self::from_timestamp(utc_now_seconds())
    }

    /// The civil day this reading falls on.
    pub fn date(&self) -> (r: Option<CivilDate>)
        ensures
            r == self.date_spec(),
            self.fields_valid() ==> (r matches Some(d) ==> d.valid()),
    {
        match midnight_in_los_angeles(self.year, self.month, self.day) {
            Some(midnight) => {
                if midnight < MIN_TIMESTAMP || midnight > MAX_TIMESTAMP {
                    None
                } else {
                    Some(CivilDate { day: self.day, weekday: self.weekday, midnight })
                }
            },
            None => None,
        }
    }

    /// The last day of the month this reading falls in.
    pub fn last_day_of_month(&self) -> (r: u32)
        requires
            1 <= self.month <= 12,
        ensures
            r == days_in_month(self.year as int, self.month as int),
    {
        last_day_of_month(self.year, self.month)
    }
}

impl CivilDate {
    /// A day the rotation accepts: day and weekday in their ranges and a
    /// midnight within the range the library converts.
    pub open spec fn valid(self) -> bool {
        &&& 1 <= self.day <= 31
        &&& 1 <= self.weekday <= 7
        &&& MIN_TIMESTAMP <= self.midnight <= MAX_TIMESTAMP
    }

    /// Whether the rotation accepts this day.
    pub fn is_valid(&self) -> (r: bool)
        ensures
            r == self.valid(),
    {
        1 <= self.day && self.day <= 31 && 1 <= self.weekday && self.weekday <= 7
            && MIN_TIMESTAMP <= self.midnight && self.midnight <= MAX_TIMESTAMP
    }
}

/// Whether `year` is a leap year.
pub fn leap_year(year: i32) -> (r: bool)
    ensures
        r == is_leap_year(year as int),
{
    year % 4 == 0 && (year % 100 != 0 || year % 400 == 0)
}

/// The number of the last day of the given month: 28, 29, 30 or 31.
pub fn last_day_of_month(year: i32, month: u32) -> (r: u32)
    requires
        1 <= month <= 12,
    ensures
        r == days_in_month(year as int, month as int),
        28 <= r <= 31,
{
    if month == 2 {
        if leap_year(year) {
            29
        } else {
            28
        }
    } else if month == 4 || month == 6 || month == 9 || month == 11 {
        30
    } else {
        31
    }
}

} // verus!
