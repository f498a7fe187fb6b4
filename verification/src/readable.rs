//! The readable-time record, its construction from the fields the operating
//! system reports, and its formatting operations.

use vstd::prelude::*;

use crate::decimal::padded2;
use crate::decimal::padded2_rep;
use crate::decimal::i32_decimal;
use crate::decimal::signed_rep;

verus! {

/// The ways an operation of this library can fail.
#[derive(Clone, Copy, Debug, PartialEq, Eq)]
pub enum TimeError {
    /// The system clock reported a time before the Unix epoch.
    ClockError,
    /// The operating system's local-time decomposition failed.
    LocalTimeUnavailable,
    /// A weekday value outside 1..=7 was passed to the weekday lookup.
    InvalidWeekday,
    /// A month value outside 1..=12 was passed to the month lookup.
    InvalidMonth,
    /// An hour value outside 0..=23 was passed to the period lookup.
    InvalidHour,
}

/// The descriptive message for each error kind.
pub open spec fn message_spec(e: TimeError) -> Seq<char> {
    match e {
        TimeError::ClockError => "system clock reports a time before the Unix epoch"@,
        TimeError::LocalTimeUnavailable => "could not get local time"@,
        TimeError::InvalidWeekday => "invalid day of week, only 1-7 are valid days"@,
        TimeError::InvalidMonth => "invalid month, month should be 1-12"@,
        TimeError::InvalidHour => "invalid hour, hour should be in 0-23 format"@,
    }
}

impl TimeError {
    /// A human-readable description of the failure, naming the valid range
    /// where one was violated.
    pub fn message(&self) -> (r: &'static str)
        ensures
            r@ == message_spec(*self),
    {
        match *self {
            TimeError::ClockError => "system clock reports a time before the Unix epoch",
            TimeError::LocalTimeUnavailable => "could not get local time",
            TimeError::InvalidWeekday => "invalid day of week, only 1-7 are valid days",
            TimeError::InvalidMonth => "invalid month, month should be 1-12",
            TimeError::InvalidHour => "invalid hour, hour should be in 0-23 format",
        }
    }
}

/// A wall-clock reading decomposed into local calendar fields.
///
/// The record is immutable after construction. The numeric fields hold what
/// the operating system reported, after the adjustments of
/// [`ReadableTime::from_os_fields`]; they are not re-validated here — the
/// lookup helpers below are the only validation points.
#[derive(Debug, Clone)]
pub struct ReadableTime {
    /// Full year, e.g. 2025.
    pub year: i32,
    /// Month of the year, 1..=12.
    pub month: i32,
    /// Day of the month, 1..=31.
    pub day: i32,
    /// Day of the week, 1 = Sunday .. 7 = Saturday.
    pub week_day: i32,
    /// Hour of the day, 0..=23.
    pub hour_24: i32,
    /// Hour on a twelve-hour clock, 1..=12.
    pub hour_12: i32,
    /// Minute of the hour, 0..=59.
    pub minute: i32,
    /// Second of the minute, 0..=60 (60 for a leap second).
    pub second: i32,
    /// The zone abbreviation the operating system supplied, or the sentinel
    /// `"unknown time_zone"` when it supplied none.
    pub time_zone: String,
}

/// The hour on a twelve-hour clock derived from a twenty-four-hour value:
/// 0 maps to 12, 1..=12 stay unchanged, 13..=23 lose twelve. A value outside
/// 0..=23 passes through unchanged.
pub open spec fn hour_12_of(h: int) -> int {
    if h == 0 {
        12
    } else if 1 <= h <= 12 {
        h
    } else if 13 <= h <= 23 {
        h - 12
    } else {
        h
    }
}

/// The three-letter abbreviation for a weekday, 1 = Sunday .. 7 = Saturday;
/// empty outside that range.
pub open spec fn weekday_abbrev(w: int) -> Seq<char> {
    if w == 1 {
        "Sun"@
    } else if w == 2 {
        "Mon"@
    } else if w == 3 {
        "Tue"@
    } else if w == 4 {
        "Wed"@
    } else if w == 5 {
        "Thu"@
    } else if w == 6 {
        "Fri"@
    } else if w == 7 {
        "Sat"@
    } else {
        Seq::<char>::empty()
    }
}

/// The three-letter abbreviation for a month, 1 = January .. 12 = December;
/// empty outside that range.
pub open spec fn month_abbrev(m: int) -> Seq<char> {
    if m == 1 {
        "Jan"@
    } else if m == 2 {
        "Feb"@
    } else if m == 3 {
        "Mar"@
    } else if m == 4 {
        "Apr"@
    } else if m == 5 {
        "May"@
    } else if m == 6 {
        "Jun"@
    } else if m == 7 {
        "Jul"@
    } else if m == 8 {
        "Aug"@
    } else if m == 9 {
        "Sep"@
    } else if m == 10 {
        "Oct"@
    } else if m == 11 {
        "Nov"@
    } else {
        "Dec"@
    }
}

/// The half of the day an hour falls in: `"AM"` for 0..=11, `"PM"` for
/// 12..=23.
pub open spec fn period_abbrev(h: int) -> Seq<char> {
    if h < 12 {
        "AM"@
    } else {
        "PM"@
    }
}

/// The character sequence of the basic format:
/// `{year}-{month:02}-{day:02} {hour_24:02}:{minute:02}:{second:02}`.
pub open spec fn basic_format_spec(t: ReadableTime) -> Seq<char> {
    signed_rep(t.year as int) + "-"@ + padded2_rep(t.month as int) + "-"@ + padded2_rep(
        t.day as int,
    ) + " "@ + padded2_rep(t.hour_24 as int) + ":"@ + padded2_rep(t.minute as int) + ":"@
        + padded2_rep(t.second as int)
}

/// The character sequence of the pretty format:
/// `{weekday} {month} {day} {year} {hour_12:02}:{minute:02} {period}`.
pub open spec fn pretty_format_spec(t: ReadableTime) -> Seq<char> {
    weekday_abbrev(t.week_day as int) + " "@ + month_abbrev(t.month as int) + " "@ + signed_rep(
        t.day as int,
    ) + " "@ + signed_rep(t.year as int) + " "@ + padded2_rep(t.hour_12 as int) + ":"@
        + padded2_rep(t.minute as int) + " "@ + period_abbrev(t.hour_24 as int)
}

/// The character sequence of the extended pretty format:
/// `{weekday} {month} {day} {hour_24:02}:{minute:02}:{second:02} {zone} {year}`.
pub open spec fn extended_format_spec(t: ReadableTime) -> Seq<char> {
    weekday_abbrev(t.week_day as int) + " "@ + month_abbrev(t.month as int) + " "@ + signed_rep(
        t.day as int,
    ) + " "@ + padded2_rep(t.hour_24 as int) + ":"@ + padded2_rep(t.minute as int) + ":"@
        + padded2_rep(t.second as int) + " "@ + t.time_zone@ + " "@ + signed_rep(t.year as int)
}

impl ReadableTime {
    /// Returns the weekday abbreviation for a value in 1..=7, and
    /// `InvalidWeekday` for any other value.
    pub fn weekstr(weekday: i32) -> (r: Result<String, TimeError>)
        ensures
            r is Ok <==> 1 <= weekday <= 7,
            r matches Ok(s) ==> s@ == weekday_abbrev(weekday as int),
            r matches Err(e) ==> e == TimeError::InvalidWeekday,
    {
        match weekday {
            1 => Ok(String::from_str("Sun")),
            2 => Ok(String::from_str("Mon")),
            3 => Ok(String::from_str("Tue")),
            4 => Ok(String::from_str("Wed")),
            5 => Ok(String::from_str("Thu")),
            6 => Ok(String::from_str("Fri")),
            7 => Ok(String::from_str("Sat")),
            _ => Err(TimeError::InvalidWeekday),
        }
    }

    /// Returns the month abbreviation for a value in 1..=12, and
    /// `InvalidMonth` for any other value.
    pub fn monthstr(month: i32) -> (r: Result<String, TimeError>)
        ensures
            r is Ok <==> 1 <= month <= 12,
            r matches Ok(s) ==> s@ == month_abbrev(month as int),
            r matches Err(e) ==> e == TimeError::InvalidMonth,
    {
        match month {
            1 => Ok(String::from_str("Jan")),
            2 => Ok(String::from_str("Feb")),
            3 => Ok(String::from_str("Mar")),
            4 => Ok(String::from_str("Apr")),
            5 => Ok(String::from_str("May")),
            6 => Ok(String::from_str("Jun")),
            7 => Ok(String::from_str("Jul")),
            8 => Ok(String::from_str("Aug")),
            9 => Ok(String::from_str("Sep")),
            10 => Ok(String::from_str("Oct")),
            11 => Ok(String::from_str("Nov")),
            12 => Ok(String::from_str("Dec")),
            _ => Err(TimeError::InvalidMonth),
        }
    }

    /// Returns `"AM"` for an hour in 0..=11, `"PM"` for one in 12..=23, and
    /// `InvalidHour` for any other value.
    pub fn get_time_period(hour_24: i32) -> (r: Result<String, TimeError>)
        ensures
            r is Ok <==> 0 <= hour_24 <= 23,
            r matches Ok(s) ==> s@ == period_abbrev(hour_24 as int),
            r matches Err(e) ==> e == TimeError::InvalidHour,
    {
        if hour_24 >= 0 && hour_24 <= 11 {
            Ok(String::from_str("AM"))
        } else if hour_24 >= 12 && hour_24 <= 23 {
            Ok(String::from_str("PM"))
        } else {
            Err(TimeError::InvalidHour)
        }
    }

    /// Returns the basic formatted date string,
    /// `{year}-{month:02}-{day:02} {hour_24:02}:{minute:02}:{second:02}`,
    /// e.g. `2025-01-01 03:04:05`. Never fails.
    pub fn get_timef(&self) -> (r: String)
        ensures
            r@ == basic_format_spec(*self),
    {
        let mut r = i32_decimal(self.year);
        r.append("-");
        let month = padded2(self.month);
        r.append(month.as_str());
        r.append("-");
        let day = padded2(self.day);
        r.append(day.as_str());
        r.append(" ");
        let hour = padded2(self.hour_24);
        r.append(hour.as_str());
        r.append(":");
        let minute = padded2(self.minute);
        r.append(minute.as_str());
        r.append(":");
        let second = padded2(self.second);
        r.append(second.as_str());
        proof {
            assert(r@ =~= basic_format_spec(*self));
        }
        r
    }

    /// Returns the pretty date string,
    /// `{weekday} {month} {day} {year} {hour_12:02}:{minute:02} {period}`,
    /// e.g. `Mon Jan 15 2024 03:45 PM`. Fails when the weekday, the month or
    /// the hour lies outside its documented range, reporting the first of
    /// those violations in that order.
    pub fn get_ptimef(&self) -> (r: Result<String, TimeError>)
        ensures
            r is Ok <==> (1 <= self.week_day <= 7 && 1 <= self.month <= 12 && 0 <= self.hour_24
                <= 23),
            r matches Ok(s) ==> s@ == pretty_format_spec(*self),
            r matches Err(e) ==> e == (if !(1 <= self.week_day <= 7) {
                TimeError::InvalidWeekday
            } else if !(1 <= self.month <= 12) {
                TimeError::InvalidMonth
            } else {
                TimeError::InvalidHour
            }),
    {
        let mut r = match Self::weekstr(self.week_day) {
            Ok(s) => s,
            Err(e) => {
                return Err(e);
            },
        };
        let month = match Self::monthstr(self.month) {
            Ok(s) => s,
            Err(e) => {
                return Err(e);
            },
        };
        let period = match Self::get_time_period(self.hour_24) {
            Ok(s) => s,
            Err(e) => {
                return Err(e);
            },
        };
        r.append(" ");
        r.append(month.as_str());
        r.append(" ");
        let day = i32_decimal(self.day);
        r.append(day.as_str());
        r.append(" ");
        let year = i32_decimal(self.year);
        r.append(year.as_str());
        r.append(" ");
        let hour = padded2(self.hour_12);
        r.append(hour.as_str());
        r.append(":");
        let minute = padded2(self.minute);
        r.append(minute.as_str());
        r.append(" ");
        r.append(period.as_str());
        proof {
            assert(r@ =~= pretty_format_spec(*self));
        }
        Ok(r)
    }

    /// Returns the pretty date string with seconds and the time zone,
    /// `{weekday} {month} {day} {hour_24:02}:{minute:02}:{second:02} {zone} {year}`,
    /// e.g. `Sun Nov 30 07:14:00 +0545 2025`. Fails when the weekday or the
    /// month lies outside its documented range, reporting the weekday
    /// violation first.
    pub fn get_extended_ptimef(&self) -> (r: Result<String, TimeError>)
        ensures
            r is Ok <==> (1 <= self.week_day <= 7 && 1 <= self.month <= 12),
            r matches Ok(s) ==> s@ == extended_format_spec(*self),
            r matches Err(e) ==> e == (if !(1 <= self.week_day <= 7) {
                TimeError::InvalidWeekday
            } else {
                TimeError::InvalidMonth
            }),
    {
        let mut r = match Self::weekstr(self.week_day) {
            Ok(s) => s,
            Err(e) => {
                return Err(e);
            },
        };
        let month = match Self::monthstr(self.month) {
            Ok(s) => s,
            Err(e) => {
                return Err(e);
            },
        };
        r.append(" ");
        r.append(month.as_str());
        r.append(" ");
        let day = i32_decimal(self.day);
        r.append(day.as_str());
        r.append(" ");
        let hour = padded2(self.hour_24);
        r.append(hour.as_str());
        r.append(":");
        let minute = padded2(self.minute);
        r.append(minute.as_str());
        r.append(":");
        let second = padded2(self.second);
        r.append(second.as_str());
        r.append(" ");
        r.append(self.time_zone.as_str());
        r.append(" ");
        let year = i32_decimal(self.year);
        r.append(year.as_str());
        proof {
            assert(r@ =~= extended_format_spec(*self));
        }
        Ok(r)
    }

    /// Builds a record from the raw fields of the operating system's
    /// local-time decomposition, applying the documented adjustments: the
    /// year offset counts from 1900, months and weekdays arrive zero-based,
    /// the twelve-hour value is derived from the hour, and a missing or
    /// empty zone abbreviation falls back to the sentinel
    /// `"unknown time_zone"`.
    pub fn from_os_fields(
        os_year_offset: i32,
        os_month: i32,
        os_mday: i32,
        os_wday: i32,
        os_hour: i32,
        os_minute: i32,
        os_second: i32,
        zone: Option<String>,
    ) -> (r: ReadableTime)
        requires
            os_year_offset <= i32::MAX - 1900,
            os_month < i32::MAX,
            os_wday < i32::MAX,
        ensures
            r.year == os_year_offset + 1900,
            r.month == os_month + 1,
            r.day == os_mday,
            r.week_day == os_wday + 1,
            r.hour_24 == os_hour,
            r.hour_12 == hour_12_of(os_hour as int),
            r.minute == os_minute,
            r.second == os_second,
            r.time_zone@ == (match zone {
                Some(z) => if z@.len() > 0 {
                    z@
                } else {
                    "unknown time_zone"@
                },
                None => "unknown time_zone"@,
            }),
    {
        let hour_12: i32 = if os_hour == 0 {
            12
        } else if os_hour >= 1 && os_hour <= 12 {
            os_hour
        } else if os_hour >= 13 && os_hour <= 23 {
            os_hour - 12
        } else {
            os_hour
        };
        let time_zone: String = match zone {
            Some(z) => if !z.as_str().is_empty() {
                z
            } else {
                String::from_str("unknown time_zone")
            },
            None => String::from_str("unknown time_zone"),
        };
        ReadableTime {
            year: os_year_offset + 1900,
            month: os_month + 1,
            day: os_mday,
            week_day: os_wday + 1,
            hour_24: os_hour,
            hour_12,
            minute: os_minute,
            second: os_second,
            time_zone,
        }
    }
}

/// For every hour of the day the period is `"AM"` exactly when the hour is
/// below twelve and `"PM"` otherwise; the two labels differ, so each hour
/// falls in precisely one half of the day.
pub proof fn lemma_period_of_day(h: int)
    requires
        0 <= h <= 23,
    ensures
        h < 12 ==> period_abbrev(h) == "AM"@,
        h >= 12 ==> period_abbrev(h) == "PM"@,
        "AM"@ != "PM"@,
{
    reveal_strlit("AM");
    reveal_strlit("PM");
    assert("AM"@[0] != "PM"@[0]);
}

/// For every hour of the day, the derived twelve-hour value lies in 1..=12:
/// 0 maps to 12, 1..=12 stay unchanged, and 13..=23 lose twelve.
pub proof fn lemma_hour_12_range(h: int)
    requires
        0 <= h <= 23,
    ensures
        1 <= hour_12_of(h) <= 12,
        h == 0 ==> hour_12_of(h) == 12,
        1 <= h <= 12 ==> hour_12_of(h) == h,
        13 <= h <= 23 ==> hour_12_of(h) == h - 12,
{
}

/// Formatting is pure: records with equal fields format to equal character
/// sequences, in all three formats.
pub proof fn lemma_formatting_pure(t1: ReadableTime, t2: ReadableTime)
    requires
        t1 == t2,
    ensures
        basic_format_spec(t1) == basic_format_spec(t2),
        pretty_format_spec(t1) == pretty_format_spec(t2),
        extended_format_spec(t1) == extended_format_spec(t2),
{
}

} // verus!
