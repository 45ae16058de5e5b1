//! Calendar facts the scheduler depends on: validity of civil dates,
//! the day of the week, the Chinese-holiday lookup behind the
//! holiday-exclusion flag of recurrence rules, and the captured local
//! moment a scheduler tick works from.

use vstd::prelude::*;
use crate::time_window::TimeOfDay;
use chrono::Datelike;

verus! {

/// Instants handled by the scheduler stay within this many seconds of
/// the Unix epoch (roughly 300,000 years), so that second and minute
/// arithmetic on them cannot overflow an `i64`.
pub const INSTANT_BOUND: i64 = 10_000_000_000_000;

pub open spec fn is_leap_year(y: int) -> bool {
    (y % 4 == 0 && y % 100 != 0) || y % 400 == 0
}

pub open spec fn days_in_month(y: int, m: int) -> int {
    if m == 2 {
        if is_leap_year(y) {
            29
        } else {
            28
        }
    } else if m == 4 || m == 6 || m == 9 || m == 11 {
        30
    } else {
        31
    }
}

/// A well-formed Gregorian calendar date.
pub open spec fn valid_date(y: int, m: int, d: int) -> bool {
    1 <= m <= 12 && 1 <= d <= days_in_month(y, m)
}

/// The day of the week of a Gregorian date, numbered from Sunday = 0
/// through Saturday = 6.
pub uninterp spec fn weekday_of(year: int, month: int, day: int) -> int;

/// Whether a date is a rest day on the Chinese calendar: a statutory
/// holiday, or a weekend without a make-up working day.
pub uninterp spec fn holiday_of(year: int, month: int, day: int) -> bool;

/// Relies on chrono's `NaiveDate::from_ymd_opt` and on
/// `Datelike::weekday` with `Weekday::num_days_from_sunday`: the
/// weekday of a civil date, a function of the date alone, numbered
/// with Sunday = 0; `from_ymd_opt` returns `None` exactly on
/// calendar-invalid dates (within chrono's year range, which covers
/// years 1 through 9999).
#[verifier::external_body]
fn chrono_weekday_from_sunday(year: i32, month: u32, day: u32) -> (r: Option<u8>)
    ensures
        1 <= year <= 9999 ==> (r is Some <==> valid_date(
            year as int,
            month as int,
            day as int,
        )),
        r is Some ==> r->0 < 7 && r->0 == weekday_of(year as int, month as int, day as int),
{
    match chrono::NaiveDate::from_ymd_opt(year, month, day) {
        Some(d) => Some(d.weekday().num_days_from_sunday() as u8),
        None => None,
    }
}

/// The dates the bundled Chinese-holiday tables cover, 2004-01-01
/// through 2026-12-25; the lookup refuses anything outside them.
pub open spec fn holiday_data_covers(y: int, m: int, d: int) -> bool {
    2004 <= y <= 2026 && !(y == 2026 && m == 12 && d > 25)
}

/// Relies on `chinese_holiday::chinese_holiday` with
/// `DayKind::is_holiday`: whether a date is a Chinese rest day, a
/// function of the date alone, read from the crate's day tables. The
/// lookup asserts that its argument lies between 2004-01-01 and
/// 2026-12-25, so dates outside that window are kept out here.
#[verifier::external_body]
fn chinese_holiday_lookup(year: u16, month: u8, day: u8) -> (r: bool)
    requires
        1 <= month <= 12,
        1 <= day <= 31,
        holiday_data_covers(year as int, month as int, day as int),
    ensures
        r == holiday_of(year as int, month as int, day as int),
{
    chinese_holiday::chinese_holiday(chinese_holiday::Ymd::new(year, month, day)).is_holiday()
}

/// A civil date in years 1 through 9999.
#[derive(Clone, Copy, Debug, PartialEq, Eq, Structural)]
pub struct CivilDate {
    pub year: u16,
    pub month: u8,
    pub day: u8,
}

impl CivilDate {
    pub open spec fn wf(self) -> bool {
        1 <= self.year <= 9999 && valid_date(self.year as int, self.month as int, self.day as int)
    }

    /// Builds a date after checking that it exists on the Gregorian
    /// calendar and lies in years 1 through 9999.
    pub fn new(year: u16, month: u8, day: u8) -> (r: Option<CivilDate>)
        ensures
            r is Some <==> (1 <= year <= 9999 && valid_date(
                year as int,
                month as int,
                day as int,
            )),
            r is Some ==> r->0 == (CivilDate { year, month, day }) && r->0.wf(),
    {
        if year < 1 || year > 9999 || month < 1 || month > 12 {
            return None;
        }
        let leap: bool = (year % 4 == 0 && year % 100 != 0) || year % 400 == 0;
        let max_day: u8 = if month == 2 {
            if leap {
                29
            } else {
                28
            }
        } else if month == 4 || month == 6 || month == 9 || month == 11 {
            30
        } else {
            31
        };
        if day < 1 || day > max_day {
            return None;
        }
        Some(CivilDate { year, month, day })
    }

    /// The day of the week, numbered from Sunday = 0, as the
    /// recurrence bitmask counts its bits.
    pub fn weekday_from_sunday(&self) -> (r: u8)
        requires
            self.wf(),
        ensures
            r < 7,
            r == weekday_of(self.year as int, self.month as int, self.day as int),
    {
        match chrono_weekday_from_sunday(self.year as i32, self.month as u32, self.day as u32) {
            Some(w) => w,
            None => {
                // excluded by the well-formedness of `self`
                assert(false);
                0
            },
        }
    }

    /// Whether this date is a Chinese rest day, or `None` where the
    /// date lies outside the years the holiday tables cover.
    pub fn holiday_status(&self) -> (r: Option<bool>)
        requires
            self.wf(),
        ensures
            r == if holiday_data_covers(self.year as int, self.month as int, self.day as int) {
                Some(holiday_of(self.year as int, self.month as int, self.day as int))
            } else {
                None::<bool>
            },
    {
        let in_range: bool = self.year >= 2004 && self.year <= 2026 && !(self.year == 2026
            && self.month == 12 && self.day > 25);
        if in_range {
            Some(chinese_holiday_lookup(self.year, self.month, self.day))
        } else {
            None
        }
    }
}

/// An event read from a platform calendar, with its instants kept in
/// the string form the platform formatter produced. The host's
/// calendar bindings fill it in and hand it to the user interface.
#[derive(Debug, Clone)]
pub struct CalendarMatter {
    pub id: String,
    pub title: String,
    pub description: String,
    pub start_time: String,
    pub end_time: String,
    pub priority: i32,
    pub type_: i32,
    pub sub_type: i32,
}

/// One captured local moment, the clock input of a scheduler tick:
/// the civil date and wall-clock time of day in the zone the
/// working-hours strings are written for, together with the matching
/// UTC instants. The host captures it once per tick and derives every
/// field from the same reading of the clock.
pub struct DayContext {
    /// Today's civil date on the local calendar.
    pub date: CivilDate,
    /// The captured instant, in seconds since the Unix epoch.
    pub now_utc: i64,
    /// The UTC instant of today's local 00:00:00.
    pub midnight_utc: i64,
    /// The local wall-clock time of day of the captured instant.
    pub now_tod: TimeOfDay,
    /// The captured instant rendered as an RFC 3339 timestamp, used
    /// verbatim for notification timestamps and rate-limiter stamps.
    pub now_rfc3339: String,
}

impl DayContext {
    pub open spec fn wf(self) -> bool {
        &&& self.date.wf()
        &&& self.now_tod.wf()
        &&& -INSTANT_BOUND <= self.now_utc <= INSTANT_BOUND
        &&& -INSTANT_BOUND <= self.midnight_utc
        &&& self.midnight_utc + 86400 <= INSTANT_BOUND
    }
}

} // verus!
