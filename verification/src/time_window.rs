//! Working-hours handling: parsing of `HH:MM` time-of-day strings and
//! the test of whether an instant's local time of day falls inside the
//! configured working-hours window.
//!
//! The literal `"24:00"` is accepted as an end time and normalized to
//! `23:59`; a window whose normalized end is `23:59` is treated as
//! open-ended, so that any time of day at or past the start qualifies.

use vstd::prelude::*;
use crate::decimal::{digit_val, is_dec_digit};

verus! {

/// Seconds in a day; times of day lie strictly below this.
pub const SECS_PER_DAY: u32 = 86400;

/// The normalized form of `"24:00"`, 23:59:00, in seconds of day.
pub const OPEN_END_SECS: u32 = 86340;

/// A local time of day at second granularity.
#[derive(Clone, Copy, Debug, PartialEq, Eq, Structural)]
pub struct TimeOfDay {
    pub secs: u32,
}

impl TimeOfDay {
    pub open spec fn wf(self) -> bool {
        self.secs < SECS_PER_DAY
    }

    /// Builds a time of day from hours, minutes and seconds on the
    /// clock face.
    pub fn from_hms(hour: u32, minute: u32, second: u32) -> (r: TimeOfDay)
        requires
            hour < 24,
            minute < 60,
            second < 60,
        ensures
            r.secs == hour * 3600 + minute * 60 + second,
            r.wf(),
    {
        TimeOfDay { secs: hour * 3600 + minute * 60 + second }
    }
}

/// The time of day denoted by a five-character `HH:MM` string, in
/// seconds of day, with `"24:00"` normalized to 23:59:00; `None` for
/// every other shape.
pub open spec fn spec_parse_time(s: Seq<char>) -> Option<int> {
    if s.len() == 5 && s[0] == '2' && s[1] == '4' && s[2] == ':' && s[3] == '0' && s[4] == '0' {
        Some(OPEN_END_SECS as int)
    } else if s.len() == 5 && is_dec_digit(s[0]) && is_dec_digit(s[1]) && s[2] == ':'
        && is_dec_digit(s[3]) && is_dec_digit(s[4]) && digit_val(s[0]) * 10 + digit_val(s[1]) <= 23
        && digit_val(s[3]) * 10 + digit_val(s[4]) <= 59 {
        Some((digit_val(s[0]) * 10 + digit_val(s[1])) * 3600 + (digit_val(s[3]) * 10 + digit_val(
            s[4],
        )) * 60)
    } else {
        None
    }
}

/// Whether the time of day `t` (seconds of day) lies inside the
/// working-hours window written as the two strings, or `None` where a
/// string does not parse. A window ending at the normalized `23:59` is
/// open-ended past its start.
pub open spec fn spec_in_work_hours(t: int, start_s: Seq<char>, end_s: Seq<char>) -> Option<
    bool,
> {
    match (spec_parse_time(start_s), spec_parse_time(end_s)) {
        (Some(st), Some(en)) => Some(
            if en == OPEN_END_SECS as int {
                t >= st
            } else {
                st <= t && t <= en
            },
        ),
        _ => None,
    }
}

/// Time handling shared by the scheduler's gates and the recurrence
/// rules.
pub struct TimeUtils;

impl TimeUtils {
    /// Parses an `HH:MM` time-of-day string, treating the special
    /// value `"24:00"` as `23:59`. Returns `None` for anything that is
    /// not a five-character clock time.
    pub fn parse_time(time_str: &str) -> (r: Option<TimeOfDay>)
        ensures
            r is Some <==> spec_parse_time(time_str@) is Some,
            r is Some ==> r->0.secs == spec_parse_time(time_str@)->0 && r->0.wf(),
    {
        let n: usize = time_str.unicode_len();
        if n != 5 {
            return None;
        }
        let c0: char = time_str.get_char(0);
        let c1: char = time_str.get_char(1);
        let c2: char = time_str.get_char(2);
        let c3: char = time_str.get_char(3);
        let c4: char = time_str.get_char(4);
        if c2 != ':' {
            return None;
        }
        if c0 < '0' || c0 > '9' || c1 < '0' || c1 > '9' || c3 < '0' || c3 > '9' || c4 < '0' || c4
            > '9' {
            return None;
        }
        let hh: u32 = (c0 as u32 - '0' as u32) * 10 + (c1 as u32 - '0' as u32);
        let mm: u32 = (c3 as u32 - '0' as u32) * 10 + (c4 as u32 - '0' as u32);
        if hh == 24 && mm == 0 {
            return Some(TimeOfDay { secs: OPEN_END_SECS });
        }
        if hh <= 23 && mm <= 59 {
            Some(TimeOfDay { secs: hh * 3600 + mm * 60 })
        } else {
            None
        }
    }

    /// Decides whether `current_time` lies inside the working hours
    /// written as `work_start` and `work_end`, or `None` where either
    /// string fails to parse — the caller treats that as an invalid
    /// configuration, never as permission to proceed.
    pub fn is_in_work_hours(current_time: TimeOfDay, work_start: &str, work_end: &str) -> (r:
        Option<bool>)
        ensures
            r == spec_in_work_hours(current_time.secs as int, work_start@, work_end@),
    {
        let start: TimeOfDay = match Self::parse_time(work_start) {
            Some(t) => t,
            None => {
                return None;
            },
        };
        let end: TimeOfDay = match Self::parse_time(work_end) {
            Some(t) => t,
            None => {
                return None;
            },
        };
        if end.secs == OPEN_END_SECS {
            Some(current_time.secs >= start.secs)
        } else {
            Some(start.secs <= current_time.secs && current_time.secs <= end.secs)
        }
    }
}

/// With working hours configured from `"00:01"` to `"24:00"`, every
/// time of day from 00:01:00 onward lies inside the window — 23:59
/// included, and the boundary instant 00:01:00 itself — and every
/// earlier one lies outside it.
pub proof fn lemma_open_ended_work_hours(t: int)
    ensures
        spec_in_work_hours(t, "00:01"@, "24:00"@) == Some(t >= 60),
{
    reveal_strlit("00:01");
    reveal_strlit("24:00");
    assert(spec_parse_time("00:01"@) == Some(60int));
    assert(spec_parse_time("24:00"@) == Some(OPEN_END_SECS as int));
}

} // verus!
