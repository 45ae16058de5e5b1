//! Weekly recurrence rules: parsing of the packed
//! `bitmask|HH:MM|HH:MM` recurrence string, the decision whether a
//! rule is active on a given date, and the construction of the
//! concrete occurrence a rule produces for a day.
//!
//! Parsing is fail-closed: a string with the wrong field count, a
//! bitmask that is not a decimal `i32`, or a clock time that does not
//! parse deactivates the rule and yields no time range, so that
//! unparseable configuration can never materialize a task.

use vstd::prelude::*;
use crate::calendar::{holiday_data_covers, holiday_of, weekday_of, CivilDate, DayContext};
use crate::decimal::spec_parse_int;
use crate::records::{Matter, RepeatTask, MATTER_KIND_REPEAT};
use crate::records::new_uuid_string;
use crate::time_window::{spec_parse_time, TimeOfDay, TimeUtils};

verus! {

/// Bit 7 of the recurrence bitmask asks for holidays to be skipped.
pub const HOLIDAY_EXCLUDE_BIT: i32 = 128;

/// `a` and `b` are the positions of exactly two `'|'` separators in
/// `s`.
pub open spec fn is_bar_split(s: Seq<char>, a: int, b: int) -> bool {
    &&& 0 <= a < b < s.len()
    &&& s[a] == '|'
    &&& s[b] == '|'
    &&& forall|k: int| 0 <= k < s.len() && k != a && k != b ==> s[k] != '|'
}

/// The three fields of a `bitmask|start|end` recurrence string, or
/// `None` where it does not hold exactly two separators.
pub open spec fn spec_split3(s: Seq<char>) -> Option<(Seq<char>, Seq<char>, Seq<char>)> {
    if exists|a: int, b: int| is_bar_split(s, a, b) {
        let (a, b) = choose|a: int, b: int| is_bar_split(s, a, b);
        Some((s.subrange(0, a), s.subrange(a + 1, b), s.subrange(b + 1, s.len() as int)))
    } else {
        None
    }
}

/// Two separators determine the split: `spec_split3` cuts exactly at
/// them.
proof fn lemma_bar_split_unique(s: Seq<char>, a: int, b: int)
    requires
        is_bar_split(s, a, b),
    ensures
        spec_split3(s) == Some(
            (s.subrange(0, a), s.subrange(a + 1, b), s.subrange(b + 1, s.len() as int)),
        ),
{
    assert(exists|x: int, y: int| is_bar_split(s, x, y));
    let (x, y) = choose|x: int, y: int| is_bar_split(s, x, y);
    if x != a && x != b {
        assert(s[x] != '|');
    }
    if y != a && y != b {
        assert(s[y] != '|');
    }
    assert(x == a && y == b);
}

/// Splits a recurrence string on `'|'` into its exactly three fields.
#[verifier::loop_isolation(false)]
pub fn split3<'a>(s: &'a str) -> (r: Option<(&'a str, &'a str, &'a str)>)
    ensures
        r is Some <==> spec_split3(s@) is Some,
        r is Some ==> {
            let p = spec_split3(s@)->0;
            let q = r->0;
            q.0@ == p.0 && q.1@ == p.1 && q.2@ == p.2
        },
{
    let n: usize = s.unicode_len();
    let mut count: usize = 0;
    let mut a: usize = 0;
    let mut b: usize = 0;
    let mut c: usize = 0;
    let mut i: usize = 0;
    while i < n
        invariant
            i <= n,
            count <= i,
            count == 0 ==> forall|k: int| 0 <= k < i ==> s@[k] != '|',
            count == 1 ==> a < i && s@[a as int] == '|' && forall|k: int|
                0 <= k < i && k != a ==> s@[k] != '|',
            count == 2 ==> a < b && b < i && s@[a as int] == '|' && s@[b as int] == '|'
                && forall|k: int| 0 <= k < i && k != a && k != b ==> s@[k] != '|',
            count >= 3 ==> a < b && b < c && c < i && s@[a as int] == '|' && s@[b as int] == '|'
                && s@[c as int] == '|',
        decreases n - i,
    {
        if s.get_char(i) == '|' {
            if count == 0 {
                a = i;
            } else if count == 1 {
                b = i;
            } else if count == 2 {
                c = i;
            }
            count = count + 1;
        }
        i = i + 1;
    }
    if count != 2 {
        proof {
            assert forall|x: int, y: int| !is_bar_split(s@, x, y) by {
                if is_bar_split(s@, x, y) {
                    if count == 0 {
                        assert(s@[x] != '|');
                    } else if count == 1 {
                        if x != a {
                            assert(s@[x] != '|');
                        } else {
                            assert(s@[y] != '|');
                        }
                    } else {
                        // three or more separators: one of the first
                        // three lies outside {x, y}
                        if a != x && a != y {
                            assert(s@[a as int] != '|');
                        } else if b != x && b != y {
                            assert(s@[b as int] != '|');
                        } else {
                            assert(c != x && c != y);
                            assert(s@[c as int] != '|');
                        }
                    }
                }
            }
        }
        return None;
    }
    proof {
        lemma_bar_split_unique(s@, a as int, b as int);
    }
    let p0: &str = s.substring_char(0, a);
    let p1: &str = s.substring_char(a + 1, b);
    let p2: &str = s.substring_char(b + 1, n);
    Some((p0, p1, p2))
}

/// The fully parsed recurrence string: the day bitmask and the start
/// and end times of day in seconds, or `None` where any field is
/// malformed.
pub open spec fn spec_rule_parse(s: Seq<char>) -> Option<(i32, int, int)> {
    match spec_split3(s) {
        Some(p) => match (spec_parse_int(p.0), spec_parse_time(p.1), spec_parse_time(p.2)) {
            (Some(v), Some(st), Some(en)) => if i32::MIN <= v <= i32::MAX {
                Some((v as i32, st, en))
            } else {
                None
            },
            _ => None,
        },
        None => None,
    }
}

/// The daily time range of a rule, or `None` where the recurrence
/// string is malformed.
pub open spec fn spec_time_range(s: Seq<char>) -> Option<(int, int)> {
    match spec_rule_parse(s) {
        Some(t) => Some((t.1, t.2)),
        None => None,
    }
}

/// The mask bit of a day of the week, numbered from Sunday = 0.
pub open spec fn weekday_bit(wd: int) -> i32 {
    if wd == 0 {
        1
    } else if wd == 1 {
        2
    } else if wd == 2 {
        4
    } else if wd == 3 {
        8
    } else if wd == 4 {
        16
    } else if wd == 5 {
        32
    } else {
        64
    }
}

/// Whether a rule with recurrence string `s` is active on the date
/// `(y, m, d)`: the string parses, the date's weekday bit is set,
/// and, where bit 7 asks for holidays to be skipped, the date is
/// known not to be one — a date the holiday tables do not cover
/// counts as unknown and deactivates such a rule.
pub open spec fn spec_available_on(s: Seq<char>, y: int, m: int, d: int) -> bool {
    match spec_rule_parse(s) {
        Some(t) => {
            let bits = t.0;
            &&& bits & weekday_bit(weekday_of(y, m, d)) != 0
            &&& (bits & HOLIDAY_EXCLUDE_BIT != 0 ==> holiday_data_covers(y, m, d) && !holiday_of(
                y,
                m,
                d,
            ))
        },
        None => false,
    }
}

/// Fail-closed parsing: a recurrence string with the wrong field
/// count, a bitmask that is not a decimal `i32`, or an unparseable
/// clock time never activates a rule on any date and yields no time
/// range.
pub proof fn lemma_fail_closed_parsing(s: Seq<char>, y: int, m: int, d: int)
    requires
        spec_rule_parse(s) is None,
    ensures
        !spec_available_on(s, y, m, d),
        spec_time_range(s) is None,
{
}

fn weekday_bit_of(wd: u8) -> (r: i32)
    requires
        wd < 7,
    ensures
        r == weekday_bit(wd as int),
{
    match wd {
        0 => 1,
        1 => 2,
        2 => 4,
        3 => 8,
        4 => 16,
        5 => 32,
        _ => 64,
    }
}

/// The display-color hint an occurrence carries for a priority.
pub open spec fn color_of_priority(p: int) -> Seq<char> {
    if p == 1 {
        "red"@
    } else if p == -1 {
        "green"@
    } else {
        "blue"@
    }
}

fn color_of(priority: i32) -> (r: String)
    ensures
        r@ == color_of_priority(priority as int),
{
    if priority == 1 {
        String::from_str("red")
    } else if priority == -1 {
        String::from_str("green")
    } else {
        String::from_str("blue")
    }
}

/// What the occurrence generated from `task` for the day of `day`
/// looks like, apart from its freshly drawn identifier: the task's
/// own fields carried over, the day's instants derived from the time
/// range, the generated kind, the color hint, and the back-reference
/// to the task.
pub open spec fn created_matter_matches(
    m: Matter,
    task: RepeatTask,
    day: DayContext,
    st: int,
    en: int,
) -> bool {
    &&& m.id@.len() == 36
    &&& m.title@ == task.title@
    &&& m.description == task.description
    &&& m.tags == task.tags
    &&& m.start_time == day.midnight_utc + st
    &&& m.end_time == day.midnight_utc + en
    &&& m.priority == task.priority
    &&& m.type_ == MATTER_KIND_REPEAT
    &&& m.created_at == day.now_utc
    &&& m.updated_at == day.now_utc
    &&& m.reserved_1 matches Some(color) && color@ == color_of_priority(task.priority as int)
    &&& m.reserved_2 matches Some(back) && back@ == task.id@
    &&& m.reserved_3 is None
    &&& m.reserved_4 is None
    &&& m.reserved_5 is None
}

/// Evaluation of recurrence rules against a calendar date.
pub struct RepeatTaskHandler;

impl RepeatTaskHandler {
    /// Decides whether `task` recurs on `date`: its recurrence string
    /// parses, the date's weekday bit is set in the mask, and a rule
    /// that skips holidays is held back on holidays and on dates the
    /// holiday tables do not cover.
    pub fn is_available_today(task: &RepeatTask, date: &CivilDate) -> (r: bool)
        requires
            date.wf(),
        ensures
            r == spec_available_on(
                task.repeat_time@,
                date.year as int,
                date.month as int,
                date.day as int,
            ),
    {
        let parts: (&str, &str, &str) = match split3(task.repeat_time.as_str()) {
            Some(p) => p,
            None => {
                return false;
            },
        };
        let bits: i32 = match crate::decimal::parse_i32(parts.0) {
            Some(b) => b,
            None => {
                return false;
            },
        };
        if TimeUtils::parse_time(parts.1).is_none() {
            return false;
        }
        if TimeUtils::parse_time(parts.2).is_none() {
            return false;
        }
        let wd: u8 = date.weekday_from_sunday();
        if bits & weekday_bit_of(wd) == 0 {
            return false;
        }
        if bits & HOLIDAY_EXCLUDE_BIT != 0 {
            match date.holiday_status() {
                Some(is_holiday) => !is_holiday,
                None => false,
            }
        } else {
            true
        }
    }

    /// The daily start and end times of day of `task`, or `None`
    /// where its recurrence string is malformed in any field.
    pub fn get_time_range(task: &RepeatTask) -> (r: Option<(TimeOfDay, TimeOfDay)>)
        ensures
            r is Some <==> spec_time_range(task.repeat_time@) is Some,
            r is Some ==> {
                let t = spec_time_range(task.repeat_time@)->0;
                let q = r->0;
                q.0.secs == t.0 && q.1.secs == t.1 && q.0.wf() && q.1.wf()
            },
    {
        let parts: (&str, &str, &str) = match split3(task.repeat_time.as_str()) {
            Some(p) => p,
            None => {
                return None;
            },
        };
        if crate::decimal::parse_i32(parts.0).is_none() {
            return None;
        }
        let start: TimeOfDay = match TimeUtils::parse_time(parts.1) {
            Some(t) => t,
            None => {
                return None;
            },
        };
        let end: TimeOfDay = match TimeUtils::parse_time(parts.2) {
            Some(t) => t,
            None => {
                return None;
            },
        };
        Some((start, end))
    }

    /// Builds the concrete occurrence `task` produces for the day of
    /// `day`, combining today's date with the rule's time range and a
    /// fresh identifier. The caller persists it.
    pub fn create_today_task(task: &RepeatTask, day: &DayContext, time_range: (TimeOfDay, TimeOfDay))
        -> (m: Matter)
        requires
            day.wf(),
            time_range.0.wf(),
            time_range.1.wf(),
        ensures
            created_matter_matches(
                m,
                *task,
                *day,
                time_range.0.secs as int,
                time_range.1.secs as int,
            ),
    {
        let description: Option<String> = match &task.description {
            Some(s) => Some(s.clone()),
            None => None,
        };
        let tags: Option<String> = match &task.tags {
            Some(s) => Some(s.clone()),
            None => None,
        };
        Matter {
            id: new_uuid_string(),
            title: task.title.clone(),
            description,
            tags,
            start_time: day.midnight_utc + time_range.0.secs as i64,
            end_time: day.midnight_utc + time_range.1.secs as i64,
            priority: task.priority,
            type_: MATTER_KIND_REPEAT,
            created_at: day.now_utc,
            updated_at: day.now_utc,
            reserved_1: Some(color_of(task.priority)),
            reserved_2: Some(task.id.clone()),
            reserved_3: None,
            reserved_4: None,
            reserved_5: None,
        }
    }
}

} // verus!
