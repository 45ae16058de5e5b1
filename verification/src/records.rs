//! The records the scheduler reads and writes: concrete task
//! occurrences, recurring-task templates, and persisted notification
//! records. Instants are seconds since the Unix epoch (UTC); the
//! host's repository stores and retrieves them in its own format.

use vstd::prelude::*;
use crate::calendar::INSTANT_BOUND;

verus! {

/// The `type_` of an occurrence the materializer generated from a
/// recurring task, as opposed to one created by hand.
pub const MATTER_KIND_REPEAT: i32 = 1;

/// A recurring task in this status is evaluated by the scheduler;
/// paused and archived tasks are not.
pub const REPEAT_STATUS_ACTIVE: i32 = 1;

/// A concrete, time-boxed unit of work on the timeline.
///
/// Of the reserved slots, `reserved_1` carries the display-color hint
/// derived from the priority and `reserved_2` the identifier of the
/// recurring task a generated occurrence came from.
#[derive(Debug, Clone)]
pub struct Matter {
    pub id: String,
    pub title: String,
    pub description: Option<String>,
    pub tags: Option<String>,
    pub start_time: i64,
    pub end_time: i64,
    pub priority: i32,
    pub type_: i32,
    pub created_at: i64,
    pub updated_at: i64,
    pub reserved_1: Option<String>,
    pub reserved_2: Option<String>,
    pub reserved_3: Option<String>,
    pub reserved_4: Option<String>,
    pub reserved_5: Option<String>,
}

impl Matter {
    /// An occurrence never ends before it starts, and its instants
    /// stay within the range the scheduler's arithmetic covers.
    pub open spec fn wf(self) -> bool {
        &&& -INSTANT_BOUND <= self.start_time <= self.end_time <= INSTANT_BOUND
    }
}

/// A template for a task that repeats weekly.
///
/// `repeat_time` packs the recurrence as `bitmask|HH:MM|HH:MM`: bits
/// 0 through 6 of the decimal bitmask flag Sunday through Saturday,
/// bit 7 asks for holidays to be skipped, and the two clock times
/// bound the daily occurrence.
#[derive(Debug, Clone)]
pub struct RepeatTask {
    pub id: String,
    pub title: String,
    pub tags: Option<String>,
    pub repeat_time: String,
    pub status: i32,
    pub created_at: i64,
    pub updated_at: i64,
    pub priority: i32,
    pub description: Option<String>,
}

/// A notification kept for the inbox after it was emitted.
#[derive(Debug, Clone)]
pub struct NotificationRecord {
    pub id: String,
    pub title: String,
    pub content: String,
    pub type_: i32,
    pub status: i32,
    pub related_task_id: Option<String>,
    pub created_at: i64,
    pub read_at: Option<i64>,
    pub expire_at: Option<i64>,
    pub action_url: Option<String>,
    pub reserved_1: Option<String>,
    pub reserved_2: Option<String>,
    pub reserved_3: Option<String>,
    pub reserved_4: Option<String>,
    pub reserved_5: Option<String>,
}

/// Relies on `uuid::Uuid::new_v4` and its hyphenated `Display`
/// rendering: a fresh random version-4 identifier, always 36
/// characters long. Nothing further can be said of a random value.
#[verifier::external_body]
pub(crate) fn new_uuid_string() -> (r: String)
    ensures
        r@.len() == 36,
{
    uuid::Uuid::new_v4().to_string()
}

} // verus!
