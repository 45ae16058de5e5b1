//! The notification-facing data types: the scheduler's configuration,
//! the notifications it computes, and the payload of a message box
//! shown by the host's user interface.

use vstd::prelude::*;
use crate::decimal::spec_parse_int;

verus! {

/// Payload of a message box the host's user interface shows.
#[derive(Debug, Clone)]
pub struct MessageBoxData {
    pub title: String,
    pub description: String,
}

/// The scheduler's configuration: the working-hours window as the
/// `HH:MM` strings the settings store holds, the tick cadence in
/// minutes, and how many minutes of notice a notification gives.
#[derive(Debug, Clone)]
pub struct NotificationConfig {
    pub work_start_time: String,
    pub work_end_time: String,
    pub check_interval: u64,
    pub notify_before: i64,
}

/// What `notify_before` becomes for a raw settings value: the parsed
/// minutes, or 15 where the value is absent or unparseable.
pub open spec fn spec_notify_before(raw: Option<String>) -> int {
    match raw {
        Some(s) => if spec_parse_int(s@) is Some && i64::MIN <= spec_parse_int(s@)->0
            <= i64::MAX {
            spec_parse_int(s@)->0
        } else {
            15
        },
        None => 15,
    }
}

impl NotificationConfig {
    /// Assembles the configuration from the raw settings values,
    /// falling back to the defaults the application starts from:
    /// working hours 00:01 to 23:59, a one-minute tick, and 15
    /// minutes of notice. A raw value is `None` where the settings
    /// store has no usable entry.
    pub fn from_settings(
        work_start_time: Option<String>,
        work_end_time: Option<String>,
        notify_before: Option<String>,
    ) -> (r: NotificationConfig)
        ensures
            r.work_start_time@ == match work_start_time {
                Some(s) => s@,
                None => "00:01"@,
            },
            r.work_end_time@ == match work_end_time {
                Some(s) => s@,
                None => "23:59"@,
            },
            r.check_interval == 1,
            r.notify_before == spec_notify_before(notify_before),
    {
        let start: String = match work_start_time {
            Some(s) => s,
            None => String::from_str("00:01"),
        };
        let end: String = match work_end_time {
            Some(s) => s,
            None => String::from_str("23:59"),
        };
        let before: i64 = match notify_before {
            Some(s) => match crate::decimal::parse_i64(s.as_str()) {
                Some(v) => v,
                None => 15,
            },
            None => 15,
        };
        NotificationConfig {
            work_start_time: start,
            work_end_time: end,
            check_interval: 1,
            notify_before: before,
        }
    }
}

/// One notification the evaluator decided to emit.
#[derive(Debug, Clone)]
pub struct Notification {
    pub id: String,
    pub title: String,
    pub message: String,
    pub timestamp: String,
    pub notification_type: NotificationType,
}

/// The category of a notification.
#[derive(Debug, Clone, Copy, PartialEq, Eq, Structural)]
pub enum NotificationType {
    /// Nothing is planned for the near future.
    NoTask,
    /// A task starts within the notice window.
    TaskStart,
    /// A task ends within the notice window.
    TaskEnd,
    /// The materializer created new occurrences.
    NewTask,
}

impl NotificationType {
    /// The integer category code a persisted notification record
    /// carries.
    pub open spec fn spec_code(self) -> i32 {
        match self {
            NotificationType::NoTask => 0,
            NotificationType::TaskStart => 1,
            NotificationType::TaskEnd => 2,
            NotificationType::NewTask => 3,
        }
    }

    pub fn code(&self) -> (r: i32)
        ensures
            r == self.spec_code(),
    {
        match self {
            NotificationType::NoTask => 0,
            NotificationType::TaskStart => 1,
            NotificationType::TaskEnd => 2,
            NotificationType::NewTask => 3,
        }
    }
}

} // verus!
