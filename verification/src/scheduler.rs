//! The scheduler tick: gating on working hours, materialization of
//! recurring tasks, rate-limited notification checks, and the plan of
//! side effects the host carries out. Within one tick the order is
//! fixed: gate, materialize, evaluate, dispatch. A tick that
//! materialized new occurrences emits exactly one "new tasks"
//! notification and skips the other checks; otherwise the
//! upcoming-task check and the idle check run independently, each
//! behind its own rate limiter, which stamps itself as soon as it
//! permits a run.

use vstd::prelude::*;
use crate::calendar::{DayContext, INSTANT_BOUND};
use crate::decimal::{dec_str, spec_parse_uint, u64_to_string};
use crate::evaluator::{
    minutes_of, notification_matches, spec_should_notify_no_tasks, spec_upcoming_list,
    NotificationHandler,
};
use crate::materializer::{check_repeat_tasks, spec_materialize, IdempotencyLedger};
use crate::models::{Notification, NotificationConfig, NotificationType};
use crate::records::{new_uuid_string, Matter, NotificationRecord, RepeatTask};
use crate::recurrence::{created_matter_matches, spec_time_range};
use crate::time_window::{spec_in_work_hours, TimeUtils};

verus! {

/// Minutes between two runs of the upcoming-task check.
pub const UPCOMING_CHECK_MINUTES: i64 = 15;

/// The instant an RFC 3339 timestamp denotes, in seconds since the
/// Unix epoch, or `None` where the string is not a well-formed
/// RFC 3339 date-time.
pub uninterp spec fn rfc3339_secs(s: Seq<char>) -> Option<int>;

/// Relies on chrono's `DateTime::parse_from_rfc3339` and
/// `DateTime::timestamp`: the instant an RFC 3339 string denotes, a
/// function of the string alone. chrono represents dates within about
/// 262,000 years of the epoch, so the second count stays far inside
/// `INSTANT_BOUND`.
#[verifier::external_body]
fn parse_rfc3339_secs(s: &str) -> (r: Option<i64>)
    ensures
        r is Some <==> rfc3339_secs(s@) is Some,
        r is Some ==> Some(r->0 as int) == rfc3339_secs(s@) && -INSTANT_BOUND <= r->0
            <= INSTANT_BOUND,
{
    match chrono::DateTime::parse_from_rfc3339(s) {
        Ok(dt) => Some(dt.timestamp()),
        Err(_) => None,
    }
}

/// The instant a stored rate-limiter stamp stands for: the parsed
/// stamp, or the day's local midnight where the stamp is absent or
/// unparseable.
pub open spec fn spec_stamp_instant(stored: Option<String>, midnight_utc: int) -> int {
    match stored {
        Some(s) => match rfc3339_secs(s@) {
            Some(t) => t,
            None => midnight_utc,
        },
        None => midnight_utc,
    }
}

/// Whether a rate-limited check may run now: more than
/// `threshold_minutes` whole minutes passed since its stamp.
pub open spec fn spec_rate_gate(
    stored: Option<String>,
    midnight_utc: int,
    now_utc: int,
    threshold_minutes: int,
) -> bool {
    minutes_of(now_utc - spec_stamp_instant(stored, midnight_utc)) > threshold_minutes
}

/// Checks one rate limiter against the stored stamp it read last; a
/// limiter that permits a run is stamped anew at once, so the caller
/// rewrites the stamp whenever this returns true.
fn rate_gate_passes(stored: &Option<String>, day: &DayContext, threshold_minutes: i64) -> (r:
    bool)
    requires
        day.wf(),
    ensures
        r == spec_rate_gate(
            *stored,
            day.midnight_utc as int,
            day.now_utc as int,
            threshold_minutes as int,
        ),
{
    let last: i64 = match stored {
        Some(s) => match parse_rfc3339_secs(s.as_str()) {
            Some(t) => t,
            None => day.midnight_utc,
        },
        None => day.midnight_utc,
    };
    crate::evaluator::minutes_between(day.now_utc, last) > threshold_minutes
}

/// The no-task check interval in minutes read from its raw settings
/// value: the parsed minutes, 120 where the value is absent or
/// unparseable, and at most `i64::MAX`.
pub open spec fn spec_no_task_interval(raw: Option<String>) -> int {
    match raw {
        Some(s) => {
            let p = spec_parse_uint(s@);
            if p is Some && p->0 <= u64::MAX {
                if p->0 > i64::MAX {
                    i64::MAX as int
                } else {
                    p->0
                }
            } else {
                120
            }
        },
        None => 120,
    }
}

fn no_task_interval(raw: &Option<String>) -> (r: i64)
    ensures
        r == spec_no_task_interval(*raw),
{
    match raw {
        Some(s) => match crate::decimal::parse_u64(s.as_str()) {
            Some(v) => if v > i64::MAX as u64 {
                i64::MAX
            } else {
                v as i64
            },
            None => 120,
        },
        None => 120,
    }
}

/// How a persisted record realizes a notification: a fresh
/// identifier, the notification's title and message, its category
/// code, unread status, and the tick's instant; nothing else set.
pub open spec fn record_matches(rec: NotificationRecord, n: Notification, now_utc: int) -> bool {
    &&& rec.id@.len() == 36
    &&& rec.title@ == n.title@
    &&& rec.content@ == n.message@
    &&& rec.type_ == n.notification_type.spec_code()
    &&& rec.status == 0
    &&& rec.related_task_id is None
    &&& rec.created_at == now_utc
    &&& rec.read_at is None
    &&& rec.expire_at is None
    &&& rec.action_url is None
    &&& rec.reserved_1 is None
    &&& rec.reserved_2 is None
    &&& rec.reserved_3 is None
    &&& rec.reserved_4 is None
    &&& rec.reserved_5 is None
}

/// Builds the inbox record of a notification about to be dispatched.
pub fn create_notification_record(notification: &Notification, now_utc: i64) -> (rec:
    NotificationRecord)
    ensures
        record_matches(rec, *notification, now_utc as int),
{
    NotificationRecord {
        id: new_uuid_string(),
        title: notification.title.clone(),
        content: notification.message.clone(),
        type_: notification.notification_type.code(),
        status: 0,
        related_task_id: None,
        created_at: now_utc,
        read_at: None,
        expire_at: None,
        action_url: None,
        reserved_1: None,
        reserved_2: None,
        reserved_3: None,
        reserved_4: None,
        reserved_5: None,
    }
}

/// The body of the notification a tick emits after materializing
/// `count` new occurrences.
pub open spec fn spec_new_task_message(count: nat) -> Seq<char> {
    "Created "@ + dec_str(count) + " new recurring tasks"@
}

/// The notification a materializing tick emits.
pub open spec fn new_task_notification_matches(n: Notification, count: nat, stamp: Seq<char>)
    -> bool {
    &&& n.id@.len() == 36
    &&& n.notification_type == NotificationType::NewTask
    &&& n.title@ == "New recurring tasks"@
    &&& n.message@ == spec_new_task_message(count)
    &&& n.timestamp@ == stamp
}

fn new_task_notification(count: usize, day: &DayContext) -> (n: Notification)
    ensures
        new_task_notification_matches(n, count as nat, day.now_rfc3339@),
{
    let mut message = String::from_str("Created ");
    let digits: String = u64_to_string(count as u64);
    message.append(digits.as_str());
    message.append(" new recurring tasks");
    Notification {
        id: new_uuid_string(),
        title: String::from_str("New recurring tasks"),
        message,
        timestamp: day.now_rfc3339.clone(),
        notification_type: NotificationType::NewTask,
    }
}

/// The notification the idle check emits.
pub open spec fn no_task_notification_matches(n: Notification, stamp: Seq<char>) -> bool {
    &&& n.id@.len() == 36
    &&& n.notification_type == NotificationType::NoTask
    &&& n.title@ == "No planned tasks"@
    &&& n.message@ == "Consider planning some tasks"@
    &&& n.timestamp@ == stamp
}

fn no_task_notification(day: &DayContext) -> (n: Notification)
    ensures
        no_task_notification_matches(n, day.now_rfc3339@),
{
    Notification {
        id: new_uuid_string(),
        title: String::from_str("No planned tasks"),
        message: String::from_str("Consider planning some tasks"),
        timestamp: day.now_rfc3339.clone(),
        notification_type: NotificationType::NoTask,
    }
}

/// The working-hours test a tick must pass: the moment's time of day
/// lies inside the configured window; an unparseable configuration
/// never passes.
pub open spec fn spec_work_gate(day: DayContext, config: NotificationConfig) -> bool {
    spec_in_work_hours(day.now_tod.secs as int, config.work_start_time@, config.work_end_time@)
        == Some(true)
}

/// Everything one scheduler tick decided. The host carries it out:
/// it persists each created occurrence and the ledger's new markers,
/// emits a timeline-reload signal when asked, persists each record
/// and delivers its notification, and rewrites the stamp of each
/// rate limiter whose flag is set to the tick's timestamp.
pub struct TickPlan {
    /// Whether the tick passed the working-hours gate; outside it
    /// nothing else is set.
    pub in_work_hours: bool,
    /// The occurrences materialized this tick, to be persisted.
    pub created: Vec<Matter>,
    /// Whether the host should refresh the timeline view.
    pub reload_timeline: bool,
    /// The notifications to deliver, in order.
    pub notifications: Vec<Notification>,
    /// The inbox record of each notification, in the same order.
    pub records: Vec<NotificationRecord>,
    /// Rewrite the upcoming-check stamp to the tick's timestamp.
    pub stamp_upcoming: bool,
    /// Rewrite the no-task-check stamp to the tick's timestamp.
    pub stamp_no_task: bool,
}

/// Decides one scheduler tick from a snapshot of the world: the
/// configuration, the captured moment, the active recurring tasks,
/// today's occurrences, the idempotency ledger, and the raw settings
/// values of the two rate-limiter stamps and the no-task interval.
///
/// Outside working hours the tick is abandoned untouched. Otherwise
/// materialization runs first; a tick that created occurrences
/// reports exactly one "new tasks" notification and skips both
/// checks. Otherwise each check runs when its rate limiter permits —
/// and stamps itself whenever it permits, fired or not.
pub fn run_tick(
    config: &NotificationConfig,
    day: &DayContext,
    tasks: &Vec<RepeatTask>,
    matters: &Vec<Matter>,
    ledger: &mut IdempotencyLedger,
    upcoming_stamp: &Option<String>,
    no_task_stamp: &Option<String>,
    no_task_interval_raw: &Option<String>,
) -> (plan: TickPlan)
    requires
        day.wf(),
        forall|i: int| 0 <= i < matters@.len() ==> (#[trigger] matters@[i]).wf(),
    ensures
        ({
            let work = spec_work_gate(*day, *config);
            let plan_m = spec_materialize(tasks@, matters@, old(ledger)@, *day);
            &&& plan.in_work_hours == work
            &&& !work ==> final(ledger)@ == old(ledger)@ && plan.created@.len() == 0
                && plan.notifications@.len() == 0 && plan.records@.len() == 0
                && !plan.reload_timeline && !plan.stamp_upcoming && !plan.stamp_no_task
            &&& work ==> {
                &&& final(ledger)@ == plan_m.1
                &&& plan.created@.len() == plan_m.0.len()
                &&& forall|i: int|
                    0 <= i < plan.created@.len() ==> {
                        let tr = spec_time_range(plan_m.0[i].repeat_time@)->0;
                        created_matter_matches(
                            #[trigger] plan.created@[i],
                            plan_m.0[i],
                            *day,
                            tr.0,
                            tr.1,
                        )
                    }
                &&& plan.reload_timeline == (plan_m.0.len() > 0)
                &&& plan_m.0.len() > 0 ==> {
                    &&& plan.notifications@.len() == 1
                    &&& new_task_notification_matches(
                        plan.notifications@[0],
                        plan_m.0.len(),
                        day.now_rfc3339@,
                    )
                    &&& !plan.stamp_upcoming
                    &&& !plan.stamp_no_task
                }
                &&& plan_m.0.len() == 0 ==> {
                    &&& plan.stamp_upcoming == spec_rate_gate(
                        *upcoming_stamp,
                        day.midnight_utc as int,
                        day.now_utc as int,
                        UPCOMING_CHECK_MINUTES as int,
                    )
                    &&& plan.stamp_no_task == spec_rate_gate(
                        *no_task_stamp,
                        day.midnight_utc as int,
                        day.now_utc as int,
                        spec_no_task_interval(*no_task_interval_raw),
                    )
                    &&& {
                        let ups = if plan.stamp_upcoming {
                            spec_upcoming_list(
                                matters@,
                                day.now_utc as int,
                                config.notify_before as int,
                            )
                        } else {
                            Seq::<(NotificationType, int, Seq<char>)>::empty()
                        };
                        let idle = plan.stamp_no_task && spec_should_notify_no_tasks(
                            matters@,
                            day.now_utc as int,
                        );
                        &&& plan.notifications@.len() == ups.len() + (if idle {
                            1int
                        } else {
                            0int
                        })
                        &&& forall|i: int|
                            0 <= i < ups.len() ==> {
                                let p = ups[i];
                                notification_matches(
                                    #[trigger] plan.notifications@[i],
                                    p.0,
                                    p.1,
                                    p.2,
                                    day.now_rfc3339@,
                                )
                            }
                        &&& idle ==> no_task_notification_matches(
                            plan.notifications@[ups.len() as int],
                            day.now_rfc3339@,
                        )
                    }
                }
                &&& plan.records@.len() == plan.notifications@.len()
                &&& forall|i: int|
                    0 <= i < plan.records@.len() ==> record_matches(
                        #[trigger] plan.records@[i],
                        plan.notifications@[i],
                        day.now_utc as int,
                    )
            }
        }),
{
    let in_work: bool = match TimeUtils::is_in_work_hours(
        day.now_tod,
        config.work_start_time.as_str(),
        config.work_end_time.as_str(),
    ) {
        Some(b) => b,
        None => false,
    };
    if !in_work {
        return TickPlan {
            in_work_hours: false,
            created: Vec::new(),
            reload_timeline: false,
            notifications: Vec::new(),
            records: Vec::new(),
            stamp_upcoming: false,
            stamp_no_task: false,
        };
    }
    let created: Vec<Matter> = check_repeat_tasks(tasks, matters, ledger, day);
    let mut notifications: Vec<Notification> = Vec::new();
    let mut records: Vec<NotificationRecord> = Vec::new();
    if created.len() > 0 {
        let notification: Notification = new_task_notification(created.len(), day);
        let rec: NotificationRecord = create_notification_record(&notification, day.now_utc);
        notifications.push(notification);
        records.push(rec);
        return TickPlan {
            in_work_hours: true,
            created,
            reload_timeline: true,
            notifications,
            records,
            stamp_upcoming: false,
            stamp_no_task: false,
        };
    }
    let stamp_upcoming: bool = rate_gate_passes(upcoming_stamp, day, UPCOMING_CHECK_MINUTES);
    if stamp_upcoming {
        let ups: Vec<Notification> = NotificationHandler::check_upcoming_tasks(
            day,
            matters,
            config,
        );
        let count: usize = ups.len();
        let mut i: usize = 0;
        while i < count
            invariant
                i <= count,
                count == ups@.len(),
                records@.len() == i,
                forall|j: int|
                    0 <= j < i ==> record_matches(
                        #[trigger] records@[j],
                        ups@[j],
                        day.now_utc as int,
                    ),
            decreases count - i,
        {
            let rec: NotificationRecord = create_notification_record(&ups[i], day.now_utc);
            records.push(rec);
            i = i + 1;
        }
        notifications = ups;
    }
    let stamp_no_task: bool = rate_gate_passes(
        no_task_stamp,
        day,
        no_task_interval(no_task_interval_raw),
    );
    if stamp_no_task {
        if NotificationHandler::should_notify_no_tasks(day.now_utc, matters) {
            let notification: Notification = no_task_notification(day);
            let rec: NotificationRecord = create_notification_record(&notification, day.now_utc);
            notifications.push(notification);
            records.push(rec);
        }
    }
    TickPlan {
        in_work_hours: true,
        created,
        reload_timeline: false,
        notifications,
        records,
        stamp_upcoming,
        stamp_no_task,
    }
}

} // verus!
