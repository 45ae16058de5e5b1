//! Notification evaluation: which notifications the occurrences on
//! today's timeline call for at a given moment. An occurrence about
//! to end outranks its own start window — for a task shorter than the
//! notice window both would fire, and only the ending-soon
//! notification may — and an idle check asks for a "plan something"
//! notification when nothing is near.

use vstd::prelude::*;
use crate::calendar::{DayContext, INSTANT_BOUND};
use crate::decimal::{dec_str, u64_to_string};
use crate::models::{Notification, NotificationConfig, NotificationType};
use crate::records::{new_uuid_string, Matter};

verus! {

/// Whole minutes of a signed difference in seconds, truncated toward
/// zero.
pub open spec fn minutes_of(diff: int) -> int {
    if diff >= 0 {
        diff / 60
    } else {
        -((-diff) / 60)
    }
}

/// Whole minutes from `b` to `a`, truncated toward zero.
pub(crate) fn minutes_between(a: i64, b: i64) -> (r: i64)
    requires
        i64::MIN < a - b <= i64::MAX,
    ensures
        r == minutes_of(a - b),
{
    let diff: i64 = a - b;
    if diff >= 0 {
        ((diff as u64) / 60) as i64
    } else {
        -(((-diff) as u64 / 60) as i64)
    }
}

/// The notification one occurrence calls for at `now`: its kind and
/// the whole minutes until the event, or `None` while the occurrence
/// is outside both windows or already over. The end check runs
/// first, so an occurrence in both windows yields only the
/// ending-soon notification.
pub open spec fn spec_upcoming_kind(m: Matter, now: int, before: int) -> Option<
    (NotificationType, int),
> {
    let to_end = minutes_of(m.end_time - now);
    let to_start = minutes_of(m.start_time - now);
    if 0 < to_end <= before {
        Some((NotificationType::TaskEnd, to_end))
    } else if 0 <= to_start <= before {
        Some((NotificationType::TaskStart, to_start))
    } else {
        None
    }
}

/// The notifications a timeline calls for, in timeline order: kind,
/// minutes until the event, and the occurrence's title.
pub open spec fn spec_upcoming_list(matters: Seq<Matter>, now: int, before: int) -> Seq<
    (NotificationType, int, Seq<char>),
>
    decreases matters.len(),
{
    if matters.len() == 0 {
        Seq::<(NotificationType, int, Seq<char>)>::empty()
    } else {
        let head = match spec_upcoming_kind(matters[0], now, before) {
            Some(t) => seq![(t.0, t.1, matters[0].title@)],
            None => Seq::<(NotificationType, int, Seq<char>)>::empty(),
        };
        head + spec_upcoming_list(matters.drop_first(), now, before)
    }
}

/// The body of an ending-soon notification.
pub open spec fn spec_end_message(title: Seq<char>, minutes: int) -> Seq<char> {
    "Task \""@ + title + "\" ends in "@ + dec_str(minutes as nat) + " minutes"@
}

/// The body of a starting-soon notification.
pub open spec fn spec_start_message(title: Seq<char>, minutes: int) -> Seq<char> {
    "Task \""@ + title + "\" starts in "@ + dec_str(minutes as nat) + " minutes"@
}

fn end_message(title: &String, minutes: i64) -> (r: String)
    requires
        0 <= minutes,
    ensures
        r@ == spec_end_message(title@, minutes as int),
{
    let mut s = String::from_str("Task \"");
    s.append(title.as_str());
    s.append("\" ends in ");
    let count: String = u64_to_string(minutes as u64);
    s.append(count.as_str());
    s.append(" minutes");
    s
}

fn start_message(title: &String, minutes: i64) -> (r: String)
    requires
        0 <= minutes,
    ensures
        r@ == spec_start_message(title@, minutes as int),
{
    let mut s = String::from_str("Task \"");
    s.append(title.as_str());
    s.append("\" starts in ");
    let count: String = u64_to_string(minutes as u64);
    s.append(count.as_str());
    s.append(" minutes");
    s
}

/// How an emitted notification realizes one planned entry: a fresh
/// identifier, the planned kind, the shared timestamp, and the title
/// and message of that kind.
pub open spec fn notification_matches(
    n: Notification,
    kind: NotificationType,
    minutes: int,
    title: Seq<char>,
    stamp: Seq<char>,
) -> bool {
    &&& n.id@.len() == 36
    &&& n.notification_type == kind
    &&& n.timestamp@ == stamp
    &&& (kind == NotificationType::TaskEnd ==> n.title@ == "Task ending soon"@ && n.message@
        == spec_end_message(title, minutes))
    &&& (kind == NotificationType::TaskStart ==> n.title@ == "Task starting soon"@ && n.message@
        == spec_start_message(title, minutes))
}

/// An occurrence that starts within the next two hours or spans `now`
/// — what suppresses the idle notification.
pub open spec fn spec_task_near(m: Matter, now: int) -> bool {
    (now <= m.start_time <= now + 7200) || (m.start_time <= now <= m.end_time)
}

/// The idle check: a "plan something" notification is called for
/// exactly when no occurrence starts within the next two hours and
/// none spans `now`.
pub open spec fn spec_should_notify_no_tasks(matters: Seq<Matter>, now: int) -> bool {
    !(exists|i: int| 0 <= i < matters.len() && spec_task_near(#[trigger] matters[i], now))
}

/// Evaluation of a timeline against the moment of a tick.
pub struct NotificationHandler;

impl NotificationHandler {
    /// Computes the upcoming-task notifications the timeline calls
    /// for at the moment of `day`, in timeline order: for each
    /// occurrence at most one, the ending-soon check first.
    pub fn check_upcoming_tasks(
        day: &DayContext,
        matters: &Vec<Matter>,
        config: &NotificationConfig,
    ) -> (r: Vec<Notification>)
        requires
            day.wf(),
            forall|i: int| 0 <= i < matters@.len() ==> (#[trigger] matters@[i]).wf(),
        ensures
            ({
                let plan = spec_upcoming_list(
                    matters@,
                    day.now_utc as int,
                    config.notify_before as int,
                );
                &&& r@.len() == plan.len()
                &&& forall|i: int|
                    0 <= i < r@.len() ==> {
                        let p = plan[i];
                        notification_matches(#[trigger] r@[i], p.0, p.1, p.2, day.now_rfc3339@)
                    }
            }),
    {
        let ghost full = spec_upcoming_list(matters@, day.now_utc as int, config.notify_before as int);
        let ghost mut done: Seq<(NotificationType, int, Seq<char>)> = Seq::empty();
        let mut r: Vec<Notification> = Vec::new();
        let n: usize = matters.len();
        let mut idx: usize = 0;
        proof {
            assert(matters@.skip(0) =~= matters@);
        }
        while idx < n
            invariant
                idx <= n,
                n == matters@.len(),
                day.wf(),
                forall|i: int| 0 <= i < matters@.len() ==> (#[trigger] matters@[i]).wf(),
                full == spec_upcoming_list(matters@, day.now_utc as int, config.notify_before as int),
                full == done + spec_upcoming_list(
                    matters@.skip(idx as int),
                    day.now_utc as int,
                    config.notify_before as int,
                ),
                r@.len() == done.len(),
                forall|i: int|
                    0 <= i < r@.len() ==> {
                        let p = done[i];
                        notification_matches(#[trigger] r@[i], p.0, p.1, p.2, day.now_rfc3339@)
                    },
            decreases n - idx,
        {
            let m: &Matter = &matters[idx];
            proof {
                assert(matters@.skip(idx as int)[0] == matters@[idx as int]);
                assert(matters@.skip(idx as int).drop_first() =~= matters@.skip(idx as int + 1));
            }
            let to_end: i64 = minutes_between(m.end_time, day.now_utc);
            if to_end <= config.notify_before && to_end > 0 {
                let message: String = end_message(&m.title, to_end);
                let notification = Notification {
                    id: new_uuid_string(),
                    title: String::from_str("Task ending soon"),
                    message,
                    timestamp: day.now_rfc3339.clone(),
                    notification_type: NotificationType::TaskEnd,
                };
                r.push(notification);
                proof {
                    done = done + seq![
                        (NotificationType::TaskEnd, to_end as int, matters@[idx as int].title@),
                    ];
                }
            } else {
                let to_start: i64 = minutes_between(m.start_time, day.now_utc);
                if to_start <= config.notify_before && to_start >= 0 {
                    let message: String = start_message(&m.title, to_start);
                    let notification = Notification {
                        id: new_uuid_string(),
                        title: String::from_str("Task starting soon"),
                        message,
                        timestamp: day.now_rfc3339.clone(),
                        notification_type: NotificationType::TaskStart,
                    };
                    r.push(notification);
                    proof {
                        done = done + seq![
                            (
                                NotificationType::TaskStart,
                                to_start as int,
                                matters@[idx as int].title@,
                            ),
                        ];
                    }
                }
            }
            idx = idx + 1;
        }
        proof {
            assert(matters@.skip(n as int) =~= Seq::<Matter>::empty());
        }
        r
    }

    /// The idle check: true exactly when no occurrence starts within
    /// the next two hours and none spans `now`.
    pub fn should_notify_no_tasks(now_utc: i64, matters: &Vec<Matter>) -> (r: bool)
        requires
            -INSTANT_BOUND <= now_utc <= INSTANT_BOUND,
        ensures
            r == spec_should_notify_no_tasks(matters@, now_utc as int),
    {
        let future: i64 = now_utc + 7200;
        let n: usize = matters.len();
        let mut i: usize = 0;
        while i < n
            invariant
                i <= n,
                n == matters@.len(),
                future == now_utc + 7200,
                forall|j: int|
                    0 <= j < i ==> !spec_task_near(#[trigger] matters@[j], now_utc as int),
            decreases n - i,
        {
            let m: &Matter = &matters[i];
            if (m.start_time >= now_utc && m.start_time <= future) || (m.start_time <= now_utc
                && m.end_time >= now_utc) {
                assert(spec_task_near(matters@[i as int], now_utc as int));
                return false;
            }
            i = i + 1;
        }
        true
    }
}

/// Ending-soon outranks starting-soon: whenever an occurrence's end
/// lies in the notice window — as it always does for a task whose
/// whole duration fits in that window — the one notification it
/// yields is the ending-soon one, never both. That each occurrence
/// yields at most one notification per evaluation is already the
/// shape of `spec_upcoming_kind`.
pub proof fn lemma_end_takes_priority(m: Matter, now: int, before: int)
    requires
        0 < minutes_of(m.end_time - now) <= before,
    ensures
        spec_upcoming_kind(m, now, before) matches Some(t) && t.0 == NotificationType::TaskEnd,
{
}

/// With no occurrences at all, the idle check asks for a "plan
/// something" notification.
pub proof fn lemma_no_tasks_on_empty_timeline(now: int)
    ensures
        spec_should_notify_no_tasks(Seq::<Matter>::empty(), now),
{
}

/// One occurrence spanning `now` suppresses the idle notification.
pub proof fn lemma_spanning_task_suppresses_idle(matters: Seq<Matter>, i: int, now: int)
    requires
        0 <= i < matters.len(),
        matters[i].start_time <= now <= matters[i].end_time,
    ensures
        !spec_should_notify_no_tasks(matters, now),
{
    assert(spec_task_near(matters[i], now));
}

} // verus!
