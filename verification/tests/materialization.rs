use fates_core::calendar::{CivilDate, DayContext};
use fates_core::materializer::{check_repeat_tasks, IdempotencyLedger};
use fates_core::records::{Matter, RepeatTask};
use fates_core::time_window::TimeOfDay;

fn task(id: &str, repeat_time: &str) -> RepeatTask {
    RepeatTask {
        id: String::from(id),
        title: String::from("Stand-up"),
        tags: None,
        repeat_time: String::from(repeat_time),
        status: 1,
        created_at: 0,
        updated_at: 0,
        priority: 0,
        description: None,
    }
}

fn wednesday() -> DayContext {
    DayContext {
        date: CivilDate::new(2024, 12, 25).unwrap(),
        now_utc: 1_000_000,
        midnight_utc: 990_000,
        now_tod: TimeOfDay { secs: 8 * 3600 },
        now_rfc3339: String::from("2024-12-25T08:00:00+08:00"),
    }
}

#[test]
fn materializes_one_occurrence_per_active_rule() {
    let tasks = vec![task("a", "127|09:00|10:00"), task("b", "8|14:00|15:00")];
    let matters: Vec<Matter> = Vec::new();
    let mut ledger = IdempotencyLedger::new();
    let day = wednesday();
    let created = check_repeat_tasks(&tasks, &matters, &mut ledger, &day);
    assert_eq!(created.len(), 2);
    assert_eq!(created[0].reserved_2.as_deref(), Some("a"));
    assert_eq!(created[0].start_time, 990_000 + 9 * 3600);
    assert_eq!(created[0].end_time, 990_000 + 10 * 3600);
    assert_eq!(created[1].reserved_2.as_deref(), Some("b"));
    assert_eq!(created[1].start_time, 990_000 + 14 * 3600);
    assert!(created[0].id != created[1].id);
    assert!(ledger.contains(&String::from("a"), &day.date));
    assert!(ledger.contains(&String::from("b"), &day.date));
}

#[test]
fn second_pass_is_a_no_op() {
    let tasks = vec![task("a", "127|09:00|10:00")];
    let matters: Vec<Matter> = Vec::new();
    let mut ledger = IdempotencyLedger::new();
    let day = wednesday();
    let created = check_repeat_tasks(&tasks, &matters, &mut ledger, &day);
    assert_eq!(created.len(), 1);
    // same day, repository now holding the new occurrence
    let mut timeline = matters.clone();
    timeline.extend(created);
    let again = check_repeat_tasks(&tasks, &timeline, &mut ledger, &day);
    assert_eq!(again.len(), 0);
}

#[test]
fn timeline_back_reference_alone_blocks_creation() {
    // even with an empty ledger, an occurrence of the rule already on
    // today's timeline prevents a duplicate
    let tasks = vec![task("a", "127|09:00|10:00")];
    let day = wednesday();
    let mut ledger = IdempotencyLedger::new();
    let mut first_ledger = IdempotencyLedger::new();
    let first = check_repeat_tasks(&tasks, &Vec::new(), &mut first_ledger, &day);
    let again = check_repeat_tasks(&tasks, &first, &mut ledger, &day);
    assert_eq!(again.len(), 0);
    // the guard reads the back-reference, so it must match the rule
    let other = vec![task("b", "127|09:00|10:00")];
    let mut other_ledger = IdempotencyLedger::new();
    let created = check_repeat_tasks(&other, &first, &mut other_ledger, &day);
    assert_eq!(created.len(), 1);
}

#[test]
fn marker_alone_blocks_creation() {
    // a marker left by an earlier run on this day blocks the rule
    // even when the timeline snapshot is empty
    let tasks = vec![task("a", "127|09:00|10:00")];
    let day = wednesday();
    let mut ledger = IdempotencyLedger::new();
    ledger.mark(String::from("a"), day.date);
    let created = check_repeat_tasks(&tasks, &Vec::new(), &mut ledger, &day);
    assert_eq!(created.len(), 0);
    // the marker is keyed by rule and date: another date does not count
    let mut fresh = IdempotencyLedger::new();
    fresh.mark(String::from("a"), CivilDate::new(2024, 12, 24).unwrap());
    let created = check_repeat_tasks(&tasks, &Vec::new(), &mut fresh, &day);
    assert_eq!(created.len(), 1);
}

#[test]
fn inactive_and_malformed_rules_create_nothing() {
    // Sunday-only mask, malformed mask, malformed time
    let tasks = vec![
        task("a", "1|09:00|10:00"),
        task("b", "abc|09:00|10:00"),
        task("c", "127|9:00|10:00"),
    ];
    let day = wednesday();
    let mut ledger = IdempotencyLedger::new();
    let created = check_repeat_tasks(&tasks, &Vec::new(), &mut ledger, &day);
    assert_eq!(created.len(), 0);
    assert!(!ledger.contains(&String::from("a"), &day.date));
    assert!(!ledger.contains(&String::from("b"), &day.date));
    assert!(!ledger.contains(&String::from("c"), &day.date));
}

#[test]
fn reversed_range_never_materializes() {
    // an occurrence must not end before it starts
    let tasks = vec![task("a", "127|10:00|09:00")];
    let day = wednesday();
    let mut ledger = IdempotencyLedger::new();
    let created = check_repeat_tasks(&tasks, &Vec::new(), &mut ledger, &day);
    assert_eq!(created.len(), 0);
    assert!(!ledger.contains(&String::from("a"), &day.date));
}

#[test]
fn duplicate_task_ids_create_once() {
    let tasks = vec![task("a", "127|09:00|10:00"), task("a", "127|11:00|12:00")];
    let day = wednesday();
    let mut ledger = IdempotencyLedger::new();
    let created = check_repeat_tasks(&tasks, &Vec::new(), &mut ledger, &day);
    assert_eq!(created.len(), 1);
    assert_eq!(created[0].start_time, 990_000 + 9 * 3600);
}

#[test]
fn ledger_membership() {
    let mut ledger = IdempotencyLedger::new();
    let d1 = CivilDate::new(2024, 12, 25).unwrap();
    let d2 = CivilDate::new(2024, 12, 26).unwrap();
    assert!(!ledger.contains(&String::from("a"), &d1));
    ledger.mark(String::from("a"), d1);
    assert!(ledger.contains(&String::from("a"), &d1));
    assert!(!ledger.contains(&String::from("a"), &d2));
    assert!(!ledger.contains(&String::from("b"), &d1));
}
