use fates_core::api::ApiResponse;
use fates_core::api::ServerError as ApiServerError;
use fates_core::error::ServerError as CoreServerError;
use fates_core::calendar::{CivilDate, DayContext};
use fates_core::materializer::IdempotencyLedger;
use fates_core::models::{NotificationConfig, NotificationType};
use fates_core::records::{Matter, RepeatTask};
use fates_core::scheduler::run_tick;
use fates_core::time_window::TimeOfDay;

fn task(id: &str, repeat_time: &str) -> RepeatTask {
    RepeatTask {
        id: String::from(id),
        title: String::from("Stand-up"),
        tags: None,
        repeat_time: String::from(repeat_time),
        status: 1,
        created_at: 0,
        updated_at: 0,
        priority: 0,
        description: None,
    }
}

fn matter(title: &str, start_time: i64, end_time: i64) -> Matter {
    Matter {
        id: String::from("m-1"),
        title: String::from(title),
        description: None,
        tags: None,
        start_time,
        end_time,
        priority: 0,
        type_: 0,
        created_at: 0,
        updated_at: 0,
        reserved_1: None,
        reserved_2: None,
        reserved_3: None,
        reserved_4: None,
        reserved_5: None,
    }
}

// 1,000,000 seconds past the epoch is 1970-01-12T13:46:40Z; the
// stamps below are written relative to that instant.
const NOW: i64 = 1_000_000;

fn wednesday() -> DayContext {
    DayContext {
        date: CivilDate::new(2024, 12, 25).unwrap(),
        now_utc: NOW,
        midnight_utc: 990_000,
        now_tod: TimeOfDay { secs: 9 * 3600 + 50 * 60 },
        now_rfc3339: String::from("2024-12-25T09:50:00+08:00"),
    }
}

fn all_day_config() -> NotificationConfig {
    NotificationConfig {
        work_start_time: String::from("00:01"),
        work_end_time: String::from("24:00"),
        check_interval: 1,
        notify_before: 15,
    }
}

#[test]
fn tick_abandoned_outside_work_hours() {
    let config = NotificationConfig {
        work_start_time: String::from("09:00"),
        work_end_time: String::from("18:00"),
        check_interval: 1,
        notify_before: 15,
    };
    let mut day = wednesday();
    day.now_tod = TimeOfDay { secs: 20 * 3600 };
    let tasks = vec![task("a", "127|09:00|10:00")];
    let mut ledger = IdempotencyLedger::new();
    let plan = run_tick(&config, &day, &tasks, &Vec::new(), &mut ledger, &None, &None, &None);
    assert!(!plan.in_work_hours);
    assert!(plan.created.is_empty());
    assert!(plan.notifications.is_empty());
    assert!(plan.records.is_empty());
    assert!(!plan.reload_timeline);
    assert!(!plan.stamp_upcoming);
    assert!(!plan.stamp_no_task);
    assert!(!ledger.contains(&String::from("a"), &day.date));
}

#[test]
fn materializing_tick_is_exclusive() {
    let day = wednesday();
    let tasks = vec![task("a", "8|09:00|10:00")];
    // this occurrence would fire an ending-soon notification, but a
    // materializing tick skips the checks
    let matters = vec![matter("Ongoing", NOW - 600, NOW + 600)];
    let mut ledger = IdempotencyLedger::new();
    let plan = run_tick(
        &all_day_config(),
        &day,
        &tasks,
        &matters,
        &mut ledger,
        &None,
        &None,
        &None,
    );
    assert!(plan.in_work_hours);
    assert_eq!(plan.created.len(), 1);
    assert_eq!(plan.created[0].reserved_2.as_deref(), Some("a"));
    assert_eq!(plan.created[0].start_time, 990_000 + 9 * 3600);
    assert!(plan.reload_timeline);
    assert_eq!(plan.notifications.len(), 1);
    assert!(matches!(plan.notifications[0].notification_type, NotificationType::NewTask));
    assert_eq!(plan.notifications[0].title, "New recurring tasks");
    assert_eq!(plan.notifications[0].message, "Created 1 new recurring tasks");
    assert_eq!(plan.records.len(), 1);
    assert_eq!(plan.records[0].type_, 3);
    assert!(!plan.stamp_upcoming);
    assert!(!plan.stamp_no_task);
    assert!(ledger.contains(&String::from("a"), &day.date));
}

#[test]
fn quiet_tick_emits_upcoming_notifications() {
    let day = wednesday();
    let matters = vec![matter("Wrap up", NOW - 3000, NOW + 600)];
    let mut ledger = IdempotencyLedger::new();
    let plan = run_tick(
        &all_day_config(),
        &day,
        &Vec::new(),
        &matters,
        &mut ledger,
        &None,
        &None,
        &None,
    );
    assert!(plan.in_work_hours);
    assert!(plan.created.is_empty());
    assert!(!plan.reload_timeline);
    // both limiters pass: the stamps default to local midnight,
    // 166 minutes ago
    assert!(plan.stamp_upcoming);
    assert!(plan.stamp_no_task);
    // the spanning occurrence suppresses the idle notification
    assert_eq!(plan.notifications.len(), 1);
    assert!(matches!(plan.notifications[0].notification_type, NotificationType::TaskEnd));
    assert_eq!(plan.notifications[0].message, "Task \"Wrap up\" ends in 10 minutes");
    assert_eq!(plan.records.len(), 1);
    assert_eq!(plan.records[0].type_, 2);
    assert_eq!(plan.records[0].content, "Task \"Wrap up\" ends in 10 minutes");
    assert_eq!(plan.records[0].title, plan.notifications[0].title);
    assert_eq!(plan.records[0].status, 0);
    assert_eq!(plan.records[0].created_at, NOW);
}

#[test]
fn empty_day_emits_idle_notification() {
    let day = wednesday();
    let mut ledger = IdempotencyLedger::new();
    let plan = run_tick(
        &all_day_config(),
        &day,
        &Vec::new(),
        &Vec::new(),
        &mut ledger,
        &None,
        &None,
        &None,
    );
    assert!(plan.stamp_upcoming);
    assert!(plan.stamp_no_task);
    assert_eq!(plan.notifications.len(), 1);
    assert!(matches!(plan.notifications[0].notification_type, NotificationType::NoTask));
    assert_eq!(plan.notifications[0].title, "No planned tasks");
    assert_eq!(plan.notifications[0].message, "Consider planning some tasks");
    assert_eq!(plan.records.len(), 1);
    assert_eq!(plan.records[0].type_, 0);
}

#[test]
fn fresh_upcoming_stamp_limits_the_check() {
    let day = wednesday();
    // stamped five minutes ago: the 15-minute limiter holds it back
    let stamp = Some(String::from("1970-01-12T13:41:40+00:00"));
    let matters = vec![matter("Wrap up", NOW - 3000, NOW + 600)];
    let mut ledger = IdempotencyLedger::new();
    let plan = run_tick(
        &all_day_config(),
        &day,
        &Vec::new(),
        &matters,
        &mut ledger,
        &stamp,
        &None,
        &None,
    );
    assert!(!plan.stamp_upcoming);
    assert!(plan.stamp_no_task);
    // no upcoming notification despite the task ending soon, and the
    // spanning occurrence suppresses the idle one
    assert!(plan.notifications.is_empty());
    assert!(plan.records.is_empty());
}

#[test]
fn stale_upcoming_stamp_frees_the_check() {
    let day = wednesday();
    // stamped sixteen minutes ago: one minute past the limiter
    let stamp = Some(String::from("1970-01-12T13:30:40+00:00"));
    let matters = vec![matter("Wrap up", NOW - 3000, NOW + 600)];
    let mut ledger = IdempotencyLedger::new();
    let plan = run_tick(
        &all_day_config(),
        &day,
        &Vec::new(),
        &matters,
        &mut ledger,
        &stamp,
        &None,
        &None,
    );
    assert!(plan.stamp_upcoming);
    assert_eq!(plan.notifications.len(), 1);
}

#[test]
fn unreadable_stamp_falls_back_to_midnight() {
    let day = wednesday();
    let stamp = Some(String::from("not a timestamp"));
    let mut ledger = IdempotencyLedger::new();
    let plan = run_tick(
        &all_day_config(),
        &day,
        &Vec::new(),
        &Vec::new(),
        &mut ledger,
        &stamp,
        &None,
        &None,
    );
    // midnight was 166 minutes ago, so the limiter opens
    assert!(plan.stamp_upcoming);
}

#[test]
fn no_task_interval_setting_holds_the_idle_check() {
    let day = wednesday();
    let mut ledger = IdempotencyLedger::new();
    // 166 minutes since midnight is under a 200-minute interval
    let plan = run_tick(
        &all_day_config(),
        &day,
        &Vec::new(),
        &Vec::new(),
        &mut ledger,
        &None,
        &None,
        &Some(String::from("200")),
    );
    assert!(!plan.stamp_no_task);
    assert!(plan.notifications.is_empty());
    // an unreadable interval falls back to 120 minutes
    let plan = run_tick(
        &all_day_config(),
        &day,
        &Vec::new(),
        &Vec::new(),
        &mut ledger,
        &None,
        &None,
        &Some(String::from("soon")),
    );
    assert!(plan.stamp_no_task);
    assert_eq!(plan.notifications.len(), 1);
}

#[test]
fn config_from_settings_defaults() {
    let config = NotificationConfig::from_settings(None, None, None);
    assert_eq!(config.work_start_time, "00:01");
    assert_eq!(config.work_end_time, "23:59");
    assert_eq!(config.check_interval, 1);
    assert_eq!(config.notify_before, 15);
}

#[test]
fn config_from_settings_reads_values() {
    let config = NotificationConfig::from_settings(
        Some(String::from("08:30")),
        Some(String::from("17:45")),
        Some(String::from("30")),
    );
    assert_eq!(config.work_start_time, "08:30");
    assert_eq!(config.work_end_time, "17:45");
    assert_eq!(config.notify_before, 30);
    // an unreadable notice value falls back to 15
    let config =
        NotificationConfig::from_settings(None, None, Some(String::from("soon")));
    assert_eq!(config.notify_before, 15);
}

#[test]
fn api_response_envelopes() {
    let ok: ApiResponse<i32> = ApiResponse::success(5);
    assert_eq!(ok.code, 200);
    assert_eq!(ok.msg, "success");
    assert_eq!(ok.data, Some(5));
    let err: ApiResponse<i32> = ApiResponse::error(404, "missing");
    assert_eq!(err.code, 404);
    assert_eq!(err.msg, "missing");
    assert_eq!(err.data, None);
}

#[test]
fn api_server_error_codes() {
    let e = ApiServerError::NotFound(String::from("no such task"));
    assert_eq!(e.status_code(), 404);
    let body = e.into_response_parts();
    assert_eq!(body.code, 404);
    assert_eq!(body.msg, "no such task");
    assert_eq!(ApiServerError::BadRequest(String::new()).status_code(), 400);
    assert_eq!(ApiServerError::DatabaseError(String::new()).status_code(), 500);
    assert_eq!(ApiServerError::StartupError(String::new()).status_code(), 500);
}

#[test]
fn server_error_messages() {
    let e = CoreServerError::StartupError(String::from("port in use"));
    assert_eq!(e.status_code(), 500);
    assert_eq!(e.message(), "Server startup failed: port in use");
    let e = CoreServerError::BadRequest(String::from("no id"));
    assert_eq!(e.status_code(), 400);
    assert_eq!(e.message(), "Invalid request: no id");
    let e = CoreServerError::NotFound(String::from("gone"));
    assert_eq!(e.status_code(), 404);
    assert_eq!(e.message(), "Resource not found: gone");
    let e = CoreServerError::DatabaseError(String::from("locked"));
    assert_eq!(e.status_code(), 500);
    assert_eq!(e.message(), "Database failure: locked");
}
