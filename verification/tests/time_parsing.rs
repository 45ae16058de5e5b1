use fates_core::decimal::{parse_i32, parse_i64, parse_u64, u64_to_string};
use fates_core::time_window::{TimeOfDay, TimeUtils};

#[test]
fn parse_time_accepts_clock_times() {
    assert_eq!(TimeUtils::parse_time("00:00").unwrap().secs, 0);
    assert_eq!(TimeUtils::parse_time("09:30").unwrap().secs, 9 * 3600 + 30 * 60);
    assert_eq!(TimeUtils::parse_time("23:59").unwrap().secs, 23 * 3600 + 59 * 60);
}

#[test]
fn parse_time_normalizes_midnight_end() {
    // "24:00" is read as 23:59
    assert_eq!(TimeUtils::parse_time("24:00").unwrap().secs, 23 * 3600 + 59 * 60);
}

#[test]
fn parse_time_rejects_malformed_strings() {
    assert!(TimeUtils::parse_time("").is_none());
    assert!(TimeUtils::parse_time("9:30").is_none());
    assert!(TimeUtils::parse_time("0930").is_none());
    assert!(TimeUtils::parse_time("ab:cd").is_none());
    assert!(TimeUtils::parse_time("09:60").is_none());
    assert!(TimeUtils::parse_time("24:01").is_none());
    assert!(TimeUtils::parse_time("25:00").is_none());
    assert!(TimeUtils::parse_time("09:301").is_none());
}

#[test]
fn work_hours_ordinary_window() {
    let t = |h: u32, m: u32, s: u32| TimeOfDay::from_hms(h, m, s);
    assert_eq!(TimeUtils::is_in_work_hours(t(8, 59, 59), "09:00", "18:00"), Some(false));
    assert_eq!(TimeUtils::is_in_work_hours(t(9, 0, 0), "09:00", "18:00"), Some(true));
    assert_eq!(TimeUtils::is_in_work_hours(t(12, 30, 0), "09:00", "18:00"), Some(true));
    assert_eq!(TimeUtils::is_in_work_hours(t(18, 0, 0), "09:00", "18:00"), Some(true));
    // one second past the end of the window
    assert_eq!(TimeUtils::is_in_work_hours(t(18, 0, 1), "09:00", "18:00"), Some(false));
}

#[test]
fn work_hours_open_ended_window() {
    // an end of "24:00" keeps the window open past its start
    let t = |h: u32, m: u32, s: u32| TimeOfDay::from_hms(h, m, s);
    assert_eq!(TimeUtils::is_in_work_hours(t(0, 0, 59), "00:01", "24:00"), Some(false));
    assert_eq!(TimeUtils::is_in_work_hours(t(0, 1, 0), "00:01", "24:00"), Some(true));
    assert_eq!(TimeUtils::is_in_work_hours(t(12, 0, 0), "00:01", "24:00"), Some(true));
    assert_eq!(TimeUtils::is_in_work_hours(t(23, 59, 59), "00:01", "24:00"), Some(true));
    // a literal end of "23:59" behaves the same way
    assert_eq!(TimeUtils::is_in_work_hours(t(23, 59, 59), "00:01", "23:59"), Some(true));
}

#[test]
fn work_hours_invalid_configuration() {
    let noon = TimeOfDay { secs: 12 * 3600 };
    assert_eq!(TimeUtils::is_in_work_hours(noon, "nine", "18:00"), None);
    assert_eq!(TimeUtils::is_in_work_hours(noon, "09:00", "late"), None);
}

#[test]
fn parse_i64_reads_signed_decimals() {
    assert_eq!(parse_i64("0"), Some(0));
    assert_eq!(parse_i64("127"), Some(127));
    assert_eq!(parse_i64("+42"), Some(42));
    assert_eq!(parse_i64("-15"), Some(-15));
    assert_eq!(parse_i64("007"), Some(7));
    assert_eq!(parse_i64("9223372036854775807"), Some(i64::MAX));
    assert_eq!(parse_i64("-9223372036854775808"), Some(i64::MIN));
}

#[test]
fn parse_i64_rejects_everything_else() {
    assert_eq!(parse_i64(""), None);
    assert_eq!(parse_i64("+"), None);
    assert_eq!(parse_i64("-"), None);
    assert_eq!(parse_i64("12x"), None);
    assert_eq!(parse_i64(" 12"), None);
    assert_eq!(parse_i64("1.5"), None);
    assert_eq!(parse_i64("9223372036854775808"), None);
    assert_eq!(parse_i64("-9223372036854775809"), None);
}

#[test]
fn parse_u64_reads_unsigned_decimals() {
    assert_eq!(parse_u64("0"), Some(0));
    assert_eq!(parse_u64("120"), Some(120));
    assert_eq!(parse_u64("+120"), Some(120));
    assert_eq!(parse_u64("18446744073709551615"), Some(u64::MAX));
    assert_eq!(parse_u64("18446744073709551616"), None);
    assert_eq!(parse_u64("-1"), None);
    assert_eq!(parse_u64(""), None);
}

#[test]
fn parse_i32_respects_its_range() {
    assert_eq!(parse_i32("2147483647"), Some(i32::MAX));
    assert_eq!(parse_i32("-2147483648"), Some(i32::MIN));
    assert_eq!(parse_i32("2147483648"), None);
    assert_eq!(parse_i32("abc"), None);
}

#[test]
fn u64_to_string_renders_decimals() {
    assert_eq!(u64_to_string(0).as_str(), "0");
    assert_eq!(u64_to_string(7).as_str(), "7");
    assert_eq!(u64_to_string(10).as_str(), "10");
    assert_eq!(u64_to_string(1234567890).as_str(), "1234567890");
    assert_eq!(u64_to_string(u64::MAX).as_str(), "18446744073709551615");
}
