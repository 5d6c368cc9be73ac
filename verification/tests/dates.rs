use std::time::{Duration, SystemTime};

use linear_cli::clock::{epoch_seconds, unix_now};
use linear_cli::dates::{elapsed_label, format_relative_at, DAY_FORMAT, MINUTE_FORMAT};
use linear_cli::output::{format_date, format_date_only, format_relative};

const NEW_YEAR: u64 = 1_704_067_200;

#[test]
fn seconds_of_an_answer_of_the_clock() {
    assert_eq!(epoch_seconds(Ok(Duration::from_secs(90))), 90);
    assert_eq!(epoch_seconds(Ok(Duration::new(5, 999_999_999))), 5);
    assert_eq!(epoch_seconds(Ok(Duration::ZERO)), 0);
    assert_eq!(epoch_seconds(Ok(Duration::MAX)), u64::MAX);
    let later = SystemTime::UNIX_EPOCH + Duration::from_secs(10);
    let before_the_epoch = SystemTime::UNIX_EPOCH.duration_since(later);
    assert!(before_the_epoch.is_err());
    assert_eq!(epoch_seconds(before_the_epoch), 0);
    let since = later.duration_since(SystemTime::UNIX_EPOCH);
    assert_eq!(epoch_seconds(since), 10);
}

#[test]
fn the_clock_runs() {
    let a = unix_now();
    let b = unix_now();
    assert!(a > 1_600_000_000);
    assert!(a <= b);
}

#[test]
fn formats() {
    assert_eq!(DAY_FORMAT, "%Y-%m-%d");
    assert_eq!(MINUTE_FORMAT, "%Y-%m-%d %H:%M");
}

#[test]
fn date_only() {
    assert_eq!(format_date_only("2024-01-15T10:30:00Z"), "2024-01-15");
    assert_eq!(format_date_only("2024-01-15T10:30:00.123Z"), "2024-01-15");
    assert_eq!(format_date_only("2024-01-15 10:30:00Z"), "2024-01-15");
    // The day is that of the instant in UTC.
    assert_eq!(format_date_only("2024-01-15T23:30:00-02:00"), "2024-01-16");
    assert_eq!(format_date_only("2024-01-15T00:30:00+02:00"), "2024-01-14");
}

#[test]
fn date_only_of_what_is_no_time_stamp() {
    assert_eq!(format_date_only("2024-13-45T99:99:99Z"), "2024-13-45");
    assert_eq!(format_date_only("2024-01-15"), "2024-01-15");
    assert_eq!(format_date_only("yesterday"), "yesterday");
    assert_eq!(format_date_only("Tuesday"), "");
    assert_eq!(format_date_only(""), "");
}

#[test]
fn date_with_minutes() {
    let iso = "2024-01-15T10:30:00Z";
    assert_eq!(format_date(iso, None), "2024-01-15 10:30");
    assert_eq!(format_date("2024-01-15T23:45:10-02:00", None), "2024-01-16 01:45");
    assert_eq!(format_date(iso, Some("2024-01-15 11:30".to_string())), "2024-01-15 11:30");
    // A local form is shown only for what is a date and time.
    assert_eq!(format_date("not a dateTime", Some("2024-01-15 11:30".to_string())), "not a date");
    assert_eq!(format_date("not a dateTime", None), "not a date");
    assert_eq!(format_date("", None), "");
}

#[test]
fn elapsed_labels() {
    assert_eq!(elapsed_label(-5, "d"), "just now");
    assert_eq!(elapsed_label(0, "d"), "just now");
    assert_eq!(elapsed_label(59, "d"), "just now");
    assert_eq!(elapsed_label(60, "d"), "1 min ago");
    assert_eq!(elapsed_label(119, "d"), "1 min ago");
    assert_eq!(elapsed_label(120, "d"), "2 mins ago");
    assert_eq!(elapsed_label(3599, "d"), "59 mins ago");
    assert_eq!(elapsed_label(3600, "d"), "1 hour ago");
    assert_eq!(elapsed_label(7200, "d"), "2 hours ago");
    assert_eq!(elapsed_label(86399, "d"), "23 hours ago");
    assert_eq!(elapsed_label(86400, "d"), "1 day ago");
    assert_eq!(elapsed_label(2 * 86400, "d"), "2 days ago");
    assert_eq!(elapsed_label(30 * 86400 - 1, "d"), "29 days ago");
    assert_eq!(elapsed_label(30 * 86400, "d"), "d");
    assert_eq!(elapsed_label(i128::MAX, "d"), "d");
    assert_eq!(elapsed_label(i128::MIN, "d"), "just now");
}

#[test]
fn relative_to_a_given_time() {
    let iso = "2024-01-01T00:00:00Z";
    assert_eq!(format_relative_at(iso, NEW_YEAR), "just now");
    assert_eq!(format_relative_at(iso, NEW_YEAR - 100), "just now");
    assert_eq!(format_relative_at(iso, 0), "just now");
    assert_eq!(format_relative_at(iso, NEW_YEAR + 60), "1 min ago");
    assert_eq!(format_relative_at(iso, NEW_YEAR + 5 * 3600 + 59), "5 hours ago");
    assert_eq!(format_relative_at(iso, NEW_YEAR + 29 * 86400), "29 days ago");
    assert_eq!(format_relative_at(iso, NEW_YEAR + 30 * 86400), "2024-01-01");
    assert_eq!(format_relative_at(iso, u64::MAX), "2024-01-01");
    assert_eq!(format_relative_at("2024-01-01T01:00:00+01:00", NEW_YEAR + 120), "2 mins ago");
}

#[test]
fn relative_of_what_is_no_time_stamp() {
    assert_eq!(format_relative_at("soonTM", 5), "soon");
    assert_eq!(format_relative("soonTM"), "soon");
    assert_eq!(format_relative(""), "");
}

#[test]
fn relative_to_now() {
    assert_eq!(format_relative("2020-01-01T00:00:00Z"), "2020-01-01");
    assert_eq!(format_relative("2999-01-01T00:00:00Z"), "just now");
}
