use d9s::text::{decimal_text, signed_decimal_text};
use d9s::utils::{
    format_age, format_full_instant, format_full_timestamp, format_timestamp, get_status_style,
    is_truncatable, truncate, StatusStyle, FIRST_INSTANT, LAST_INSTANT,
};

#[test]
fn short_text_is_kept() {
    assert_eq!(truncate("hello", 10), "hello");
    assert_eq!(truncate("hello", 5), "hello");
    assert_eq!(truncate("", 0), "");
}

#[test]
fn long_text_is_cut_and_marked() {
    assert_eq!(truncate("hello world", 8), "hello...");
    assert_eq!(truncate("hello world", 10), "hello w...");
    assert_eq!(truncate("abcd", 3), "...");
    let name = "a".repeat(60);
    assert_eq!(truncate(&name, 50), format!("{}...", "a".repeat(47)));
}

#[test]
fn the_cut_counts_bytes() {
    // "é" takes two bytes: six bytes in all, cut after the first three
    assert_eq!(truncate("aéébc", 6), "aé...");
    assert_eq!(truncate("ééé", 6), "ééé");
}

#[test]
fn truncatable_texts() {
    assert!(is_truncatable("hello", 10));
    assert!(is_truncatable("hello world", 8));
    assert!(is_truncatable("aéébc", 6));
    // too long for two bytes, and no room for the dots
    assert!(!is_truncatable("hello", 2));
    // the cut would fall inside "é"
    assert!(!is_truncatable("aaéaaaa", 6));
    assert!(is_truncatable("aaéaaaa", 7));
}

#[test]
fn status_colours() {
    assert_eq!(get_status_style("SUCCESS"), StatusStyle::Green);
    assert_eq!(get_status_style("FAILURE"), StatusStyle::Red);
    assert_eq!(get_status_style("STARTED"), StatusStyle::Blue);
    assert_eq!(get_status_style("STARTING"), StatusStyle::Blue);
    assert_eq!(get_status_style("QUEUED"), StatusStyle::Yellow);
    assert_eq!(get_status_style("CANCELED"), StatusStyle::DarkGray);
    assert_eq!(get_status_style("CANCELING"), StatusStyle::Plain);
    assert_eq!(get_status_style("success"), StatusStyle::Plain);
    assert_eq!(get_status_style(""), StatusStyle::Plain);
}

#[test]
fn status_colour_ignores_quotes() {
    assert_eq!(get_status_style("\"SUCCESS\""), StatusStyle::Green);
    assert_eq!(get_status_style("\"\"FAILURE\""), StatusStyle::Red);
    assert_eq!(get_status_style("\"QUEUED"), StatusStyle::Yellow);
    assert_eq!(get_status_style("SUC\"CESS"), StatusStyle::Plain);
}

const T: i64 = 1_431_648_000; // 2015-05-15 00:00:00 UTC

#[test]
fn a_run_that_has_not_started_shows_a_dash() {
    assert_eq!(format_timestamp(None, T), "-");
}

#[test]
fn a_recent_start_shows_its_age() {
    assert_eq!(format_timestamp(Some(T), T), "1 second(s) ago");
    assert_eq!(format_timestamp(Some(T), T + 1), "1 second(s) ago");
    assert_eq!(format_timestamp(Some(T), T + 59), "59 second(s) ago");
    assert_eq!(format_timestamp(Some(T), T + 60), "1 minute(s) ago");
    assert_eq!(format_timestamp(Some(T), T + 3599), "59 minute(s) ago");
    assert_eq!(format_timestamp(Some(T), T + 3600), "1 hour(s) ago");
    assert_eq!(format_timestamp(Some(T), T + 86399), "23 hour(s) ago");
}

#[test]
fn an_old_or_future_start_shows_its_date() {
    assert_eq!(format_timestamp(Some(T), T + 86400), "2015-05-15 00:00:00");
    assert_eq!(format_timestamp(Some(T), T - 1), "2015-05-15 00:00:00");
    assert_eq!(format_timestamp(Some(T + 3661), T + 10 * 86400), "2015-05-15 01:01:01");
    assert_eq!(format_timestamp(Some(0), T), "1970-01-01 00:00:00");
    assert_eq!(format_timestamp(Some(-1), T), "1969-12-31 23:59:59");
}

#[test]
fn a_timestamp_beyond_the_calendar_counts_as_the_epoch() {
    assert_eq!(format_timestamp(Some(i64::MAX), T), "1970-01-01 00:00:00");
    assert_eq!(format_timestamp(Some(i64::MIN), T), "1970-01-01 00:00:00");
    // seen from one hour after the epoch, the epoch is an hour ago
    assert_eq!(format_timestamp(Some(i64::MAX), 3600), "1 hour(s) ago");
    assert_eq!(format_timestamp(Some(i64::MIN), i64::MAX), "1970-01-01 00:00:00");
}

#[test]
fn ages() {
    assert_eq!(format_age(0), "0 second(s) ago");
    assert_eq!(format_age(59), "59 second(s) ago");
    assert_eq!(format_age(-5), "-5 second(s) ago");
    assert_eq!(format_age(-100_000), "-100000 second(s) ago");
    assert_eq!(format_age(60), "1 minute(s) ago");
    assert_eq!(format_age(3599), "59 minute(s) ago");
    assert_eq!(format_age(3600), "1 hour(s) ago");
    assert_eq!(format_age(86399), "23 hour(s) ago");
    assert_eq!(format_age(86400), "1 day(s) ago");
    assert_eq!(format_age(10 * 86400 + 5), "10 day(s) ago");
}

#[test]
fn a_timestamp_in_full() {
    assert_eq!(format_full_timestamp(None, T), "Not started");
    assert_eq!(
        format_full_instant("2015-05-15 02:00:00 +02:00", "00:00:00 UTC", T, T + 7200),
        "2015-05-15 02:00:00 +02:00 (00:00:00 UTC - 2 hour(s) ago)"
    );
    let shown = format_full_timestamp(Some(T + 3661), T + 3661 + 2 * 86400);
    assert!(shown.ends_with(" (01:01:01 UTC - 2 day(s) ago)"), "{}", shown);
    assert!(shown.starts_with("2015-05-1"), "{}", shown);
    let future = format_full_timestamp(Some(T), T - 30);
    assert!(future.ends_with(" (00:00:00 UTC - -30 second(s) ago)"), "{}", future);
}

#[test]
fn signed_numbers() {
    assert_eq!(signed_decimal_text(0), "0");
    assert_eq!(signed_decimal_text(-1), "-1");
    assert_eq!(signed_decimal_text(i128::MIN), i128::MIN.to_string());
    assert_eq!(signed_decimal_text(i128::MAX), i128::MAX.to_string());
    assert_eq!(decimal_text(u128::MAX), u128::MAX.to_string());
}

#[test]
fn the_calendar_ends_where_its_years_end() {
    let first = FIRST_INSTANT;
    let last = LAST_INSTANT;
    assert_eq!(first, -8_334_601_228_800);
    assert_eq!(last, 8_210_266_876_799);
    // inside the calendar a timestamp is its own instant
    assert_eq!(format_timestamp(Some(first), first + 30), "30 second(s) ago");
    assert_eq!(format_timestamp(Some(last), last), "1 second(s) ago");
    assert_eq!(format_timestamp(Some(last - 7200), last), "2 hour(s) ago");
    assert_eq!(format_timestamp(Some(first), first - 1), "-262143-01-01 00:00:00");
    assert_eq!(format_timestamp(Some(last), 0), "+262142-12-31 23:59:59");
    // outside it counts as the epoch
    assert_eq!(format_timestamp(Some(first - 1), first + 29), "1970-01-01 00:00:00");
    assert_eq!(format_timestamp(Some(first - 1), 3600), "1 hour(s) ago");
    assert_eq!(format_timestamp(Some(last + 1), last + 1), "1970-01-01 00:00:00");
    assert_eq!(format_timestamp(Some(last + 1), 60), "1 minute(s) ago");
}

#[test]
fn the_age_of_a_start_thirty_seconds_back() {
    assert_eq!(format_timestamp(Some(1_700_000_000), 1_700_000_030), "30 second(s) ago");
}
