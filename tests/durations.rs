use farm_monitor::duration::{elapsed_seconds, format_age, format_run_time, format_span, Timestamp};

fn at(secs: i64, nanos: u32) -> Timestamp {
    Timestamp { secs, nanos }
}

#[test]
fn zero_span_reads_zero_seconds() {
    assert_eq!(format_span(0), "0s");
}

#[test]
fn negative_span_reads_unknown() {
    assert_eq!(format_span(-1), "Unknown");
    assert_eq!(format_span(i64::MIN), "Unknown");
}

#[test]
fn span_text_uses_humantime() {
    assert_eq!(format_span(3725), "1h 2m 5s");
    assert_eq!(format_span(86400), "1day");
}

#[test]
fn elapsed_truncates_toward_zero() {
    assert_eq!(elapsed_seconds(&at(100, 0), &at(101, 999_999_999)), 1);
    assert_eq!(elapsed_seconds(&at(101, 500_000_000), &at(101, 0)), 0);
    assert_eq!(elapsed_seconds(&at(103, 0), &at(100, 500_000_000)), -2);
}

#[test]
fn age_of_future_creation_is_unknown() {
    assert_eq!(format_age(&at(2_000, 0), &at(1_000, 0)), "Unknown");
}

#[test]
fn age_and_run_time_are_repeatable() {
    let c = at(1_000, 0);
    let n = at(1_000 + 3 * 3600 + 12 * 60, 0);
    assert_eq!(format_age(&c, &n), "3h 12m");
    assert_eq!(format_age(&c, &n), format_age(&c, &n));
    assert_eq!(format_run_time(&c, &n), "3h 12m");
}

#[test]
fn run_time_backwards_is_unknown() {
    assert_eq!(format_run_time(&at(50, 0), &at(40, 0)), "Unknown");
}

#[test]
fn timestamp_from_parts_checks_range() {
    assert!(Timestamp::from_parts(0, 0).is_some());
    assert!(Timestamp::from_parts(0, 1_000_000_000).is_none());
    assert!(Timestamp::from_parts(i64::MAX, 0).is_none());
}

#[test]
fn backwards_by_under_a_second_is_unknown() {
    assert_eq!(format_age(&at(1_000, 500_000_000), &at(1_000, 0)), "Unknown");
    assert_eq!(format_run_time(&at(101, 500_000_000), &at(101, 0)), "Unknown");
    assert_eq!(format_run_time(&at(100, 0), &at(100, 999_999_999)), "0s");
    assert_eq!(format_age(&at(7, 3), &at(7, 3)), "0s");
}
