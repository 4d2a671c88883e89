use farm_monitor::progress::{eta_seconds, latest_alf_progress, parse_alf_progress};

#[test]
fn progress_line_with_percentage() {
    assert_eq!(parse_alf_progress("ALF_PROGRESS 57% done"), Some(57));
}

#[test]
fn progress_line_with_word_is_ignored() {
    assert_eq!(parse_alf_progress("ALF_PROGRESS abc%"), None);
}

#[test]
fn progress_above_hundred_is_capped() {
    assert_eq!(parse_alf_progress("ALF_PROGRESS 150%"), Some(100));
}

#[test]
fn progress_marker_must_open_the_line() {
    assert_eq!(parse_alf_progress("step ALF_PROGRESS 57%"), None);
    assert_eq!(parse_alf_progress("alf_progress 57%"), None);
    assert_eq!(parse_alf_progress("ALF_PROGRESSX 57%"), None);
    assert_eq!(parse_alf_progress("INFO ALF_PROGRESS 57%"), None);
    assert_eq!(parse_alf_progress("progress 57%"), None);
    assert_eq!(parse_alf_progress(" ALF_PROGRESS 57%"), None);
    assert_eq!(parse_alf_progress("ALF_PROGRESS\u{3000}57%"), Some(57));
    assert_eq!(parse_alf_progress(""), None);
}

#[test]
fn progress_marker_without_number() {
    assert_eq!(parse_alf_progress("ALF_PROGRESS"), None);
    assert_eq!(parse_alf_progress("ALF_PROGRESS   "), None);
    assert_eq!(parse_alf_progress("ALF_PROGRESS %"), None);
}

#[test]
fn progress_number_shapes() {
    assert_eq!(parse_alf_progress("ALF_PROGRESS\t 7%%"), Some(7));
    assert_eq!(parse_alf_progress("ALF_PROGRESS +12%"), Some(12));
    assert_eq!(parse_alf_progress("ALF_PROGRESS 0"), Some(0));
    assert_eq!(parse_alf_progress("ALF_PROGRESS -5%"), Some(0));
    assert_eq!(parse_alf_progress("ALF_PROGRESS -0%"), Some(0));
    assert_eq!(parse_alf_progress("ALF_PROGRESS 70000%"), Some(100));
    assert_eq!(parse_alf_progress("ALF_PROGRESS 99999999999999999999999%"), Some(100));
    assert_eq!(parse_alf_progress("ALF_PROGRESS 0100%"), Some(100));
    assert_eq!(parse_alf_progress("ALF_PROGRESS 101%"), Some(100));
    assert_eq!(parse_alf_progress("ALF_PROGRESS 65535%"), Some(100));
    assert_eq!(parse_alf_progress("ALF_PROGRESS -%"), None);
    assert_eq!(parse_alf_progress("ALF_PROGRESS +-5%"), None);
    assert_eq!(parse_alf_progress("ALF_PROGRESS 5%x"), None);
}

#[test]
fn latest_progress_is_the_last_reporting_line() {
    let lines: Vec<String> = vec![
        "ALF_PROGRESS 10%".to_string(),
        "ALF_PROGRESS 42%".to_string(),
        "frame 12 written".to_string(),
        "ALF_PROGRESS oops".to_string(),
    ];
    assert_eq!(latest_alf_progress(&lines), Some(42));
    let none: Vec<String> = vec!["hello".to_string()];
    assert_eq!(latest_alf_progress(&none), None);
    assert_eq!(latest_alf_progress(&[]), None);
}

#[test]
fn eta_halfway_after_hundred_seconds() {
    assert_eq!(eta_seconds(50, 100), 100);
}

#[test]
fn eta_is_zero_without_progress_or_when_done() {
    assert_eq!(eta_seconds(0, 100), 0);
    assert_eq!(eta_seconds(0, 12345), 0);
    assert_eq!(eta_seconds(100, 100), 0);
    assert_eq!(eta_seconds(100, 0), 0);
}

#[test]
fn eta_rounds_to_nearest_second() {
    // 10 s at 33 %: 10 / 0.33 - 10 = 20.30...
    assert_eq!(eta_seconds(33, 10), 20);
    // 1 s at 40 %: 1.5 rounds away from zero
    assert_eq!(eta_seconds(40, 1), 2);
    // 3 s at 75 %: 1 s left
    assert_eq!(eta_seconds(75, 3), 1);
    assert_eq!(eta_seconds(1, 10), 990);
}

#[test]
fn eta_with_start_in_future_is_negative() {
    assert_eq!(eta_seconds(50, -3), -3);
}
