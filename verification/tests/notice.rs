use yamori::notice::{
    build_mode_notice, date_time, decimal, failure_notice, history_notice, history_notice_with,
};

#[test]
fn numbers_are_written_in_decimal() {
    assert_eq!(decimal(0), "0");
    assert_eq!(decimal(7), "7");
    assert_eq!(decimal(10), "10");
    assert_eq!(decimal(1234567890), "1234567890");
    assert_eq!(decimal(usize::MAX), usize::MAX.to_string());
    for n in [1usize, 9, 11, 99, 100, 101, 999, 1000, 65535, 65536] {
        assert_eq!(decimal(n), n.to_string());
    }
}

#[test]
fn timestamps_are_written_in_utc() {
    assert_eq!(date_time(0).as_deref(), Some("1970-01-01 00:00:00"));
    assert_eq!(date_time(1431648000).as_deref(), Some("2015-05-15 00:00:00"));
    assert_eq!(date_time(1700000000).as_deref(), Some("2023-11-14 22:13:20"));
    assert_eq!(date_time(86399).as_deref(), Some("1970-01-01 23:59:59"));
}

#[test]
fn timestamps_beyond_the_calendar_have_no_date() {
    assert_eq!(date_time(i64::MAX as u64), None);
    assert_eq!(date_time(i64::MAX as u64 + 1), None);
    assert_eq!(date_time(u64::MAX), None);
    assert_eq!(history_notice(1, i64::MAX as u64), None);
    assert_eq!(history_notice(1, u64::MAX), None);
}

#[test]
fn history_notice_names_entry_and_time() {
    assert_eq!(
        history_notice(3, 1431648000).as_deref(),
        Some("Loaded history entry #3\nTimestamp: 2015-05-15 00:00:00")
    );
    assert_eq!(
        history_notice_with(12, "some day"),
        "Loaded history entry #12\nTimestamp: some day"
    );
}

#[test]
fn build_mode_notice_names_the_mode() {
    assert_eq!(build_mode_notice(true), "Build mode changed to: RELEASE");
    assert_eq!(build_mode_notice(false), "Build mode changed to: DEBUG");
}

#[test]
fn failure_notice_carries_the_reason() {
    assert_eq!(failure_notice(false, "Command timed out: t"), "Error running tests:\nCommand timed out: t");
    assert_eq!(failure_notice(true, "boom"), "Error running release tests:\nboom");
}
