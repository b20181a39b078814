use mxselfbot::log::{format_log_line, to_epoch_timestamp, LogLevel, Logger};

#[test]
fn level_labels_are_upper_case() {
    assert_eq!(LogLevel::Info.label(), "INFO");
    assert_eq!(LogLevel::Warn.label(), "WARN");
    assert_eq!(LogLevel::Error.label(), "ERROR");
}

#[test]
fn line_shape() {
    assert_eq!(
        format_log_line("2021-01-01 00:00:00 UTC", LogLevel::Warn, "careful"),
        "<2021-01-01 00:00:00 UTC> [WARN] - careful"
    );
}

#[test]
fn only_errors_go_to_stderr() {
    assert!(LogLevel::Error.goes_to_stderr());
    assert!(!LogLevel::Warn.goes_to_stderr());
    assert!(!LogLevel::Info.goes_to_stderr());
}

#[test]
fn record_carries_its_time() {
    let logger = Logger::new();
    let r = logger.record(LogLevel::Error, "boom");
    assert!(r.to_stderr);
    assert!(!r.time.is_empty());
    assert_eq!(r.line, format!("<{}> [ERROR] - boom", r.time));
    assert!(r.time.ends_with(" UTC"));
    let (secs, nanos) = r.timestamp.unwrap();
    assert!(nanos < 1_000_000_000);
    assert!(secs > 1_600_000_000);
    assert_eq!(r.time, chrono::DateTime::from_timestamp(secs, nanos).unwrap().to_string());
    let r = logger.record(LogLevel::Info, "fine");
    assert!(!r.to_stderr);
}

#[test]
fn timestamps_before_and_after_the_epoch() {
    assert_eq!(to_epoch_timestamp(false, 5, 7), Some((5, 7)));
    assert_eq!(to_epoch_timestamp(true, 5, 0), Some((-5, 0)));
    assert_eq!(to_epoch_timestamp(true, 5, 250_000_000), Some((-6, 750_000_000)));
    assert_eq!(to_epoch_timestamp(false, u64::MAX, 0), None);
}
