use websocket::text::{decimal_text, prefixed, starts_with};
use websocket::time::{clock_millis, duration_text, unix_millis, Duration};

#[test]
fn decimal_numbers_are_written_as_usual() {
    for number in [0, 1, 9, 10, 101, 90_210, u32::MAX] {
        assert_eq!(decimal_text(number), number.to_string());
    }
}

#[test]
fn prefix_goes_in_front() {
    assert_eq!(prefixed("序列化失败: ", "x"), "序列化失败: x");
    assert_eq!(prefixed("", ""), "");
}

#[test]
fn prefixes_are_found_at_the_start_only() {
    assert!(starts_with("ws://a", "ws://"));
    assert!(starts_with("ws://", "ws://"));
    assert!(starts_with("a", ""));
    assert!(!starts_with("ws:/", "ws://"));
    assert!(!starts_with("xws://", "ws://"));
}

#[test]
fn spans_are_kept_in_seconds_and_nanoseconds() {
    let span = Duration::from_millis(61_005);
    assert_eq!(span.as_secs(), 61);
    assert_eq!(span.subsec_nanos(), 5_000_000);
    assert_eq!(span.as_millis(), 61_005);
    assert_eq!(Duration::from_secs(2), Duration::from_millis(2_000));
    assert_eq!(Duration::new(1, 999_999_999).as_millis(), 1_999);
    assert_eq!(Duration::from_secs(u64::MAX).as_millis(), u64::MAX as u128 * 1_000);
}

#[test]
fn only_the_empty_span_is_zero() {
    assert!(Duration::from_secs(0).is_zero());
    assert!(!Duration::new(0, 1).is_zero());
    assert!(!Duration::from_secs(1).is_zero());
}

#[test]
fn spans_are_shown_as_std_shows_them() {
    assert_eq!(duration_text(Duration::from_secs(10)), "10s");
    assert_eq!(duration_text(Duration::from_millis(1500)), "1.5s");
    assert_eq!(duration_text(Duration::new(0, 1_000)), "1µs");
}

#[test]
fn clock_counts_milliseconds() {
    assert_eq!(clock_millis(None), 0);
    assert_eq!(clock_millis(Some(Duration::from_secs(3))), 3_000);
    let wrapped = Duration::from_secs(u64::MAX);
    assert_eq!(clock_millis(Some(wrapped)), (u64::MAX as u128 * 1_000) as u64);
}

#[test]
fn clock_is_past_the_epoch_and_goes_on() {
    let first = unix_millis();
    assert!(first > 1_577_836_800_000);
    assert!(unix_millis() >= first);
}
