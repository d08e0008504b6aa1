use object_store_aws::decimal::parse_u64;
use object_store_aws::time::{now, timestamp_from_system_time, TimeSpan, Timestamp};
use std::time::{Duration, SystemTime, UNIX_EPOCH};

#[test]
fn span_from_millis_splits_seconds() {
    let span = TimeSpan::from_millis(1_500);
    assert_eq!(span, TimeSpan { secs: 1, nanos: 500_000_000 });
    assert_eq!(TimeSpan::from_millis(500), TimeSpan { secs: 0, nanos: 500_000_000 });
    assert_eq!(TimeSpan::from_secs(60), TimeSpan { secs: 60, nanos: 0 });
}

#[test]
fn span_is_zero_only_when_empty() {
    assert!(TimeSpan::from_secs(0).is_zero());
    assert!(!TimeSpan::from_secs(1).is_zero());
    assert!(!TimeSpan { secs: 0, nanos: 1 }.is_zero());
}

#[test]
fn timestamps_order_by_seconds_then_nanos() {
    let a = Timestamp { secs: 10, nanos: 5 };
    let b = Timestamp { secs: 10, nanos: 6 };
    let c = Timestamp { secs: 11, nanos: 0 };
    let before_epoch = Timestamp { secs: -1, nanos: 999_999_999 };
    assert!(a.is_at_or_before(&a));
    assert!(a.is_at_or_before(&b));
    assert!(!b.is_at_or_before(&a));
    assert!(b.is_at_or_before(&c));
    assert!(!c.is_at_or_before(&b));
    assert!(before_epoch.is_at_or_before(&Timestamp { secs: 0, nanos: 0 }));
}

#[test]
fn system_time_converts_to_epoch_timestamp() {
    let t = UNIX_EPOCH + Duration::from_millis(1_500);
    assert_eq!(timestamp_from_system_time(t), Timestamp { secs: 1, nanos: 500_000_000 });
    let early = UNIX_EPOCH - Duration::from_millis(500);
    assert_eq!(timestamp_from_system_time(early), Timestamp { secs: -1, nanos: 500_000_000 });
    assert_eq!(timestamp_from_system_time(UNIX_EPOCH), Timestamp { secs: 0, nanos: 0 });
}

#[test]
fn clock_reading_is_after_epoch_and_well_formed() {
    let t = now();
    let reference = SystemTime::now().duration_since(UNIX_EPOCH).unwrap().as_secs() as i64;
    assert!(t.nanos < 1_000_000_000);
    assert!(t.secs > 1_600_000_000);
    assert!(t.secs <= reference + 1);
}

#[test]
fn parse_accepts_plain_and_plus_prefixed_numbers() {
    assert_eq!(parse_u64("10"), Some(10));
    assert_eq!(parse_u64("0"), Some(0));
    assert_eq!(parse_u64("+7"), Some(7));
    assert_eq!(parse_u64("007"), Some(7));
    assert_eq!(parse_u64("18446744073709551615"), Some(u64::MAX));
}

#[test]
fn parse_rejects_what_str_parse_rejects() {
    for text in ["", "+", "-", "-1", "1a", "5s", " 5", "5 ", "++1", "18446744073709551616", "99999999999999999999x"] {
        assert_eq!(parse_u64(text), text.parse::<u64>().ok(), "text {:?}", text);
        assert_eq!(parse_u64(text), None, "text {:?}", text);
    }
}

#[test]
fn parse_agrees_with_str_parse() {
    for text in ["1", "+0", "42", "4294967296", "1000000000000", "+18446744073709551615", "1٣"] {
        assert_eq!(parse_u64(text), text.parse::<u64>().ok(), "text {:?}", text);
    }
}

#[test]
fn parse_reads_back_written_numbers() {
    for n in [0u64, 9, 10, 99, 12345, u64::MAX / 10, u64::MAX] {
        assert_eq!(parse_u64(&n.to_string()), Some(n));
    }
}
