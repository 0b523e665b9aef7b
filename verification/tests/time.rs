use mp4meta::time::{Duration, NANOS_PER_SEC};

#[test]
fn duration_from_nanos_splits_seconds_off() {
    assert_eq!(Duration::from_nanos(0), Duration { secs: 0, nanos: 0 });
    assert_eq!(Duration::from_nanos(999_999_999), Duration { secs: 0, nanos: 999_999_999 });
    assert_eq!(Duration::from_nanos(1_000_000_000), Duration { secs: 1, nanos: 0 });
    assert_eq!(Duration::from_nanos(5_000_000_001), Duration { secs: 5, nanos: 1 });
    let most = u64::MAX as u128 * 1_000_000_000 + 999_999_999;
    assert_eq!(Duration::from_nanos(most), Duration { secs: u64::MAX, nanos: 999_999_999 });
    assert_eq!(Duration::from_nanos(most).as_nanos(), most);
    assert_eq!(NANOS_PER_SEC, 1_000_000_000);
}

#[test]
fn duration_parts() {
    let d = Duration::from_nanos(3_250_000_000);
    assert_eq!(d.as_secs(), 3);
    assert_eq!(d.subsec_nanos(), 250_000_000);
    assert_eq!(d.as_nanos(), 3_250_000_000);
    assert_eq!(Duration::from_secs(7).as_nanos(), 7_000_000_000);
    assert_eq!(Duration::from_secs(7), Duration { secs: 7, nanos: 0 });
    assert_eq!(Duration::default(), Duration::from_secs(0));
}
