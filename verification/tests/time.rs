use gameclockbone::time::{from_hms, split_hms, NANOS_PER_SECOND};

#[test]
fn duration_from_hours_minutes_and_seconds() {
    assert_eq!(NANOS_PER_SECOND, 1_000_000_000);
    assert_eq!(from_hms(0, 0, 0), 0);
    assert_eq!(from_hms(0, 0, 1), 1_000_000_000);
    assert_eq!(from_hms(0, 1, 0), 60_000_000_000);
    assert_eq!(from_hms(1, 0, 0), 3_600_000_000_000);
    assert_eq!(from_hms(1, 2, 3), 3_723_000_000_000);
    assert_eq!(from_hms(0, 90, 90), 5_490_000_000_000);
    assert_eq!(from_hms(255, 65535, 65535), 4_915_635_000_000_000);
    assert_eq!(
        from_hms(u64::MAX, u64::MAX, u64::MAX),
        u64::MAX as u128 * 3661 * 1_000_000_000
    );
}

#[test]
fn duration_split_into_hours_minutes_and_seconds() {
    assert_eq!(split_hms(0), (0, 0, 0));
    assert_eq!(split_hms(999_999_999), (0, 0, 0));
    assert_eq!(split_hms(3_723_000_000_000), (1, 2, 3));
    assert_eq!(split_hms(3_723_999_999_999), (1, 2, 3));
    assert_eq!(split_hms(5_490_000_000_000), (1, 31, 30));
    assert_eq!(split_hms(4_915_635_000_000_000), (1365, 27, 15));
}

#[test]
fn split_duration_is_put_together_again() {
    for d in [0u128, 1, 59, 60, 3599, 3600, 86399, 4_915_635] {
        let (h, m, s) = split_hms(d * NANOS_PER_SECOND + 5);
        assert!(m < 60 && s < 60);
        assert_eq!(from_hms(h as u64, m as u64, s as u64), d * NANOS_PER_SECOND);
    }
}
