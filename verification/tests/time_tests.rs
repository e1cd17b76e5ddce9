use ao::Timestamp;

#[test]
fn timestamps_are_ordered_by_seconds_then_nanoseconds() {
    let a = Timestamp::new(10, 5);
    assert!(a.is_before(&Timestamp::new(11, 0)));
    assert!(a.is_before(&Timestamp::new(10, 6)));
    assert!(!a.is_before(&Timestamp::new(10, 5)));
    assert!(!a.is_before(&Timestamp::new(10, 4)));
    assert!(!a.is_before(&Timestamp::new(9, 999_999_999)));
    assert!(Timestamp::new(-1, 0).is_before(&Timestamp::new(0, 0)));
    assert!(Timestamp::new(i64::MIN, 0).is_before(&Timestamp::new(i64::MAX, u32::MAX)));
    assert!(Timestamp::new(59, 1_500_000_000).is_before(&Timestamp::new(60, 0)));
}

#[test]
fn timestamp_keeps_what_it_was_made_of() {
    let t = Timestamp::new(-7, 123);
    assert_eq!(t.secs, -7);
    assert_eq!(t.nanos, 123);
    assert_eq!(t, Timestamp { secs: -7, nanos: 123 });
    assert_ne!(t, Timestamp::new(-7, 124));
}
