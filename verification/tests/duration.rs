use session_token::{Claims, Duration, NANOS_PER_SEC};

#[test]
fn a_second_is_a_billion_nanoseconds() {
    assert_eq!(NANOS_PER_SEC, 1_000_000_000);
}

#[test]
fn from_secs_has_no_sub_second_part() {
    let d = Duration::from_secs(300);
    assert_eq!(d.as_secs(), 300);
    assert_eq!(d.subsec_nanos(), 0);
    assert_eq!(Duration::from_secs(u64::MAX).as_secs(), u64::MAX);
}

#[test]
fn new_carries_full_seconds() {
    let d = Duration::new(5, 999_999_999);
    assert_eq!((d.as_secs(), d.subsec_nanos()), (5, 999_999_999));
    let d = Duration::new(5, 1_000_000_000);
    assert_eq!((d.as_secs(), d.subsec_nanos()), (6, 0));
    let d = Duration::new(5, u32::MAX);
    assert_eq!((d.as_secs(), d.subsec_nanos()), (9, 294_967_295));
    let d = Duration::new(u64::MAX, 999_999_999);
    assert_eq!((d.as_secs(), d.subsec_nanos()), (u64::MAX, 999_999_999));
}

#[test]
fn checked_add_carries_and_stops_at_the_end() {
    let sum = Duration::new(10, 600_000_000).checked_add(Duration::new(0, 500_000_000)).expect("fits");
    assert_eq!((sum.as_secs(), sum.subsec_nanos()), (11, 100_000_000));
    let sum = Duration::new(10, 400_000_000).checked_add(Duration::new(0, 500_000_000)).expect("fits");
    assert_eq!((sum.as_secs(), sum.subsec_nanos()), (10, 900_000_000));
    let sum = Duration::new(1, 500_000_000).checked_add(Duration::new(2, 500_000_000)).expect("fits");
    assert_eq!((sum.as_secs(), sum.subsec_nanos()), (4, 0));
    let sum = Duration::from_secs(u64::MAX - 1).checked_add(Duration::new(0, 999_999_999)).expect("fits");
    assert_eq!((sum.as_secs(), sum.subsec_nanos()), (u64::MAX - 1, 999_999_999));

    assert!(Duration::from_secs(u64::MAX).checked_add(Duration::from_secs(1)).is_none());
    assert!(Duration::new(u64::MAX, 500_000_000).checked_add(Duration::new(0, 500_000_000)).is_none());
    assert!(Duration::new(u64::MAX, 500_000_000).checked_add(Duration::new(0, 499_999_999)).is_some());
}

#[test]
fn claims_hold_the_window_in_whole_seconds() {
    let claims = Claims::new("superadmin".to_string(), Duration::from_secs(300), Duration::from_secs(1_000));
    assert_eq!((claims.nbf, claims.exp), (1_000, 1_300));
    assert_eq!(claims.inner, "superadmin");

    let claims = Claims::new("p".to_string(), Duration::new(0, 500_000_000), Duration::new(10, 600_000_000));
    assert_eq!((claims.nbf, claims.exp), (10, 11));

    let claims = Claims::new("".to_string(), Duration::from_secs(0), Duration::new(7, 1));
    assert_eq!((claims.nbf, claims.exp), (7, 7));

    let claims = Claims::new("p".to_string(), Duration::from_secs(u64::MAX - 7), Duration::new(7, 999_999_999));
    assert_eq!((claims.nbf, claims.exp), (7, u64::MAX));
}
