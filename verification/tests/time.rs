use sympho::time::{Duration, NANOS_PER_SEC};

#[test]
fn new_carries_nanoseconds_into_seconds() {
    let d = Duration::new(1, 2_500_000_000);
    assert_eq!(d.as_secs(), 3);
    assert_eq!(d.subsec_nanos(), 500_000_000);
    assert_eq!(Duration::new(0, 0), Duration::zero());
    assert_eq!(NANOS_PER_SEC, 1_000_000_000);
}

#[test]
fn from_secs_holds_whole_seconds() {
    assert_eq!(Duration::from_secs(9420).as_secs(), 9420);
    assert_eq!(Duration::from_secs(9420).subsec_nanos(), 0);
    assert_eq!(Duration::from_secs(u64::MAX).as_secs(), u64::MAX);
}

#[test]
fn zero_is_the_default() {
    assert_eq!(Duration::zero().as_secs(), 0);
    assert_eq!(Duration::zero().subsec_nanos(), 0);
    assert_eq!(Duration::default(), Duration::zero());
    assert_eq!(Duration::from_secs(0), Duration::zero());
}

#[test]
fn checked_add_carries_and_stops_at_the_limit() {
    let a = Duration::new(1, 600_000_000);
    let b = Duration::new(2, 700_000_000);
    assert_eq!(a.checked_add(b), Some(Duration::new(4, 300_000_000)));
    let max = Duration::new(u64::MAX, 999_999_999);
    assert_eq!(max.checked_add(Duration::zero()), Some(max));
    assert_eq!(max.checked_add(Duration::new(0, 1)), None);
    assert_eq!(Duration::from_secs(u64::MAX).checked_add(Duration::from_secs(1)), None);
    assert_eq!(
        Duration::new(u64::MAX, 500_000_000).checked_add(Duration::new(0, 499_999_999)),
        Some(max)
    );
}

#[test]
fn checked_sub_borrows_and_stops_at_zero() {
    let a = Duration::new(4, 300_000_000);
    let b = Duration::new(2, 700_000_000);
    assert_eq!(a.checked_sub(b), Some(Duration::new(1, 600_000_000)));
    assert_eq!(a.checked_sub(a), Some(Duration::zero()));
    assert_eq!(b.checked_sub(a), None);
    assert_eq!(Duration::new(1, 0).checked_sub(Duration::new(0, 1)), Some(Duration::new(0, 999_999_999)));
    assert_eq!(Duration::new(1, 1).checked_sub(Duration::new(1, 2)), None);
}
