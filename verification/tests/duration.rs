use rate_limiter::Duration;

#[test]
fn nanos_round_trip() {
    assert_eq!(Duration::from_nanos(0).as_nanos(), 0);
    assert_eq!(Duration::from_nanos(1).as_nanos(), 1);
    assert_eq!(Duration::from_nanos(123_456_789).as_nanos(), 123_456_789);
    assert_eq!(Duration::from_nanos(u64::MAX).as_nanos(), u64::MAX);
    assert_eq!(Duration::zero().as_nanos(), 0);
}

#[test]
fn saturating_sub_exact_and_clamped() {
    let a = Duration::from_nanos(100);
    let b = Duration::from_nanos(40);
    assert_eq!(a.saturating_sub(b).as_nanos(), 60);
    assert_eq!(b.saturating_sub(a).as_nanos(), 0);
    assert_eq!(a.saturating_sub(a).as_nanos(), 0);
}

#[test]
fn saturating_add_exact_and_capped() {
    let a = Duration::from_nanos(100);
    let b = Duration::from_nanos(40);
    assert_eq!(a.saturating_add(b).as_nanos(), 140);
    let big = Duration::from_nanos(u64::MAX - 10);
    assert_eq!(big.saturating_add(b).as_nanos(), u64::MAX);
    assert_eq!(big.saturating_add(Duration::from_nanos(10)).as_nanos(), u64::MAX);
}
