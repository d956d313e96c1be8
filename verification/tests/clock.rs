use rate_limiter::Clock;

fn busy_wait_nanos(nanos: u64) {
    let start = std::time::Instant::now();
    let span = std::time::Duration::from_nanos(nanos);
    while start.elapsed() < span {}
}

#[test]
fn elapsed_is_monotonic() {
    let mut clock = Clock::new();
    let first = clock.elapsed();
    busy_wait_nanos(1_000_000);
    let second = clock.elapsed();
    let third = clock.elapsed();
    assert!(second.as_nanos() >= first.as_nanos());
    assert!(third.as_nanos() >= second.as_nanos());
}

#[test]
fn elapsed_grows_with_real_time() {
    let mut clock = Clock::new();
    busy_wait_nanos(5_000_000);
    let elapsed = clock.elapsed();
    assert!(elapsed.as_nanos() >= 5_000_000);
}

#[test]
fn reset_starts_over_from_zero() {
    let mut clock = Clock::new();
    busy_wait_nanos(20_000_000);
    assert!(clock.elapsed().as_nanos() >= 20_000_000);
    clock.reset();
    let after_reset = clock.elapsed();
    assert!(after_reset.as_nanos() < 20_000_000);
}

#[test]
fn new_clock_starts_near_zero() {
    let mut clock = Clock::new();
    let elapsed = clock.elapsed();
    assert!(elapsed.as_nanos() < 1_000_000_000);
}
