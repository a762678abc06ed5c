use pokedia::sync::limiter::{ConcurrencyLimiter, DEFAULT_PERMITS};

#[test]
fn the_engine_runs_with_ten_permits() {
    assert_eq!(DEFAULT_PERMITS, 10);
    let pool = ConcurrencyLimiter::new(DEFAULT_PERMITS);
    assert_eq!(pool.capacity(), 10);
    assert_eq!(pool.in_flight(), 0);
    assert_eq!(pool.available(), 10);
}

#[test]
fn a_pool_grants_no_more_permits_than_it_has() {
    let mut pool = ConcurrencyLimiter::new(2);
    assert!(pool.try_acquire());
    assert!(pool.try_acquire());
    assert!(!pool.try_acquire());
    assert_eq!(pool.in_flight(), 2);
    assert_eq!(pool.available(), 0);
    assert!(pool.release());
    assert_eq!(pool.in_flight(), 1);
    assert!(pool.try_acquire());
    assert!(pool.release());
    assert!(pool.release());
    assert!(!pool.release());
    assert_eq!(pool.in_flight(), 0);
}

#[test]
fn a_pool_without_permits_grants_none() {
    let mut pool = ConcurrencyLimiter::new(0);
    assert!(!pool.try_acquire());
    assert!(!pool.release());
    assert_eq!(pool.capacity(), 0);
}
