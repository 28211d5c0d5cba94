//! The ticket-pool rate limiter.

use execution_engine::rate_limited::RateLimited;

#[test]
fn rate_limited_is_rate_limited() {
    let mut counter: u64 = 0;
    let mut limiter = RateLimited::new();
    let per_micros: u64 = 60 * 1_000_000;
    let now: u64 = 61_000_000;

    for _ in 0..10 {
        if let Some(dropped) = limiter.acquire(1, per_micros, now) {
            counter += 1;
            assert_eq!(dropped, 0);
        }
    }

    // We expect one call in this configuration.
    assert_eq!(counter, 1);
}

#[test]
fn rate_limiter_tops_up_after_the_interval() {
    let mut limiter = RateLimited::new();
    let per_micros: u64 = 1_000_000;
    // First interval: two calls pass, three are skipped.
    let mut passed = vec![];
    for _ in 0..5 {
        if let Some(dropped) = limiter.acquire(2, per_micros, 2_000_000) {
            passed.push(dropped);
        }
    }
    assert_eq!(passed, vec![0, 0]);
    // After the interval the pool refills and reports what was skipped.
    for _ in 0..5 {
        if let Some(dropped) = limiter.acquire(2, per_micros, 4_000_000) {
            passed.push(dropped);
        }
    }
    assert_eq!(passed, vec![0, 0, 3, 0]);
}
