use lazyjira::rate_limiter::{RateLimiter, TokenWait};

#[test]
fn test_rate_limiter_acquires_token() {
    let mut limiter = RateLimiter::new(10, 100, 10);
    assert!(limiter.try_acquire_token());
}

#[test]
fn test_rate_limiter_exhausts_tokens() {
    let mut limiter = RateLimiter::new(2, 1000, 2);
    assert!(limiter.try_acquire_at(0));
    assert!(limiter.try_acquire_at(0));
    assert!(!limiter.try_acquire_at(0));
}

#[test]
fn test_rate_limiter_refills_tokens() {
    let mut limiter = RateLimiter::new(2, 100, 2);
    assert!(limiter.try_acquire_at(0));
    assert!(limiter.try_acquire_at(0));
    assert!(!limiter.try_acquire_at(0));
    assert!(limiter.try_acquire_at(150));
}

#[test]
fn test_rate_limiter_wait_for_token() {
    let mut limiter = RateLimiter::new(1, 50, 1);
    assert!(limiter.try_acquire_at(0));
    let mut now = 0;
    loop {
        match limiter.poll_at(now) {
            TokenWait::Acquired => break,
            TokenWait::Wait(ms) => now += ms,
        }
    }
    assert!(now >= 50);
    assert!(now < 100);
}

#[test]
fn empty_bucket_refuses_until_a_full_interval_passes() {
    for (max, interval, refill) in [(1usize, 10u64, 1usize), (3, 60_000, 3), (5, 7, 2)] {
        let mut limiter = RateLimiter::new(max, interval, refill);
        for _ in 0..max {
            assert!(limiter.try_acquire_at(0));
        }
        assert!(!limiter.try_acquire_at(0));
        assert!(!limiter.try_acquire_at(interval - 1));
        assert!(limiter.try_acquire_at(interval));
    }
}

#[test]
fn blocking_acquire_waits_only_the_rest_of_the_interval() {
    let mut limiter = RateLimiter::new(1, 100, 1);
    assert_eq!(limiter.poll_at(0), TokenWait::Acquired);
    assert_eq!(limiter.poll_at(30), TokenWait::Wait(70));
    assert_eq!(limiter.poll_at(100), TokenWait::Acquired);
    assert_eq!(limiter.poll_at(150), TokenWait::Wait(50));
}

#[test]
fn refill_is_capped_and_keeps_the_interval_grid() {
    let mut limiter = RateLimiter::new(3, 100, 2);
    for _ in 0..3 {
        assert!(limiter.try_acquire_at(0));
    }
    assert!(limiter.try_acquire_at(1050));
    assert_eq!(limiter.tokens, 2);
    assert_eq!(limiter.last_refill_ms, 1000);
    let cloud = RateLimiter::jira_cloud();
    assert_eq!((cloud.max_tokens, cloud.refill_interval_ms, cloud.tokens_per_refill, cloud.tokens), (100, 60_000, 100, 100));
}
