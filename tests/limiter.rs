use std::num::NonZeroU32;
use std::sync::atomic::{AtomicUsize, Ordering};
use std::sync::Arc;

use governor::clock::{Clock, DefaultClock, FakeRelativeClock, Reference};
use governor::nanos::Nanos;
use governor::{Quota, RateLimiter};

use gnort::registry::{
    check_and_sleep, LimiterStep, DEFAULT_BURST_LIMIT, DEFAULT_RATE_LIMIT_PER_SECOND,
};
use gnort::Duration;

fn relative_eq(a: f64, b: f64, max_relative: f64) -> bool {
    (a - b).abs() <= max_relative * a.abs().max(b.abs())
}

#[test]
fn test_governor() {
    let clock = FakeRelativeClock::default();
    let q = Quota::per_second(NonZeroU32::new(DEFAULT_RATE_LIMIT_PER_SECOND).unwrap())
        .allow_burst(NonZeroU32::new(DEFAULT_BURST_LIMIT).unwrap());
    let rl = RateLimiter::direct_with_clock(q, clock.clone());
    let counter = Arc::new(AtomicUsize::new(0));
    let start = FakeRelativeClock::default().now();
    let time_limit: Nanos = std::time::Duration::from_secs(1).into();
    loop {
        if clock.now().duration_since(start) > time_limit {
            break;
        }
        let wait = match rl.check() {
            Ok(_) => None,
            Err(negative) => Some(Duration::from_std(&negative.wait_time_from(clock.now()))),
        };
        match check_and_sleep(wait, true) {
            LimiterStep::Proceed => {
                let _ = counter.fetch_add(1, Ordering::Relaxed);
            }
            LimiterStep::Retry { sleep_millis } => {
                // the fake clock moves by a microsecond per step, so no wait
                // reaches a whole millisecond
                assert_eq!(sleep_millis, Some(0));
            }
        }
        clock.advance(std::time::Duration::from_nanos(1_000));
    }
    let rate_limit = DEFAULT_RATE_LIMIT_PER_SECOND as f64;
    let final_count = counter.load(Ordering::Relaxed);
    println!("Final count was: {}", final_count);
    assert!(relative_eq(final_count as f64, rate_limit, 0.01));
    assert!(final_count <= (DEFAULT_RATE_LIMIT_PER_SECOND + DEFAULT_BURST_LIMIT) as usize);
}

#[test]
fn test_governor_real() {
    let q = Quota::per_second(NonZeroU32::new(DEFAULT_RATE_LIMIT_PER_SECOND).unwrap())
        .allow_burst(NonZeroU32::new(DEFAULT_BURST_LIMIT).unwrap());
    let rl = RateLimiter::direct(q);
    let counter = Arc::new(AtomicUsize::new(0));
    let time_limit: Nanos = std::time::Duration::from_secs(1).into();
    let clock = DefaultClock::default();
    let start = clock.now();
    loop {
        if clock.now().duration_since(start) > time_limit {
            break;
        }
        // wait for a cell, as the flush loop does before each emission
        loop {
            let wait = match rl.check() {
                Ok(_) => None,
                Err(negative) => Some(Duration::from_std(&negative.wait_time_from(clock.now()))),
            };
            match check_and_sleep(wait, true) {
                LimiterStep::Proceed => break,
                LimiterStep::Retry { sleep_millis } => {
                    let until = std::time::Instant::now()
                        + std::time::Duration::from_millis(sleep_millis.unwrap_or(0));
                    while std::time::Instant::now() < until {}
                }
            }
        }
        let _ = counter.fetch_add(1, Ordering::Relaxed);
    }
    let rate_limit = DEFAULT_RATE_LIMIT_PER_SECOND as f64;
    let final_count = counter.load(Ordering::Relaxed);
    println!("Final count was: {}", final_count);
    assert!(relative_eq(final_count as f64, rate_limit, 0.10));
}
