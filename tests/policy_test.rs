use replicate::backoff::{checked_delay, Backoff, ConstantBackoff, ExponentialBackoff};
use replicate::fetch::{
    bearer, endpoint, should_retry, FetchAttempts, FetchDecision, HttpMethod, DEFAULT_MAX_RETRIES,
};

#[test]
fn exponential_delays() {
    let b = ExponentialBackoff { base: 500, multiplier: 2, jitter: 50 };
    assert_eq!(b.next_delay(0), 550);
    assert_eq!(b.next_delay(1), 1050);
    assert_eq!(b.next_delay(3), 4050);
    for n in 0..20u32 {
        assert!(b.fits(n));
        assert!(b.next_delay(n) >= 500 * 2u64.pow(n));
    }
}

#[test]
fn exponential_overflow_does_not_fit() {
    let b = ExponentialBackoff { base: 500, multiplier: 2, jitter: 50 };
    assert!(!b.fits(60));
    let z = ExponentialBackoff { base: 0, multiplier: 2, jitter: 7 };
    assert!(z.fits(100));
    assert_eq!(z.next_delay(100), 7);
}

#[test]
fn constant_delay_in_range() {
    let b = ConstantBackoff { base: 100, jitter: 10 };
    for _ in 0..50 {
        let d = b.next_delay(3);
        assert!((100..110).contains(&d));
    }
    let fixed = ConstantBackoff { base: 100, jitter: 0 };
    assert_eq!(fixed.next_delay(0), 100);
}

#[test]
fn retry_eligibility() {
    assert!(should_retry(HttpMethod::Get, 429));
    assert!(should_retry(HttpMethod::Get, 500));
    assert!(should_retry(HttpMethod::Get, 599));
    assert!(!should_retry(HttpMethod::Get, 404));
    assert!(should_retry(HttpMethod::Post, 429));
    assert!(!should_retry(HttpMethod::Post, 503));
}

#[test]
fn attempts_never_exceed_max_retries_plus_one() {
    let mut f = FetchAttempts::new(HttpMethod::Get, DEFAULT_MAX_RETRIES);
    let mut sends = 0;
    loop {
        sends += 1;
        match f.on_response(503) {
            FetchDecision::Retry { retries } => assert_eq!(retries, sends - 1),
            FetchDecision::Fail => break,
            FetchDecision::Succeed => unreachable!(),
        }
    }
    assert_eq!(sends, 6);
}

#[test]
fn success_and_non_retryable_failures() {
    let mut f = FetchAttempts::new(HttpMethod::Post, 3);
    assert_eq!(f.on_response(429), FetchDecision::Retry { retries: 0 });
    assert_eq!(f.on_response(201), FetchDecision::Succeed);
    let mut g = FetchAttempts::new(HttpMethod::Post, 3);
    assert_eq!(g.on_response(500), FetchDecision::Fail);
}

#[test]
fn request_texts() {
    assert_eq!(endpoint("https://api.example.com/v1", "/predictions"), "https://api.example.com/v1/predictions");
    assert_eq!(bearer("abc"), "Bearer abc");
}

#[test]
fn checked_delay_reports_overflow() {
    let b = ExponentialBackoff { base: 500, multiplier: 2, jitter: 50 };
    assert_eq!(checked_delay(&b, 2), Some(2050));
    assert_eq!(checked_delay(&b, 64), None);
    let boxed: Box<dyn Backoff> = Box::new(ConstantBackoff { base: 5, jitter: 0 });
    assert_eq!(checked_delay(boxed.as_ref(), 9), Some(5));
}
