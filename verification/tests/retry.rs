//! Backoff, jitter, and what is retried.

use antibot_rs::retry::{apply_jitter, mix};
use antibot_rs::time::Duration;
use antibot_rs::{AntibotError, RetryPolicy};

#[test]
fn jitter_follows_splitmix() {
    assert_eq!(mix(0), 0xe220a8397b1dcdaf);
    assert_eq!(mix(1), 0x910a2dec89025cc1);
    let second = Duration::from_secs(1);
    assert_eq!(apply_jitter(second, 0), Duration::from_nanos(1_017_500_000));
    assert_eq!(apply_jitter(second, 1), Duration::from_nanos(982_500_000));
    assert_eq!(apply_jitter(second, 42), Duration::from_nanos(956_500_000));
    assert_eq!(apply_jitter(Duration::from_nanos(0), 7), Duration::from_nanos(0));
}

#[test]
fn jitter_stays_within_a_quarter() {
    let d = Duration::from_millis(400);
    for seed in 0..200 {
        let j = apply_jitter(d, seed);
        assert!(j.nanos >= 300_000_000 && j.nanos <= 500_000_000);
    }
    let huge = Duration { nanos: u128::MAX };
    assert_eq!(apply_jitter(huge, 3), Duration::from_nanos(u64::MAX));
}

#[test]
fn default_policy_values() {
    let p = RetryPolicy::default();
    assert_eq!(p.max_attempts, 3);
    assert_eq!(p.initial_delay, Duration::from_millis(500));
    assert_eq!(p.max_delay, Duration::from_secs(10));
    assert!(p.jitter);
    assert_eq!(RetryPolicy::no_retries().max_attempts, 1);
}

#[test]
fn backoff_is_zero_first_and_capped_later() {
    let mut p = RetryPolicy::default();
    p.jitter = false;
    assert_eq!(p.backoff_for_attempt(1, 500_000_000, 0), Duration::from_nanos(0));
    assert_eq!(p.backoff_for_attempt(2, 500_000_000, 0), Duration::from_millis(500));
    assert_eq!(p.backoff_for_attempt(9, 64_000_000_000, 0), Duration::from_secs(10));
    p.jitter = true;
    assert_eq!(p.backoff_for_attempt(9, 64_000_000_000, 0), Duration::from_nanos(10_175_000_000));
    assert_eq!(p.backoff_exponent(1), 0);
    assert_eq!(p.backoff_exponent(2), 0);
    assert_eq!(p.backoff_exponent(5), 3);
    assert_eq!(p.backoff_exponent(u32::MAX), i32::MAX);
}

#[test]
fn only_transient_failures_are_retryable() {
    let p = RetryPolicy::default();
    let http = |status: u16| AntibotError::ProviderHttp { status, body: String::new() };
    assert!(p.is_retryable(&AntibotError::Http("x".to_string())));
    assert!(p.is_retryable(&AntibotError::UnexpectedResponse("x".to_string())));
    assert!(p.is_retryable(&AntibotError::ChallengeFailed {
        url: "u".to_string(),
        reason: "r".to_string()
    }));
    for status in [429, 500, 503, 599] {
        assert!(p.is_retryable(&http(status)));
    }
    for status in [301, 400, 404, 428, 430, 499, 600] {
        assert!(!p.is_retryable(&http(status)));
    }
    assert!(!p.is_retryable(&AntibotError::DockerNotAvailable));
    assert!(!p.is_retryable(&AntibotError::CoalescedFailure("x".to_string())));
    assert!(!p.is_retryable(&AntibotError::UnsupportedFeature {
        provider: "p".to_string(),
        feature: "f".to_string()
    }));
}
