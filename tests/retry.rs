use imd::configuration::BackoffConfig;
use imd::retry::{
    classify, make_backoff_policy, FailureKind, GiveUpReason, RetryDecision, RetryPolicy,
    RetryState,
};

fn policy(initial: u64, pct: u32, max_retry: u32, timeout: u64) -> RetryPolicy {
    RetryPolicy {
        initial_interval_secs: initial,
        multiplier_percent: pct,
        max_retry,
        per_attempt_timeout_secs: timeout,
    }
}

#[test]
fn max_elapsed_sums_waits_and_attempt_time() {
    // Waits 2 s, 4 s and 8 s, plus 3 x 10 s.
    assert_eq!(policy(2, 200, 3, 10).max_elapsed_ms(), Some(44_000));
    // Waits 1 s, 1.5 s, 2.25 s, 3.375 s, plus 4 x 5 s.
    assert_eq!(policy(1, 150, 4, 5).max_elapsed_ms(), Some(28_125));
}

#[test]
fn max_elapsed_is_the_same_for_the_same_parameters() {
    let a = policy(3, 175, 6, 300).max_elapsed_ms();
    let b = policy(3, 175, 6, 300).max_elapsed_ms();
    assert_eq!(a, b);
}

#[test]
fn max_elapsed_exceeds_attempt_time() {
    for (initial, pct, max_retry, timeout) in [(1u64, 100u32, 1u32, 300u64), (1, 100, 2, 300), (2, 200, 5, 300), (1, 50, 10, 1)] {
        let bound = policy(initial, pct, max_retry, timeout).max_elapsed_ms().unwrap();
        assert!(bound > max_retry as u64 * timeout * 1000);
    }
}

#[test]
fn single_attempt_budget_holds_one_wait() {
    assert_eq!(policy(2, 200, 1, 10).max_elapsed_ms(), Some(12_000));
    assert!(policy(1, 100, 1, 1).max_elapsed_ms().unwrap() > 1_000);
    assert_eq!(policy(2, 200, 0, 10).max_elapsed_ms(), Some(0));
}

#[test]
fn max_elapsed_too_large_is_none() {
    assert_eq!(policy(u64::MAX / 1000, 200, 100, 0).max_elapsed_ms(), None);
    assert_eq!(policy(1, 1000, u32::MAX, 1).max_elapsed_ms(), None);
}

#[test]
fn policy_from_configuration() {
    let cfg = BackoffConfig { initial_interval: 4, multiplier_percent: 120, max_retry: 7 };
    let p = make_backoff_policy(&cfg, 300);
    assert_eq!(p.initial_interval_secs, 4);
    assert_eq!(p.multiplier_percent, 120);
    assert_eq!(p.max_retry, 7);
    assert_eq!(p.per_attempt_timeout_secs, 300);
}

#[test]
fn transient_and_fatal_failures() {
    assert!(classify(FailureKind::Timeout));
    assert!(classify(FailureKind::ConnectionReset));
    assert!(classify(FailureKind::ConnectionFailed));
    assert!(classify(FailureKind::MalformedResponse));
    assert!(classify(FailureKind::HttpStatus(503)));
    assert!(classify(FailureKind::HttpStatus(429)));
    assert!(!classify(FailureKind::HttpStatus(404)));
    assert!(!classify(FailureKind::HttpStatus(401)));
    assert!(!classify(FailureKind::AuthenticationFailed));
    assert!(!classify(FailureKind::MalformedUrl));
    assert!(!classify(FailureKind::DiskError));
    assert!(!classify(FailureKind::MissingContentLength));
}

#[test]
fn first_retry_waits_initial_interval_with_jitter() {
    let p = policy(2, 200, 5, 300);
    for (jitter, wait) in [(0u64, 1600u64), (200, 2000), (400, 2400), (10_000, 2400)] {
        let mut s = RetryState::new();
        let d = p.on_failure(&mut s, FailureKind::Timeout, 100, jitter);
        assert_eq!(d, RetryDecision::RetryAfter(wait));
        assert_eq!(s.attempt_count, 1);
        assert_eq!(s.elapsed_ms, 100);
        assert_eq!(s.last_error, Some(FailureKind::Timeout));
    }
}

#[test]
fn waits_grow_by_the_multiplier() {
    let p = policy(2, 200, 5, 300);
    let mut s = RetryState::new();
    assert_eq!(p.on_failure(&mut s, FailureKind::Timeout, 0, 200), RetryDecision::RetryAfter(2000));
    assert_eq!(p.on_failure(&mut s, FailureKind::Timeout, 0, 200), RetryDecision::RetryAfter(4000));
    assert_eq!(p.on_failure(&mut s, FailureKind::Timeout, 0, 200), RetryDecision::RetryAfter(8000));
}

#[test]
fn fatal_failure_gives_up_at_once() {
    let p = policy(2, 200, 5, 300);
    let mut s = RetryState::new();
    let d = p.on_failure(&mut s, FailureKind::DiskError, 0, 200);
    assert_eq!(d, RetryDecision::GiveUp(GiveUpReason::Fatal));
    assert_eq!(s.attempt_count, 1);
}

#[test]
fn attempts_run_out_at_max_retry() {
    let p = policy(1, 100, 3, 300);
    let mut s = RetryState::new();
    assert!(matches!(p.on_failure(&mut s, FailureKind::ConnectionReset, 0, 200), RetryDecision::RetryAfter(_)));
    assert!(matches!(p.on_failure(&mut s, FailureKind::ConnectionReset, 0, 200), RetryDecision::RetryAfter(_)));
    assert_eq!(
        p.on_failure(&mut s, FailureKind::ConnectionReset, 0, 200),
        RetryDecision::GiveUp(GiveUpReason::AttemptsExhausted)
    );
}

#[test]
fn time_budget_stops_retries() {
    // Budget: two waits of 1 s and 2 x 1 s per attempt = 4 s.
    let p = policy(1, 100, 2, 1);
    let mut s = RetryState::new();
    assert_eq!(p.on_failure(&mut s, FailureKind::Timeout, 3000, 200), RetryDecision::RetryAfter(1000));
    let mut s = RetryState::new();
    assert_eq!(
        p.on_failure(&mut s, FailureKind::Timeout, 3001, 200),
        RetryDecision::GiveUp(GiveUpReason::TimeBudgetExhausted)
    );
}
