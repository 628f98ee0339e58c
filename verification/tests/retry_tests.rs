//! Tests of the retry policy: classification, backoff growth, budgets.

use pollers::retry::{backoff_ms, RetryConfig, RetryDecision, RetryGateway, RetryState};
use pollers::status::{is_retryable, retryable_error_codes, StatusCode};

fn test_config() -> RetryConfig {
    RetryConfig {
        initial_interval_ms: 10,
        multiplier_permille: 2000,
        max_interval_ms: 100,
        max_elapsed_ms: None,
        max_attempts: 4,
        jitter_permille: 0,
    }
}

#[test]
fn retryable_set_is_exactly_the_seven_codes() {
    let retryable = [
        StatusCode::DataLoss,
        StatusCode::Internal,
        StatusCode::Unknown,
        StatusCode::ResourceExhausted,
        StatusCode::Aborted,
        StatusCode::OutOfRange,
        StatusCode::Unavailable,
    ];
    let listed = retryable_error_codes();
    assert_eq!(listed.len(), 7);
    for code in retryable {
        assert!(is_retryable(code));
        assert!(listed.contains(&code));
    }
    let terminal = [
        StatusCode::Okay,
        StatusCode::Cancelled,
        StatusCode::InvalidArgument,
        StatusCode::DeadlineExceeded,
        StatusCode::NotFound,
        StatusCode::AlreadyExists,
        StatusCode::PermissionDenied,
        StatusCode::FailedPrecondition,
        StatusCode::Unimplemented,
        StatusCode::Unauthenticated,
    ];
    for code in terminal {
        assert!(!is_retryable(code));
        assert!(!listed.contains(&code));
    }
}

#[test]
fn retryable_codes_get_a_second_attempt() {
    // With budget for more attempts, every retryable code is retried at
    // least once, so the gateway issues two or more attempts in all.
    for code in retryable_error_codes() {
        let gw = RetryGateway::new(test_config());
        let mut st = gw.begin_call();
        let d = gw.on_failure(&mut st, code);
        assert!(matches!(d, RetryDecision::Retry { .. }));
        assert_eq!(st.attempts_made, 1);
    }
}

#[test]
fn terminal_codes_get_exactly_one_attempt() {
    let terminal = [
        StatusCode::InvalidArgument,
        StatusCode::NotFound,
        StatusCode::PermissionDenied,
        StatusCode::AlreadyExists,
        StatusCode::FailedPrecondition,
        StatusCode::Unauthenticated,
    ];
    for code in terminal {
        let gw = RetryGateway::new(test_config());
        let mut st = gw.begin_call();
        let d = gw.on_failure(&mut st, code);
        assert_eq!(d, RetryDecision::Propagate);
    }
}

#[test]
fn backoff_is_bounded_and_non_decreasing() {
    let cfg = RetryConfig {
        initial_interval_ms: 100,
        multiplier_permille: 1500,
        max_interval_ms: 1000,
        max_elapsed_ms: None,
        max_attempts: 100,
        jitter_permille: 0,
    };
    // 100 * 1.5^n with floor division, capped at 1000.
    let expected = [100u64, 150, 225, 337, 505, 757, 1000, 1000, 1000];
    let mut prev = 0u64;
    for (n, want) in expected.iter().enumerate() {
        let got = backoff_ms(&cfg, n as u32);
        assert_eq!(got, *want);
        assert!(got <= cfg.max_interval_ms);
        assert!(got >= prev);
        prev = got;
    }
}

#[test]
fn scenario_unavailable_three_times_then_success() {
    // initial=10ms, multiplier=2, max=100ms, max_attempts=4: an
    // "unavailable" failure injected three times is retried three times,
    // with delays non-decreasing and at most 100ms; the fourth attempt
    // succeeds, so exactly three retries were issued.
    let gw = RetryGateway::new(test_config());
    let mut st = gw.begin_call();
    let mut delays = Vec::new();
    for _ in 0..3 {
        match gw.on_failure(&mut st, StatusCode::Unavailable) {
            RetryDecision::Retry { delay_ms } => delays.push(delay_ms),
            RetryDecision::Propagate => panic!("transient failure must be retried"),
        }
    }
    assert_eq!(delays, vec![10, 20, 40]);
    for w in delays.windows(2) {
        assert!(w[0] <= w[1]);
    }
    for d in &delays {
        assert!(*d <= 100);
    }
    assert_eq!(st.attempts_made, 3);
}

#[test]
fn attempt_budget_exhausts() {
    // max_attempts = 4 admits three retries; the fourth failure
    // propagates even though the code is retryable.
    let gw = RetryGateway::new(test_config());
    let mut st = gw.begin_call();
    for _ in 0..3 {
        assert!(matches!(
            gw.on_failure(&mut st, StatusCode::Unavailable),
            RetryDecision::Retry { .. }
        ));
    }
    let d = gw.on_failure(&mut st, StatusCode::Unavailable);
    assert_eq!(d, RetryDecision::Propagate);
    assert_eq!(st.attempts_made, 4);
}

#[test]
fn elapsed_budget_exhausts() {
    // With delays 10, 20, 40 and a 25ms elapsed ceiling, the first retry
    // (10ms) fits, the second (20ms more) does not.
    let cfg = RetryConfig {
        max_elapsed_ms: Some(25),
        ..test_config()
    };
    let mut st = RetryState::new(&cfg);
    assert!(matches!(
        st.on_failure(&cfg, StatusCode::Unavailable),
        RetryDecision::Retry { delay_ms: 10 }
    ));
    assert_eq!(st.elapsed_ms, 10);
    assert_eq!(
        st.on_failure(&cfg, StatusCode::Unavailable),
        RetryDecision::Propagate
    );
    assert_eq!(st.elapsed_ms, 10);
}

#[test]
fn jittered_delay_stays_in_band() {
    let cfg = RetryConfig {
        initial_interval_ms: 100,
        multiplier_permille: 2000,
        max_interval_ms: 10_000,
        max_elapsed_ms: None,
        max_attempts: 10,
        jitter_permille: 500,
    };
    for _ in 0..50 {
        let mut st = RetryState::new(&cfg);
        match st.on_failure(&cfg, StatusCode::Internal) {
            RetryDecision::Retry { delay_ms } => {
                // 100ms jittered by a factor in [0.5, 1.5].
                assert!(delay_ms >= 50);
                assert!(delay_ms <= 150);
            }
            RetryDecision::Propagate => panic!("transient failure must be retried"),
        }
    }
}

#[test]
fn concurrent_calls_have_independent_budgets() {
    // Retry state is call-scoped: exhausting one call's budget leaves a
    // fresh call's untouched.
    let gw = RetryGateway::new(test_config());
    let mut first = gw.begin_call();
    for _ in 0..3 {
        gw.on_failure(&mut first, StatusCode::Unavailable);
    }
    assert_eq!(
        gw.on_failure(&mut first, StatusCode::Unavailable),
        RetryDecision::Propagate
    );
    let mut second = gw.begin_call();
    assert_eq!(second.attempts_made, 0);
    assert!(matches!(
        gw.on_failure(&mut second, StatusCode::Unavailable),
        RetryDecision::Retry { delay_ms: 10 }
    ));
}
