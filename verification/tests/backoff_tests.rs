use replicate_rs::backoff::{
    delay_ceiling_ms, is_retryable, next_delay, AttemptOutcome, RetryDecision, RetryPlan,
};
use replicate_rs::config::RetryConfig;
use replicate_rs::error::Error;
use replicate_rs::transport::{classify_status, HttpClient};

fn cfg(max_retries: u32, min_delay: u64, max_delay: u64, base_multiplier: u32) -> RetryConfig {
    RetryConfig { max_retries, min_delay, max_delay, base_multiplier }
}

#[test]
fn test_delay_ceiling_exponential_then_clamped() {
    let c = cfg(10, 500, 30_000, 2);
    assert_eq!(delay_ceiling_ms(&c, 0), 500);
    assert_eq!(delay_ceiling_ms(&c, 1), 1_000);
    assert_eq!(delay_ceiling_ms(&c, 2), 2_000);
    assert_eq!(delay_ceiling_ms(&c, 5), 16_000);
    assert_eq!(delay_ceiling_ms(&c, 6), 30_000);
    assert_eq!(delay_ceiling_ms(&c, 63), 30_000);
    assert_eq!(delay_ceiling_ms(&c, 200), 30_000);
}

#[test]
fn test_delay_ceiling_multiplier_one_and_zero() {
    let one = cfg(3, 700, 9_000, 1);
    assert_eq!(delay_ceiling_ms(&one, 0), 700);
    assert_eq!(delay_ceiling_ms(&one, 9), 700);
    // With a zero multiplier the raw delay collapses and the clamp raises it
    // back to the minimum.
    let zero = cfg(3, 700, 9_000, 0);
    assert_eq!(delay_ceiling_ms(&zero, 0), 700);
    assert_eq!(delay_ceiling_ms(&zero, 4), 700);
}

#[test]
fn test_next_delay_stays_within_bounds() {
    let c = cfg(8, 500, 30_000, 2);
    for attempt in 0..8 {
        for jitter in [0u64, 1, 499, 500, 12_345, u64::MAX] {
            let d = next_delay(attempt, &c, jitter);
            let ceiling = delay_ceiling_ms(&c, attempt);
            assert!(d <= ceiling);
            assert!(d <= 30_000);
            assert!(u128::from(d) <= 500u128 * 2u128.pow(attempt));
        }
    }
}

#[test]
fn test_next_delay_exact_modulus() {
    let c = cfg(3, 500, 30_000, 2);
    // Ceiling for the first retry is 500, so the jitter draw is reduced
    // modulo 501.
    assert_eq!(next_delay(0, &c, 0), 0);
    assert_eq!(next_delay(0, &c, 501), 0);
    assert_eq!(next_delay(0, &c, 502), 1);
    assert_eq!(next_delay(0, &c, 500), 500);
}

#[test]
fn test_is_retryable_classification() {
    assert!(is_retryable(&AttemptOutcome::NetworkError));
    assert!(is_retryable(&AttemptOutcome::TimedOut));
    assert!(is_retryable(&AttemptOutcome::Status(429)));
    assert!(is_retryable(&AttemptOutcome::Status(500)));
    assert!(is_retryable(&AttemptOutcome::Status(503)));
    assert!(is_retryable(&AttemptOutcome::Status(599)));
    assert!(!is_retryable(&AttemptOutcome::Status(400)));
    assert!(!is_retryable(&AttemptOutcome::Status(401)));
    assert!(!is_retryable(&AttemptOutcome::Status(402)));
    assert!(!is_retryable(&AttemptOutcome::Status(403)));
    assert!(!is_retryable(&AttemptOutcome::Status(404)));
    assert!(!is_retryable(&AttemptOutcome::Status(422)));
    assert!(!is_retryable(&AttemptOutcome::Status(200)));
    assert!(!is_retryable(&AttemptOutcome::Status(600)));
}

#[test]
fn test_http_404_is_never_retried_and_surfaces_one_api_error() {
    // A request answered 404 is surfaced at once: the plan does not spend a
    // single retry on it, and the caller sees exactly one Api error with
    // status 404.
    let mut plan = RetryPlan::new(cfg(3, 500, 30_000, 2));
    let decision = plan.decide(&AttemptOutcome::Status(404), 42);
    assert_eq!(decision, RetryDecision::Surface);
    assert_eq!(plan.retries_made, 0);
    match classify_status(404, "missing".to_string()).unwrap_err() {
        Error::Api { status, message, detail } => {
            assert_eq!(status, 404);
            assert_eq!(message, "Resource not found");
            assert_eq!(detail, None);
        }
        other => panic!("expected Api error, got {:?}", other),
    }
}

#[test]
fn test_http_503_three_times_then_success() {
    // Three 503 answers are retried, the fourth attempt's 200 wins: the
    // caller gets the success payload, never a surfaced failure.
    let mut plan = RetryPlan::new(cfg(3, 500, 30_000, 2));
    let responses: [u16; 4] = [503, 503, 503, 200];
    let mut payload: Option<u16> = None;
    for status in responses {
        match classify_status(status, "Service Unavailable".to_string()) {
            Ok(s) => {
                payload = Some(s);
                break;
            }
            Err(_) => match plan.decide(&AttemptOutcome::Status(status), 7) {
                RetryDecision::RetryAfter(delay) => assert!(delay <= 30_000),
                RetryDecision::Surface => panic!("budget exhausted too early"),
            },
        }
    }
    assert_eq!(payload, Some(200));
    assert_eq!(plan.retries_made, 3);
}

#[test]
fn test_retry_budget_exhaustion_surfaces_last_failure() {
    let mut plan = RetryPlan::new(cfg(2, 100, 1_000, 2));
    assert!(matches!(
        plan.decide(&AttemptOutcome::Status(503), 0),
        RetryDecision::RetryAfter(_)
    ));
    assert!(matches!(
        plan.decide(&AttemptOutcome::NetworkError, 0),
        RetryDecision::RetryAfter(_)
    ));
    // The budget of two retries is spent: the third failure surfaces.
    assert_eq!(plan.decide(&AttemptOutcome::TimedOut, 0), RetryDecision::Surface);
    assert_eq!(plan.retries_made, 2);
}

#[test]
fn test_reconfigure_does_not_touch_started_plan() {
    // A request begun before the transport is reconfigured keeps the retry
    // bounds it started with.
    let mut client = HttpClient::new("test-token".to_string()).unwrap();
    let mut plan = client.begin_request();
    client.configure_retries(9, 1, 2).unwrap();
    assert_eq!(plan.retry.max_retries, 3);
    assert_eq!(plan.retry.min_delay, 500);
    assert_eq!(plan.retry.max_delay, 30_000);
    // Its first retry delay is still computed from the old bounds: with a
    // jitter draw of 500 it is exactly the old minimum delay, far over the
    // new 2 ms cap.
    match plan.decide(&AttemptOutcome::Status(503), 500) {
        RetryDecision::RetryAfter(delay) => assert_eq!(delay, 500),
        RetryDecision::Surface => panic!("budget should not be spent"),
    }
    // A request begun after the reconfiguration sees the new bounds.
    let fresh = client.begin_request();
    assert_eq!(fresh.retry.max_retries, 9);
    assert_eq!(fresh.retry.max_delay, 2);
}
