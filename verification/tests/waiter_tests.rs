use replicate_rs::error::Error;
use replicate_rs::prediction::{Prediction, PredictionStatus};
use replicate_rs::waiter::{u64_to_decimal, CompletionWaiter};

fn snapshot(status: PredictionStatus) -> Prediction {
    Prediction {
        id: "pred-1".to_string(),
        model: "owner/name".to_string(),
        version: "v1".to_string(),
        status,
        input: None,
        output: None,
        logs: None,
        error: None,
        metrics: None,
        created_at: None,
        started_at: None,
        completed_at: None,
        urls: None,
    }
}

#[test]
fn test_u64_to_decimal() {
    assert_eq!(u64_to_decimal(0), "0");
    assert_eq!(u64_to_decimal(7), "7");
    assert_eq!(u64_to_decimal(10), "10");
    assert_eq!(u64_to_decimal(1_000), "1000");
    assert_eq!(u64_to_decimal(30_500), "30500");
    assert_eq!(u64_to_decimal(u64::MAX), "18446744073709551615");
}

#[test]
fn test_wait_processing_twice_then_succeeded_fetches_thrice() {
    // A fake status source answers Processing, Processing, Succeeded: the
    // wait makes exactly three fetches and returns the final snapshot.
    let mut statuses = vec![
        PredictionStatus::Processing,
        PredictionStatus::Processing,
        PredictionStatus::Succeeded,
    ]
    .into_iter();
    let mut waiter = CompletionWaiter::new("pred-1".to_string(), None, Some(100));
    let mut fetches = 0u32;
    let outcome = loop {
        assert!(!waiter.deadline_exceeded());
        let p = snapshot(statuses.next().expect("no further fetch may happen"));
        fetches += 1;
        match waiter.on_snapshot(p) {
            Some(result) => break result,
            None => waiter.advance(100),
        }
    };
    assert_eq!(fetches, 3);
    assert_eq!(waiter.polls_made, 3);
    let p = outcome.unwrap();
    assert!(matches!(p.status, PredictionStatus::Succeeded));
    assert_eq!(p.id, "pred-1");
}

#[test]
fn test_wait_times_out_with_bounded_overshoot() {
    // A source that never reaches a terminal state, a deadline of one
    // second and a poll interval of 100 ms: the wait ends in a Timeout
    // error no more than two intervals past the deadline.
    let mut waiter = CompletionWaiter::new("pred-2".to_string(), Some(1_000), Some(100));
    let mut fetches = 0u32;
    let error = loop {
        if waiter.deadline_exceeded() {
            break waiter.timeout_error();
        }
        fetches += 1;
        match waiter.on_snapshot(snapshot(PredictionStatus::Processing)) {
            Some(_) => panic!("a non-terminal snapshot must not end the wait"),
            None => waiter.advance(100),
        }
    };
    assert!(waiter.elapsed_ms >= 1_000);
    assert!(waiter.elapsed_ms <= 1_000 + 2 * 100);
    assert_eq!(fetches, 10);
    match error {
        Error::Timeout(message) => {
            assert_eq!(message, "Prediction pred-2 did not complete within 1000 ms");
        }
        other => panic!("expected Timeout, got {:?}", other),
    }
}

#[test]
fn test_wait_failed_job_reports_model_execution_and_stops() {
    // A source answering Failed with error_message "boom": the wait ends at
    // once with a ModelExecution error carrying the message; no further
    // fetch happens.
    let mut waiter = CompletionWaiter::new("pred-3".to_string(), None, None);
    assert_eq!(waiter.poll_interval_ms, 500);
    let mut p = snapshot(PredictionStatus::Failed);
    p.error = Some("boom".to_string());
    p.logs = Some("the logs".to_string());
    let result = waiter.on_snapshot(p).expect("a terminal snapshot ends the wait");
    assert!(waiter.done);
    assert_eq!(waiter.polls_made, 1);
    match result.unwrap_err() {
        Error::ModelExecution { prediction_id, error_message, logs } => {
            assert_eq!(prediction_id, "pred-3");
            assert_eq!(error_message, Some("boom".to_string()));
            assert_eq!(logs, Some("the logs".to_string()));
        }
        other => panic!("expected ModelExecution, got {:?}", other),
    }
}

#[test]
fn test_wait_canceled_job_is_returned_as_is() {
    let mut waiter = CompletionWaiter::new("pred-4".to_string(), Some(5_000), Some(250));
    let result = waiter.on_snapshot(snapshot(PredictionStatus::Canceled)).unwrap();
    let p = result.unwrap();
    assert!(matches!(p.status, PredictionStatus::Canceled));
}

#[test]
fn test_deadline_edge_is_exceeded_exactly_at_the_deadline() {
    let mut waiter = CompletionWaiter::new("pred-5".to_string(), Some(200), Some(100));
    assert!(!waiter.deadline_exceeded());
    waiter.advance(100);
    assert!(!waiter.deadline_exceeded());
    waiter.advance(100);
    assert!(waiter.deadline_exceeded());
}
