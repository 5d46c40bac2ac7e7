use catcher::error::CatcherError;
use catcher::retry::{BackoffKind, RetryConfig, RetryTracker};

fn test_config() -> RetryConfig {
    RetryConfig {
        max_attempts: 3,
        backoff: BackoffKind::Exponential,
        min_backoff_ms: 10,
        max_backoff_ms: 100,
        jitter: false,
    }
}

/// Runs an operation that yields `outcomes` in turn under a backoff that has
/// `delays` delays, the way the asynchronous driver does; returns the result,
/// the number of executions and the attempts reported to the retry callback.
fn drive(
    config: &RetryConfig,
    outcomes: Vec<Result<u32, CatcherError>>,
    delays: usize,
) -> (Result<u32, CatcherError>, usize, Vec<u32>) {
    let mut tracker = RetryTracker::new(config);
    let mut outcomes = outcomes.into_iter();
    let mut calls = 0;
    let mut notified = Vec::new();
    let mut delays_left = delays;
    loop {
        tracker.begin_attempt();
        calls += 1;
        match outcomes.next().expect("an outcome per execution") {
            Ok(v) => return (Ok(v), calls, notified),
            Err(e) => {
                if tracker.should_retry(&e, true) {
                    notified.push(tracker.attempts());
                    if delays_left == 0 {
                        return (Err(tracker.finish(e)), calls, notified);
                    }
                    delays_left -= 1;
                } else {
                    return (Err(tracker.finish(e)), calls, notified);
                }
            }
        }
    }
}

#[test]
fn tracker_succeeds_after_two_failures() {
    let (result, calls, _) = drive(
        &test_config(),
        vec![
            Err(CatcherError::ConnectionTimeout(100)),
            Err(CatcherError::ConnectionTimeout(100)),
            Ok(42),
        ],
        3,
    );
    assert_eq!(result.unwrap(), 42);
    assert_eq!(calls, 3);
}

#[test]
fn tracker_exhausts_after_max_attempts() {
    let (result, calls, notified) = drive(
        &test_config(),
        vec![
            Err(CatcherError::ConnectionTimeout(100)),
            Err(CatcherError::ConnectionTimeout(100)),
            Err(CatcherError::ConnectionTimeout(100)),
        ],
        3,
    );
    assert_eq!(calls, 3);
    assert_eq!(notified, vec![1, 2]);
    match result {
        Err(CatcherError::RetryExhausted { attempts, last_error }) => {
            assert_eq!(attempts, 3);
            assert!(matches!(*last_error, CatcherError::ConnectionTimeout(100)));
        }
        other => panic!("expected RetryExhausted, got {other:?}"),
    }
}

#[test]
fn tracker_fails_fast_on_non_retryable() {
    let (result, calls, notified) = drive(&test_config(), vec![Err(CatcherError::EncodeError("bad".into()))], 3);
    assert!(matches!(result, Err(CatcherError::EncodeError(_))));
    assert_eq!(calls, 1);
    assert!(notified.is_empty());
}

#[test]
fn tracker_does_not_retry_or_nest_exhausted_errors() {
    let (result, calls, _) = drive(
        &test_config(),
        vec![Err(CatcherError::RetryExhausted {
            attempts: 2,
            last_error: Box::new(CatcherError::ConnectionTimeout(100)),
        })],
        3,
    );
    assert_eq!(calls, 1);
    match result {
        Err(CatcherError::RetryExhausted { attempts, last_error }) => {
            assert_eq!(attempts, 2);
            assert!(matches!(*last_error, CatcherError::ConnectionTimeout(100)));
        }
        other => panic!("expected one RetryExhausted layer, got {other:?}"),
    }
}

#[test]
fn tracker_stops_when_backoff_has_no_delay_left() {
    let (result, calls, notified) = drive(
        &test_config(),
        vec![Err(CatcherError::ConnectionTimeout(1)), Err(CatcherError::ConnectionTimeout(2))],
        1,
    );
    assert_eq!(calls, 2);
    assert_eq!(notified, vec![1, 2]);
    assert!(matches!(result, Err(CatcherError::RetryExhausted { attempts: 2, .. })));
}

#[test]
fn caller_predicate_can_refuse_retry() {
    let mut tracker = RetryTracker::new(&test_config());
    assert_eq!(tracker.begin_attempt(), 1);
    assert!(!tracker.should_retry(&CatcherError::ConnectionTimeout(1), false));
    let e = tracker.finish(CatcherError::ConnectionTimeout(1));
    assert!(matches!(e, CatcherError::ConnectionTimeout(1)));
}

#[test]
fn zero_limit_still_runs_once() {
    let config = RetryConfig { max_attempts: 0, ..test_config() };
    let (result, calls, _) = drive(&config, vec![Err(CatcherError::ConnectionTimeout(1))], 3);
    assert_eq!(calls, 1);
    assert!(matches!(result, Err(CatcherError::ConnectionTimeout(1))));
    assert_eq!(BackoffKind::default(), BackoffKind::Fixed);
}
