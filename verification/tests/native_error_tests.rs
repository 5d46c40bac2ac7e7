use catcher::breaker::{circuit_breaker_state_name, CbState};
use catcher::error::CatcherError;
use catcher::native_error::{native_error_reason, NativeErrorPayload, NATIVE_ERROR_PREFIX};

#[test]
fn retry_exhausted_payload_preserves_attempts_and_last_error() {
    let payload = NativeErrorPayload::from(&CatcherError::RetryExhausted {
        attempts: 2,
        last_error: Box::new(CatcherError::ConnectionError {
            host: "api.example.com".into(),
            reason: "socket closed".into(),
        }),
    });
    assert_eq!(payload.code, "RETRY_EXHAUSTED");
    assert_eq!(payload.phase, "request");
    assert!(!payload.retryable);
    assert_eq!(payload.details.attempts, Some(2));
    let last = payload.details.last_error.as_ref().unwrap();
    assert_eq!(last.code, "CONNECTION_ERROR");
    assert_eq!(last.phase, "connect");
    assert!(last.retryable);
    assert_eq!(last.details.reason.as_deref(), Some("socket closed"));
    assert_eq!(last.details.host.as_deref(), Some("api.example.com"));
    assert_eq!(
        payload.message,
        "retry exhausted after 2 attempts: connection failed for api.example.com: socket closed"
    );
}

#[test]
fn http_payload_preserves_status_and_body() {
    let payload = NativeErrorPayload::from(&CatcherError::HttpError {
        status: 421,
        body: "misdirected".into(),
    });
    assert_eq!(payload.code, "HTTP_ERROR");
    assert_eq!(payload.phase, "response");
    assert_eq!(payload.details.status, Some(421));
    assert_eq!(payload.details.body.as_deref(), Some("misdirected"));
    assert!(payload.details.reason.is_none());
    assert!(payload.details.timeout_ms.is_none());
}

#[test]
fn payload_details_per_variant() {
    let p = NativeErrorPayload::from(&CatcherError::WsDisconnected { code: 1006, reason: "abnormal".into() });
    assert_eq!((p.code, p.phase), ("WS_DISCONNECTED", "request"));
    assert_eq!(p.details.status, Some(1006));
    assert_eq!(p.details.reason.as_deref(), Some("abnormal"));
    let p = NativeErrorPayload::from(&CatcherError::QueueTimeout(5));
    assert_eq!((p.code, p.phase, p.retryable), ("QUEUE_TIMEOUT", "queue", false));
    assert_eq!(p.details.timeout_ms, Some(5));
    let p = NativeErrorPayload::from(&CatcherError::WsAllEndpointsFailed { count: 3 });
    assert_eq!(p.details.attempts, Some(3));
    let p = NativeErrorPayload::from(&CatcherError::WsAllEndpointsFailed { count: usize::MAX });
    assert_eq!(p.details.attempts, None);
    let p = NativeErrorPayload::from(&CatcherError::CircuitBreakerOpen);
    assert_eq!((p.code, p.retryable), ("CIRCUIT_BREAKER_OPEN", true));
    assert!(p.details.status.is_none() && p.details.reason.is_none() && p.details.attempts.is_none());
    let p = NativeErrorPayload::from(&CatcherError::Internal("x".into()));
    assert_eq!((p.code, p.phase), ("INTERNAL_ERROR", "internal"));
}

#[test]
fn napi_error_reason_is_prefixed_or_explains_the_failure() {
    let e = CatcherError::CircuitBreakerOpen;
    assert_eq!(NATIVE_ERROR_PREFIX, "CATCHER_ERROR:");
    assert_eq!(native_error_reason(&e, Ok("{}".to_string())), "CATCHER_ERROR:{}");
    assert_eq!(
        native_error_reason(&e, Err("boom".to_string())),
        "failed to serialize catcher error: boom; original error: circuit breaker is OPEN, request rejected"
    );
}

#[test]
fn breaker_state_names() {
    assert_eq!(circuit_breaker_state_name(None), "closed");
    assert_eq!(circuit_breaker_state_name(Some(CbState::Closed)), "closed");
    assert_eq!(circuit_breaker_state_name(Some(CbState::Open)), "open");
    assert_eq!(circuit_breaker_state_name(Some(CbState::HalfOpen)), "half-open");
}
