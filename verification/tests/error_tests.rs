use catcher::error::{CatcherError, ErrorCategory};

#[test]
fn connection_timeout_is_retryable() {
    let err = CatcherError::ConnectionTimeout(5000);
    assert_eq!(err.category(), ErrorCategory::Retryable);
    assert!(err.to_string().contains("5000"));
}

#[test]
fn request_timeout_is_retryable() {
    let err = CatcherError::RequestTimeout(30000);
    assert_eq!(err.category(), ErrorCategory::Retryable);
}

#[test]
fn tls_error_is_retryable() {
    let err = CatcherError::TlsError("cert expired".into());
    assert_eq!(err.category(), ErrorCategory::Retryable);
}

#[test]
fn dns_error_is_retryable() {
    let err = CatcherError::DnsError {
        host: "example.com".into(),
        reason: "NXDOMAIN".into(),
    };
    assert_eq!(err.category(), ErrorCategory::Retryable);
}

#[test]
fn http_5xx_is_retryable() {
    let err = CatcherError::HttpError {
        status: 503,
        body: "Service Unavailable".into(),
    };
    assert_eq!(err.category(), ErrorCategory::Retryable);
}

#[test]
fn http_4xx_is_non_retryable() {
    let err = CatcherError::HttpError {
        status: 404,
        body: "Not Found".into(),
    };
    assert_eq!(err.category(), ErrorCategory::NonRetryable);
}

#[test]
fn http_401_is_non_retryable() {
    let err = CatcherError::HttpError {
        status: 401,
        body: "Unauthorized".into(),
    };
    assert_eq!(err.category(), ErrorCategory::NonRetryable);
}

#[test]
fn circuit_breaker_open_is_retryable() {
    let err = CatcherError::CircuitBreakerOpen;
    assert_eq!(err.category(), ErrorCategory::Retryable);
}

#[test]
fn retry_exhausted_is_non_retryable() {
    let err = CatcherError::RetryExhausted {
        attempts: 5,
        last_error: Box::new(CatcherError::RequestTimeout(1000)),
    };
    assert_eq!(err.category(), ErrorCategory::NonRetryable);
}

#[test]
fn encode_error_is_non_retryable() {
    let err = CatcherError::EncodeError("bad data".into());
    assert_eq!(err.category(), ErrorCategory::NonRetryable);
}

#[test]
fn decode_error_is_non_retryable() {
    let err = CatcherError::DecodeError("corrupt".into());
    assert_eq!(err.category(), ErrorCategory::NonRetryable);
}

#[test]
fn invalid_config_is_non_retryable() {
    let err = CatcherError::InvalidConfig("bad url".into());
    assert_eq!(err.category(), ErrorCategory::NonRetryable);
}

#[test]
fn internal_error_is_non_retryable() {
    let err = CatcherError::Internal("unexpected".into());
    assert_eq!(err.category(), ErrorCategory::NonRetryable);
}

#[test]
fn ws_disconnected_is_retryable() {
    let err = CatcherError::WsDisconnected {
        code: 1006,
        reason: "abnormal".into(),
    };
    assert_eq!(err.category(), ErrorCategory::Retryable);
}

#[test]
fn ws_all_endpoints_failed_is_retryable() {
    let err = CatcherError::WsAllEndpointsFailed { count: 3 };
    assert_eq!(err.category(), ErrorCategory::Retryable);
}

#[test]
fn queue_timeout_is_non_retryable() {
    let err = CatcherError::QueueTimeout(5000);
    assert_eq!(err.category(), ErrorCategory::NonRetryable);
}

#[test]
fn sse_timeout_is_non_retryable() {
    let err = CatcherError::SseTimeout(30000);
    assert_eq!(err.category(), ErrorCategory::NonRetryable);
}

#[test]
fn clone_preserves_category() {
    let err = CatcherError::ConnectionTimeout(1000);
    let cloned = err.clone();
    assert_eq!(cloned.category(), err.category());
}

#[test]
fn display_does_not_panic() {
    // All variants should format without panic
    let errors = vec![
        CatcherError::ConnectionTimeout(1000),
        CatcherError::RequestTimeout(5000),
        CatcherError::TlsError("test".into()),
        CatcherError::DnsError {
            host: "h".into(),
            reason: "r".into(),
        },
        CatcherError::ConnectionError {
            host: "h".into(),
            reason: "refused".into(),
        },
        CatcherError::TransportError("socket reset".into()),
        CatcherError::HttpError {
            status: 500,
            body: "b".into(),
        },
        CatcherError::WsHandshakeTimeout(3000),
        CatcherError::WsDisconnected {
            code: 1000,
            reason: "normal".into(),
        },
        CatcherError::WsAllEndpointsFailed { count: 1 },
        CatcherError::RetryExhausted {
            attempts: 3,
            last_error: Box::new(CatcherError::ConnectionError {
                host: "h".into(),
                reason: "e".into(),
            }),
        },
        CatcherError::CircuitBreakerOpen,
        CatcherError::QueueTimeout(1000),
        CatcherError::EncodeError("e".into()),
        CatcherError::DecodeError("d".into()),
        CatcherError::InvalidConfig("c".into()),
        CatcherError::SseTimeout(5000),
        CatcherError::Internal("i".into()),
    ];
    for err in &errors {
        let s = err.to_string();
        assert!(
            !s.is_empty(),
            "Display should produce non-empty string for {:?}",
            err
        );
    }
}

#[test]
fn messages_render_every_variant_exactly() {
    let cases: Vec<(CatcherError, &str)> = vec![
        (CatcherError::ConnectionTimeout(5000), "connection timeout after 5000ms"),
        (CatcherError::RequestTimeout(0), "request timeout after 0ms"),
        (CatcherError::TlsError("x".into()), "TLS error: x"),
        (
            CatcherError::DnsError { host: "h".into(), reason: "r".into() },
            "DNS resolution failed for h: r",
        ),
        (
            CatcherError::ConnectionError { host: "h".into(), reason: "refused".into() },
            "connection failed for h: refused",
        ),
        (CatcherError::TransportError("t".into()), "transport request failed: t"),
        (
            CatcherError::HttpError { status: 421, body: "misdirected".into() },
            "HTTP error: status 421, body: misdirected",
        ),
        (CatcherError::WsHandshakeTimeout(15000), "WS handshake timeout after 15000ms"),
        (
            CatcherError::WsDisconnected { code: 1006, reason: "abnormal".into() },
            "WS disconnected: code=1006, reason=abnormal",
        ),
        (CatcherError::WsAllEndpointsFailed { count: 3 }, "all WS endpoints failed (3 attempted)"),
        (
            CatcherError::RetryExhausted {
                attempts: 2,
                last_error: Box::new(CatcherError::RequestTimeout(100)),
            },
            "retry exhausted after 2 attempts: request timeout after 100ms",
        ),
        (CatcherError::CircuitBreakerOpen, "circuit breaker is OPEN, request rejected"),
        (CatcherError::QueueTimeout(18446744073709551615), "queue timeout after 18446744073709551615ms"),
        (CatcherError::EncodeError("e".into()), "msgpack encode error: e"),
        (CatcherError::DecodeError("d".into()), "msgpack decode error: d"),
        (CatcherError::InvalidConfig("c".into()), "invalid configuration: c"),
        (CatcherError::SseTimeout(30000), "SSE stream timeout after 30000ms"),
        (CatcherError::Internal("i".into()), "internal error: i"),
    ];
    for (err, expected) in &cases {
        assert_eq!(err.to_string(), *expected);
    }
}

#[test]
fn clone_keeps_nested_retry_cause() {
    let err = CatcherError::RetryExhausted {
        attempts: 4,
        last_error: Box::new(CatcherError::HttpError { status: 502, body: "bad gateway".into() }),
    };
    let cloned = err.clone();
    assert_eq!(cloned.to_string(), err.to_string());
    assert_eq!(cloned.category(), ErrorCategory::NonRetryable);
}

#[test]
fn http_status_boundary_is_500() {
    let below = CatcherError::HttpError { status: 499, body: String::new() };
    let at = CatcherError::HttpError { status: 500, body: String::new() };
    assert_eq!(below.category(), ErrorCategory::NonRetryable);
    assert_eq!(at.category(), ErrorCategory::Retryable);
}
