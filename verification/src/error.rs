//! The error type shared by every operation, and its retry classification.

use vstd::prelude::*;
use vstd::string::*;
use crate::text::{decimal, push_decimal};

verus! {

/// The single error type returned by all operations.
#[derive(Debug)]
pub enum CatcherError {
    ConnectionTimeout(u64),
    RequestTimeout(u64),
    TlsError(String),
    DnsError { host: String, reason: String },
    ConnectionError { host: String, reason: String },
    TransportError(String),
    HttpError { status: u16, body: String },
    WsHandshakeTimeout(u64),
    WsDisconnected { code: u16, reason: String },
    WsAllEndpointsFailed { count: usize },
    /// `attempts` counts every execution, the first one included.
    RetryExhausted { attempts: u32, last_error: Box<CatcherError> },
    CircuitBreakerOpen,
    QueueTimeout(u64),
    EncodeError(String),
    DecodeError(String),
    InvalidConfig(String),
    SseTimeout(u64),
    Internal(String),
}

/// Whether an operation that failed with an error is worth repeating.
#[derive(Debug, Clone, Copy, PartialEq, Eq, Structural)]
pub enum ErrorCategory {
    Retryable,
    NonRetryable,
}

/// The classification of an error: network-level failures, 5xx responses and
/// an open circuit breaker are retryable; client errors (4xx), codec,
/// configuration, queue, SSE and internal errors, and an already exhausted
/// retry are not.
pub open spec fn spec_category(e: CatcherError) -> ErrorCategory {
    match e {
        CatcherError::ConnectionTimeout(_)
        | CatcherError::RequestTimeout(_)
        | CatcherError::TlsError(_)
        | CatcherError::DnsError { .. }
        | CatcherError::ConnectionError { .. }
        | CatcherError::TransportError(_)
        | CatcherError::WsHandshakeTimeout(_)
        | CatcherError::WsDisconnected { .. }
        | CatcherError::WsAllEndpointsFailed { .. }
        | CatcherError::CircuitBreakerOpen => ErrorCategory::Retryable,
        CatcherError::HttpError { status, .. } => if status >= 500 {
            ErrorCategory::Retryable
        } else {
            ErrorCategory::NonRetryable
        },
        _ => ErrorCategory::NonRetryable,
    }
}

/// The human-readable message of an error.
pub open spec fn display(e: CatcherError) -> Seq<char>
    decreases e,
{
    match e {
        CatcherError::ConnectionTimeout(ms) => "connection timeout after "@ + decimal(ms as nat) + "ms"@,
        CatcherError::RequestTimeout(ms) => "request timeout after "@ + decimal(ms as nat) + "ms"@,
        CatcherError::TlsError(s) => "TLS error: "@ + s@,
        CatcherError::DnsError { host, reason } => "DNS resolution failed for "@ + host@ + ": "@ + reason@,
        CatcherError::ConnectionError { host, reason } => "connection failed for "@ + host@ + ": "@ + reason@,
        CatcherError::TransportError(s) => "transport request failed: "@ + s@,
        CatcherError::HttpError { status, body } => "HTTP error: status "@ + decimal(status as nat) + ", body: "@ + body@,
        CatcherError::WsHandshakeTimeout(ms) => "WS handshake timeout after "@ + decimal(ms as nat) + "ms"@,
        CatcherError::WsDisconnected { code, reason } => "WS disconnected: code="@ + decimal(code as nat) + ", reason="@ + reason@,
        CatcherError::WsAllEndpointsFailed { count } => "all WS endpoints failed ("@ + decimal(count as nat) + " attempted)"@,
        CatcherError::RetryExhausted { attempts, last_error } => "retry exhausted after "@ + decimal(attempts as nat) + " attempts: "@ + display(*last_error),
        CatcherError::CircuitBreakerOpen => "circuit breaker is OPEN, request rejected"@,
        CatcherError::QueueTimeout(ms) => "queue timeout after "@ + decimal(ms as nat) + "ms"@,
        CatcherError::EncodeError(s) => "msgpack encode error: "@ + s@,
        CatcherError::DecodeError(s) => "msgpack decode error: "@ + s@,
        CatcherError::InvalidConfig(s) => "invalid configuration: "@ + s@,
        CatcherError::SseTimeout(ms) => "SSE stream timeout after "@ + decimal(ms as nat) + "ms"@,
        CatcherError::Internal(s) => "internal error: "@ + s@,
    }
}

/// Network-level failures are worth repeating: timeouts, TLS, DNS,
/// connection and transport failures, WebSocket handshake timeouts,
/// disconnections and failed endpoint races, server errors (5xx) and an
/// open circuit breaker are retryable, whatever they carry.
pub proof fn network_failures_are_retryable(ms: u64, s: String, host: String, status: u16, body: String, code: u16, count: usize)
    ensures
        spec_category(CatcherError::ConnectionTimeout(ms)) == ErrorCategory::Retryable,
        spec_category(CatcherError::RequestTimeout(ms)) == ErrorCategory::Retryable,
        spec_category(CatcherError::TlsError(s)) == ErrorCategory::Retryable,
        spec_category(CatcherError::DnsError { host, reason: s }) == ErrorCategory::Retryable,
        spec_category(CatcherError::ConnectionError { host, reason: s }) == ErrorCategory::Retryable,
        spec_category(CatcherError::TransportError(s)) == ErrorCategory::Retryable,
        spec_category(CatcherError::WsHandshakeTimeout(ms)) == ErrorCategory::Retryable,
        spec_category(CatcherError::WsDisconnected { code, reason: s }) == ErrorCategory::Retryable,
        spec_category(CatcherError::WsAllEndpointsFailed { count }) == ErrorCategory::Retryable,
        spec_category(CatcherError::CircuitBreakerOpen) == ErrorCategory::Retryable,
        500 <= status ==> spec_category(CatcherError::HttpError { status, body }) == ErrorCategory::Retryable,
{
}

/// Failures that a repetition cannot cure are not retried: client errors
/// (status below 500), codec, configuration, queue, SSE and internal
/// errors, and a retry that is already exhausted.
pub proof fn caller_and_local_failures_are_not_retryable(ms: u64, s: String, status: u16, attempts: u32, last: CatcherError)
    ensures
        status < 500 ==> spec_category(CatcherError::HttpError { status, body: s }) == ErrorCategory::NonRetryable,
        spec_category(CatcherError::EncodeError(s)) == ErrorCategory::NonRetryable,
        spec_category(CatcherError::DecodeError(s)) == ErrorCategory::NonRetryable,
        spec_category(CatcherError::InvalidConfig(s)) == ErrorCategory::NonRetryable,
        spec_category(CatcherError::QueueTimeout(ms)) == ErrorCategory::NonRetryable,
        spec_category(CatcherError::SseTimeout(ms)) == ErrorCategory::NonRetryable,
        spec_category(CatcherError::Internal(s)) == ErrorCategory::NonRetryable,
        spec_category(CatcherError::RetryExhausted { attempts, last_error: Box::new(last) }) == ErrorCategory::NonRetryable,
{
}

/// Every error has a non-empty message.
pub proof fn message_is_never_empty(e: CatcherError)
    ensures
        display(e).len() > 0,
{
    reveal_strlit("connection timeout after ");
    reveal_strlit("request timeout after ");
    reveal_strlit("TLS error: ");
    reveal_strlit("DNS resolution failed for ");
    reveal_strlit("connection failed for ");
    reveal_strlit("transport request failed: ");
    reveal_strlit("HTTP error: status ");
    reveal_strlit("WS handshake timeout after ");
    reveal_strlit("WS disconnected: code=");
    reveal_strlit("all WS endpoints failed (");
    reveal_strlit("retry exhausted after ");
    reveal_strlit("circuit breaker is OPEN, request rejected");
    reveal_strlit("queue timeout after ");
    reveal_strlit("msgpack encode error: ");
    reveal_strlit("msgpack decode error: ");
    reveal_strlit("invalid configuration: ");
    reveal_strlit("SSE stream timeout after ");
    reveal_strlit("internal error: ");
}

impl CatcherError {
    /// Classifies the error as retryable or not.
    pub fn category(&self) -> (c: ErrorCategory)
        ensures
            c == spec_category(*self),
    {
        match self {
            CatcherError::ConnectionTimeout(_)
            | CatcherError::RequestTimeout(_)
            | CatcherError::TlsError(_)
            | CatcherError::DnsError { .. }
            | CatcherError::ConnectionError { .. }
            | CatcherError::TransportError(_)
            | CatcherError::WsHandshakeTimeout(_)
            | CatcherError::WsDisconnected { .. }
            | CatcherError::WsAllEndpointsFailed { .. }
            | CatcherError::CircuitBreakerOpen => ErrorCategory::Retryable,
            CatcherError::HttpError { status, .. } => {
                if *status >= 500 {
                    ErrorCategory::Retryable
                } else {
                    ErrorCategory::NonRetryable
                }
            },
            CatcherError::RetryExhausted { .. } => ErrorCategory::NonRetryable,
            CatcherError::EncodeError(_)
            | CatcherError::DecodeError(_)
            | CatcherError::InvalidConfig(_)
            | CatcherError::Internal(_)
            | CatcherError::QueueTimeout(_)
            | CatcherError::SseTimeout(_) => ErrorCategory::NonRetryable,
        }
    }

    /// Appends the message of this error to `s`.
    pub fn write_message(&self, s: &mut String)
        ensures
            final(s)@ == old(s)@ + display(*self),
        decreases self,
    {
        match self {
            CatcherError::ConnectionTimeout(ms) => {
                s.append("connection timeout after ");
                push_decimal(s, *ms);
                s.append("ms");
            },
            CatcherError::RequestTimeout(ms) => {
                s.append("request timeout after ");
                push_decimal(s, *ms);
                s.append("ms");
            },
            CatcherError::TlsError(m) => {
                s.append("TLS error: ");
                s.append(m.as_str());
            },
            CatcherError::DnsError { host, reason } => {
                s.append("DNS resolution failed for ");
                s.append(host.as_str());
                s.append(": ");
                s.append(reason.as_str());
            },
            CatcherError::ConnectionError { host, reason } => {
                s.append("connection failed for ");
                s.append(host.as_str());
                s.append(": ");
                s.append(reason.as_str());
            },
            CatcherError::TransportError(m) => {
                s.append("transport request failed: ");
                s.append(m.as_str());
            },
            CatcherError::HttpError { status, body } => {
                s.append("HTTP error: status ");
                push_decimal(s, *status as u64);
                s.append(", body: ");
                s.append(body.as_str());
            },
            CatcherError::WsHandshakeTimeout(ms) => {
                s.append("WS handshake timeout after ");
                push_decimal(s, *ms);
                s.append("ms");
            },
            CatcherError::WsDisconnected { code, reason } => {
                s.append("WS disconnected: code=");
                push_decimal(s, *code as u64);
                s.append(", reason=");
                s.append(reason.as_str());
            },
            CatcherError::WsAllEndpointsFailed { count } => {
                s.append("all WS endpoints failed (");
                push_decimal(s, *count as u64);
                s.append(" attempted)");
            },
            CatcherError::RetryExhausted { attempts, last_error } => {
                s.append("retry exhausted after ");
                push_decimal(s, *attempts as u64);
                s.append(" attempts: ");
                let inner: &CatcherError = last_error;
                inner.write_message(s);
            },
            CatcherError::CircuitBreakerOpen => {
                s.append("circuit breaker is OPEN, request rejected");
            },
            CatcherError::QueueTimeout(ms) => {
                s.append("queue timeout after ");
                push_decimal(s, *ms);
                s.append("ms");
            },
            CatcherError::EncodeError(m) => {
                s.append("msgpack encode error: ");
                s.append(m.as_str());
            },
            CatcherError::DecodeError(m) => {
                s.append("msgpack decode error: ");
                s.append(m.as_str());
            },
            CatcherError::InvalidConfig(m) => {
                s.append("invalid configuration: ");
                s.append(m.as_str());
            },
            CatcherError::SseTimeout(ms) => {
                s.append("SSE stream timeout after ");
                push_decimal(s, *ms);
                s.append("ms");
            },
            CatcherError::Internal(m) => {
                s.append("internal error: ");
                s.append(m.as_str());
            },
        }
    }

    /// The message of this error, as its `Display` would render it.
    pub fn to_string(&self) -> (r: String)
        ensures
            r@ == display(*self),
    {
        let mut s = String::new();
        self.write_message(&mut s);
        assert(s@ =~= display(*self));
        s
    }
}

impl Clone for CatcherError {
    fn clone(&self) -> (r: Self)
        ensures
            r == *self,
        decreases self,
    {
        match self {
            CatcherError::ConnectionTimeout(ms) => CatcherError::ConnectionTimeout(*ms),
            CatcherError::RequestTimeout(ms) => CatcherError::RequestTimeout(*ms),
            CatcherError::TlsError(m) => CatcherError::TlsError(m.clone()),
            CatcherError::DnsError { host, reason } => CatcherError::DnsError {
                host: host.clone(),
                reason: reason.clone(),
            },
            CatcherError::ConnectionError { host, reason } => CatcherError::ConnectionError {
                host: host.clone(),
                reason: reason.clone(),
            },
            CatcherError::TransportError(m) => CatcherError::TransportError(m.clone()),
            CatcherError::HttpError { status, body } => CatcherError::HttpError {
                status: *status,
                body: body.clone(),
            },
            CatcherError::WsHandshakeTimeout(ms) => CatcherError::WsHandshakeTimeout(*ms),
            CatcherError::WsDisconnected { code, reason } => CatcherError::WsDisconnected {
                code: *code,
                reason: reason.clone(),
            },
            CatcherError::WsAllEndpointsFailed { count } => CatcherError::WsAllEndpointsFailed {
                count: *count,
            },
            CatcherError::RetryExhausted { attempts, last_error } => {
                let inner: &CatcherError = last_error;
                CatcherError::RetryExhausted {
                    attempts: *attempts,
                    last_error: Box::new(inner.clone()),
                }
            },
            CatcherError::CircuitBreakerOpen => CatcherError::CircuitBreakerOpen,
            CatcherError::QueueTimeout(ms) => CatcherError::QueueTimeout(*ms),
            CatcherError::EncodeError(m) => CatcherError::EncodeError(m.clone()),
            CatcherError::DecodeError(m) => CatcherError::DecodeError(m.clone()),
            CatcherError::InvalidConfig(m) => CatcherError::InvalidConfig(m.clone()),
            CatcherError::SseTimeout(ms) => CatcherError::SseTimeout(*ms),
            CatcherError::Internal(m) => CatcherError::Internal(m.clone()),
        }
    }
}

} // verus!
