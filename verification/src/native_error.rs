//! The structured form in which errors are handed to JavaScript callers.

use vstd::prelude::*;
use vstd::string::*;
use crate::error::{CatcherError, ErrorCategory, display, spec_category};

verus! {

/// The prefix that marks a structured error in a JavaScript error's reason.
pub const NATIVE_ERROR_PREFIX: &'static str = "CATCHER_ERROR:";

/// Whitelisted details of an error; absent fields are left out when written.
#[derive(Debug)]
pub struct NativeErrorDetails {
    pub status: Option<u16>,
    pub body: Option<String>,
    pub timeout_ms: Option<u64>,
    pub host: Option<String>,
    pub reason: Option<String>,
    pub attempts: Option<u32>,
    pub last_error: Option<Box<NativeErrorPayload>>,
}

/// A stable, structured description of an error.
#[derive(Debug)]
pub struct NativeErrorPayload {
    pub code: &'static str,
    pub phase: &'static str,
    pub retryable: bool,
    pub message: String,
    pub details: NativeErrorDetails,
}

/// The stable code of an error.
pub open spec fn error_code(e: CatcherError) -> Seq<char> {
    match e {
        CatcherError::ConnectionTimeout(_) => "CONNECTION_TIMEOUT"@,
        CatcherError::RequestTimeout(_) => "REQUEST_TIMEOUT"@,
        CatcherError::TlsError(_) => "TLS_ERROR"@,
        CatcherError::DnsError { .. } => "DNS_ERROR"@,
        CatcherError::ConnectionError { .. } => "CONNECTION_ERROR"@,
        CatcherError::TransportError(_) => "TRANSPORT_ERROR"@,
        CatcherError::HttpError { .. } => "HTTP_ERROR"@,
        CatcherError::WsHandshakeTimeout(_) => "WS_HANDSHAKE_TIMEOUT"@,
        CatcherError::WsDisconnected { .. } => "WS_DISCONNECTED"@,
        CatcherError::WsAllEndpointsFailed { .. } => "WS_ALL_ENDPOINTS_FAILED"@,
        CatcherError::RetryExhausted { .. } => "RETRY_EXHAUSTED"@,
        CatcherError::CircuitBreakerOpen => "CIRCUIT_BREAKER_OPEN"@,
        CatcherError::QueueTimeout(_) => "QUEUE_TIMEOUT"@,
        CatcherError::EncodeError(_) => "ENCODE_ERROR"@,
        CatcherError::DecodeError(_) => "DECODE_ERROR"@,
        CatcherError::InvalidConfig(_) => "INVALID_CONFIG"@,
        CatcherError::SseTimeout(_) => "SSE_TIMEOUT"@,
        CatcherError::Internal(_) => "INTERNAL_ERROR"@,
    }
}

/// The position of an error's variant in the declaration of `CatcherError`.
pub open spec fn variant_index(e: CatcherError) -> int {
    match e {
        CatcherError::ConnectionTimeout(_) => 0,
        CatcherError::RequestTimeout(_) => 1,
        CatcherError::TlsError(_) => 2,
        CatcherError::DnsError { .. } => 3,
        CatcherError::ConnectionError { .. } => 4,
        CatcherError::TransportError(_) => 5,
        CatcherError::HttpError { .. } => 6,
        CatcherError::WsHandshakeTimeout(_) => 7,
        CatcherError::WsDisconnected { .. } => 8,
        CatcherError::WsAllEndpointsFailed { .. } => 9,
        CatcherError::RetryExhausted { .. } => 10,
        CatcherError::CircuitBreakerOpen => 11,
        CatcherError::QueueTimeout(_) => 12,
        CatcherError::EncodeError(_) => 13,
        CatcherError::DecodeError(_) => 14,
        CatcherError::InvalidConfig(_) => 15,
        CatcherError::SseTimeout(_) => 16,
        CatcherError::Internal(_) => 17,
    }
}

/// The variant position that a payload code stands for, or -1 for a text
/// that is no code.
pub open spec fn code_variant(c: Seq<char>) -> int {
    if c == "CONNECTION_TIMEOUT"@ {
        0
    } else if c == "REQUEST_TIMEOUT"@ {
        1
    } else if c == "TLS_ERROR"@ {
        2
    } else if c == "DNS_ERROR"@ {
        3
    } else if c == "CONNECTION_ERROR"@ {
        4
    } else if c == "TRANSPORT_ERROR"@ {
        5
    } else if c == "HTTP_ERROR"@ {
        6
    } else if c == "WS_HANDSHAKE_TIMEOUT"@ {
        7
    } else if c == "WS_DISCONNECTED"@ {
        8
    } else if c == "WS_ALL_ENDPOINTS_FAILED"@ {
        9
    } else if c == "RETRY_EXHAUSTED"@ {
        10
    } else if c == "CIRCUIT_BREAKER_OPEN"@ {
        11
    } else if c == "QUEUE_TIMEOUT"@ {
        12
    } else if c == "ENCODE_ERROR"@ {
        13
    } else if c == "DECODE_ERROR"@ {
        14
    } else if c == "INVALID_CONFIG"@ {
        15
    } else if c == "SSE_TIMEOUT"@ {
        16
    } else if c == "INTERNAL_ERROR"@ {
        17
    } else {
        -1
    }
}

/// The payload code names the error's variant: read back, it gives that
/// variant and no other, so two errors with the same code are of the same
/// variant (a DNS failure never looks like a refused connection).
pub proof fn error_codes_name_the_variant(e: CatcherError)
    ensures
        code_variant(error_code(e)) == variant_index(e),
{
    match e {
        CatcherError::ConnectionTimeout(_) => {
            reveal_strlit("CONNECTION_TIMEOUT");
        },
        CatcherError::RequestTimeout(_) => {
            reveal_strlit("REQUEST_TIMEOUT");
            reveal_strlit("CONNECTION_TIMEOUT");
            assert("CONNECTION_TIMEOUT"@.len() != "REQUEST_TIMEOUT"@.len());
        },
        CatcherError::TlsError(_) => {
            reveal_strlit("TLS_ERROR");
            reveal_strlit("CONNECTION_TIMEOUT");
            assert("CONNECTION_TIMEOUT"@.len() != "TLS_ERROR"@.len());
            reveal_strlit("REQUEST_TIMEOUT");
            assert("REQUEST_TIMEOUT"@.len() != "TLS_ERROR"@.len());
        },
        CatcherError::DnsError { .. } => {
            reveal_strlit("DNS_ERROR");
            reveal_strlit("CONNECTION_TIMEOUT");
            assert("CONNECTION_TIMEOUT"@.len() != "DNS_ERROR"@.len());
            reveal_strlit("REQUEST_TIMEOUT");
            assert("REQUEST_TIMEOUT"@.len() != "DNS_ERROR"@.len());
            reveal_strlit("TLS_ERROR");
            assert("TLS_ERROR"@[0] != "DNS_ERROR"@[0]);
        },
        CatcherError::ConnectionError { .. } => {
            reveal_strlit("CONNECTION_ERROR");
            reveal_strlit("CONNECTION_TIMEOUT");
            assert("CONNECTION_TIMEOUT"@.len() != "CONNECTION_ERROR"@.len());
            reveal_strlit("REQUEST_TIMEOUT");
            assert("REQUEST_TIMEOUT"@.len() != "CONNECTION_ERROR"@.len());
            reveal_strlit("TLS_ERROR");
            assert("TLS_ERROR"@.len() != "CONNECTION_ERROR"@.len());
            reveal_strlit("DNS_ERROR");
            assert("DNS_ERROR"@.len() != "CONNECTION_ERROR"@.len());
        },
        CatcherError::TransportError(_) => {
            reveal_strlit("TRANSPORT_ERROR");
            reveal_strlit("CONNECTION_TIMEOUT");
            assert("CONNECTION_TIMEOUT"@.len() != "TRANSPORT_ERROR"@.len());
            reveal_strlit("REQUEST_TIMEOUT");
            assert("REQUEST_TIMEOUT"@[0] != "TRANSPORT_ERROR"@[0]);
            reveal_strlit("TLS_ERROR");
            assert("TLS_ERROR"@.len() != "TRANSPORT_ERROR"@.len());
            reveal_strlit("DNS_ERROR");
            assert("DNS_ERROR"@.len() != "TRANSPORT_ERROR"@.len());
            reveal_strlit("CONNECTION_ERROR");
            assert("CONNECTION_ERROR"@.len() != "TRANSPORT_ERROR"@.len());
        },
        CatcherError::HttpError { .. } => {
            reveal_strlit("HTTP_ERROR");
            reveal_strlit("CONNECTION_TIMEOUT");
            assert("CONNECTION_TIMEOUT"@.len() != "HTTP_ERROR"@.len());
            reveal_strlit("REQUEST_TIMEOUT");
            assert("REQUEST_TIMEOUT"@.len() != "HTTP_ERROR"@.len());
            reveal_strlit("TLS_ERROR");
            assert("TLS_ERROR"@.len() != "HTTP_ERROR"@.len());
            reveal_strlit("DNS_ERROR");
            assert("DNS_ERROR"@.len() != "HTTP_ERROR"@.len());
            reveal_strlit("CONNECTION_ERROR");
            assert("CONNECTION_ERROR"@.len() != "HTTP_ERROR"@.len());
            reveal_strlit("TRANSPORT_ERROR");
            assert("TRANSPORT_ERROR"@.len() != "HTTP_ERROR"@.len());
        },
        CatcherError::WsHandshakeTimeout(_) => {
            reveal_strlit("WS_HANDSHAKE_TIMEOUT");
            reveal_strlit("CONNECTION_TIMEOUT");
            assert("CONNECTION_TIMEOUT"@.len() != "WS_HANDSHAKE_TIMEOUT"@.len());
            reveal_strlit("REQUEST_TIMEOUT");
            assert("REQUEST_TIMEOUT"@.len() != "WS_HANDSHAKE_TIMEOUT"@.len());
            reveal_strlit("TLS_ERROR");
            assert("TLS_ERROR"@.len() != "WS_HANDSHAKE_TIMEOUT"@.len());
            reveal_strlit("DNS_ERROR");
            assert("DNS_ERROR"@.len() != "WS_HANDSHAKE_TIMEOUT"@.len());
            reveal_strlit("CONNECTION_ERROR");
            assert("CONNECTION_ERROR"@.len() != "WS_HANDSHAKE_TIMEOUT"@.len());
            reveal_strlit("TRANSPORT_ERROR");
            assert("TRANSPORT_ERROR"@.len() != "WS_HANDSHAKE_TIMEOUT"@.len());
            reveal_strlit("HTTP_ERROR");
            assert("HTTP_ERROR"@.len() != "WS_HANDSHAKE_TIMEOUT"@.len());
        },
        CatcherError::WsDisconnected { .. } => {
            reveal_strlit("WS_DISCONNECTED");
            reveal_strlit("CONNECTION_TIMEOUT");
            assert("CONNECTION_TIMEOUT"@.len() != "WS_DISCONNECTED"@.len());
            reveal_strlit("REQUEST_TIMEOUT");
            assert("REQUEST_TIMEOUT"@[0] != "WS_DISCONNECTED"@[0]);
            reveal_strlit("TLS_ERROR");
            assert("TLS_ERROR"@.len() != "WS_DISCONNECTED"@.len());
            reveal_strlit("DNS_ERROR");
            assert("DNS_ERROR"@.len() != "WS_DISCONNECTED"@.len());
            reveal_strlit("CONNECTION_ERROR");
            assert("CONNECTION_ERROR"@.len() != "WS_DISCONNECTED"@.len());
            reveal_strlit("TRANSPORT_ERROR");
            assert("TRANSPORT_ERROR"@[0] != "WS_DISCONNECTED"@[0]);
            reveal_strlit("HTTP_ERROR");
            assert("HTTP_ERROR"@.len() != "WS_DISCONNECTED"@.len());
            reveal_strlit("WS_HANDSHAKE_TIMEOUT");
            assert("WS_HANDSHAKE_TIMEOUT"@.len() != "WS_DISCONNECTED"@.len());
        },
        CatcherError::WsAllEndpointsFailed { .. } => {
            reveal_strlit("WS_ALL_ENDPOINTS_FAILED");
            reveal_strlit("CONNECTION_TIMEOUT");
            assert("CONNECTION_TIMEOUT"@.len() != "WS_ALL_ENDPOINTS_FAILED"@.len());
            reveal_strlit("REQUEST_TIMEOUT");
            assert("REQUEST_TIMEOUT"@.len() != "WS_ALL_ENDPOINTS_FAILED"@.len());
            reveal_strlit("TLS_ERROR");
            assert("TLS_ERROR"@.len() != "WS_ALL_ENDPOINTS_FAILED"@.len());
            reveal_strlit("DNS_ERROR");
            assert("DNS_ERROR"@.len() != "WS_ALL_ENDPOINTS_FAILED"@.len());
            reveal_strlit("CONNECTION_ERROR");
            assert("CONNECTION_ERROR"@.len() != "WS_ALL_ENDPOINTS_FAILED"@.len());
            reveal_strlit("TRANSPORT_ERROR");
            assert("TRANSPORT_ERROR"@.len() != "WS_ALL_ENDPOINTS_FAILED"@.len());
            reveal_strlit("HTTP_ERROR");
            assert("HTTP_ERROR"@.len() != "WS_ALL_ENDPOINTS_FAILED"@.len());
            reveal_strlit("WS_HANDSHAKE_TIMEOUT");
            assert("WS_HANDSHAKE_TIMEOUT"@.len() != "WS_ALL_ENDPOINTS_FAILED"@.len());
            reveal_strlit("WS_DISCONNECTED");
            assert("WS_DISCONNECTED"@.len() != "WS_ALL_ENDPOINTS_FAILED"@.len());
        },
        CatcherError::RetryExhausted { .. } => {
            reveal_strlit("RETRY_EXHAUSTED");
            reveal_strlit("CONNECTION_TIMEOUT");
            assert("CONNECTION_TIMEOUT"@.len() != "RETRY_EXHAUSTED"@.len());
            reveal_strlit("REQUEST_TIMEOUT");
            assert("REQUEST_TIMEOUT"@[2] != "RETRY_EXHAUSTED"@[2]);
            reveal_strlit("TLS_ERROR");
            assert("TLS_ERROR"@.len() != "RETRY_EXHAUSTED"@.len());
            reveal_strlit("DNS_ERROR");
            assert("DNS_ERROR"@.len() != "RETRY_EXHAUSTED"@.len());
            reveal_strlit("CONNECTION_ERROR");
            assert("CONNECTION_ERROR"@.len() != "RETRY_EXHAUSTED"@.len());
            reveal_strlit("TRANSPORT_ERROR");
            assert("TRANSPORT_ERROR"@[0] != "RETRY_EXHAUSTED"@[0]);
            reveal_strlit("HTTP_ERROR");
            assert("HTTP_ERROR"@.len() != "RETRY_EXHAUSTED"@.len());
            reveal_strlit("WS_HANDSHAKE_TIMEOUT");
            assert("WS_HANDSHAKE_TIMEOUT"@.len() != "RETRY_EXHAUSTED"@.len());
            reveal_strlit("WS_DISCONNECTED");
            assert("WS_DISCONNECTED"@[0] != "RETRY_EXHAUSTED"@[0]);
            reveal_strlit("WS_ALL_ENDPOINTS_FAILED");
            assert("WS_ALL_ENDPOINTS_FAILED"@.len() != "RETRY_EXHAUSTED"@.len());
        },
        CatcherError::CircuitBreakerOpen => {
            reveal_strlit("CIRCUIT_BREAKER_OPEN");
            reveal_strlit("CONNECTION_TIMEOUT");
            assert("CONNECTION_TIMEOUT"@.len() != "CIRCUIT_BREAKER_OPEN"@.len());
            reveal_strlit("REQUEST_TIMEOUT");
            assert("REQUEST_TIMEOUT"@.len() != "CIRCUIT_BREAKER_OPEN"@.len());
            reveal_strlit("TLS_ERROR");
            assert("TLS_ERROR"@.len() != "CIRCUIT_BREAKER_OPEN"@.len());
            reveal_strlit("DNS_ERROR");
            assert("DNS_ERROR"@.len() != "CIRCUIT_BREAKER_OPEN"@.len());
            reveal_strlit("CONNECTION_ERROR");
            assert("CONNECTION_ERROR"@.len() != "CIRCUIT_BREAKER_OPEN"@.len());
            reveal_strlit("TRANSPORT_ERROR");
            assert("TRANSPORT_ERROR"@.len() != "CIRCUIT_BREAKER_OPEN"@.len());
            reveal_strlit("HTTP_ERROR");
            assert("HTTP_ERROR"@.len() != "CIRCUIT_BREAKER_OPEN"@.len());
            reveal_strlit("WS_HANDSHAKE_TIMEOUT");
            assert("WS_HANDSHAKE_TIMEOUT"@[0] != "CIRCUIT_BREAKER_OPEN"@[0]);
            reveal_strlit("WS_DISCONNECTED");
            assert("WS_DISCONNECTED"@.len() != "CIRCUIT_BREAKER_OPEN"@.len());
            reveal_strlit("WS_ALL_ENDPOINTS_FAILED");
            assert("WS_ALL_ENDPOINTS_FAILED"@.len() != "CIRCUIT_BREAKER_OPEN"@.len());
            reveal_strlit("RETRY_EXHAUSTED");
            assert("RETRY_EXHAUSTED"@.len() != "CIRCUIT_BREAKER_OPEN"@.len());
        },
        CatcherError::QueueTimeout(_) => {
            reveal_strlit("QUEUE_TIMEOUT");
            reveal_strlit("CONNECTION_TIMEOUT");
            assert("CONNECTION_TIMEOUT"@.len() != "QUEUE_TIMEOUT"@.len());
            reveal_strlit("REQUEST_TIMEOUT");
            assert("REQUEST_TIMEOUT"@.len() != "QUEUE_TIMEOUT"@.len());
            reveal_strlit("TLS_ERROR");
            assert("TLS_ERROR"@.len() != "QUEUE_TIMEOUT"@.len());
            reveal_strlit("DNS_ERROR");
            assert("DNS_ERROR"@.len() != "QUEUE_TIMEOUT"@.len());
            reveal_strlit("CONNECTION_ERROR");
            assert("CONNECTION_ERROR"@.len() != "QUEUE_TIMEOUT"@.len());
            reveal_strlit("TRANSPORT_ERROR");
            assert("TRANSPORT_ERROR"@.len() != "QUEUE_TIMEOUT"@.len());
            reveal_strlit("HTTP_ERROR");
            assert("HTTP_ERROR"@.len() != "QUEUE_TIMEOUT"@.len());
            reveal_strlit("WS_HANDSHAKE_TIMEOUT");
            assert("WS_HANDSHAKE_TIMEOUT"@.len() != "QUEUE_TIMEOUT"@.len());
            reveal_strlit("WS_DISCONNECTED");
            assert("WS_DISCONNECTED"@.len() != "QUEUE_TIMEOUT"@.len());
            reveal_strlit("WS_ALL_ENDPOINTS_FAILED");
            assert("WS_ALL_ENDPOINTS_FAILED"@.len() != "QUEUE_TIMEOUT"@.len());
            reveal_strlit("RETRY_EXHAUSTED");
            assert("RETRY_EXHAUSTED"@.len() != "QUEUE_TIMEOUT"@.len());
            reveal_strlit("CIRCUIT_BREAKER_OPEN");
            assert("CIRCUIT_BREAKER_OPEN"@.len() != "QUEUE_TIMEOUT"@.len());
        },
        CatcherError::EncodeError(_) => {
            reveal_strlit("ENCODE_ERROR");
            reveal_strlit("CONNECTION_TIMEOUT");
            assert("CONNECTION_TIMEOUT"@.len() != "ENCODE_ERROR"@.len());
            reveal_strlit("REQUEST_TIMEOUT");
            assert("REQUEST_TIMEOUT"@.len() != "ENCODE_ERROR"@.len());
            reveal_strlit("TLS_ERROR");
            assert("TLS_ERROR"@.len() != "ENCODE_ERROR"@.len());
            reveal_strlit("DNS_ERROR");
            assert("DNS_ERROR"@.len() != "ENCODE_ERROR"@.len());
            reveal_strlit("CONNECTION_ERROR");
            assert("CONNECTION_ERROR"@.len() != "ENCODE_ERROR"@.len());
            reveal_strlit("TRANSPORT_ERROR");
            assert("TRANSPORT_ERROR"@.len() != "ENCODE_ERROR"@.len());
            reveal_strlit("HTTP_ERROR");
            assert("HTTP_ERROR"@.len() != "ENCODE_ERROR"@.len());
            reveal_strlit("WS_HANDSHAKE_TIMEOUT");
            assert("WS_HANDSHAKE_TIMEOUT"@.len() != "ENCODE_ERROR"@.len());
            reveal_strlit("WS_DISCONNECTED");
            assert("WS_DISCONNECTED"@.len() != "ENCODE_ERROR"@.len());
            reveal_strlit("WS_ALL_ENDPOINTS_FAILED");
            assert("WS_ALL_ENDPOINTS_FAILED"@.len() != "ENCODE_ERROR"@.len());
            reveal_strlit("RETRY_EXHAUSTED");
            assert("RETRY_EXHAUSTED"@.len() != "ENCODE_ERROR"@.len());
            reveal_strlit("CIRCUIT_BREAKER_OPEN");
            assert("CIRCUIT_BREAKER_OPEN"@.len() != "ENCODE_ERROR"@.len());
            reveal_strlit("QUEUE_TIMEOUT");
            assert("QUEUE_TIMEOUT"@.len() != "ENCODE_ERROR"@.len());
        },
        CatcherError::DecodeError(_) => {
            reveal_strlit("DECODE_ERROR");
            reveal_strlit("CONNECTION_TIMEOUT");
            assert("CONNECTION_TIMEOUT"@.len() != "DECODE_ERROR"@.len());
            reveal_strlit("REQUEST_TIMEOUT");
            assert("REQUEST_TIMEOUT"@.len() != "DECODE_ERROR"@.len());
            reveal_strlit("TLS_ERROR");
            assert("TLS_ERROR"@.len() != "DECODE_ERROR"@.len());
            reveal_strlit("DNS_ERROR");
            assert("DNS_ERROR"@.len() != "DECODE_ERROR"@.len());
            reveal_strlit("CONNECTION_ERROR");
            assert("CONNECTION_ERROR"@.len() != "DECODE_ERROR"@.len());
            reveal_strlit("TRANSPORT_ERROR");
            assert("TRANSPORT_ERROR"@.len() != "DECODE_ERROR"@.len());
            reveal_strlit("HTTP_ERROR");
            assert("HTTP_ERROR"@.len() != "DECODE_ERROR"@.len());
            reveal_strlit("WS_HANDSHAKE_TIMEOUT");
            assert("WS_HANDSHAKE_TIMEOUT"@.len() != "DECODE_ERROR"@.len());
            reveal_strlit("WS_DISCONNECTED");
            assert("WS_DISCONNECTED"@.len() != "DECODE_ERROR"@.len());
            reveal_strlit("WS_ALL_ENDPOINTS_FAILED");
            assert("WS_ALL_ENDPOINTS_FAILED"@.len() != "DECODE_ERROR"@.len());
            reveal_strlit("RETRY_EXHAUSTED");
            assert("RETRY_EXHAUSTED"@.len() != "DECODE_ERROR"@.len());
            reveal_strlit("CIRCUIT_BREAKER_OPEN");
            assert("CIRCUIT_BREAKER_OPEN"@.len() != "DECODE_ERROR"@.len());
            reveal_strlit("QUEUE_TIMEOUT");
            assert("QUEUE_TIMEOUT"@.len() != "DECODE_ERROR"@.len());
            reveal_strlit("ENCODE_ERROR");
            assert("ENCODE_ERROR"@[0] != "DECODE_ERROR"@[0]);
        },
        CatcherError::InvalidConfig(_) => {
            reveal_strlit("INVALID_CONFIG");
            reveal_strlit("CONNECTION_TIMEOUT");
            assert("CONNECTION_TIMEOUT"@.len() != "INVALID_CONFIG"@.len());
            reveal_strlit("REQUEST_TIMEOUT");
            assert("REQUEST_TIMEOUT"@.len() != "INVALID_CONFIG"@.len());
            reveal_strlit("TLS_ERROR");
            assert("TLS_ERROR"@.len() != "INVALID_CONFIG"@.len());
            reveal_strlit("DNS_ERROR");
            assert("DNS_ERROR"@.len() != "INVALID_CONFIG"@.len());
            reveal_strlit("CONNECTION_ERROR");
            assert("CONNECTION_ERROR"@.len() != "INVALID_CONFIG"@.len());
            reveal_strlit("TRANSPORT_ERROR");
            assert("TRANSPORT_ERROR"@.len() != "INVALID_CONFIG"@.len());
            reveal_strlit("HTTP_ERROR");
            assert("HTTP_ERROR"@.len() != "INVALID_CONFIG"@.len());
            reveal_strlit("WS_HANDSHAKE_TIMEOUT");
            assert("WS_HANDSHAKE_TIMEOUT"@.len() != "INVALID_CONFIG"@.len());
            reveal_strlit("WS_DISCONNECTED");
            assert("WS_DISCONNECTED"@.len() != "INVALID_CONFIG"@.len());
            reveal_strlit("WS_ALL_ENDPOINTS_FAILED");
            assert("WS_ALL_ENDPOINTS_FAILED"@.len() != "INVALID_CONFIG"@.len());
            reveal_strlit("RETRY_EXHAUSTED");
            assert("RETRY_EXHAUSTED"@.len() != "INVALID_CONFIG"@.len());
            reveal_strlit("CIRCUIT_BREAKER_OPEN");
            assert("CIRCUIT_BREAKER_OPEN"@.len() != "INVALID_CONFIG"@.len());
            reveal_strlit("QUEUE_TIMEOUT");
            assert("QUEUE_TIMEOUT"@.len() != "INVALID_CONFIG"@.len());
            reveal_strlit("ENCODE_ERROR");
            assert("ENCODE_ERROR"@.len() != "INVALID_CONFIG"@.len());
            reveal_strlit("DECODE_ERROR");
            assert("DECODE_ERROR"@.len() != "INVALID_CONFIG"@.len());
        },
        CatcherError::SseTimeout(_) => {
            reveal_strlit("SSE_TIMEOUT");
            reveal_strlit("CONNECTION_TIMEOUT");
            assert("CONNECTION_TIMEOUT"@.len() != "SSE_TIMEOUT"@.len());
            reveal_strlit("REQUEST_TIMEOUT");
            assert("REQUEST_TIMEOUT"@.len() != "SSE_TIMEOUT"@.len());
            reveal_strlit("TLS_ERROR");
            assert("TLS_ERROR"@.len() != "SSE_TIMEOUT"@.len());
            reveal_strlit("DNS_ERROR");
            assert("DNS_ERROR"@.len() != "SSE_TIMEOUT"@.len());
            reveal_strlit("CONNECTION_ERROR");
            assert("CONNECTION_ERROR"@.len() != "SSE_TIMEOUT"@.len());
            reveal_strlit("TRANSPORT_ERROR");
            assert("TRANSPORT_ERROR"@.len() != "SSE_TIMEOUT"@.len());
            reveal_strlit("HTTP_ERROR");
            assert("HTTP_ERROR"@.len() != "SSE_TIMEOUT"@.len());
            reveal_strlit("WS_HANDSHAKE_TIMEOUT");
            assert("WS_HANDSHAKE_TIMEOUT"@.len() != "SSE_TIMEOUT"@.len());
            reveal_strlit("WS_DISCONNECTED");
            assert("WS_DISCONNECTED"@.len() != "SSE_TIMEOUT"@.len());
            reveal_strlit("WS_ALL_ENDPOINTS_FAILED");
            assert("WS_ALL_ENDPOINTS_FAILED"@.len() != "SSE_TIMEOUT"@.len());
            reveal_strlit("RETRY_EXHAUSTED");
            assert("RETRY_EXHAUSTED"@.len() != "SSE_TIMEOUT"@.len());
            reveal_strlit("CIRCUIT_BREAKER_OPEN");
            assert("CIRCUIT_BREAKER_OPEN"@.len() != "SSE_TIMEOUT"@.len());
            reveal_strlit("QUEUE_TIMEOUT");
            assert("QUEUE_TIMEOUT"@.len() != "SSE_TIMEOUT"@.len());
            reveal_strlit("ENCODE_ERROR");
            assert("ENCODE_ERROR"@.len() != "SSE_TIMEOUT"@.len());
            reveal_strlit("DECODE_ERROR");
            assert("DECODE_ERROR"@.len() != "SSE_TIMEOUT"@.len());
            reveal_strlit("INVALID_CONFIG");
            assert("INVALID_CONFIG"@.len() != "SSE_TIMEOUT"@.len());
        },
        CatcherError::Internal(_) => {
            reveal_strlit("INTERNAL_ERROR");
            reveal_strlit("CONNECTION_TIMEOUT");
            assert("CONNECTION_TIMEOUT"@.len() != "INTERNAL_ERROR"@.len());
            reveal_strlit("REQUEST_TIMEOUT");
            assert("REQUEST_TIMEOUT"@.len() != "INTERNAL_ERROR"@.len());
            reveal_strlit("TLS_ERROR");
            assert("TLS_ERROR"@.len() != "INTERNAL_ERROR"@.len());
            reveal_strlit("DNS_ERROR");
            assert("DNS_ERROR"@.len() != "INTERNAL_ERROR"@.len());
            reveal_strlit("CONNECTION_ERROR");
            assert("CONNECTION_ERROR"@.len() != "INTERNAL_ERROR"@.len());
            reveal_strlit("TRANSPORT_ERROR");
            assert("TRANSPORT_ERROR"@.len() != "INTERNAL_ERROR"@.len());
            reveal_strlit("HTTP_ERROR");
            assert("HTTP_ERROR"@.len() != "INTERNAL_ERROR"@.len());
            reveal_strlit("WS_HANDSHAKE_TIMEOUT");
            assert("WS_HANDSHAKE_TIMEOUT"@.len() != "INTERNAL_ERROR"@.len());
            reveal_strlit("WS_DISCONNECTED");
            assert("WS_DISCONNECTED"@.len() != "INTERNAL_ERROR"@.len());
            reveal_strlit("WS_ALL_ENDPOINTS_FAILED");
            assert("WS_ALL_ENDPOINTS_FAILED"@.len() != "INTERNAL_ERROR"@.len());
            reveal_strlit("RETRY_EXHAUSTED");
            assert("RETRY_EXHAUSTED"@.len() != "INTERNAL_ERROR"@.len());
            reveal_strlit("CIRCUIT_BREAKER_OPEN");
            assert("CIRCUIT_BREAKER_OPEN"@.len() != "INTERNAL_ERROR"@.len());
            reveal_strlit("QUEUE_TIMEOUT");
            assert("QUEUE_TIMEOUT"@.len() != "INTERNAL_ERROR"@.len());
            reveal_strlit("ENCODE_ERROR");
            assert("ENCODE_ERROR"@.len() != "INTERNAL_ERROR"@.len());
            reveal_strlit("DECODE_ERROR");
            assert("DECODE_ERROR"@.len() != "INTERNAL_ERROR"@.len());
            reveal_strlit("INVALID_CONFIG");
            assert("INVALID_CONFIG"@[2] != "INTERNAL_ERROR"@[2]);
            reveal_strlit("SSE_TIMEOUT");
            assert("SSE_TIMEOUT"@.len() != "INTERNAL_ERROR"@.len());
        },
    }
}

/// Errors of different variants get different payload codes.
pub proof fn error_codes_tell_variants_apart(e1: CatcherError, e2: CatcherError)
    requires
        variant_index(e1) != variant_index(e2),
    ensures
        error_code(e1) != error_code(e2),
{
    error_codes_name_the_variant(e1);
    error_codes_name_the_variant(e2);
}

/// The phase of a request in which an error arises.
pub open spec fn error_phase(e: CatcherError) -> Seq<char> {
    match e {
        CatcherError::ConnectionTimeout(_) => "connect"@,
        CatcherError::RequestTimeout(_) => "request"@,
        CatcherError::TlsError(_) => "tls"@,
        CatcherError::DnsError { .. } => "dns"@,
        CatcherError::ConnectionError { .. } => "connect"@,
        CatcherError::TransportError(_) => "request"@,
        CatcherError::HttpError { .. } => "response"@,
        CatcherError::WsHandshakeTimeout(_) => "connect"@,
        CatcherError::WsDisconnected { .. } => "request"@,
        CatcherError::WsAllEndpointsFailed { .. } => "connect"@,
        CatcherError::RetryExhausted { .. } => "request"@,
        CatcherError::CircuitBreakerOpen => "request"@,
        CatcherError::QueueTimeout(_) => "queue"@,
        CatcherError::EncodeError(_) => "encode"@,
        CatcherError::DecodeError(_) => "decode"@,
        CatcherError::InvalidConfig(_) => "config"@,
        CatcherError::SseTimeout(_) => "request"@,
        CatcherError::Internal(_) => "internal"@,
    }
}

/// A string field of the details holds exactly `v`.
pub open spec fn text_is(f: Option<String>, v: Seq<char>) -> bool {
    f matches Some(s) && s@ == v
}

/// Details that hold nothing but what `fits` adds.
pub open spec fn details_fit(d: NativeErrorDetails, e: CatcherError) -> bool
    decreases e, 0nat,
{
    &&& d.status == (match e {
        CatcherError::HttpError { status, .. } => Some(status),
        CatcherError::WsDisconnected { code, .. } => Some(code),
        _ => None::<u16>,
    })
    &&& d.timeout_ms == (match e {
        CatcherError::ConnectionTimeout(ms) => Some(ms),
        CatcherError::RequestTimeout(ms) => Some(ms),
        CatcherError::WsHandshakeTimeout(ms) => Some(ms),
        CatcherError::QueueTimeout(ms) => Some(ms),
        CatcherError::SseTimeout(ms) => Some(ms),
        _ => None::<u64>,
    })
    &&& d.attempts == (match e {
        CatcherError::WsAllEndpointsFailed { count } => if count <= u32::MAX {
            Some(count as u32)
        } else {
            None
        },
        CatcherError::RetryExhausted { attempts, .. } => Some(attempts),
        _ => None::<u32>,
    })
    &&& match e {
        CatcherError::HttpError { body, .. } => text_is(d.body, body@),
        _ => d.body is None,
    }
    &&& match e {
        CatcherError::DnsError { host, .. } => text_is(d.host, host@),
        CatcherError::ConnectionError { host, .. } => text_is(d.host, host@),
        _ => d.host is None,
    }
    &&& match e {
        CatcherError::TlsError(r) => text_is(d.reason, r@),
        CatcherError::DnsError { reason, .. } => text_is(d.reason, reason@),
        CatcherError::ConnectionError { reason, .. } => text_is(d.reason, reason@),
        CatcherError::TransportError(r) => text_is(d.reason, r@),
        CatcherError::WsDisconnected { reason, .. } => text_is(d.reason, reason@),
        CatcherError::EncodeError(r) => text_is(d.reason, r@),
        CatcherError::DecodeError(r) => text_is(d.reason, r@),
        CatcherError::InvalidConfig(r) => text_is(d.reason, r@),
        CatcherError::Internal(r) => text_is(d.reason, r@),
        _ => d.reason is None,
    }
    &&& match e {
        CatcherError::RetryExhausted { last_error, .. } => match d.last_error {
            Some(p) => fits(*p, *last_error),
            None => false,
        },
        _ => d.last_error is None,
    }
}

/// `p` is the structured description of `e`: its code, phase, whether it is
/// retryable, its message, and its whitelisted details (for an exhausted
/// retry, the description of the last error too).
pub open spec fn fits(p: NativeErrorPayload, e: CatcherError) -> bool
    decreases e, 1nat,
{
    &&& p.code@ == error_code(e)
    &&& p.phase@ == error_phase(e)
    &&& p.retryable == (spec_category(e) == ErrorCategory::Retryable)
    &&& p.message@ == display(e)
    &&& details_fit(p.details, e)
}

fn no_details() -> (d: NativeErrorDetails)
    ensures
        d.status is None,
        d.body is None,
        d.timeout_ms is None,
        d.host is None,
        d.reason is None,
        d.attempts is None,
        d.last_error is None,
{
    NativeErrorDetails {
        status: None,
        body: None,
        timeout_ms: None,
        host: None,
        reason: None,
        attempts: None,
        last_error: None,
    }
}

fn timeout_details(ms: u64) -> (d: NativeErrorDetails)
    ensures
        d.timeout_ms == Some(ms),
        d.status is None,
        d.body is None,
        d.host is None,
        d.reason is None,
        d.attempts is None,
        d.last_error is None,
{
    let mut d = no_details();
    d.timeout_ms = Some(ms);
    d
}

fn reason_details(r: &String) -> (d: NativeErrorDetails)
    ensures
        text_is(d.reason, r@),
        d.timeout_ms is None,
        d.status is None,
        d.body is None,
        d.host is None,
        d.attempts is None,
        d.last_error is None,
{
    let mut d = no_details();
    d.reason = Some(r.clone());
    d
}

fn host_reason_details(h: &String, r: &String) -> (d: NativeErrorDetails)
    ensures
        text_is(d.host, h@),
        text_is(d.reason, r@),
        d.timeout_ms is None,
        d.status is None,
        d.body is None,
        d.attempts is None,
        d.last_error is None,
{
    let mut d = no_details();
    d.host = Some(h.clone());
    d.reason = Some(r.clone());
    d
}

impl NativeErrorPayload {
    /// The structured description of an error.
    pub fn from(error: &CatcherError) -> (p: NativeErrorPayload)
        ensures
            fits(p, *error),
        decreases error,
    {
        let retryable = error.category() == ErrorCategory::Retryable;
        let message = error.to_string();
        let (code, phase, details): (&'static str, &'static str, NativeErrorDetails) = match error {
            CatcherError::ConnectionTimeout(ms) => ("CONNECTION_TIMEOUT", "connect", timeout_details(*ms)),
            CatcherError::RequestTimeout(ms) => ("REQUEST_TIMEOUT", "request", timeout_details(*ms)),
            CatcherError::TlsError(r) => ("TLS_ERROR", "tls", reason_details(r)),
            CatcherError::DnsError { host, reason } => ("DNS_ERROR", "dns", host_reason_details(host, reason)),
            CatcherError::ConnectionError { host, reason } => ("CONNECTION_ERROR", "connect", host_reason_details(host, reason)),
            CatcherError::TransportError(r) => ("TRANSPORT_ERROR", "request", reason_details(r)),
            CatcherError::HttpError { status, body } => {
                let mut d = no_details();
                d.status = Some(*status);
                d.body = Some(body.clone());
                ("HTTP_ERROR", "response", d)
            },
            CatcherError::WsHandshakeTimeout(ms) => ("WS_HANDSHAKE_TIMEOUT", "connect", timeout_details(*ms)),
            CatcherError::WsDisconnected { code, reason } => {
                let mut d = reason_details(reason);
                d.status = Some(*code);
                ("WS_DISCONNECTED", "request", d)
            },
            CatcherError::WsAllEndpointsFailed { count } => {
                let mut d = no_details();
                d.attempts = if *count <= (u32::MAX as usize) { Some(*count as u32) } else { None };
                ("WS_ALL_ENDPOINTS_FAILED", "connect", d)
            },
            CatcherError::RetryExhausted { attempts, last_error } => {
                let inner: &CatcherError = last_error;
                let mut d = no_details();
                d.attempts = Some(*attempts);
                d.last_error = Some(Box::new(NativeErrorPayload::from(inner)));
                ("RETRY_EXHAUSTED", "request", d)
            },
            CatcherError::CircuitBreakerOpen => ("CIRCUIT_BREAKER_OPEN", "request", no_details()),
            CatcherError::QueueTimeout(ms) => ("QUEUE_TIMEOUT", "queue", timeout_details(*ms)),
            CatcherError::EncodeError(r) => ("ENCODE_ERROR", "encode", reason_details(r)),
            CatcherError::DecodeError(r) => ("DECODE_ERROR", "decode", reason_details(r)),
            CatcherError::InvalidConfig(r) => ("INVALID_CONFIG", "config", reason_details(r)),
            CatcherError::SseTimeout(ms) => ("SSE_TIMEOUT", "request", timeout_details(*ms)),
            CatcherError::Internal(r) => ("INTERNAL_ERROR", "internal", reason_details(r)),
        };
        NativeErrorPayload { code, phase, retryable, message, details }
    }
}

/// The reason text of the JavaScript error that carries `error`: the
/// prefix and the serialized description; when serialization failed, a
/// message naming the serialization error and the original error.
pub open spec fn spec_native_error_reason(error: CatcherError, serialized: Result<Seq<char>, Seq<char>>) -> Seq<char> {
    match serialized {
        Ok(json) => "CATCHER_ERROR:"@ + json,
        Err(e) => "failed to serialize catcher error: "@ + e + "; original error: "@ + display(error),
    }
}

/// The reason text of the JavaScript error that carries `error`, given the
/// outcome of serializing its description.
pub fn native_error_reason(error: &CatcherError, serialized: Result<String, String>) -> (r: String)
    ensures
        r@ == spec_native_error_reason(*error, match serialized { Ok(j) => Ok(j@), Err(e) => Err(e@) }),
{
    match serialized {
        Ok(json) => {
            let mut s = String::from_str(NATIVE_ERROR_PREFIX);
            proof {
                reveal_strlit("CATCHER_ERROR:");
            }
            s.append(json.as_str());
            s
        },
        Err(e) => {
            let mut s = String::from_str("failed to serialize catcher error: ");
            s.append(e.as_str());
            s.append("; original error: ");
            error.write_message(&mut s);
            s
        },
    }
}

/// The payload handed to JavaScript names the error's variant by its code:
/// JavaScript callers can tell every kind of failure from every other.
pub proof fn payload_code_names_the_variant(p: NativeErrorPayload, e: CatcherError)
    requires
        fits(p, e),
    ensures
        code_variant(p.code@) == variant_index(e),
{
    error_codes_name_the_variant(e);
}

} // verus!
