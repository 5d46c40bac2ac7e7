//! How the JavaScript-facing HTTP client turns a call and its per-request
//! options into the request it hands to the transport.

use vstd::prelude::*;
use crate::text::opt_text;

verus! {

/// The HTTP methods the client offers as calls of their own.
#[derive(Debug, Clone, Copy, PartialEq, Eq, Structural)]
pub enum HttpMethod {
    GET,
    POST,
    PUT,
    DELETE,
    PATCH,
}

/// Per-request options: extra headers (name and value), a timeout in
/// milliseconds and a content type.
pub struct RequestOptions {
    pub headers: Option<Vec<(String, String)>>,
    pub timeout_ms: Option<u32>,
    pub content_type: Option<String>,
}

/// The request handed to the transport.
pub struct HttpRequest {
    pub method: HttpMethod,
    pub url: String,
    pub headers: Vec<(String, String)>,
    pub body: Option<Vec<u8>>,
    pub content_type: Option<String>,
    pub timeout_ms: Option<u64>,
}

/// The headers that a request carries: those of its options, or none.
pub open spec fn option_headers(options: Option<RequestOptions>) -> Seq<(String, String)> {
    match options {
        Some(o) => match o.headers {
            Some(h) => h@,
            None => Seq::empty(),
        },
        None => Seq::empty(),
    }
}

/// The timeout of a request: that of its options, widened to 64 bits.
pub open spec fn option_timeout(options: Option<RequestOptions>) -> Option<u64> {
    match options {
        Some(o) => match o.timeout_ms {
            Some(t) => Some(t as u64),
            None => None,
        },
        None => None,
    }
}

/// The content type of a request: that of its options.
pub open spec fn option_content_type(options: Option<RequestOptions>) -> Option<Seq<char>> {
    match options {
        Some(o) => match o.content_type {
            Some(c) => Some(c@),
            None => None,
        },
        None => None,
    }
}

/// The view of an optional body.
pub open spec fn opt_bytes(b: Option<Vec<u8>>) -> Option<Seq<u8>> {
    match b {
        Some(v) => Some(v@),
        None => None,
    }
}

/// Splits the options of a request into its headers, its timeout and its
/// content type; without options there are no headers, no timeout and no
/// content type.
pub fn request_parts(options: Option<RequestOptions>) -> (r: (Vec<(String, String)>, Option<u64>, Option<String>))
    ensures
        r.0@ == option_headers(options),
        r.1 == option_timeout(options),
        opt_text(r.2) == option_content_type(options),
{
    match options {
        Some(opts) => {
            let headers = match opts.headers {
                Some(h) => h,
                None => Vec::new(),
            };
            let timeout_ms = match opts.timeout_ms {
                Some(t) => Some(t as u64),
                None => None,
            };
            (headers, timeout_ms, opts.content_type)
        },
        None => (Vec::new(), None, None),
    }
}

/// The request for a call: its method, address and body, with the headers,
/// timeout and content type of its options.
pub fn build_http_request(
    method: HttpMethod,
    url: String,
    body: Option<Vec<u8>>,
    options: Option<RequestOptions>,
) -> (r: HttpRequest)
    ensures
        r.method == method,
        r.url@ == url@,
        opt_bytes(r.body) == opt_bytes(body),
        r.headers@ == option_headers(options),
        r.timeout_ms == option_timeout(options),
        opt_text(r.content_type) == option_content_type(options),
{
    let (headers, timeout_ms, content_type) = request_parts(options);
    HttpRequest { method, url, headers, body, content_type, timeout_ms }
}

} // verus!
