use catcher::http_request::{build_http_request, request_parts, HttpMethod, RequestOptions};

#[test]
fn request_without_options_has_no_headers_timeout_or_content_type() {
    let (headers, timeout, content_type) = request_parts(None);
    assert!(headers.is_empty());
    assert_eq!(timeout, None);
    assert_eq!(content_type, None);

    let req = build_http_request(HttpMethod::GET, "https://api.example.com/a".to_string(), None, None);
    assert_eq!(req.method, HttpMethod::GET);
    assert_eq!(req.url, "https://api.example.com/a");
    assert!(req.headers.is_empty());
    assert!(req.body.is_none());
    assert!(req.content_type.is_none());
    assert!(req.timeout_ms.is_none());
}

#[test]
fn request_takes_headers_timeout_and_content_type_from_options() {
    let options = RequestOptions {
        headers: Some(vec![("X-Trace".to_string(), "1".to_string())]),
        timeout_ms: Some(u32::MAX),
        content_type: Some("application/json".to_string()),
    };
    let req = build_http_request(
        HttpMethod::POST,
        "https://api.example.com/messages".to_string(),
        Some(b"{\"text\":\"hello\"}".to_vec()),
        Some(options),
    );
    assert_eq!(req.method, HttpMethod::POST);
    assert_eq!(req.headers, vec![("X-Trace".to_string(), "1".to_string())]);
    assert_eq!(req.timeout_ms, Some(4_294_967_295u64));
    assert_eq!(req.content_type.as_deref(), Some("application/json"));
    assert_eq!(req.body.as_deref(), Some(&b"{\"text\":\"hello\"}"[..]));
}

#[test]
fn options_without_headers_give_an_empty_header_list() {
    let options = RequestOptions { headers: None, timeout_ms: None, content_type: None };
    let req = build_http_request(HttpMethod::DELETE, "/x".to_string(), None, Some(options));
    assert!(req.headers.is_empty());
    assert_eq!(req.timeout_ms, None);
    assert_eq!(req.content_type, None);
}
