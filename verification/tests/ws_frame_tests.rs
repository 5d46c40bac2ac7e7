use catcher::error::CatcherError;
use catcher::network::{ProxyConfig, ProxyMode};
use catcher::ws_backend::{proxy_after_network_change, uses_system_proxy};
use catcher::ws_codec::{incoming_binary, outgoing_frame};
use catcher::ws_config::WsClientConfig;
use catcher::ws_handle::{
    binary_command, close_command, network_changed_command, text_command, WsCommand, WsHandle,
};
use catcher::ws_request::{build_handshake_headers, build_request, request_host_port};

#[test]
fn handle_commands_carry_their_arguments() {
    assert!(matches!(text_command("hi"), WsCommand::Text(ref t) if t == "hi"));
    assert!(matches!(binary_command(&[7, 8, 9]), WsCommand::Binary(ref d) if d == &vec![7, 8, 9]));
    assert!(matches!(close_command(4000, "bye"), WsCommand::Close { code: 4000, ref reason } if reason == "bye"));
    assert!(matches!(network_changed_command(), WsCommand::NetworkChanged));
}

#[test]
fn handle_sends_exactly_the_caller_command() {
    let (tx, mut rx) = tokio::sync::mpsc::unbounded_channel::<WsCommand>();
    let handle = WsHandle::new("ws://first".to_string(), tx);
    handle.close(4001, "going away").unwrap();
    assert!(matches!(rx.try_recv(), Ok(WsCommand::Close { code: 4001, ref reason }) if reason == "going away"));
}

#[test]
fn cloned_handle_keeps_the_initial_url_and_channel() {
    let (tx, mut rx) = tokio::sync::mpsc::unbounded_channel::<WsCommand>();
    let handle = WsHandle::new("ws://first".to_string(), tx);
    let copy = handle.clone();
    assert_eq!(copy.url(), "ws://first");
    copy.send_text("from clone").unwrap();
    assert!(matches!(rx.try_recv(), Ok(WsCommand::Text(ref t)) if t == "from clone"));
}

#[test]
fn outgoing_frame_prefers_the_envelope() {
    assert_eq!(outgoing_frame(b"abc".to_vec(), false, Some(vec![1, 2])), (vec![1, 2], true));
    assert_eq!(outgoing_frame(b"abc".to_vec(), false, None), (b"abc".to_vec(), false));
    assert_eq!(outgoing_frame(vec![9], true, None), (vec![9], true));
}

#[test]
fn incoming_binary_uses_the_envelope_payload() {
    let config = WsClientConfig::default();
    assert_eq!(
        incoming_binary(vec![1, 2, 3], Some((b"text".to_vec(), false)), &config),
        (b"text".to_vec(), false)
    );
    assert_eq!(incoming_binary(vec![1, 2, 3], None, &config), (vec![1, 2, 3], true));
    let config = WsClientConfig { msgpack: true, ..Default::default() };
    // 0x81 0xa1 'a' 0x01 is the MessagePack map {"a": 1}.
    assert_eq!(
        incoming_binary(vec![0x81, 0xa1, b'a', 0x01], None, &config),
        (b"{\"a\":1}".to_vec(), false)
    );
}

fn proxy(mode: ProxyMode, url: Option<&str>, no_proxy: &[&str]) -> ProxyConfig {
    ProxyConfig {
        mode,
        url: url.map(str::to_string),
        auth: None,
        no_proxy: no_proxy.iter().map(|s| s.to_string()).collect(),
    }
}

#[test]
fn network_change_refreshes_only_a_system_proxy() {
    assert!(!uses_system_proxy(&None));
    assert!(!uses_system_proxy(&Some(proxy(ProxyMode::Manual, Some("http://p:1"), &[]))));
    assert!(uses_system_proxy(&Some(proxy(ProxyMode::System, None, &[]))));

    let manual = proxy_after_network_change(Some(proxy(ProxyMode::Manual, Some("http://p:1"), &["a"])), None).unwrap();
    assert_eq!(manual.mode, ProxyMode::Manual);
    assert_eq!(manual.url.as_deref(), Some("http://p:1"));
    assert!(proxy_after_network_change(None, None).is_none());

    let refreshed = proxy_after_network_change(
        Some(proxy(ProxyMode::System, None, &["local", "corp"])),
        Some(proxy(ProxyMode::Manual, Some("http://detected:8080"), &["corp"])),
    )
    .unwrap();
    assert_eq!(refreshed.mode, ProxyMode::Manual);
    assert_eq!(refreshed.url.as_deref(), Some("http://detected:8080"));
    assert_eq!(refreshed.no_proxy, vec!["corp".to_string(), "local".to_string()]);

    let nothing = proxy_after_network_change(Some(proxy(ProxyMode::System, None, &["local"])), None).unwrap();
    assert_eq!(nothing.mode, ProxyMode::System);
    assert!(nothing.url.is_none());
    assert_eq!(nothing.no_proxy, vec!["local".to_string()]);
}

#[test]
fn request_host_keeps_the_written_case() {
    let config = WsClientConfig::default();
    let req = build_request("wss://Example.COM/ws", &config).unwrap();
    let (host, port) = request_host_port(&req).unwrap();
    assert_eq!(host, "Example.COM");
    assert_eq!(port, 443);
    let req = build_request("ws://example.com:80/ws", &config).unwrap();
    assert_eq!(request_host_port(&req).unwrap(), ("example.com".to_string(), 80));
}

#[test]
fn header_names_follow_the_token_rule() {
    let ok = WsClientConfig {
        headers: vec![("X-Custom_Header.1!#$%&'*+^`|~".into(), "v".into())],
        ..Default::default()
    };
    assert!(build_handshake_headers(&ok).is_ok());
    for bad in ["", "a:b", "a(b", "caf\u{e9}", "a\"b"] {
        let config = WsClientConfig { headers: vec![(bad.into(), "v".into())], ..Default::default() };
        match build_handshake_headers(&config) {
            Err(CatcherError::Internal(m)) => {
                assert_eq!(m, format!("invalid header name '{bad}': invalid HTTP header name"))
            }
            other => panic!("expected a refusal of {bad:?}, got {other:?}"),
        }
    }
    let long = "a".repeat(65535);
    let config = WsClientConfig { headers: vec![(long, "v".into())], ..Default::default() };
    assert!(build_handshake_headers(&config).is_ok());
    let too_long = "a".repeat(65536);
    let config = WsClientConfig { headers: vec![(too_long, "v".into())], ..Default::default() };
    assert!(build_handshake_headers(&config).is_err());
}

#[test]
fn first_refused_header_is_reported() {
    let config = WsClientConfig {
        headers: vec![
            ("Good".into(), "v".into()),
            ("Second".into(), "bad\u{7f}".into()),
            ("bad name".into(), "v".into()),
        ],
        ..Default::default()
    };
    match build_handshake_headers(&config) {
        Err(CatcherError::Internal(m)) => {
            assert_eq!(m, "invalid header value for 'Second': failed to parse header value")
        }
        other => panic!("unexpected {other:?}"),
    }
}
