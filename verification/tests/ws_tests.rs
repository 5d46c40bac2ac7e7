use catcher::error::CatcherError;
use catcher::network::{ProxyAuth, ProxyConfig, ProxyMode, TlsConfig, TlsVersion};
use catcher::ws_backend::{
    client_setup, tls_steps, TlsRefusal, TlsStep, application_compression_algorithm_name, check_tls_pins, check_tls_unsupported, has_advanced_tls,
    identity_pem, needs_reqwest_backend, proxy_plan, refresh_system_proxy, select_backend, ProxyPlan, WsBackend,
};
use catcher::ws_codec::{active_compression, decoded_message, text_payload};
use catcher::ws_config::{
    ApplicationCompressionAlgorithm, ApplicationCompressionConfig, DnsConfig, DnsMode, WsClientConfig,
};
use catcher::ws_connect::{initial_endpoints, reconnect_endpoints, EndpointPlan};
use catcher::ws_handle::{send_result, WsCommand, WsHandle};
use catcher::ws_request::{build_handshake_headers, build_request, parse_ws_url, request_host_port};

/// 验证 build_request 成功构建带 headers 和 protocols 的请求
#[test]
fn build_request_with_headers_and_protocols() {
    let config = WsClientConfig {
        urls: vec!["wss://example.com/ws".into()],
        headers: vec![("Authorization".into(), "Bearer token".into())],
        protocols: vec!["v1".into(), "v2".into()],
        ..Default::default()
    };

    let req = build_request("wss://example.com/ws", &config).unwrap();
    assert_eq!(req.header("Authorization").map(|v| v.as_str()), Some("Bearer token"));
    assert_eq!(req.header("Sec-WebSocket-Protocol").map(|v| v.as_str()), Some("v1, v2"));
}

/// 验证 build_request 空 headers/protocols 不报错
#[test]
fn build_request_minimal() {
    let config = WsClientConfig {
        urls: vec!["ws://localhost".into()],
        ..Default::default()
    };
    let req = build_request("ws://localhost", &config).unwrap();
    assert!(req.header("Authorization").is_none());
    assert!(req.header("Sec-WebSocket-Protocol").is_none());
}

/// 验证 build_request 无效 URL 报错
#[test]
fn build_request_invalid_url() {
    let config = WsClientConfig::default();
    assert!(build_request("not a url :///", &config).is_err());
}

/// 验证 WS URL 能正确提取 host 和默认端口
#[test]
fn request_host_port_defaults() {
    let config = WsClientConfig::default();
    let req = build_request("wss://example.com/ws", &config).unwrap();
    let (host, port) = request_host_port(&req).unwrap();
    assert_eq!(host, "example.com");
    assert_eq!(port, 443);

    let req = build_request("ws://example.com:8080/ws", &config).unwrap();
    let (host, port) = request_host_port(&req).unwrap();
    assert_eq!(host, "example.com");
    assert_eq!(port, 8080);
}

#[test]
fn backend_selection_uses_reqwest_for_advanced_network_config() {
    let mut config = WsClientConfig::default();
    assert!(!needs_reqwest_backend(&config));

    config.dns = Some(DnsConfig::default());
    assert!(needs_reqwest_backend(&config));

    config.dns = Some(DnsConfig {
        mode: DnsMode::Native,
        ..Default::default()
    });
    assert!(!needs_reqwest_backend(&config));

    config.proxy = Some(ProxyConfig::default());
    assert!(needs_reqwest_backend(&config));

    config.proxy = None;
    config.tls.reject_unauthorized = false;
    assert!(needs_reqwest_backend(&config));
}

/// 验证 build_request 自动声明应用层压缩能力
#[test]
fn build_request_adds_application_compression_headers() {
    let config = WsClientConfig {
        urls: vec!["wss://example.com/ws".into()],
        per_message_deflate: false,
        application_compression: Some(ApplicationCompressionConfig {
            enabled: true,
            algorithm: ApplicationCompressionAlgorithm::Zstd,
            threshold_bytes: 2048,
        }),
        ..Default::default()
    };

    let req = build_request("wss://example.com/ws", &config).unwrap();

    assert_eq!(
        req.header("X-Catcher-Application-Compression").map(|v| v.as_str()),
        Some("zstd")
    );
    assert_eq!(
        req.header("X-Catcher-Application-Compression-Format").map(|v| v.as_str()),
        Some("CATCHER-CMP-1")
    );
    assert_eq!(
        req.header("X-Catcher-Application-Compression-Threshold").map(|v| v.as_str()),
        Some("2048")
    );
}

/// permessage-deflate 优先于应用层压缩，避免双重压缩。
#[test]
fn build_request_omits_application_compression_when_permessage_deflate_enabled() {
    let config = WsClientConfig {
        urls: vec!["wss://example.com/ws".into()],
        per_message_deflate: true,
        application_compression: Some(ApplicationCompressionConfig::default()),
        ..Default::default()
    };

    let req = build_request("wss://example.com/ws", &config).unwrap();

    assert!(req.header("X-Catcher-Application-Compression").is_none());
}

#[test]
fn header_lookup_ignores_letter_case_and_keeps_the_last_value() {
    let config = WsClientConfig {
        headers: vec![("X-Token".into(), "a".into()), ("x-token".into(), "b".into())],
        ..Default::default()
    };
    let req = build_request("ws://h", &config).unwrap();
    assert_eq!(req.header("X-TOKEN").map(|v| v.as_str()), Some("b"));
    assert_eq!(req.headers.len(), 2);
}

#[test]
fn invalid_header_name_and_value_are_refused() {
    let config = WsClientConfig {
        headers: vec![("bad name".into(), "v".into())],
        ..Default::default()
    };
    match build_handshake_headers(&config) {
        Err(CatcherError::Internal(m)) => assert_eq!(m, "invalid header name 'bad name': invalid HTTP header name"),
        other => panic!("expected Internal, got {other:?}"),
    }
    let config = WsClientConfig {
        headers: vec![("X-Ok".into(), "line\nbreak".into())],
        ..Default::default()
    };
    match build_handshake_headers(&config) {
        Err(CatcherError::Internal(m)) => assert_eq!(m, "invalid header value for 'X-Ok': failed to parse header value"),
        other => panic!("expected Internal, got {other:?}"),
    }
    let config = WsClientConfig {
        protocols: vec!["a\u{7f}".into()],
        ..Default::default()
    };
    match build_handshake_headers(&config) {
        Err(CatcherError::Internal(m)) => assert_eq!(m, "invalid protocols: failed to parse header value"),
        other => panic!("expected Internal, got {other:?}"),
    }
}

#[test]
fn disabled_compression_adds_no_headers() {
    let config = WsClientConfig {
        per_message_deflate: false,
        application_compression: Some(ApplicationCompressionConfig {
            enabled: false,
            algorithm: ApplicationCompressionAlgorithm::Gzip,
            threshold_bytes: 10,
        }),
        ..Default::default()
    };
    let headers = build_handshake_headers(&config).unwrap();
    assert!(headers.is_empty());
    assert_eq!(application_compression_algorithm_name(ApplicationCompressionAlgorithm::Gzip), "gzip");
}

#[test]
fn url_scheme_is_checked() {
    match parse_ws_url("http://example.com") {
        Err(CatcherError::InvalidConfig(m)) => assert_eq!(m, "unsupported WS URL scheme: http"),
        other => panic!("expected InvalidConfig, got {other:?}"),
    }
    match parse_ws_url("not a url :///") {
        Err(CatcherError::Internal(m)) => assert!(m.starts_with("invalid WS URL: ")),
        other => panic!("expected Internal, got {other:?}"),
    }
    let u = parse_ws_url("ws://[::1]:9001/x").unwrap();
    assert_eq!(u.parts.port, Some(9001));
    assert_eq!(u.parts.scheme, "ws");
}

#[test]
fn advanced_tls_detection() {
    let mut tls = TlsConfig::default();
    assert!(!has_advanced_tls(&tls));
    tls.pin_sha256 = Some(Vec::new());
    assert!(!has_advanced_tls(&tls));
    tls.pin_sha256 = Some(vec!["pin".into()]);
    assert!(has_advanced_tls(&tls));
    let mut tls = TlsConfig::default();
    tls.min_tls_version = Some(TlsVersion::Tls1_2);
    assert!(has_advanced_tls(&tls));
    let config = WsClientConfig { tls, ..Default::default() };
    assert_eq!(select_backend(&config), WsBackend::Reqwest);
    assert_eq!(select_backend(&WsClientConfig::default()), WsBackend::Native);
}

#[test]
fn unsupported_tls_settings_are_refused_in_order() {
    let mut tls = TlsConfig::default();
    assert!(check_tls_pins(&tls).is_ok());
    assert!(check_tls_unsupported(&tls).is_ok());
    tls.pin_sha256 = Some(vec!["x".into()]);
    match check_tls_pins(&tls) {
        Err(CatcherError::InvalidConfig(m)) => assert_eq!(m, "ws tls.pin_sha256 is not supported yet"),
        other => panic!("unexpected {other:?}"),
    }
    tls.tls_sni_override = Some("sni".into());
    match check_tls_unsupported(&tls) {
        Err(CatcherError::InvalidConfig(m)) => {
            assert_eq!(m, "ws tls.tls_sni_override is not supported: reqwest cannot override the SNI hostname")
        }
        other => panic!("unexpected {other:?}"),
    }
    tls.client_identity_pfx = Some(vec![1, 2]);
    match check_tls_unsupported(&tls) {
        Err(CatcherError::InvalidConfig(m)) => {
            assert_eq!(m, "ws tls.client_identity_pfx requires native-tls and is not supported by catcher-ws")
        }
        other => panic!("unexpected {other:?}"),
    }
    assert_eq!(identity_pem("CERT", "KEY"), "CERT\nKEY");
}

#[test]
fn proxy_plans_follow_the_mode() {
    assert!(matches!(proxy_plan(&None), ProxyPlan::Unset));
    let direct = ProxyConfig { mode: ProxyMode::Direct, url: None, auth: None, no_proxy: Vec::new() };
    assert!(matches!(proxy_plan(&Some(direct)), ProxyPlan::Direct));
    let unresolved = ProxyConfig { mode: ProxyMode::System, url: None, auth: None, no_proxy: Vec::new() };
    assert!(matches!(proxy_plan(&Some(unresolved)), ProxyPlan::Direct));
    let manual = ProxyConfig {
        mode: ProxyMode::Manual,
        url: Some("socks5://127.0.0.1:7890".into()),
        auth: Some(ProxyAuth { username: "u".into(), password: "p".into() }),
        no_proxy: vec!["localhost".into(), "10.0.0.1".into()],
    };
    match proxy_plan(&Some(manual)) {
        ProxyPlan::Via { url, auth, no_proxy } => {
            assert_eq!(url, "socks5h://127.0.0.1:7890");
            assert_eq!(auth, Some(("u".to_string(), "p".to_string())));
            assert_eq!(no_proxy.as_deref(), Some("localhost,10.0.0.1"));
        }
        other => panic!("unexpected {other:?}"),
    }
}

#[test]
fn system_proxy_refresh_keeps_user_bypass_entries() {
    let current = ProxyConfig {
        mode: ProxyMode::System,
        url: None,
        auth: None,
        no_proxy: vec!["localhost".into(), "corp".into(), "corp".into()],
    };
    let detected = ProxyConfig {
        mode: ProxyMode::Manual,
        url: Some("http://proxy:8080".into()),
        auth: None,
        no_proxy: vec!["localhost".into()],
    };
    let refreshed = refresh_system_proxy(&current, Some(detected));
    assert_eq!(refreshed.url.as_deref(), Some("http://proxy:8080"));
    assert_eq!(refreshed.no_proxy, vec!["localhost".to_string(), "corp".to_string()]);

    let fallback = refresh_system_proxy(&current, None);
    assert_eq!(fallback.mode, ProxyMode::System);
    assert!(fallback.url.is_none());
    assert!(matches!(proxy_plan(&Some(fallback)), ProxyPlan::Direct));
}

#[test]
fn endpoint_plans() {
    let none = WsClientConfig::default();
    match initial_endpoints(&none) {
        Err(CatcherError::InvalidConfig(m)) => assert_eq!(m, "no WS URLs configured"),
        other => panic!("unexpected {other:?}"),
    }
    let one = WsClientConfig { urls: vec!["ws://a".into()], ..Default::default() };
    assert!(matches!(initial_endpoints(&one), Ok(EndpointPlan::Single(ref u)) if u == "ws://a"));
    assert!(matches!(reconnect_endpoints(&one), Ok(EndpointPlan::Single(ref u)) if u == "ws://a"));
    let two = WsClientConfig { urls: vec!["ws://a".into(), "ws://b".into()], race_count: 1, ..Default::default() };
    assert!(matches!(initial_endpoints(&two), Ok(EndpointPlan::Race { width: 1 })));
    assert!(matches!(reconnect_endpoints(&two), Ok(EndpointPlan::Race { width: 2 })));
    let wide = WsClientConfig { urls: vec!["ws://a".into(), "ws://b".into()], race_count: 5, ..Default::default() };
    assert!(matches!(reconnect_endpoints(&wide), Ok(EndpointPlan::Race { width: 5 })));
}

#[test]
fn msgpack_codec_round_trips_json() {
    let config = WsClientConfig { msgpack: true, ..Default::default() };
    let (bin, is_binary) = text_payload("{\"a\":1}", &config);
    assert!(is_binary);
    assert_eq!(bin, vec![0x81, 0xa1, b'a', 0x01]);
    let (json, is_binary) = decoded_message(bin, true, &config);
    assert!(!is_binary);
    assert_eq!(json, b"{\"a\":1}".to_vec());

    let (plain, is_binary) = text_payload("not json", &config);
    assert!(!is_binary);
    assert_eq!(plain, b"not json".to_vec());

    let off = WsClientConfig::default();
    let (plain, is_binary) = text_payload("{\"a\":1}", &off);
    assert!(!is_binary);
    assert_eq!(plain, b"{\"a\":1}".to_vec());
    let (raw, is_binary) = decoded_message(vec![0xc1], true, &config);
    assert!(is_binary);
    assert_eq!(raw, vec![0xc1]);
}

#[test]
fn permessage_deflate_disables_application_compression() {
    let config = WsClientConfig {
        application_compression: Some(ApplicationCompressionConfig::default()),
        ..Default::default()
    };
    assert!(active_compression(&config).is_none());
    let config = WsClientConfig {
        per_message_deflate: false,
        application_compression: Some(ApplicationCompressionConfig::default()),
        ..Default::default()
    };
    assert!(active_compression(&config).is_some());
}

#[test]
fn handle_reports_closed_connection() {
    let (tx, mut rx) = tokio::sync::mpsc::unbounded_channel::<WsCommand>();
    let handle = WsHandle::new("ws://a".to_string(), tx);
    assert_eq!(handle.url(), "ws://a");
    handle.send_text("hi").unwrap();
    handle.send_binary(&[1, 2]).unwrap();
    handle.network_changed().unwrap();
    assert!(matches!(rx.try_recv(), Ok(WsCommand::Text(ref t)) if t == "hi"));
    assert!(matches!(rx.try_recv(), Ok(WsCommand::Binary(ref d)) if d == &vec![1, 2]));
    assert!(matches!(rx.try_recv(), Ok(WsCommand::NetworkChanged)));
    drop(rx);
    match handle.close(1000, "done") {
        Err(CatcherError::WsDisconnected { code, reason }) => {
            assert_eq!(code, 1006);
            assert_eq!(reason, "connection closed");
        }
        other => panic!("unexpected {other:?}"),
    }
}

#[test]
fn tls_setup_steps_follow_the_original_order() {
    let mut tls = TlsConfig::default();
    assert!(tls_steps(&tls).is_empty());
    tls.reject_unauthorized = false;
    tls.ca_cert_pem = Some("CA".into());
    tls.client_cert_pem = Some("C".into());
    tls.client_key_pem = Some("K".into());
    tls.client_cert_path = Some("/c".into());
    tls.min_tls_version = Some(TlsVersion::Tls1_2);
    tls.tls_sni_override = Some("sni".into());
    let steps = tls_steps(&tls);
    assert_eq!(steps.len(), 5);
    assert!(matches!(steps[0], TlsStep::AcceptInvalidCerts));
    assert!(matches!(&steps[1], TlsStep::RootCertPem(p) if p == "CA"));
    assert!(matches!(&steps[2], TlsStep::IdentityPem(p) if p == "C\nK"));
    assert!(matches!(steps[3], TlsStep::MinVersion(TlsVersion::Tls1_2)));
    assert!(matches!(steps[4], TlsStep::Refuse(TlsRefusal::SniOverride)));

    tls.client_identity_pfx = Some(vec![0]);
    let steps = tls_steps(&tls);
    assert!(matches!(steps.last(), Some(TlsStep::Refuse(TlsRefusal::Pfx))));
    assert!(!steps.iter().any(|s| matches!(s, TlsStep::MinVersion(_))));

    tls.pin_sha256 = Some(vec!["p".into()]);
    let steps = tls_steps(&tls);
    assert!(matches!(steps[..], [TlsStep::Refuse(TlsRefusal::Pins)]));
}

#[test]
fn client_setup_collects_timeout_dns_proxy_and_headers() {
    let config = WsClientConfig {
        urls: vec!["ws://a".into()],
        dns: Some(DnsConfig::default()),
        protocols: vec!["graphql-ws".into()],
        ..Default::default()
    };
    let setup = client_setup(&config);
    assert_eq!(setup.connect_timeout_ms, Some(15000));
    assert!(setup.catcher_dns);
    assert!(matches!(setup.proxy, ProxyPlan::Unset));
    let headers = setup.headers.unwrap();
    assert_eq!(headers, vec![("Sec-WebSocket-Protocol".to_string(), "graphql-ws".to_string())]);
    let no_timeout = WsClientConfig { handshake_timeout_ms: 0, ..Default::default() };
    assert_eq!(client_setup(&no_timeout).connect_timeout_ms, None);
}

#[test]
fn send_result_follows_whether_the_task_took_the_command() {
    assert!(send_result(true).is_ok());
    match send_result(false) {
        Err(CatcherError::WsDisconnected { code, reason }) => {
            assert_eq!(code, 1006);
            assert_eq!(reason, "connection closed");
        }
        other => panic!("unexpected {other:?}"),
    }
}
