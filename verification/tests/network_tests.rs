use catcher::network::{ProxyConfig, ProxyMode, TlsConfig};

fn proxy_url(url: &str) -> String {
    ProxyConfig {
        mode: ProxyMode::Manual,
        url: Some(url.to_string()),
        auth: None,
        no_proxy: Vec::new(),
    }
    .transport_url()
}

#[test]
fn socks5_proxy_uses_remote_dns() {
    assert_eq!(
        proxy_url("socks5://127.0.0.1:7890"),
        "socks5h://127.0.0.1:7890"
    );
    assert_eq!(
        proxy_url("SOCKS5://127.0.0.1:7890"),
        "socks5h://127.0.0.1:7890"
    );
}

#[test]
fn other_proxy_schemes_are_unchanged() {
    assert_eq!(
        proxy_url("socks5h://127.0.0.1:7890"),
        "socks5h://127.0.0.1:7890"
    );
    assert_eq!(proxy_url("http://127.0.0.1:7890"), "http://127.0.0.1:7890");
}

#[test]
fn mixed_case_socks5_and_edge_addresses() {
    assert_eq!(proxy_url("SoCkS5://h:1"), "socks5h://h:1");
    assert_eq!(proxy_url("socks5://"), "socks5h://");
    assert_eq!(proxy_url("no-scheme-here"), "no-scheme-here");
    assert_eq!(proxy_url("socks4://h:1"), "socks4://h:1");
    assert_eq!(proxy_url("xsocks5://h:1"), "xsocks5://h:1");
    // Only the first separator decides the scheme.
    assert_eq!(proxy_url("socks5://a://b"), "socks5h://a://b");
    assert_eq!(proxy_url("http://socks5://b"), "http://socks5://b");
}

#[test]
fn defaults_verify_certificates_and_use_manual_proxy() {
    let tls = TlsConfig::default();
    assert!(tls.reject_unauthorized);
    assert!(tls.ca_cert_pem.is_none());
    assert!(tls.pin_sha256.is_none());
    let proxy = ProxyConfig::default();
    assert_eq!(proxy.mode, ProxyMode::Manual);
    assert!(proxy.url.is_none());
    assert!(proxy.no_proxy.is_empty());
    assert_eq!(ProxyMode::default(), ProxyMode::Manual);
}
