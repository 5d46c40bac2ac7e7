//! Which transport a WebSocket connection takes, and the proxy and TLS
//! settings that the HTTP-client transport is built with.

use vstd::prelude::*;
use vstd::string::*;
use crate::error::CatcherError;
use crate::network::{ProxyAuth, ProxyConfig, ProxyMode, TlsConfig, TlsVersion, spec_transport_url};
use crate::text::{contains_text, join, join_strings, texts};
use crate::ws_config::{ApplicationCompressionAlgorithm, DnsMode, WsClientConfig};
use crate::ws_request::{build_handshake_headers, handshake_header_error, header_texts, headers_accepted, is_internal, spec_handshake_headers};

verus! {

/// The name of a compression algorithm as announced in the handshake.
pub open spec fn algorithm_name(a: ApplicationCompressionAlgorithm) -> Seq<char> {
    match a {
        ApplicationCompressionAlgorithm::Gzip => "gzip"@,
        ApplicationCompressionAlgorithm::Zstd => "zstd"@,
    }
}

/// The name of a compression algorithm as announced in the handshake.
pub fn application_compression_algorithm_name(algorithm: ApplicationCompressionAlgorithm) -> (r: &'static str)
    ensures
        r@ == algorithm_name(algorithm),
{
    match algorithm {
        ApplicationCompressionAlgorithm::Gzip => "gzip",
        ApplicationCompressionAlgorithm::Zstd => "zstd",
    }
}

/// The TLS settings ask for more than the default verified connection.
pub open spec fn spec_has_advanced_tls(c: TlsConfig) -> bool {
    ||| !c.reject_unauthorized
    ||| c.ca_cert_pem is Some
    ||| c.ca_cert_path is Some
    ||| c.client_cert_pem is Some
    ||| c.client_cert_path is Some
    ||| c.client_key_pem is Some
    ||| c.client_key_path is Some
    ||| c.client_identity_pfx is Some
    ||| c.client_identity_password is Some
    ||| c.tls_sni_override is Some
    ||| c.min_tls_version is Some
    ||| c.max_tls_version is Some
    ||| (c.pin_sha256 matches Some(pins) && pins@.len() > 0)
}

/// Whether the TLS settings ask for more than the default verified connection.
pub fn has_advanced_tls(config: &TlsConfig) -> (r: bool)
    ensures
        r == spec_has_advanced_tls(*config),
{
    let pins = match &config.pin_sha256 {
        Some(pins) => pins.len() > 0,
        None => false,
    };
    !config.reject_unauthorized
        || config.ca_cert_pem.is_some()
        || config.ca_cert_path.is_some()
        || config.client_cert_pem.is_some()
        || config.client_cert_path.is_some()
        || config.client_key_pem.is_some()
        || config.client_key_path.is_some()
        || config.client_identity_pfx.is_some()
        || config.client_identity_password.is_some()
        || config.tls_sni_override.is_some()
        || config.min_tls_version.is_some()
        || config.max_tls_version.is_some()
        || pins
}

/// A connection needs the HTTP-client transport: for advanced TLS, any
/// proxy setting, or the shared caching resolver.
pub open spec fn spec_needs_reqwest_backend(c: WsClientConfig) -> bool {
    ||| spec_has_advanced_tls(c.tls)
    ||| c.proxy is Some
    ||| (c.dns matches Some(d) && d.mode == DnsMode::Catcher)
}

/// Whether a connection needs the HTTP-client transport.
pub fn needs_reqwest_backend(config: &WsClientConfig) -> (r: bool)
    ensures
        r == spec_needs_reqwest_backend(*config),
{
    let dns = match &config.dns {
        Some(d) => d.use_catcher_resolver(),
        None => false,
    };
    has_advanced_tls(&config.tls) || config.proxy.is_some() || dns
}

/// The transport of a WebSocket connection.
#[derive(Debug, Clone, Copy, PartialEq, Eq, Structural)]
pub enum WsBackend {
    /// The plain TCP/TLS client, for direct connections.
    Native,
    /// The HTTP-client transport, for proxy, custom DNS and advanced TLS.
    Reqwest,
}

/// The transport chosen for a configuration.
pub fn select_backend(config: &WsClientConfig) -> (b: WsBackend)
    ensures
        b == (if spec_needs_reqwest_backend(*config) { WsBackend::Reqwest } else { WsBackend::Native }),
{
    if needs_reqwest_backend(config) {
        WsBackend::Reqwest
    } else {
        WsBackend::Native
    }
}

/// `r` is an invalid-configuration error with message `m`.
pub open spec fn is_invalid_config(r: CatcherError, m: Seq<char>) -> bool {
    r matches CatcherError::InvalidConfig(s) && s@ == m
}

/// The check made before any certificate is loaded: key pinning is refused.
pub fn check_tls_pins(config: &TlsConfig) -> (r: Result<(), CatcherError>)
    ensures
        match r {
            Ok(()) => !(config.pin_sha256 matches Some(p) && p@.len() > 0),
            Err(e) => (config.pin_sha256 matches Some(p) && p@.len() > 0)
                && is_invalid_config(e, "ws tls.pin_sha256 is not supported yet"@),
        },
{
    match &config.pin_sha256 {
        Some(pins) => {
            if pins.len() > 0 {
                return Err(CatcherError::InvalidConfig(String::from_str("ws tls.pin_sha256 is not supported yet")));
            }
            Ok(())
        },
        None => Ok(()),
    }
}

/// The checks made after the client identity is loaded: a PFX identity and
/// an SNI override cannot be honoured, in that order of precedence.
pub fn check_tls_unsupported(config: &TlsConfig) -> (r: Result<(), CatcherError>)
    ensures
        match r {
            Ok(()) => config.client_identity_pfx is None && config.tls_sni_override is None,
            Err(e) => if config.client_identity_pfx is Some {
                is_invalid_config(e, "ws tls.client_identity_pfx requires native-tls and is not supported by catcher-ws"@)
            } else {
                config.tls_sni_override is Some
                    && is_invalid_config(e, "ws tls.tls_sni_override is not supported: reqwest cannot override the SNI hostname"@)
            },
        },
{
    if config.client_identity_pfx.is_some() {
        return Err(CatcherError::InvalidConfig(String::from_str(
            "ws tls.client_identity_pfx requires native-tls and is not supported by catcher-ws",
        )));
    }
    if config.tls_sni_override.is_some() {
        return Err(CatcherError::InvalidConfig(String::from_str(
            "ws tls.tls_sni_override is not supported: reqwest cannot override the SNI hostname",
        )));
    }
    Ok(())
}

/// A client identity in PEM form: the certificate, a newline, the key.
pub fn identity_pem(cert_pem: &str, key_pem: &str) -> (r: String)
    ensures
        r@ == cert_pem@ + "\n"@ + key_pem@,
{
    let mut s = String::from_str(cert_pem);
    s.append("\n");
    s.append(key_pem);
    s
}

/// How the HTTP-client transport reaches the network.
#[derive(Debug)]
pub enum ProxyPlan {
    /// No proxy setting: the client's own defaults apply.
    Unset,
    /// Connect directly, without any proxy, the environment's included.
    Direct,
    /// Go through the proxy at `url`.
    Via {
        url: String,
        /// Basic credentials: user name and password.
        auth: Option<(String, String)>,
        /// Hosts that bypass the proxy, comma-separated.
        no_proxy: Option<String>,
    },
}

/// The proxy configuration names an address that can be used: every mode
/// but a manual proxy without address.
pub open spec fn proxy_is_usable(p: ProxyConfig) -> bool {
    !(p.mode == ProxyMode::Manual && p.url is None)
}

/// Whether a proxy configuration names an address that can be used.
pub fn is_usable_proxy(p: &ProxyConfig) -> (r: bool)
    ensures
        r == proxy_is_usable(*p),
{
    !(p.mode == ProxyMode::Manual && p.url.is_none())
}

/// A direct connection: explicitly asked for, or a system proxy that
/// detection has not resolved to an address.
pub open spec fn goes_direct(p: ProxyConfig) -> bool {
    ||| p.mode == ProxyMode::Direct
    ||| (p.mode == ProxyMode::System && p.url is None)
}

/// `plan` is how a client with proxy setting `proxy` reaches the network.
pub open spec fn plan_fits(plan: ProxyPlan, proxy: Option<ProxyConfig>) -> bool {
    match proxy {
        None => plan is Unset,
        Some(p) => if goes_direct(p) {
            plan is Direct
        } else {
            plan matches ProxyPlan::Via { url, auth, no_proxy } && {
                &&& url@ == spec_transport_url(p.url->0@)
                &&& match p.auth {
                    None => auth is None,
                    Some(a) => auth matches Some(pair) && pair.0@ == a.username@ && pair.1@ == a.password@,
                }
                &&& if p.no_proxy@.len() == 0 {
                    no_proxy is None
                } else {
                    no_proxy matches Some(list) && list@ == join(texts(p.no_proxy@), ","@)
                }
            }
        },
    }
}

/// How a client with the given proxy setting reaches the network.
pub fn proxy_plan(proxy: &Option<ProxyConfig>) -> (plan: ProxyPlan)
    requires
        *proxy matches Some(p) ==> proxy_is_usable(p),
    ensures
        plan_fits(plan, *proxy),
{
    match proxy {
        None => ProxyPlan::Unset,
        Some(p) => {
            let direct = match p.mode {
                ProxyMode::Direct => true,
                ProxyMode::System => p.url.is_none(),
                ProxyMode::Manual => false,
            };
            if direct {
                ProxyPlan::Direct
            } else {
                let url = p.transport_url();
                let auth = match &p.auth {
                    Some(a) => Some((a.username.clone(), a.password.clone())),
                    None => None,
                };
                let no_proxy = if p.no_proxy.len() == 0 {
                    None
                } else {
                    Some(join_strings(&p.no_proxy, ","))
                };
                ProxyPlan::Via { url, auth, no_proxy }
            }
        },
    }
}

/// `base` extended by the entries of `extra` that it does not hold yet, in
/// order and without repeating any.
pub open spec fn merge_entries(base: Seq<Seq<char>>, extra: Seq<Seq<char>>) -> Seq<Seq<char>>
    decreases extra.len(),
{
    if extra.len() == 0 {
        base
    } else {
        let b = merge_entries(base, extra.drop_last());
        if b.contains(extra.last()) {
            b
        } else {
            b.push(extra.last())
        }
    }
}

/// `r` is the system proxy setting `current` after a fresh detection gave
/// `detected`: the detected proxy with the caller's bypass entries added, or,
/// when nothing was detected, a system proxy without address that keeps the
/// caller's bypass entries.
pub open spec fn is_refreshed(r: ProxyConfig, current: ProxyConfig, detected: Option<ProxyConfig>) -> bool {
    match detected {
        Some(d) => r.mode == d.mode && r.url == d.url && r.auth == d.auth
            && texts(r.no_proxy@) == merge_entries(texts(d.no_proxy@), texts(current.no_proxy@)),
        None => r.mode == ProxyMode::System && r.url is None && r.auth is None
            && texts(r.no_proxy@) == texts(current.no_proxy@),
    }
}

/// Whether a network change calls for a fresh system proxy detection: only
/// under a system proxy setting.
pub fn uses_system_proxy(proxy: &Option<ProxyConfig>) -> (r: bool)
    ensures
        r == (*proxy matches Some(p) && p.mode == ProxyMode::System),
{
    match proxy {
        Some(p) => match p.mode {
            ProxyMode::System => true,
            _ => false,
        },
        None => false,
    }
}

/// The proxy setting after a network change, given the proxy detected anew
/// (asked for only under a system proxy): a system proxy setting is
/// refreshed from the detection; any other setting stays as it is.
pub fn proxy_after_network_change(proxy: Option<ProxyConfig>, detected: Option<ProxyConfig>) -> (r: Option<ProxyConfig>)
    ensures
        match proxy {
            Some(p) => if p.mode == ProxyMode::System {
                r matches Some(q) && is_refreshed(q, p, detected)
            } else {
                r == proxy
            },
            None => r is None,
        },
{
    if uses_system_proxy(&proxy) {
        match proxy {
            Some(p) => Some(refresh_system_proxy(&p, detected)),
            None => None,
        }
    } else {
        proxy
    }
}

/// The proxy setting after the network changed under a system proxy: the
/// freshly detected proxy, keeping the caller's bypass entries; when no
/// proxy is detected, still a system proxy without address, which connects
/// directly.
pub fn refresh_system_proxy(current: &ProxyConfig, detected: Option<ProxyConfig>) -> (r: ProxyConfig)
    ensures
        is_refreshed(r, *current, detected),
{
    match detected {
        Some(d) => {
            let mut p = d;
            let ghost base = texts(p.no_proxy@);
            let mut i: usize = 0;
            while i < current.no_proxy.len()
                invariant
                    i <= current.no_proxy@.len(),
                    p.mode == d.mode,
                    p.url == d.url,
                    p.auth == d.auth,
                    base == texts(d.no_proxy@),
                    texts(p.no_proxy@) == merge_entries(base, texts(current.no_proxy@).take(i as int)),
                decreases current.no_proxy@.len() - i,
            {
                let entry = &current.no_proxy[i];
                let ghost before = texts(p.no_proxy@);
                proof {
                    assert(texts(current.no_proxy@).take(i + 1).drop_last()
                        =~= texts(current.no_proxy@).take(i as int));
                    assert(texts(current.no_proxy@).take(i + 1).last() == entry@);
                }
                if !contains_text(&p.no_proxy, entry) {
                    p.no_proxy.push(entry.clone());
                    assert(texts(p.no_proxy@) =~= before.push(entry@));
                }
                i = i + 1;
            }
            assert(texts(current.no_proxy@).take(current.no_proxy@.len() as int) =~= texts(current.no_proxy@));
            p
        },
        None => {
            let mut list: Vec<String> = Vec::new();
            let mut i: usize = 0;
            while i < current.no_proxy.len()
                invariant
                    i <= current.no_proxy@.len(),
                    list@.len() == i,
                    forall|j: int| 0 <= j < i ==> #[trigger] list@[j]@ == current.no_proxy@[j]@,
                decreases current.no_proxy@.len() - i,
            {
                list.push(current.no_proxy[i].clone());
                i = i + 1;
            }
            assert(texts(list@) =~= texts(current.no_proxy@));
            ProxyConfig { mode: ProxyMode::System, url: None, auth: None, no_proxy: list }
        },
    }
}

/// A TLS setting that the HTTP-client transport cannot honour.
#[derive(Debug, Clone, Copy, PartialEq, Eq, Structural)]
pub enum TlsRefusal {
    /// Public key pinning.
    Pins,
    /// A PFX / PKCS12 client identity.
    Pfx,
    /// An SNI host name override.
    SniOverride,
}

/// The error that refuses a TLS setting.
pub open spec fn refusal_message(r: TlsRefusal) -> Seq<char> {
    match r {
        TlsRefusal::Pins => "ws tls.pin_sha256 is not supported yet"@,
        TlsRefusal::Pfx => "ws tls.client_identity_pfx requires native-tls and is not supported by catcher-ws"@,
        TlsRefusal::SniOverride => "ws tls.tls_sni_override is not supported: reqwest cannot override the SNI hostname"@,
    }
}

/// The invalid-configuration error that refuses a TLS setting.
pub fn refusal_error(r: TlsRefusal) -> (e: CatcherError)
    ensures
        is_invalid_config(e, refusal_message(r)),
{
    match r {
        TlsRefusal::Pins => CatcherError::InvalidConfig(String::from_str("ws tls.pin_sha256 is not supported yet")),
        TlsRefusal::Pfx => CatcherError::InvalidConfig(String::from_str(
            "ws tls.client_identity_pfx requires native-tls and is not supported by catcher-ws",
        )),
        TlsRefusal::SniOverride => CatcherError::InvalidConfig(String::from_str(
            "ws tls.tls_sni_override is not supported: reqwest cannot override the SNI hostname",
        )),
    }
}

/// One step of setting up TLS on the HTTP client.
#[derive(Debug)]
pub enum TlsStep {
    /// Accept any server certificate.
    AcceptInvalidCerts,
    /// Trust the CA certificate in this PEM text.
    RootCertPem(String),
    /// Trust the CA certificate in the PEM file at this path.
    RootCertFile(String),
    /// Present this client identity (certificate and key, PEM).
    IdentityPem(String),
    /// Present the client identity made of the certificate file and the key file.
    IdentityFiles { cert_path: String, key_path: String },
    MinVersion(TlsVersion),
    MaxVersion(TlsVersion),
    /// Stop: the setting cannot be honoured.
    Refuse(TlsRefusal),
}

/// The content of a TLS step.
pub enum TlsStepView {
    AcceptInvalidCerts,
    RootCertPem(Seq<char>),
    RootCertFile(Seq<char>),
    IdentityPem(Seq<char>),
    IdentityFiles { cert_path: Seq<char>, key_path: Seq<char> },
    MinVersion(TlsVersion),
    MaxVersion(TlsVersion),
    Refuse(TlsRefusal),
}

impl View for TlsStep {
    type V = TlsStepView;

    open spec fn view(&self) -> TlsStepView {
        match self {
            TlsStep::AcceptInvalidCerts => TlsStepView::AcceptInvalidCerts,
            TlsStep::RootCertPem(p) => TlsStepView::RootCertPem(p@),
            TlsStep::RootCertFile(p) => TlsStepView::RootCertFile(p@),
            TlsStep::IdentityPem(p) => TlsStepView::IdentityPem(p@),
            TlsStep::IdentityFiles { cert_path, key_path } => TlsStepView::IdentityFiles { cert_path: cert_path@, key_path: key_path@ },
            TlsStep::MinVersion(v) => TlsStepView::MinVersion(*v),
            TlsStep::MaxVersion(v) => TlsStepView::MaxVersion(*v),
            TlsStep::Refuse(r) => TlsStepView::Refuse(*r),
        }
    }
}

/// The contents of a list of TLS steps.
pub open spec fn tls_steps_view(s: Seq<TlsStep>) -> Seq<TlsStepView> {
    s.map_values(|x: TlsStep| x@)
}

/// The one-element sequence of `x` when present.
pub open spec fn opt_step(b: bool, x: TlsStepView) -> Seq<TlsStepView> {
    if b { seq![x] } else { Seq::empty() }
}

/// The TLS material loaded, in order: certificate checks relaxed when
/// asked, the CA certificate trusted from PEM text and from a file, the
/// client identity loaded from PEM texts and from files (each only when
/// both certificate and key are given).
pub open spec fn spec_tls_loads(c: TlsConfig) -> Seq<TlsStepView> {
    opt_step(!c.reject_unauthorized, TlsStepView::AcceptInvalidCerts)
        + opt_step(c.ca_cert_pem is Some, TlsStepView::RootCertPem(c.ca_cert_pem->0@))
        + opt_step(c.ca_cert_path is Some, TlsStepView::RootCertFile(c.ca_cert_path->0@))
        + opt_step(c.client_cert_pem is Some && c.client_key_pem is Some,
            TlsStepView::IdentityPem(c.client_cert_pem->0@ + "\n"@ + c.client_key_pem->0@))
        + opt_step(c.client_cert_path is Some && c.client_key_path is Some,
            TlsStepView::IdentityFiles { cert_path: c.client_cert_path->0@, key_path: c.client_key_path->0@ })
}

/// The version bounds, and the refusal of an SNI override.
pub open spec fn spec_tls_bounds(c: TlsConfig) -> Seq<TlsStepView> {
    opt_step(c.min_tls_version is Some, TlsStepView::MinVersion(c.min_tls_version->0))
        + opt_step(c.max_tls_version is Some, TlsStepView::MaxVersion(c.max_tls_version->0))
        + opt_step(c.tls_sni_override is Some, TlsStepView::Refuse(TlsRefusal::SniOverride))
}

/// The TLS setup of the HTTP client, in order: pinning is refused before
/// anything else; then the material is loaded; a PFX identity is refused;
/// otherwise the version bounds are applied and an SNI override is refused
/// last.
pub open spec fn spec_tls_steps(c: TlsConfig) -> Seq<TlsStepView> {
    if c.pin_sha256 matches Some(p) && p@.len() > 0 {
        seq![TlsStepView::Refuse(TlsRefusal::Pins)]
    } else if c.client_identity_pfx is Some {
        spec_tls_loads(c) + seq![TlsStepView::Refuse(TlsRefusal::Pfx)]
    } else {
        spec_tls_loads(c) + spec_tls_bounds(c)
    }
}

fn push_step(steps: &mut Vec<TlsStep>, step: TlsStep)
    ensures
        tls_steps_view(final(steps)@) == tls_steps_view(old(steps)@).push(step@),
{
    steps.push(step);
    assert(tls_steps_view(steps@) =~= tls_steps_view(old(steps)@).push(step@));
}

fn tls_loads(c: &TlsConfig) -> (r: Vec<TlsStep>)
    ensures
        tls_steps_view(r@) == spec_tls_loads(*c),
{
    let mut steps: Vec<TlsStep> = Vec::new();
    assert(tls_steps_view(steps@) =~= Seq::<TlsStepView>::empty());
    if !c.reject_unauthorized {
        push_step(&mut steps, TlsStep::AcceptInvalidCerts);
    }
    let ghost s1 = tls_steps_view(steps@);
    assert(s1 =~= opt_step(!c.reject_unauthorized, TlsStepView::AcceptInvalidCerts));
    if let Some(pem) = &c.ca_cert_pem {
        push_step(&mut steps, TlsStep::RootCertPem(pem.clone()));
    }
    let ghost s2 = tls_steps_view(steps@);
    assert(s2 =~= s1 + opt_step(c.ca_cert_pem is Some, TlsStepView::RootCertPem(c.ca_cert_pem->0@)));
    if let Some(path) = &c.ca_cert_path {
        push_step(&mut steps, TlsStep::RootCertFile(path.clone()));
    }
    let ghost s3 = tls_steps_view(steps@);
    assert(s3 =~= s2 + opt_step(c.ca_cert_path is Some, TlsStepView::RootCertFile(c.ca_cert_path->0@)));
    match (&c.client_cert_pem, &c.client_key_pem) {
        (Some(cert), Some(key)) => {
            push_step(&mut steps, TlsStep::IdentityPem(identity_pem(cert.as_str(), key.as_str())));
        },
        _ => {},
    }
    let ghost s4 = tls_steps_view(steps@);
    assert(s4 =~= s3 + opt_step(c.client_cert_pem is Some && c.client_key_pem is Some,
        TlsStepView::IdentityPem(c.client_cert_pem->0@ + "\n"@ + c.client_key_pem->0@)));
    match (&c.client_cert_path, &c.client_key_path) {
        (Some(cert), Some(key)) => {
            push_step(&mut steps, TlsStep::IdentityFiles { cert_path: cert.clone(), key_path: key.clone() });
        },
        _ => {},
    }
    assert(tls_steps_view(steps@) =~= s4 + opt_step(c.client_cert_path is Some && c.client_key_path is Some,
        TlsStepView::IdentityFiles { cert_path: c.client_cert_path->0@, key_path: c.client_key_path->0@ }));
    steps
}

fn tls_bounds(c: &TlsConfig) -> (r: Vec<TlsStep>)
    ensures
        tls_steps_view(r@) == spec_tls_bounds(*c),
{
    let mut steps: Vec<TlsStep> = Vec::new();
    assert(tls_steps_view(steps@) =~= Seq::<TlsStepView>::empty());
    if let Some(v) = c.min_tls_version {
        push_step(&mut steps, TlsStep::MinVersion(v));
    }
    let ghost s1 = tls_steps_view(steps@);
    assert(s1 =~= opt_step(c.min_tls_version is Some, TlsStepView::MinVersion(c.min_tls_version->0)));
    if let Some(v) = c.max_tls_version {
        push_step(&mut steps, TlsStep::MaxVersion(v));
    }
    let ghost s2 = tls_steps_view(steps@);
    assert(s2 =~= s1 + opt_step(c.max_tls_version is Some, TlsStepView::MaxVersion(c.max_tls_version->0)));
    if c.tls_sni_override.is_some() {
        push_step(&mut steps, TlsStep::Refuse(TlsRefusal::SniOverride));
    }
    assert(tls_steps_view(steps@) =~= s2 + opt_step(c.tls_sni_override is Some, TlsStepView::Refuse(TlsRefusal::SniOverride)));
    steps
}

/// The TLS setup of the HTTP client, as the steps of `spec_tls_steps`.
pub fn tls_steps(config: &TlsConfig) -> (r: Vec<TlsStep>)
    ensures
        tls_steps_view(r@) == spec_tls_steps(*config),
{
    if check_tls_pins(config).is_err() {
        let mut steps: Vec<TlsStep> = Vec::new();
        push_step(&mut steps, TlsStep::Refuse(TlsRefusal::Pins));
        assert(tls_steps_view(steps@) =~= spec_tls_steps(*config));
        return steps;
    }
    let mut steps = tls_loads(config);
    if config.client_identity_pfx.is_some() {
        push_step(&mut steps, TlsStep::Refuse(TlsRefusal::Pfx));
        return steps;
    }
    let mut bounds = tls_bounds(config);
    let ghost before = tls_steps_view(steps@);
    let ghost tail = tls_steps_view(bounds@);
    steps.append(&mut bounds);
    assert(tls_steps_view(steps@) =~= before + tail);
    steps
}

/// A step that sets up which server certificates are trusted: relaxed
/// checks, a CA certificate from PEM text, or a CA certificate file.
pub open spec fn is_trust_step(s: TlsStepView) -> bool {
    s is AcceptInvalidCerts || s is RootCertPem || s is RootCertFile
}

/// The steps before the CA file: relaxed checks and the PEM CA certificate.
spec fn ca_prefix(c: TlsConfig) -> Seq<TlsStepView> {
    opt_step(!c.reject_unauthorized, TlsStepView::AcceptInvalidCerts)
        + opt_step(c.ca_cert_pem is Some, TlsStepView::RootCertPem(c.ca_cert_pem->0@))
}

/// The steps after the CA file: the client identity, then the PFX refusal
/// or the version bounds and the SNI refusal.
#[verifier::opaque]
spec fn ca_suffix(c: TlsConfig) -> Seq<TlsStepView> {
    opt_step(c.client_cert_pem is Some && c.client_key_pem is Some,
            TlsStepView::IdentityPem(c.client_cert_pem->0@ + "\n"@ + c.client_key_pem->0@))
        + opt_step(c.client_cert_path is Some && c.client_key_path is Some,
            TlsStepView::IdentityFiles { cert_path: c.client_cert_path->0@, key_path: c.client_key_path->0@ })
        + (if c.client_identity_pfx is Some { seq![TlsStepView::Refuse(TlsRefusal::Pfx)] } else { spec_tls_bounds(c) })
}

/// No step of `s` sets up trusted certificates.
spec fn no_trust_steps(s: Seq<TlsStepView>) -> bool {
    forall|j: int| 0 <= j < s.len() ==> !is_trust_step(#[trigger] s[j])
}

proof fn lemma_opt_no_trust(b: bool, x: TlsStepView)
    requires
        !is_trust_step(x),
    ensures
        no_trust_steps(opt_step(b, x)),
{
}

proof fn lemma_concat_no_trust(a: Seq<TlsStepView>, b: Seq<TlsStepView>)
    requires
        no_trust_steps(a),
        no_trust_steps(b),
    ensures
        no_trust_steps(a + b),
{
    assert forall|j: int| 0 <= j < (a + b).len() implies !is_trust_step(#[trigger] (a + b)[j]) by {
        if j < a.len() {
            assert((a + b)[j] == a[j]);
        } else {
            assert((a + b)[j] == b[j - a.len()]);
        }
    }
}

proof fn lemma_suffix_no_trust(c: TlsConfig)
    ensures
        no_trust_steps(ca_suffix(c)),
{
    reveal(ca_suffix);
    lemma_opt_no_trust(c.client_cert_pem is Some && c.client_key_pem is Some,
        TlsStepView::IdentityPem(c.client_cert_pem->0@ + "\n"@ + c.client_key_pem->0@));
    lemma_opt_no_trust(c.client_cert_path is Some && c.client_key_path is Some,
        TlsStepView::IdentityFiles { cert_path: c.client_cert_path->0@, key_path: c.client_key_path->0@ });
    lemma_concat_no_trust(
        opt_step(c.client_cert_pem is Some && c.client_key_pem is Some,
            TlsStepView::IdentityPem(c.client_cert_pem->0@ + "\n"@ + c.client_key_pem->0@)),
        opt_step(c.client_cert_path is Some && c.client_key_path is Some,
            TlsStepView::IdentityFiles { cert_path: c.client_cert_path->0@, key_path: c.client_key_path->0@ }),
    );
    let tail = if c.client_identity_pfx is Some { seq![TlsStepView::Refuse(TlsRefusal::Pfx)] } else { spec_tls_bounds(c) };
    lemma_opt_no_trust(c.min_tls_version is Some, TlsStepView::MinVersion(c.min_tls_version->0));
    lemma_opt_no_trust(c.max_tls_version is Some, TlsStepView::MaxVersion(c.max_tls_version->0));
    lemma_opt_no_trust(c.tls_sni_override is Some, TlsStepView::Refuse(TlsRefusal::SniOverride));
    lemma_concat_no_trust(
        opt_step(c.min_tls_version is Some, TlsStepView::MinVersion(c.min_tls_version->0)),
        opt_step(c.max_tls_version is Some, TlsStepView::MaxVersion(c.max_tls_version->0)),
    );
    lemma_concat_no_trust(
        opt_step(c.min_tls_version is Some, TlsStepView::MinVersion(c.min_tls_version->0))
            + opt_step(c.max_tls_version is Some, TlsStepView::MaxVersion(c.max_tls_version->0)),
        opt_step(c.tls_sni_override is Some, TlsStepView::Refuse(TlsRefusal::SniOverride)),
    );
    assert(no_trust_steps(tail));
    lemma_concat_no_trust(
        opt_step(c.client_cert_pem is Some && c.client_key_pem is Some,
            TlsStepView::IdentityPem(c.client_cert_pem->0@ + "\n"@ + c.client_key_pem->0@))
            + opt_step(c.client_cert_path is Some && c.client_key_path is Some,
            TlsStepView::IdentityFiles { cert_path: c.client_cert_path->0@, key_path: c.client_key_path->0@ }),
        tail,
    );
}

proof fn lemma_ca_prefix(c: TlsConfig)
    ensures
        ca_prefix(c).len() == (if !c.reject_unauthorized { 1int } else { 0int }) + (if c.ca_cert_pem is Some { 1int } else { 0int }),
        forall|j: int| 0 <= j < ca_prefix(c).len() ==> !(#[trigger] ca_prefix(c)[j] is RootCertFile),
        !c.reject_unauthorized ==> ca_prefix(c)[0] == TlsStepView::AcceptInvalidCerts,
        c.ca_cert_pem is Some ==> ca_prefix(c)[ca_prefix(c).len() - 1] == TlsStepView::RootCertPem(c.ca_cert_pem->0@),
{
}

proof fn lemma_ca_layout(c: TlsConfig)
    requires
        !(c.pin_sha256 matches Some(p) && p@.len() > 0),
    ensures
        spec_tls_steps(c) == ca_prefix(c)
            + opt_step(c.ca_cert_path is Some, TlsStepView::RootCertFile(c.ca_cert_path->0@)) + ca_suffix(c),
{
    reveal(ca_suffix);
    let pre = ca_prefix(c);
    let file = opt_step(c.ca_cert_path is Some, TlsStepView::RootCertFile(c.ca_cert_path->0@));
    let ids = opt_step(c.client_cert_pem is Some && c.client_key_pem is Some,
            TlsStepView::IdentityPem(c.client_cert_pem->0@ + "\n"@ + c.client_key_pem->0@))
        + opt_step(c.client_cert_path is Some && c.client_key_path is Some,
            TlsStepView::IdentityFiles { cert_path: c.client_cert_path->0@, key_path: c.client_key_path->0@ });
    let tail = if c.client_identity_pfx is Some { seq![TlsStepView::Refuse(TlsRefusal::Pfx)] } else { spec_tls_bounds(c) };
    assert(spec_tls_loads(c) =~= pre + file + ids);
    assert(ca_suffix(c) == ids + tail);
    assert(spec_tls_steps(c) == spec_tls_loads(c) + tail);
    assert((pre + file + ids) + tail =~= pre + file + (ids + tail));
}

/// Without pinning (which refuses everything), a configured CA file is
/// trusted by the HTTP client: the setup holds the step that loads that
/// file, placed after the relaxed-check and PEM CA steps (exactly those
/// that are configured come before it) and before the client identity,
/// version bound and refusal steps, none of which touches the trusted
/// certificates.
pub proof fn ca_file_is_trusted(c: TlsConfig, path: String)
    requires
        !(c.pin_sha256 matches Some(p) && p@.len() > 0),
        c.ca_cert_path == Some(path),
    ensures
        ({
            let steps = spec_tls_steps(c);
            let k = (if !c.reject_unauthorized { 1int } else { 0int }) + (if c.ca_cert_pem is Some { 1int } else { 0int });
            &&& k < steps.len()
            &&& steps[k] == TlsStepView::RootCertFile(path@)
            &&& (!c.reject_unauthorized ==> steps[0] == TlsStepView::AcceptInvalidCerts)
            &&& (c.ca_cert_pem is Some ==> steps[k - 1] == TlsStepView::RootCertPem(c.ca_cert_pem->0@))
            &&& forall|j: int| k < j < steps.len() ==> !is_trust_step(#[trigger] steps[j])
        }),
{
    lemma_ca_layout(c);
    lemma_ca_prefix(c);
    lemma_suffix_no_trust(c);
    let steps = spec_tls_steps(c);
    let pre = ca_prefix(c);
    let post = ca_suffix(c);
    let k: int = pre.len() as int;
    assert(steps[k] == TlsStepView::RootCertFile(path@));
    assert forall|j: int| k < j < steps.len() implies !is_trust_step(#[trigger] steps[j]) by {
        assert(steps[j] == post[j - k - 1]);
    }
}

/// Without a CA file no CA file is loaded.
pub proof fn no_ca_file_without_path(c: TlsConfig)
    requires
        c.ca_cert_path is None,
    ensures
        forall|j: int| 0 <= j < spec_tls_steps(c).len() ==> !(#[trigger] spec_tls_steps(c)[j] is RootCertFile),
{
    if !(c.pin_sha256 matches Some(p) && p@.len() > 0) {
        lemma_ca_layout(c);
        lemma_ca_prefix(c);
        lemma_suffix_no_trust(c);
        let pre = ca_prefix(c);
        let post = ca_suffix(c);
        assert(spec_tls_steps(c) =~= pre + post);
        assert forall|j: int| 0 <= j < spec_tls_steps(c).len() implies !(#[trigger] spec_tls_steps(c)[j] is RootCertFile) by {
            if j < pre.len() {
                assert(spec_tls_steps(c)[j] == pre[j]);
            } else {
                assert(spec_tls_steps(c)[j] == post[j - pre.len()]);
            }
        }
    }
}

/// How the HTTP client of a WebSocket connection is set up, in the order in
/// which the settings are applied (and their errors take precedence).
#[derive(Debug)]
pub struct ClientSetup {
    /// The connect timeout: the handshake timeout when it is set.
    pub connect_timeout_ms: Option<u64>,
    pub tls: Vec<TlsStep>,
    /// Resolve through the shared caching resolver.
    pub catcher_dns: bool,
    pub proxy: ProxyPlan,
    /// The default headers (none when the list is empty), or why they are refused.
    pub headers: Result<Vec<(String, String)>, CatcherError>,
}

/// The setup of the HTTP client of a WebSocket connection with this
/// configuration. Only a usable proxy setting can be set up: a manual
/// proxy needs an address.
pub fn client_setup(config: &WsClientConfig) -> (r: ClientSetup)
    requires
        config.proxy matches Some(p) ==> proxy_is_usable(p),
    ensures
        r.connect_timeout_ms == (if config.handshake_timeout_ms > 0 { Some(config.handshake_timeout_ms) } else { None }),
        tls_steps_view(r.tls@) == spec_tls_steps(config.tls),
        r.catcher_dns == (config.dns matches Some(d) && d.mode == DnsMode::Catcher),
        plan_fits(r.proxy, config.proxy),
        match r.headers {
            Ok(hs) => header_texts(hs@) == spec_handshake_headers(*config) && headers_accepted(*config),
            Err(e) => !headers_accepted(*config) && is_internal(e, handshake_header_error(*config)),
        },
{
    let connect_timeout_ms = if config.handshake_timeout_ms > 0 { Some(config.handshake_timeout_ms) } else { None };
    let tls = tls_steps(&config.tls);
    let catcher_dns = match &config.dns {
        Some(d) => d.use_catcher_resolver(),
        None => false,
    };
    let proxy = proxy_plan(&config.proxy);
    let headers = build_handshake_headers(config);
    ClientSetup { connect_timeout_ms, tls, catcher_dns, proxy, headers }
}

} // verus!
