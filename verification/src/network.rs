//! Proxy and TLS configuration shared by the HTTP and WebSocket transports.

use vstd::prelude::*;
use vstd::string::*;

verus! {

/// A TLS protocol version.
#[derive(Debug, Clone, Copy, PartialEq, Eq, Structural)]
pub enum TlsVersion {
    Tls1_0,
    Tls1_1,
    Tls1_2,
    Tls1_3,
}

/// TLS settings of a connection.
#[derive(Debug)]
pub struct TlsConfig {
    /// Whether the server certificate is verified.
    pub reject_unauthorized: bool,
    /// CA certificate, PEM text.
    pub ca_cert_pem: Option<String>,
    /// CA certificate file path.
    pub ca_cert_path: Option<String>,
    /// Client certificate, PEM text.
    pub client_cert_pem: Option<String>,
    /// Client certificate file path.
    pub client_cert_path: Option<String>,
    /// Client private key, PEM text.
    pub client_key_pem: Option<String>,
    /// Client private key file path.
    pub client_key_path: Option<String>,
    /// PFX / PKCS12 client identity.
    pub client_identity_pfx: Option<Vec<u8>>,
    /// Password of the PFX identity.
    pub client_identity_password: Option<String>,
    /// SNI host name override.
    pub tls_sni_override: Option<String>,
    /// Lowest accepted TLS version.
    pub min_tls_version: Option<TlsVersion>,
    /// Highest accepted TLS version.
    pub max_tls_version: Option<TlsVersion>,
    /// SHA-256 public key pins.
    pub pin_sha256: Option<Vec<String>>,
}

/// The default TLS settings: certificates are verified and nothing else is set.
pub open spec fn is_default_tls(c: TlsConfig) -> bool {
    &&& c.reject_unauthorized
    &&& c.ca_cert_pem is None
    &&& c.ca_cert_path is None
    &&& c.client_cert_pem is None
    &&& c.client_cert_path is None
    &&& c.client_key_pem is None
    &&& c.client_key_path is None
    &&& c.client_identity_pfx is None
    &&& c.client_identity_password is None
    &&& c.tls_sni_override is None
    &&& c.min_tls_version is None
    &&& c.max_tls_version is None
    &&& c.pin_sha256 is None
}

impl Default for TlsConfig {
    fn default() -> (r: Self)
        ensures
            is_default_tls(r),
    {
        TlsConfig {
            reject_unauthorized: true,
            ca_cert_pem: None,
            ca_cert_path: None,
            client_cert_pem: None,
            client_cert_path: None,
            client_key_pem: None,
            client_key_path: None,
            client_identity_pfx: None,
            client_identity_password: None,
            tls_sni_override: None,
            min_tls_version: None,
            max_tls_version: None,
            pin_sha256: None,
        }
    }
}

/// Proxy credentials.
#[derive(Debug)]
pub struct ProxyAuth {
    pub username: String,
    pub password: String,
}

/// How the proxy is chosen.
#[derive(Debug, Clone, Copy, PartialEq, Eq, Structural)]
pub enum ProxyMode {
    /// The proxy given in `url`.
    Manual,
    /// No proxy at all, not even one from the environment.
    Direct,
    /// The proxy detected from the operating system.
    System,
}

impl Default for ProxyMode {
    fn default() -> (r: Self)
        ensures
            r == ProxyMode::Manual,
    {
        ProxyMode::Manual
    }
}

/// Proxy settings.
#[derive(Debug)]
pub struct ProxyConfig {
    pub mode: ProxyMode,
    /// The proxy address, such as `http://host:port` or `socks5://host:port`.
    /// Required in manual mode, ignored in the other modes.
    pub url: Option<String>,
    pub auth: Option<ProxyAuth>,
    pub no_proxy: Vec<String>,
}

impl Default for ProxyConfig {
    fn default() -> (r: Self)
        ensures
            r.mode == ProxyMode::Manual,
            r.url is None,
            r.auth is None,
            r.no_proxy@.len() == 0,
    {
        ProxyConfig { mode: ProxyMode::Manual, url: None, auth: None, no_proxy: Vec::new() }
    }
}

/// `s` holds the scheme separator `://` at position `i`.
pub open spec fn is_scheme_sep_at(s: Seq<char>, i: int) -> bool {
    &&& 0 <= i
    &&& i + 3 <= s.len()
    &&& s[i] == ':'
    &&& s[i + 1] == '/'
    &&& s[i + 2] == '/'
}

/// `i` is the first position of `://` in `s`.
pub open spec fn is_first_scheme_sep(s: Seq<char>, i: int) -> bool {
    &&& is_scheme_sep_at(s, i)
    &&& forall|j: int| 0 <= j < i ==> !is_scheme_sep_at(s, j)
}

/// The code of a character with ASCII upper-case letters folded to lower case.
pub open spec fn ascii_fold(c: char) -> u32 {
    if 'A' <= c && c <= 'Z' {
        (c as u32 + 32) as u32
    } else {
        c as u32
    }
}

/// ASCII case-insensitive equality of two texts.
pub open spec fn eq_ignore_ascii_case(a: Seq<char>, b: Seq<char>) -> bool {
    &&& a.len() == b.len()
    &&& forall|i: int| 0 <= i < a.len() ==> ascii_fold(#[trigger] a[i]) == ascii_fold(b[i])
}

/// The proxy address that the transport uses: a `socks5` scheme (in any
/// letter case) becomes `socks5h`, so that the proxy resolves the target
/// host; every other address is used as it is.
pub open spec fn spec_transport_url(url: Seq<char>) -> Seq<char> {
    if exists|i: int| is_first_scheme_sep(url, i) {
        let i = choose|i: int| is_first_scheme_sep(url, i);
        if eq_ignore_ascii_case(url.take(i), "socks5"@) {
            "socks5h://"@ + url.skip(i + 3)
        } else {
            url
        }
    } else {
        url
    }
}

/// Whether two characters are equal up to ASCII letter case.
pub fn chars_eq_ignore_ascii_case(a: char, b: char) -> (r: bool)
    ensures
        r == (ascii_fold(a) == ascii_fold(b)),
{
    let la: u32 = if a >= 'A' && a <= 'Z' { a as u32 + 32 } else { a as u32 };
    let lb: u32 = if b >= 'A' && b <= 'Z' { b as u32 + 32 } else { b as u32 };
    la == lb
}

/// Whether two texts are equal up to ASCII letter case.
pub fn str_eq_ignore_ascii_case(a: &str, b: &str) -> (r: bool)
    ensures
        r == eq_ignore_ascii_case(a@, b@),
{
    let n = a.unicode_len();
    if n != b.unicode_len() {
        return false;
    }
    let mut k: usize = 0;
    while k < n
        invariant
            n == a@.len(),
            n == b@.len(),
            k <= n,
            forall|j: int| 0 <= j < k ==> ascii_fold(#[trigger] a@[j]) == ascii_fold(b@[j]),
        decreases n - k,
    {
        if !chars_eq_ignore_ascii_case(a.get_char(k), b.get_char(k)) {
            return false;
        }
        k = k + 1;
    }
    true
}

/// The first position of `://` in `s`, if there is one.
pub fn find_scheme_sep(s: &str) -> (r: Option<usize>)
    ensures
        match r {
            Some(i) => is_first_scheme_sep(s@, i as int),
            None => forall|i: int| !is_scheme_sep_at(s@, i),
        },
{
    let len = s.unicode_len();
    let mut i: usize = 0;
    while len >= 3 && i <= len - 3
        invariant
            len == s@.len(),
            i <= len,
            forall|j: int| 0 <= j < i ==> !is_scheme_sep_at(s@, j),
        decreases len - i,
    {
        if s.get_char(i) == ':' && s.get_char(i + 1) == '/' && s.get_char(i + 2) == '/' {
            return Some(i);
        }
        i = i + 1;
    }
    None
}

/// Whether the scheme `s[..end]` is `socks5` up to ASCII letter case.
fn is_socks5_scheme(s: &str, end: usize) -> (r: bool)
    requires
        end <= s@.len(),
    ensures
        r == eq_ignore_ascii_case(s@.take(end as int), "socks5"@),
{
    let target = "socks5";
    proof {
        reveal_strlit("socks5");
    }
    if end != 6 {
        return false;
    }
    let mut k: usize = 0;
    while k < 6
        invariant
            end == 6,
            6 <= s@.len(),
            target@ == "socks5"@,
            target@.len() == 6,
            forall|j: int| 0 <= j < k ==> ascii_fold(s@[j]) == ascii_fold(target@[j]),
        decreases 6 - k,
    {
        if !chars_eq_ignore_ascii_case(s.get_char(k), target.get_char(k)) {
            assert(!eq_ignore_ascii_case(s@.take(end as int), "socks5"@)) by {
                assert(s@.take(end as int)[k as int] == s@[k as int]);
            }
            return false;
        }
        k = k + 1;
    }
    assert(eq_ignore_ascii_case(s@.take(end as int), "socks5"@)) by {
        assert forall|j: int| 0 <= j < 6 implies ascii_fold(#[trigger] s@.take(6)[j])
            == ascii_fold("socks5"@[j]) by {
            assert(s@.take(6)[j] == s@[j]);
        }
    }
    true
}

/// A `socks5` scheme, in any letter case, is rewritten to `socks5h` and the
/// rest of the address is kept as it is.
pub proof fn socks5_becomes_socks5h(scheme: Seq<char>, rest: Seq<char>)
    requires
        eq_ignore_ascii_case(scheme, "socks5"@),
    ensures
        spec_transport_url(scheme + "://"@ + rest) == "socks5h://"@ + rest,
{
    reveal_strlit("socks5");
    reveal_strlit("://");
    let s = scheme + "://"@ + rest;
    assert(scheme.len() == 6);
    assert(is_scheme_sep_at(s, 6));
    assert forall|j: int| 0 <= j < 6 implies !is_scheme_sep_at(s, j) by {
        assert(s[j] == scheme[j]);
        assert(ascii_fold(scheme[j]) == ascii_fold("socks5"@[j]));
    }
    assert(is_first_scheme_sep(s, 6));
    let c = choose|i: int| is_first_scheme_sep(s, i);
    assert(c == 6) by {
        if c < 6 {
            assert(!is_scheme_sep_at(s, c));
        }
        if c > 6 {
            assert(!is_scheme_sep_at(s, 6));
        }
    }
    assert(s.take(6) =~= scheme);
    assert(s.skip(9) =~= rest);
}

/// Rewriting is idempotent: the address the transport uses is already its
/// own transport address.
pub proof fn transport_url_is_idempotent(url: Seq<char>)
    ensures
        spec_transport_url(spec_transport_url(url)) == spec_transport_url(url),
{
    if spec_transport_url(url) != url {
        reveal_strlit("socks5h://");
        reveal_strlit("socks5");
        let i = choose|i: int| is_first_scheme_sep(url, i);
        let t = "socks5h://"@ + url.skip(i + 3);
        assert(is_scheme_sep_at(t, 7));
        assert forall|j: int| 0 <= j < 7 implies !is_scheme_sep_at(t, j) by {
            assert(t[j] == "socks5h://"@[j]);
        }
        assert(is_first_scheme_sep(t, 7));
        let c = choose|k: int| is_first_scheme_sep(t, k);
        assert(c == 7) by {
            if c < 7 {
                assert(!is_scheme_sep_at(t, c));
            }
            if c > 7 {
                assert(!is_scheme_sep_at(t, 7));
            }
        }
        assert(!eq_ignore_ascii_case(t.take(7), "socks5"@));
    }
}

impl ProxyConfig {
    /// The proxy address that the transport actually uses; `socks5://` is
    /// treated as `socks5h://` so that the proxy, not this host, resolves
    /// the target domain.
    ///
    /// Only a resolved manual proxy has an address: `url` must be set.
    pub fn transport_url(&self) -> (r: String)
        requires
            self.url is Some,
        ensures
            r@ == spec_transport_url(self.url->0@),
    {
        let url: &String = self.url.as_ref().unwrap();
        let s: &str = url.as_str();
        match find_scheme_sep(s) {
            None => {
                url.clone()
            },
            Some(i) => {
                proof {
                    assert(is_first_scheme_sep(s@, i as int));
                    let c = choose|c: int| is_first_scheme_sep(s@, c);
                    if c < i as int {
                        assert(!is_scheme_sep_at(s@, c));
                    }
                    if c > i as int {
                        assert(!is_scheme_sep_at(s@, i as int));
                    }
                    assert(c == i as int);
                }
                if is_socks5_scheme(s, i) {
                    let len = s.unicode_len();
                    let rest = s.substring_char(i + 3, len);
                    let mut out = String::from_str("socks5h://");
                    out.append(rest);
                    assert(out@ =~= spec_transport_url(url@));
                    out
                } else {
                    url.clone()
                }
            },
        }
    }
}

} // verus!
