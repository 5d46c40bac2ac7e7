//! The WebSocket handshake request: endpoint address and handshake headers.

use vstd::prelude::*;
use vstd::string::*;
use crate::error::CatcherError;
use crate::network::{eq_ignore_ascii_case, str_eq_ignore_ascii_case};
use crate::text::{decimal, decimal_string, join, join_strings, opt_text, texts};
use crate::ws_backend::{algorithm_name, application_compression_algorithm_name};
use crate::ws_config::WsClientConfig;

verus! {

/// The parts of a parsed URL that the handshake needs.
#[derive(Debug)]
pub struct UrlParts {
    pub scheme: String,
    pub host: Option<String>,
    /// The explicit port; none when it is the scheme's default.
    pub port: Option<u16>,
}

/// What the URL parser makes of a text: scheme, host and explicit port, or
/// the parser's error message.
pub uninterp spec fn url_parse_result(s: Seq<char>) -> Result<(Seq<char>, Option<Seq<char>>, Option<u16>), Seq<char>>;

/// Parses `s` with the `url` crate's `Url::parse`. Its result is named
/// `url_parse_result`, a function of the text alone; nothing more is claimed
/// of the parser.
#[verifier::external_body]
fn parse_url(s: &str) -> (r: Result<UrlParts, String>)
    ensures
        match r {
            Ok(p) => url_parse_result(s@) == Ok::<(Seq<char>, Option<Seq<char>>, Option<u16>), Seq<char>>(
                (p.scheme@, match p.host { Some(h) => Some(h@), None => None }, p.port)),
            Err(e) => url_parse_result(s@) == Err::<(Seq<char>, Option<Seq<char>>, Option<u16>), Seq<char>>(e@),
        },
{
    match url::Url::parse(s) {
        Ok(u) => Ok(UrlParts {
            scheme: u.scheme().to_string(),
            host: u.host_str().map(String::from),
            port: u.port(),
        }),
        Err(e) => Err(e.to_string()),
    }
}

/// The parts of the request target, as the HTTP request type parses it.
#[derive(Debug)]
pub struct UriParts {
    pub scheme: Option<String>,
    /// The host as written in the address.
    pub host: Option<String>,
    /// The port written in the address, if any.
    pub port: Option<u16>,
}

/// What the HTTP request type makes of a target text: scheme, host and
/// written port, or the message of its error.
pub uninterp spec fn request_uri_result(s: Seq<char>) -> Result<(Option<Seq<char>>, Option<Seq<char>>, Option<u16>), Seq<char>>;

/// Sets `s` as the target of an HTTP request (`http`'s request builder, as
/// re-exported by yawc, with its `Uri` parser) and reads back scheme, host
/// and port. The result is named `request_uri_result`, a function of the
/// text alone.
#[verifier::external_body]
fn parse_request_uri(s: &str) -> (r: Result<UriParts, String>)
    ensures
        match r {
            Ok(p) => request_uri_result(s@) == Ok::<(Option<Seq<char>>, Option<Seq<char>>, Option<u16>), Seq<char>>(
                (opt_text(p.scheme), opt_text(p.host), p.port)),
            Err(e) => request_uri_result(s@) == Err::<(Option<Seq<char>>, Option<Seq<char>>, Option<u16>), Seq<char>>(e@),
        },
{
    match yawc::HttpRequest::builder().uri(s).body(()) {
        Ok(req) => Ok(UriParts {
            scheme: req.uri().scheme_str().map(String::from),
            host: req.uri().host().map(String::from),
            port: req.uri().port_u16(),
        }),
        Err(e) => Err(e.to_string()),
    }
}

/// A parsed WebSocket endpoint.
#[derive(Debug)]
pub struct WsUrl {
    /// The address as given.
    pub text: String,
    pub parts: UrlParts,
}

/// `r` is an internal error whose message is `m`.
pub open spec fn is_internal(r: CatcherError, m: Seq<char>) -> bool {
    r matches CatcherError::Internal(s) && s@ == m
}

/// `r` is an invalid-configuration error whose message is `m`.
pub open spec fn is_invalid(r: CatcherError, m: Seq<char>) -> bool {
    r matches CatcherError::InvalidConfig(s) && s@ == m
}

/// `u` holds the parts that the parser gave for `s`.
pub open spec fn url_matches(u: WsUrl, s: Seq<char>, scheme: Seq<char>, host: Option<Seq<char>>, port: Option<u16>) -> bool {
    &&& u.text@ == s
    &&& u.parts.scheme@ == scheme
    &&& (match u.parts.host { Some(h) => Some(h@), None => None }) == host
    &&& u.parts.port == port
}

/// Parses a WebSocket endpoint: the URL must parse and its scheme must be
/// `ws` or `wss`.
pub fn parse_ws_url(url: &str) -> (r: Result<WsUrl, CatcherError>)
    ensures
        match url_parse_result(url@) {
            Err(e) => r matches Err(err) && is_internal(err, "invalid WS URL: "@ + e),
            Ok((scheme, host, port)) => if scheme == "ws"@ || scheme == "wss"@ {
                r matches Ok(u) && url_matches(u, url@, scheme, host, port)
            } else {
                r matches Err(err) && is_invalid(err, "unsupported WS URL scheme: "@ + scheme)
            },
        },
{
    match parse_url(url) {
        Err(e) => {
            let mut m = String::from_str("invalid WS URL: ");
            m.append(e.as_str());
            Err(CatcherError::Internal(m))
        },
        Ok(parts) => {
            let ws = String::from_str("ws");
            let wss = String::from_str("wss");
            if parts.scheme == ws || parts.scheme == wss {
                Ok(WsUrl { text: String::from_str(url), parts })
            } else {
                let mut m = String::from_str("unsupported WS URL scheme: ");
                m.append(parts.scheme.as_str());
                Err(CatcherError::InvalidConfig(m))
            }
        },
    }
}

/// The host and port that a WebSocket endpoint is reached at: the host as
/// written, and the written port, else 443 for `wss` and 80 for `ws`.
pub open spec fn spec_host_port(host: Option<Seq<char>>, port: Option<u16>, scheme: Option<Seq<char>>) -> Result<(Seq<char>, u16), Seq<char>> {
    match host {
        None => Err("WS URL missing host"@),
        Some(h) => match port {
            Some(p) => Ok((h, p)),
            None => if scheme == Some("wss"@) {
                Ok((h, 443u16))
            } else if scheme == Some("ws"@) {
                Ok((h, 80u16))
            } else {
                Err("unsupported WS URL scheme"@)
            },
        },
    }
}

/// Whether the header value text is accepted by the HTTP header type: every
/// character is a tab or at least a space, and none is DEL.
pub open spec fn header_value_accepted(v: Seq<char>) -> bool {
    forall|i: int| 0 <= i < v.len() ==> (#[trigger] v[i] == '\t' || (v[i] as u32 >= 32 && v[i] as u32 != 127))
}

/// A character of an HTTP token: an ASCII letter or digit, or one of
/// `! # $ % & ' * + - . ^ _ ` | ~`.
pub open spec fn is_token_char(c: char) -> bool {
    let n = c as u32;
    ||| 48 <= n <= 57
    ||| 65 <= n <= 90
    ||| 97 <= n <= 122
    ||| n == 33 || n == 35 || n == 36 || n == 37 || n == 38 || n == 39 || n == 42 || n == 43
    ||| n == 45 || n == 46 || n == 94 || n == 95 || n == 96 || n == 124 || n == 126
}

/// Whether the HTTP header types accept a header name: one to 65535
/// characters, each a token character (letters in either case).
pub open spec fn header_name_accepted(name: Seq<char>) -> bool {
    &&& 1 <= name.len() <= 65535
    &&& forall|i: int| 0 <= i < name.len() ==> #[trigger] is_token_char(name[i])
}

/// Checks a header name with `http`'s `HeaderName::from_bytes`, which maps
/// each byte through its token table (upper-case letters to lower case,
/// every other byte outside the table, non-ASCII bytes included, to a
/// refusal) and refuses an empty name or one longer than 65535 bytes: it
/// accepts exactly the names of `header_name_accepted`. Its error message is
/// a constant.
#[verifier::external_body]
fn check_header_name(name: &str) -> (r: Option<String>)
    ensures
        r is None <==> header_name_accepted(name@),
        r matches Some(e) ==> e@ == "invalid HTTP header name"@,
{
    match reqwest::header::HeaderName::from_bytes(name.as_bytes()) {
        Ok(_) => None,
        Err(e) => Some(e.to_string()),
    }
}

/// Checks a header value with `http`'s `HeaderValue::from_str`, which
/// accepts exactly the texts of `header_value_accepted`; its error message
/// is a constant.
#[verifier::external_body]
fn check_header_value(value: &str) -> (r: Option<String>)
    ensures
        r is None <==> header_value_accepted(value@),
        r matches Some(e) ==> e@ == "failed to parse header value"@,
{
    match reqwest::header::HeaderValue::from_str(value) {
        Ok(_) => None,
        Err(e) => Some(e.to_string()),
    }
}

/// The handshake headers of a configuration, before validation: the
/// caller's headers in order; the application-compression announcement
/// when permessage-deflate is off and compression is enabled; the offered
/// sub-protocols, comma-separated.
pub open spec fn spec_handshake_headers(c: WsClientConfig) -> Seq<(Seq<char>, Seq<char>)> {
    let user = header_texts(c.headers@);
    let compression = match c.application_compression {
        Some(a) => if !c.per_message_deflate && a.enabled {
            seq![
                ("X-Catcher-Application-Compression"@, algorithm_name(a.algorithm)),
                ("X-Catcher-Application-Compression-Format"@, "CATCHER-CMP-1"@),
                ("X-Catcher-Application-Compression-Threshold"@, decimal(a.threshold_bytes as nat)),
            ]
        } else {
            Seq::empty()
        },
        None => Seq::empty(),
    };
    let protocols = if c.protocols@.len() > 0 {
        seq![("Sec-WebSocket-Protocol"@, join(texts(c.protocols@), ", "@))]
    } else {
        Seq::empty()
    };
    user + compression + protocols
}

/// With permessage-deflate on, the handshake announces no application
/// compression, whatever its settings: the headers are the caller's and
/// the sub-protocol list only.
pub proof fn permessage_deflate_suppresses_compression_headers(c: WsClientConfig)
    requires
        c.per_message_deflate,
    ensures
        spec_handshake_headers(c) == header_texts(c.headers@) + (if c.protocols@.len() > 0 {
            seq![("Sec-WebSocket-Protocol"@, join(texts(c.protocols@), ", "@))]
        } else {
            Seq::empty()
        }),
{
    assert(header_texts(c.headers@) + Seq::<(Seq<char>, Seq<char>)>::empty() =~= header_texts(c.headers@));
}

/// The message of the first caller header that the HTTP header types
/// refuse: a refused name is named with the parser's message; a refused
/// value is named by its header's name.
pub open spec fn first_header_error(hs: Seq<(Seq<char>, Seq<char>)>) -> Option<Seq<char>>
    decreases hs.len(),
{
    if hs.len() == 0 {
        None
    } else if !header_name_accepted(hs[0].0) {
        Some("invalid header name '"@ + hs[0].0 + "': invalid HTTP header name"@)
    } else if !header_value_accepted(hs[0].1) {
        Some("invalid header value for '"@ + hs[0].0 + "': failed to parse header value"@)
    } else {
        first_header_error(hs.drop_first())
    }
}

/// The message of the error for handshake headers that are not accepted:
/// that of the first refused caller header, else the refused sub-protocol
/// list.
pub open spec fn handshake_header_error(c: WsClientConfig) -> Seq<char> {
    match first_header_error(header_texts(c.headers@)) {
        Some(m) => m,
        None => "invalid protocols: failed to parse header value"@,
    }
}

/// The texts of a header list.
pub open spec fn header_texts(hs: Seq<(String, String)>) -> Seq<(Seq<char>, Seq<char>)> {
    hs.map_values(|h: (String, String)| (h.0@, h.1@))
}

/// Every caller header is accepted by the HTTP header types, and so is the
/// list of offered sub-protocols.
pub open spec fn headers_accepted(c: WsClientConfig) -> bool {
    &&& forall|i: int| 0 <= i < c.headers@.len() ==>
        header_name_accepted(#[trigger] c.headers@[i].0@) && header_value_accepted(c.headers@[i].1@)
    &&& c.protocols@.len() > 0 ==> header_value_accepted(join(texts(c.protocols@), ", "@))
}

/// The decimal rendering of a number is accepted as a header value.
proof fn decimal_is_header_value(n: nat)
    ensures
        header_value_accepted(decimal(n)),
    decreases n,
{
    if n >= 10 {
        decimal_is_header_value(n / 10);
        assert forall|i: int| 0 <= i < decimal(n).len() implies (#[trigger] decimal(n)[i] == '\t'
            || (decimal(n)[i] as u32 >= 32 && decimal(n)[i] as u32 != 127)) by {
            if i < decimal(n / 10).len() {
                assert(decimal(n)[i] == decimal(n / 10)[i]);
            }
        }
    }
}

/// The handshake headers: those of `spec_handshake_headers`, each checked by
/// the HTTP header types. The first refused caller header gives an internal
/// error naming it; the generated headers are plain ASCII.
pub fn build_handshake_headers(config: &WsClientConfig) -> (r: Result<Vec<(String, String)>, CatcherError>)
    ensures
        match r {
            Ok(hs) => header_texts(hs@) == spec_handshake_headers(*config) && headers_accepted(*config),
            Err(e) => !headers_accepted(*config) && is_internal(e, handshake_header_error(*config)),
        },
{
    let mut out: Vec<(String, String)> = Vec::new();
    let ghost user = header_texts(config.headers@);
    let mut i: usize = 0;
    assert(user.skip(0) =~= user);
    while i < config.headers.len()
        invariant
            i <= config.headers@.len(),
            user == header_texts(config.headers@),
            header_texts(out@) == user.take(i as int),
            out@.len() == i,
            forall|j: int| 0 <= j < i ==>
                header_name_accepted(#[trigger] config.headers@[j].0@) && header_value_accepted(config.headers@[j].1@),
            first_header_error(user) == first_header_error(user.skip(i as int)),
        decreases config.headers@.len() - i,
    {
        let pair = &config.headers[i];
        let k = &pair.0;
        let v = &pair.1;
        assert(*pair == config.headers@[i as int]);
        proof {
            assert(user.skip(i as int)[0] == (k@, v@));
            assert(user.skip(i as int).drop_first() =~= user.skip(i + 1));
        }
        if let Some(e) = check_header_name(k.as_str()) {
            let mut m = String::from_str("invalid header name '");
            m.append(k.as_str());
            m.append("': ");
            m.append(e.as_str());
            proof {
                reveal_strlit("invalid header name '");
                reveal_strlit("': ");
                reveal_strlit("invalid HTTP header name");
                reveal_strlit("': invalid HTTP header name");
                assert(m@ =~= "invalid header name '"@ + k@ + "': invalid HTTP header name"@);
            }
            return Err(CatcherError::Internal(m));
        }
        if let Some(e) = check_header_value(v.as_str()) {
            let mut m = String::from_str("invalid header value for '");
            m.append(k.as_str());
            m.append("': ");
            m.append(e.as_str());
            proof {
                reveal_strlit("invalid header value for '");
                reveal_strlit("': ");
                reveal_strlit("failed to parse header value");
                reveal_strlit("': failed to parse header value");
                assert(m@ =~= "invalid header value for '"@ + k@ + "': failed to parse header value"@);
            }
            return Err(CatcherError::Internal(m));
        }
        assert(header_name_accepted(k@));
        assert(header_value_accepted(v@));
        assert(k@ == config.headers@[i as int].0@);
        assert(header_name_accepted(config.headers@[i as int].0@));
        let entry = (k.clone(), v.clone());
        assert(entry.0@ == k@ && entry.1@ == v@);
        out.push(entry);
        proof {
            assert forall|j: int| 0 <= j < i + 1 implies
                header_name_accepted(#[trigger] config.headers@[j].0@) && header_value_accepted(config.headers@[j].1@) by {
                if j == i as int {
                    assert(header_value_accepted(config.headers@[i as int].1@));
                }
            }
            assert forall|j: int| 0 <= j < i + 1 implies #[trigger] header_texts(out@)[j] == user.take(i + 1)[j] by {
                if j == i as int {
                    assert(out@[j] == entry);
                }
            }
            assert(header_texts(out@) =~= user.take(i + 1));
        }
        i = i + 1;
    }
    assert(user.take(config.headers@.len() as int) =~= user);
    assert(user.skip(config.headers@.len() as int) =~= Seq::<(Seq<char>, Seq<char>)>::empty());
    assert(first_header_error(user) is None);
    let ghost comp: Seq<(Seq<char>, Seq<char>)> = match config.application_compression {
        Some(a) => if !config.per_message_deflate && a.enabled {
            seq![
                ("X-Catcher-Application-Compression"@, algorithm_name(a.algorithm)),
                ("X-Catcher-Application-Compression-Format"@, "CATCHER-CMP-1"@),
                ("X-Catcher-Application-Compression-Threshold"@, decimal(a.threshold_bytes as nat)),
            ]
        } else {
            Seq::empty()
        },
        None => Seq::empty(),
    };
    let ghost before = header_texts(out@);
    assert(before =~= user);
    let mut compression: bool = false;
    if !config.per_message_deflate {
        if let Some(a) = &config.application_compression {
            if a.enabled {
                compression = true;
                let name = application_compression_algorithm_name(a.algorithm);
                let threshold = decimal_string(a.threshold_bytes);
                proof {
                    reveal_strlit("gzip");
                    reveal_strlit("zstd");
                    reveal_strlit("CATCHER-CMP-1");
                    assert("gzip"@ =~= seq!['g', 'z', 'i', 'p']);
                    assert("zstd"@ =~= seq!['z', 's', 't', 'd']);
                    assert("CATCHER-CMP-1"@ =~= seq!['C', 'A', 'T', 'C', 'H', 'E', 'R', '-', 'C', 'M', 'P', '-', '1']);
                    decimal_is_header_value(a.threshold_bytes as nat);
                }
                if let Some(e) = check_header_value(name) {
                    let mut m = String::from_str("invalid compression header: ");
                    m.append(e.as_str());
                    return Err(CatcherError::Internal(m));
                }
                let format = "CATCHER-CMP-1";
                if let Some(e) = check_header_value(format) {
                    let mut m = String::from_str("invalid compression format header: ");
                    m.append(e.as_str());
                    return Err(CatcherError::Internal(m));
                }
                if let Some(e) = check_header_value(threshold.as_str()) {
                    let mut m = String::from_str("invalid compression threshold header: ");
                    m.append(e.as_str());
                    return Err(CatcherError::Internal(m));
                }
                out.push((String::from_str("X-Catcher-Application-Compression"), String::from_str(name)));
                out.push((String::from_str("X-Catcher-Application-Compression-Format"), String::from_str(format)));
                out.push((String::from_str("X-Catcher-Application-Compression-Threshold"), threshold));
                assert(header_texts(out@) =~= user + comp);
            }
        }
    }
    if !compression {
        assert(comp =~= Seq::<(Seq<char>, Seq<char>)>::empty());
        assert(header_texts(out@) =~= user + comp);
    }
    assert(header_texts(out@) =~= user + comp);
    if config.protocols.len() > 0 {
        let joined = join_strings(&config.protocols, ", ");
        if let Some(e) = check_header_value(joined.as_str()) {
            let mut m = String::from_str("invalid protocols: ");
            m.append(e.as_str());
            proof {
                reveal_strlit("invalid protocols: ");
                reveal_strlit("failed to parse header value");
                reveal_strlit("invalid protocols: failed to parse header value");
                assert(m@ =~= "invalid protocols: failed to parse header value"@);
            }
            return Err(CatcherError::Internal(m));
        }
        out.push((String::from_str("Sec-WebSocket-Protocol"), joined));
        assert(header_value_accepted(join(texts(config.protocols@), ", "@)));
    }
    assert(headers_accepted(*config));
    assert(header_texts(out@) =~= spec_handshake_headers(*config));
    Ok(out)
}

/// A handshake request: the endpoint, its request target and the validated
/// headers.
#[derive(Debug)]
pub struct WsRequest {
    pub url: WsUrl,
    pub uri: UriParts,
    pub headers: Vec<(String, String)>,
}

/// The value that a header map built from `hs` holds for `name`: the last
/// entry of that name, compared without regard to ASCII letter case.
pub open spec fn header_lookup(hs: Seq<(Seq<char>, Seq<char>)>, name: Seq<char>) -> Option<Seq<char>>
    decreases hs.len(),
{
    if hs.len() == 0 {
        None
    } else if eq_ignore_ascii_case(hs.last().0, name) {
        Some(hs.last().1)
    } else {
        header_lookup(hs.drop_last(), name)
    }
}

impl WsRequest {
    /// The value of the header `name`, as a header map would give it.
    pub fn header(&self, name: &str) -> (r: Option<&String>)
        ensures
            match r {
                Some(v) => header_lookup(header_texts(self.headers@), name@) == Some(v@),
                None => header_lookup(header_texts(self.headers@), name@) is None,
            },
    {
        let ghost all = header_texts(self.headers@);
        let mut k: usize = self.headers.len();
        assert(all.take(k as int) =~= all);
        while k > 0
            invariant
                k <= self.headers@.len(),
                all == header_texts(self.headers@),
                header_lookup(all, name@) == header_lookup(all.take(k as int), name@),
            decreases k,
        {
            let entry = &self.headers[k - 1];
            proof {
                assert(all.take(k as int).drop_last() =~= all.take(k - 1));
                assert(all.take(k as int).last() == (entry.0@, entry.1@));
            }
            if str_eq_ignore_ascii_case(entry.0.as_str(), name) {
                return Some(&entry.1);
            }
            k = k - 1;
        }
        None
    }
}

/// `u` holds the parts that the request type gave for its target.
pub open spec fn uri_matches(u: UriParts, scheme: Option<Seq<char>>, host: Option<Seq<char>>, port: Option<u16>) -> bool {
    &&& opt_text(u.scheme) == scheme
    &&& opt_text(u.host) == host
    &&& u.port == port
}

/// Builds the handshake request for `url`: the endpoint must be a `ws` or
/// `wss` URL, the headers those of `build_handshake_headers`, and the
/// address a valid request target.
pub fn build_request(url: &str, config: &WsClientConfig) -> (r: Result<WsRequest, CatcherError>)
    ensures
        match url_parse_result(url@) {
            Err(e) => r matches Err(err) && is_internal(err, "invalid WS URL: "@ + e),
            Ok((scheme, host, port)) => if !(scheme == "ws"@ || scheme == "wss"@) {
                r matches Err(err) && is_invalid(err, "unsupported WS URL scheme: "@ + scheme)
            } else if !headers_accepted(*config) {
                r matches Err(err) && is_internal(err, handshake_header_error(*config))
            } else {
                match request_uri_result(url@) {
                    Err(e) => r matches Err(err) && is_internal(err, "invalid WS request: "@ + e),
                    Ok((us, uh, up)) => r matches Ok(req) && url_matches(req.url, url@, scheme, host, port)
                        && uri_matches(req.uri, us, uh, up)
                        && header_texts(req.headers@) == spec_handshake_headers(*config),
                }
            },
        },
{
    let parsed = parse_ws_url(url)?;
    let headers = build_handshake_headers(config)?;
    match parse_request_uri(url) {
        Ok(uri) => Ok(WsRequest { url: parsed, uri, headers }),
        Err(e) => {
            let mut m = String::from_str("invalid WS request: ");
            m.append(e.as_str());
            Err(CatcherError::Internal(m))
        },
    }
}

/// The host and port that a request connects to: the host as written in
/// its target, the written port or the scheme's default.
pub fn request_host_port(request: &WsRequest) -> (r: Result<(String, u16), CatcherError>)
    ensures
        match spec_host_port(opt_text(request.uri.host), request.uri.port, opt_text(request.uri.scheme)) {
            Ok((h, p)) => r matches Ok(hp) && hp.0@ == h && hp.1 == p,
            Err(m) => r matches Err(e) && is_invalid(e, m),
        },
{
    let host = match &request.uri.host {
        Some(h) => h.clone(),
        None => return Err(CatcherError::InvalidConfig(String::from_str("WS URL missing host"))),
    };
    let port: u16 = match request.uri.port {
        Some(p) => p,
        None => {
            let default_port: Option<u16> = match &request.uri.scheme {
                Some(sc) => if *sc == String::from_str("wss") {
                    Some(443)
                } else if *sc == String::from_str("ws") {
                    Some(80)
                } else {
                    None
                },
                None => None,
            };
            match default_port {
                Some(p) => p,
                None => return Err(CatcherError::InvalidConfig(String::from_str("unsupported WS URL scheme"))),
            }
        },
    };
    Ok((host, port))
}

} // verus!
