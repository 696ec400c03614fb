//! The proxy selector: from environment-style configuration and a
//! destination host, which path a connection takes — direct, through an HTTP
//! CONNECT proxy, or through a SOCKS5 proxy (resolving locally or at the
//! proxy).
//!
//! A host on the `NO_PROXY` list (entries split on commas and trimmed; `*`
//! matches every host) always connects directly, whatever else is
//! configured. A proxy URL that remains is parsed; a malformed URL, a
//! missing host, a missing port without a scheme default, or a scheme other
//! than `http`, `socks5`, `socks5h` fails the connection attempt before any
//! socket is opened — never silently falling back to a direct connection.

use vstd::prelude::*;
use vstd::utf8::encode_utf8;

use crate::bytesplit::{split_bytes, split_on, vecs_view};
use crate::error::{ConfigFault, ConnectError};
use crate::uri::{parse_uri, parts_host, parts_rep, parts_scheme, uri_parse_of, UriParts};
use crate::util::{bytes_eq, trim_bytes, trim_sp};

verus! {

/// Which path a connection to a destination takes.
#[derive(Debug, Clone, PartialEq, Eq)]
pub enum ProxyDecision {
    /// Connect to the destination itself.
    Direct,
    /// Tunnel through an HTTP CONNECT proxy at `host:port`.
    Http { host: String, port: u16 },
    /// Tunnel through a SOCKS5 proxy at `host:port`; with
    /// `resolve_remotely` the proxy resolves the destination name itself.
    Socks5 { host: String, port: u16, resolve_remotely: bool },
}

/// The process-wide proxy configuration, as read from the environment:
/// `ALL_PROXY`, `HTTPS_PROXY`, `HTTP_PROXY` and the `NO_PROXY` exclusion
/// list (each with its lower-case twin). It is read once and passed in; the
/// selector itself never touches the environment.
#[derive(Debug, Clone, Default)]
pub struct ProxyConfig {
    pub all_proxy: Option<String>,
    pub https_proxy: Option<String>,
    pub http_proxy: Option<String>,
    pub no_proxy: Option<String>,
}

/// Whether one `NO_PROXY` entry, trimmed, names `host` or every host.
pub open spec fn entry_matches(entry: Seq<u8>, host: Seq<u8>) -> bool {
    trim_sp(entry) == host || trim_sp(entry) == seq![42u8]
}

/// Whether any comma-separated entry of `list` names `host` or every host.
pub open spec fn no_proxy_matches(list: Seq<u8>, host: Seq<u8>) -> bool {
    exists|i: int|
        0 <= i < split_on(list, 44).len() && entry_matches(
            #[trigger] split_on(list, 44)[i],
            host,
        )
}

/// Whether `cfg`'s exclusion list bypasses the proxy for `host`.
pub open spec fn no_proxy_active(cfg: ProxyConfig, host: Seq<u8>) -> bool {
    match cfg.no_proxy {
        Some(l) => no_proxy_matches(encode_utf8(l@), host),
        None => false,
    }
}

/// The proxy URL that applies: `ALL_PROXY` first, else the URL for the
/// requested protocol.
pub open spec fn selected_proxy_url(cfg: ProxyConfig, tls: bool) -> Option<Seq<char>> {
    match cfg.all_proxy {
        Some(u) => Some(u@),
        None => if tls {
            match cfg.https_proxy {
                Some(u) => Some(u@),
                None => None,
            }
        } else {
            match cfg.http_proxy {
                Some(u) => Some(u@),
                None => None,
            }
        },
    }
}

/// The byte string `"http"`.
pub open spec fn scheme_http() -> Seq<u8> {
    seq![104u8, 116u8, 116u8, 112u8]
}

/// The byte string `"https"`.
pub open spec fn scheme_https() -> Seq<u8> {
    seq![104u8, 116u8, 116u8, 112u8, 115u8]
}

/// The byte string `"socks5"`.
pub open spec fn scheme_socks5() -> Seq<u8> {
    seq![115u8, 111u8, 99u8, 107u8, 115u8, 53u8]
}

/// The byte string `"socks5h"`.
pub open spec fn scheme_socks5h() -> Seq<u8> {
    seq![115u8, 111u8, 99u8, 107u8, 115u8, 53u8, 104u8]
}

/// The default port of a proxy URL scheme: 443 for `https`, 80 for `http`,
/// 1080 for both SOCKS5 forms, none for anything else.
pub open spec fn default_port_of(scheme: Option<Seq<u8>>) -> Option<u16> {
    match scheme {
        Some(s) => if s == scheme_https() {
            Some(443u16)
        } else if s == scheme_http() {
            Some(80u16)
        } else if s == scheme_socks5() || s == scheme_socks5h() {
            Some(1080u16)
        } else {
            None
        },
        None => None,
    }
}

/// The port the proxy URL names, or its scheme's default.
pub open spec fn effective_port(scheme: Option<Seq<u8>>, port: Option<u16>) -> Option<u16> {
    match port {
        Some(p) => Some(p),
        None => default_port_of(scheme),
    }
}

/// The first defect of a parsed proxy URL, if any: no host, then no port
/// and no default, then an unsupported scheme.
pub open spec fn parts_fault(
    scheme: Option<Seq<u8>>,
    host: Option<Seq<u8>>,
    port: Option<u16>,
) -> Option<ConfigFault> {
    if host is None {
        Some(ConfigFault::MissingProxyHost)
    } else if effective_port(scheme, port) is None {
        Some(ConfigFault::MissingProxyPort)
    } else if !(scheme == Some(scheme_http()) || scheme == Some(scheme_socks5()) || scheme
        == Some(scheme_socks5h())) {
        Some(ConfigFault::UnsupportedProxyScheme)
    } else {
        None
    }
}

/// Whether decision `d` is the one a faultless proxy URL with this scheme,
/// host and port calls for.
pub open spec fn decision_for(
    scheme: Option<Seq<u8>>,
    host: Seq<u8>,
    port: u16,
    d: ProxyDecision,
) -> bool {
    match d {
        ProxyDecision::Direct => false,
        ProxyDecision::Http { host: h, port: p } => {
            &&& scheme == Some(scheme_http())
            &&& encode_utf8(h@) == host
            &&& p == port
        },
        ProxyDecision::Socks5 { host: h, port: p, resolve_remotely } => {
            &&& encode_utf8(h@) == host
            &&& p == port
            &&& if resolve_remotely {
                scheme == Some(scheme_socks5h())
            } else {
                scheme == Some(scheme_socks5())
            }
        },
    }
}

/// Whether any comma-separated entry of `list`, trimmed, equals `host` or
/// `*`.
pub fn no_proxy_match(list: &[u8], host: &[u8]) -> (r: bool)
    ensures
        r == no_proxy_matches(list@, host@),
{
    let entries = split_bytes(list, 44);
    let ghost parts = split_on(list@, 44);
    let mut i: usize = 0;
    while i < entries.len()
        invariant
            parts == split_on(list@, 44),
            vecs_view(entries@) == parts,
            i <= entries.len(),
            forall|j: int| 0 <= j < i ==> !entry_matches(#[trigger] parts[j], host@),
        decreases entries.len() - i,
    {
        proof {
            assert(parts[i as int] == entries@[i as int]@);
        }
        let t = trim_bytes(entries[i].as_slice());
        if bytes_eq(t, host) {
            return true;
        }
        if t.len() == 1 && t[0] == 42 {
            proof {
                assert(t@ =~= seq![42u8]);
            }
            return true;
        }
        proof {
            assert(t@ != seq![42u8]) by {
                if t@ == seq![42u8] {
                    assert(t@.len() == 1 && t@[0] == 42);
                }
            }
        }
        i = i + 1;
    }
    proof {
        assert(entries@.len() == parts.len());
    }
    false
}

/// Turns a parsed proxy URL into the decision it calls for: `http` tunnels
/// by CONNECT, `socks5` tunnels by SOCKS5 resolving locally, `socks5h`
/// resolving at the proxy; anything else is refused with the fault that
/// `parts_fault` names, and no URL at all is refused as malformed.
pub fn decide_from_parts(parts: Option<UriParts>) -> (r: Result<ProxyDecision, ConnectError>)
    ensures
        match parts {
            None => r matches Err(ConnectError::InvalidConfiguration {
                fault: ConfigFault::MalformedProxyUrl,
            }),
            Some(p) => match r {
                Ok(d) => {
                    &&& parts_fault(parts_scheme(p), parts_host(p), p.port) is None
                    &&& parts_host(p) matches Some(hb) && effective_port(parts_scheme(p), p.port)
                        matches Some(pt) && decision_for(parts_scheme(p), hb, pt, d)
                },
                Err(e) => match parts_fault(parts_scheme(p), parts_host(p), p.port) {
                    Some(f) => e matches ConnectError::InvalidConfiguration { fault } && fault
                        == f,
                    None => false,
                },
            },
        },
{
    let p = match parts {
        None => {
            return Err(
                ConnectError::InvalidConfiguration { fault: ConfigFault::MalformedProxyUrl },
            );
        },
        Some(p) => p,
    };
    let host = match p.host {
        Some(h) => h,
        None => {
            return Err(
                ConnectError::InvalidConfiguration { fault: ConfigFault::MissingProxyHost },
            );
        },
    };
    let lit_http: [u8; 4] = [104, 116, 116, 112];
    let lit_https: [u8; 5] = [104, 116, 116, 112, 115];
    let lit_socks5: [u8; 6] = [115, 111, 99, 107, 115, 53];
    let lit_socks5h: [u8; 7] = [115, 111, 99, 107, 115, 53, 104];
    proof {
        assert(lit_http@ =~= scheme_http());
        assert(lit_https@ =~= scheme_https());
        assert(lit_socks5@ =~= scheme_socks5());
        assert(lit_socks5h@ =~= scheme_socks5h());
    }
    let (is_http, is_https, is_socks5, is_socks5h): (bool, bool, bool, bool) = match &p.scheme {
        None => (false, false, false, false),
        Some(s) => {
            let sb = s.as_str().as_bytes();
            (
                bytes_eq(sb, lit_http.as_slice()),
                bytes_eq(sb, lit_https.as_slice()),
                bytes_eq(sb, lit_socks5.as_slice()),
                bytes_eq(sb, lit_socks5h.as_slice()),
            )
        },
    };
    let ghost sch = parts_scheme(p);
    proof {
        assert(is_http == (sch == Some(scheme_http())));
        assert(is_https == (sch == Some(scheme_https())));
        assert(is_socks5 == (sch == Some(scheme_socks5())));
        assert(is_socks5h == (sch == Some(scheme_socks5h())));
    }
    let port: u16 = match p.port {
        Some(pt) => pt,
        None => {
            if is_https {
                443
            } else if is_http {
                80
            } else if is_socks5 || is_socks5h {
                1080
            } else {
                return Err(
                    ConnectError::InvalidConfiguration { fault: ConfigFault::MissingProxyPort },
                );
            }
        },
    };
    if is_http {
        Ok(ProxyDecision::Http { host, port })
    } else if is_socks5 {
        Ok(ProxyDecision::Socks5 { host, port, resolve_remotely: false })
    } else if is_socks5h {
        Ok(ProxyDecision::Socks5 { host, port, resolve_remotely: true })
    } else {
        Err(ConnectError::InvalidConfiguration { fault: ConfigFault::UnsupportedProxyScheme })
    }
}

/// Whether `r` is the decision (or fault) that configuration `cfg` calls
/// for, for destination `host` with or without TLS: direct when the
/// exclusion list names the host or no proxy URL applies, else whatever the
/// parsed proxy URL demands.
pub open spec fn decide_ok(
    cfg: ProxyConfig,
    host: Seq<char>,
    tls: bool,
    r: Result<ProxyDecision, ConnectError>,
) -> bool {
    if no_proxy_active(cfg, encode_utf8(host)) {
        r matches Ok(ProxyDecision::Direct)
    } else {
        match selected_proxy_url(cfg, tls) {
            None => r matches Ok(ProxyDecision::Direct),
            Some(u) => match uri_parse_of(u) {
                None => r matches Err(ConnectError::InvalidConfiguration {
                    fault: ConfigFault::MalformedProxyUrl,
                }),
                Some(rep) => match r {
                    Ok(d) => {
                        &&& parts_fault(rep.0, rep.1, rep.2) is None
                        &&& rep.1 matches Some(hb) && effective_port(rep.0, rep.2)
                            matches Some(pt) && decision_for(rep.0, hb, pt, d)
                    },
                    Err(e) => match parts_fault(rep.0, rep.1, rep.2) {
                        Some(f) => e matches ConnectError::InvalidConfiguration { fault }
                            && fault == f,
                        None => false,
                    },
                },
            },
        }
    }
}

impl ProxyConfig {
    /// Decides the path to `host`: direct when the exclusion list says so
    /// or no proxy URL applies; else what the parsed proxy URL calls for,
    /// or its fault. A host on the exclusion list connects directly even
    /// when the configured proxy URL is unusable.
    pub fn decide(&self, host: &str, tls: bool) -> (r: Result<ProxyDecision, ConnectError>)
        ensures
            decide_ok(*self, host@, tls, r),
            no_proxy_active(*self, encode_utf8(host@)) ==> r matches Ok(ProxyDecision::Direct),
    {
        match &self.no_proxy {
            Some(l) => {
                if no_proxy_match(l.as_str().as_bytes(), host.as_bytes()) {
                    return Ok(ProxyDecision::Direct);
                }
            },
            None => {},
        }
        let url: Option<&String> = match &self.all_proxy {
            Some(u) => Some(u),
            None => if tls {
                match &self.https_proxy {
                    Some(u) => Some(u),
                    None => None,
                }
            } else {
                match &self.http_proxy {
                    Some(u) => Some(u),
                    None => None,
                }
            },
        };
        match url {
            None => Ok(ProxyDecision::Direct),
            Some(u) => {
                let parts = parse_uri(u.as_str());
                decide_from_parts(parts)
            },
        }
    }
}

/// A proxy policy that never proxies: every destination is connected
/// directly.
#[derive(Debug, Clone, Default)]
pub struct NoProxy;

impl NoProxy {
    /// The decision this policy makes for every destination.
    pub fn decision(&self) -> (r: ProxyDecision)
        ensures
            r is Direct,
    {
        ProxyDecision::Direct
    }
}

/// The proxy policy that follows the process environment:
/// `http_proxy`/`HTTPS_PROXY` for protocol-specific proxies, `ALL_PROXY`
/// for a general one, and `NO_PROXY` as a comma-separated list of host
/// names that bypass any proxy (a lone `*` matches all hosts). The
/// environment is read outside this library into a [`ProxyConfig`], whose
/// [`ProxyConfig::decide`] then makes the decision.
#[derive(Debug, Clone, Default)]
pub struct EnvProxy;

} // verus!
