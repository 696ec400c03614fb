//! The one outside call of the proxy selector: parsing a proxy URL into
//! scheme, host and port.

use vstd::prelude::*;
use vstd::utf8::encode_utf8;

verus! {

/// The parts of a parsed URL that the proxy selector reads.
#[derive(Debug, Clone)]
pub struct UriParts {
    pub scheme: Option<String>,
    pub host: Option<String>,
    pub port: Option<u16>,
}

/// What the URI parser returns for a given string: `None` when the string
/// is not a URI, else the scheme bytes, host bytes and port, each where the
/// URI has one.
pub uninterp spec fn uri_parse_of(s: Seq<char>) -> Option<
    (Option<Seq<u8>>, Option<Seq<u8>>, Option<u16>),
>;

/// The scheme of `p`, as bytes.
pub open spec fn parts_scheme(p: UriParts) -> Option<Seq<u8>> {
    match p.scheme {
        Some(s) => Some(encode_utf8(s@)),
        None => None,
    }
}

/// The host of `p`, as bytes.
pub open spec fn parts_host(p: UriParts) -> Option<Seq<u8>> {
    match p.host {
        Some(h) => Some(encode_utf8(h@)),
        None => None,
    }
}

/// The triple that `p` holds.
pub open spec fn parts_rep(p: UriParts) -> (Option<Seq<u8>>, Option<Seq<u8>>, Option<u16>) {
    (parts_scheme(p), parts_host(p), p.port)
}

/// Relies on the `http` crate's URI parser, through hyper's re-export of
/// `http::uri::Uri`: it splits a URL string into scheme, host and port, and
/// its result depends on the string alone.
#[verifier::external_body]
pub(crate) fn parse_uri(s: &str) -> (r: Option<UriParts>)
    ensures
        match r {
            Some(p) => uri_parse_of(s@) == Some(parts_rep(p)),
            None => uri_parse_of(s@) is None,
        },
{
    match s.parse::<hyper::http::uri::Uri>() {
        Ok(u) => Some(
            UriParts {
                scheme: u.scheme_str().map(|x| x.to_string()),
                host: u.host().map(|x| x.to_string()),
                port: u.port_u16(),
            },
        ),
        Err(_) => None,
    }
}

} // verus!
