//! An HTTP client library whose core is a verified, proxy-aware transport
//! layer: it decides from environment-style configuration whether a proxy
//! applies to a destination, speaks the SOCKS5 and HTTP CONNECT tunnel
//! protocols byte for byte, and drives the whole connection establishment
//! (including the TLS upgrade) as an explicit state machine. Around that core
//! stand the request builder, response, header, session and mock types.
//!
//! All networking itself (TCP, DNS, TLS) is performed by a thin unverified
//! shell that executes the actions this library's state machine emits.

use vstd::prelude::*;

mod body;
mod bytesplit;
mod connect;
mod error;
mod header;
mod http_connect;
mod ip;
mod laws;
mod mock;
mod proxy;
mod request;
mod response;
mod session;
mod socks5;
mod strutil;

mod uri;
mod util;

pub use body::Body;
pub use connect::{
    alpn_protocols, scheme_port, version_for_alpn, ConnAction, ConnEvent, ConnState, Connector,
    HttpVersion, TunnelPlan,
};
pub use error::{ConfigFault, ConnectError, HttpError, ProtocolFault};
pub use header::{HeaderName, HeaderValue};
pub use http_connect::{http_connect_progress, http_connect_request, TunnelProgress};
pub use laws::{
    lemma_http_tunnel_needs_header_end, lemma_no_proxy_bypass, lemma_socks5_address_forms,
    lemma_socks5_reply_domain_length, lemma_tls_only_after_tunnel, tunnel_success_step,
};
pub use mock::{BodyMock, Mock, MockErr, MockedEndpoint, MockedRequest};
pub use proxy::{decide_from_parts, EnvProxy, NoProxy, ProxyConfig, ProxyDecision};
pub use request::Request;
pub use response::Response;
pub use session::Session;
pub use socks5::{socks5_auth_ok, socks5_greeting, socks5_reply_check, socks5_request, DestAddr};
pub use uri::UriParts;

verus! {

/// What can go wrong when building or executing a request.
#[derive(Debug)]
pub enum Error {
    /// A transport-level failure, with what is known of it.
    Io { message: String },
    /// The server answered with a status the caller should treat as its
    /// own failure (500 and above, or below 100).
    HTTPServerErr(u16, Response),
    /// The server answered with a status that blames the request (400 to
    /// 499).
    HTTPClientErr(u16, Response),
    /// Building the request or connecting failed.
    Other(HttpError),
    /// A mocked execution failed.
    Mock(MockErr),
}

/// Whether `r` is `resp` classified by its status code: informational,
/// success and redirect statuses pass the response through, 400 to 499 is a
/// client error, everything else a server error.
pub open spec fn classify_ok(resp: Response, r: Result<Response, Error>) -> bool {
    let s = resp.spec_code();
    if 100 <= s < 400 {
        r matches Ok(x) && x == resp
    } else if 400 <= s < 500 {
        r matches Err(Error::HTTPClientErr(c, x)) && c == s && x == resp
    } else {
        r matches Err(Error::HTTPServerErr(c, x)) && c == s && x == resp
    }
}

/// Classifies a received response by its status code, as every execution
/// of a request does before handing the response to the caller.
pub fn classify_response(resp: Response) -> (r: Result<Response, Error>)
    ensures
        classify_ok(resp, r),
{
    let s = resp.status_code();
    if 100 <= s && s < 400 {
        Ok(resp)
    } else if 400 <= s && s < 500 {
        Err(Error::HTTPClientErr(s, resp))
    } else {
        Err(Error::HTTPServerErr(s, resp))
    }
}

} // verus!
