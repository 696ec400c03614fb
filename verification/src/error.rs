//! The failure taxonomy of the transport layer.
//!
//! Every failure aborts the connection attempt that raised it; nothing is
//! retried. Each variant keeps enough context (the offending host, the raw
//! reply bytes) to tell proxy misconfiguration, network failure and TLS
//! trust failure apart.

use vstd::prelude::*;

verus! {

/// A defect in the proxy configuration, found before any socket is opened.
#[derive(Debug, Clone, PartialEq, Eq, Structural)]
pub enum ConfigFault {
    /// The proxy URL did not parse.
    MalformedProxyUrl,
    /// The proxy URL has no host part.
    MissingProxyHost,
    /// The proxy URL has no port and its scheme has no default port.
    MissingProxyPort,
    /// The proxy URL's scheme is none of `http`, `socks5`, `socks5h`.
    UnsupportedProxyScheme,
    /// A destination host name longer than 255 bytes cannot be sent in a
    /// SOCKS5 domain request.
    HostNameTooLong,
}

/// A violation of the SOCKS5 or HTTP CONNECT wire protocol by the proxy.
#[derive(Debug, Clone)]
pub enum ProtocolFault {
    /// The SOCKS5 greeting reply was not `05 00`; `reply` holds the raw bytes.
    Socks5Auth { reply: Vec<u8> },
    /// The SOCKS5 connect reply did not begin with `05 00 00` (or was cut
    /// short); `reply` holds the raw bytes that were read.
    Socks5Refused { reply: Vec<u8> },
    /// The SOCKS5 connect reply announced an unknown address type, so no
    /// reply length could be expected; `reply` holds the raw bytes.
    Socks5Malformed { reply: Vec<u8> },
    /// The HTTP CONNECT response did not begin with `HTTP/1.1 200` or
    /// `HTTP/1.0 200`; `reply` holds the bytes that were accumulated.
    HttpConnectRejected { host: Vec<u8>, reply: Vec<u8> },
    /// The proxy closed the connection in the middle of a handshake.
    UnexpectedEof { host: Vec<u8> },
}

/// Errors of the HTTP layer that stands around the transport: a request
/// that cannot be built, or a connection that could not be established.
#[derive(Debug, Clone)]
pub enum HttpError {
    /// The URL's scheme is neither `http` nor `https`.
    Scheme,
    /// The URL names no host.
    UndefinedHost,
    /// The method is not an HTTP token.
    InvalidMethod,
    /// The header name is empty or holds a character no token allows.
    InvalidHeaderName,
    /// Establishing the connection failed.
    Connect(ConnectError),
}

/// Why a connection attempt failed. One error class per distinct failure
/// source, so that callers can tell them apart.
#[derive(Debug, Clone)]
pub enum ConnectError {
    /// The proxy configuration is unusable.
    InvalidConfiguration { fault: ConfigFault },
    /// The destination host could not be resolved.
    DnsFailure { host: Vec<u8> },
    /// The TCP connection could not be opened.
    ConnectFailure { host: Vec<u8>, port: u16 },
    /// The proxy broke the tunnel protocol.
    ProtocolViolation { fault: ProtocolFault },
    /// The TLS handshake with `host` was refused, or `host` is not a valid
    /// server name.
    TlsFailure { host: Vec<u8> },
    /// The transport failed while bytes were in flight.
    Io {},
}

} // verus!
