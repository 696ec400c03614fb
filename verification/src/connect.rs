//! The connection-establishment state machine.
//!
//! One `connect(host, port, tls)` call walks
//! `Start -> {Direct | ProxyTunnel} -> RawSocket -> (if tls) TlsHandshake ->
//! Established`, strictly in order. This module holds every decision of that
//! walk; the unverified shell merely performs each emitted [`ConnAction`]
//! (open a socket, move bytes, run the TLS handshake) and reports what
//! happened as a [`ConnEvent`]. Failure at any step aborts the whole
//! sequence; there is no partial or resumable connection state. The TLS
//! handshake is asked for only after the chosen tunnel is fully
//! established — never before.

use vstd::prelude::*;
use vstd::slice::slice_to_vec;
use vstd::string::StringExecFns;
use vstd::utf8::encode_utf8;

use crate::error::{ConfigFault, ConnectError, ProtocolFault};
use crate::http_connect::{
    connect_established, connect_prefix_ok, http_connect_request, http_connect_request_bytes,
    http_connect_progress, TunnelProgress,
};
use crate::ip::{ipv4_octets, ipv4_ok, ipv6_octets, ipv6_ok, parse_ipv4, parse_ipv6};
use crate::proxy::{decide_ok, no_proxy_active, ProxyConfig, ProxyDecision};
use crate::socks5::{
    socks5_auth_ok, socks5_greeting, socks5_greeting_bytes, socks5_reply_check,
    socks5_reply_total_len, socks5_request, socks5_request_bytes, DestAddr,
};
use crate::util::push_bytes;

verus! {

/// What the shell must do next on behalf of the machine.
#[derive(Debug)]
pub enum ConnAction {
    /// Open a TCP connection to `host:port`.
    OpenTcp { host: String, port: u16 },
    /// Write all of `data` to the socket.
    Send { data: Vec<u8> },
    /// Read exactly `count` bytes.
    RecvExact { count: usize },
    /// Read up to `max` bytes, at least one unless the peer closed.
    RecvUpTo { max: usize },
    /// Resolve `host` (destined for port `port`) with the system resolver.
    Resolve { host: String, port: u16 },
    /// Run the TLS handshake against `host` as the server name.
    StartTls { host: String },
    /// The connection is established; `tls` says which kind of stream.
    Finished { tls: bool },
    /// The attempt is over; hand `error` to the caller.
    Fail { error: ConnectError },
}

/// What the shell reports back after performing an action.
#[derive(Debug)]
pub enum ConnEvent {
    /// The TCP connection is open.
    TcpOpened,
    /// The TCP connection could not be opened.
    TcpFailed,
    /// The bytes were written in full.
    Sent,
    /// The bytes could not be written.
    SendFailed,
    /// What a read returned; empty when the peer closed before any byte.
    Received { data: Vec<u8> },
    /// An exact-length read hit end of stream.
    Eof,
    /// What the resolver returned first for the destination.
    Resolved { addr: DestAddr },
    /// The destination could not be resolved.
    ResolveFailed,
    /// The TLS handshake succeeded.
    TlsDone,
    /// The TLS handshake failed.
    TlsFailed,
}

/// Which tunnel a freshly opened socket will speak.
#[derive(Debug)]
pub enum TunnelPlan {
    /// No tunnel: the socket reaches the destination itself.
    Direct,
    /// HTTP CONNECT.
    HttpTunnel,
    /// SOCKS5, with the CONNECT request already encoded.
    SocksTunnel { request: Vec<u8> },
}

/// Where the machine stands.
#[derive(Debug)]
pub enum ConnState {
    /// Waiting for the system resolver (SOCKS5 with local resolution of a
    /// host that is no IP literal).
    NeedResolve { proxy_host: String, proxy_port: u16 },
    /// Waiting for the TCP connection to `peer_host:peer_port`.
    Opening { plan: TunnelPlan, peer_host: String, peer_port: u16 },
    /// The SOCKS5 greeting is being written; the CONNECT request waits.
    SocksGreetingSent { request: Vec<u8> },
    /// The two-byte greeting reply is being read.
    SocksAuthWait { request: Vec<u8> },
    /// The CONNECT request is being written.
    SocksRequestSent,
    /// The first bytes of the CONNECT reply are being read.
    SocksPrefixWait,
    /// The remainder of the CONNECT reply is being read.
    SocksTailWait,
    /// The CONNECT request is being written to the HTTP proxy.
    HttpSent,
    /// The HTTP proxy's reply is accumulating in `buf`.
    HttpRecv { buf: Vec<u8> },
    /// The tunnel is up; the TLS handshake is running.
    TlsWait,
    /// The connection is established.
    Done { tls: bool },
    /// The attempt failed and is over.
    Failed,
}

/// The connection-establishment machine for one `connect` call.
#[derive(Debug)]
pub struct Connector {
    pub dest_host: String,
    pub dest_port: u16,
    pub want_tls: bool,
    pub state: ConnState,
}

/// The destination host as bytes.
pub open spec fn dest_bytes(c: Connector) -> Seq<u8> {
    encode_utf8(c.dest_host@)
}

/// A SOCKS5 CONNECT request with address type `atyp` and encoded address
/// `addr`.
pub open spec fn request_with_atyp(atyp: u8, addr: Seq<u8>, port: u16) -> Seq<u8> {
    seq![5u8, 1u8, 0u8, atyp] + addr + seq![(port / 256) as u8, (port % 256) as u8]
}

/// The step a machine takes when its tunnel has just been established:
/// TLS is started exactly when it was asked for, else the walk is done.
pub open spec fn tunnel_done_ok(pre: Connector, post: Connector, act: ConnAction) -> bool {
    if pre.want_tls {
        &&& post.state is TlsWait
        &&& act matches ConnAction::StartTls { host } && host@ == pre.dest_host@
    } else {
        &&& post.state matches ConnState::Done { tls } && tls == false
        &&& act matches ConnAction::Finished { tls } && tls == false
    }
}

/// The machine has failed for good with error `e`.
pub open spec fn failed_with(post: Connector, act: ConnAction, e: ConnectError) -> bool {
    &&& post.state is Failed
    &&& act matches ConnAction::Fail { error } && error == e
}

/// The machine has failed for good with a transport error.
pub open spec fn failed_io(post: Connector, act: ConnAction) -> bool {
    &&& post.state is Failed
    &&& act matches ConnAction::Fail { error } && error is Io
}

/// The machine has failed for good with a protocol violation against the
/// destination: the proxy closed the stream mid-handshake.
pub open spec fn failed_eof(pre: Connector, post: Connector, act: ConnAction) -> bool {
    &&& post.state is Failed
    &&& act matches ConnAction::Fail { error } && error matches ConnectError::ProtocolViolation {
        fault,
    } && fault matches ProtocolFault::UnexpectedEof { host } && host@ == dest_bytes(pre)
}

/// The request a local resolver answer leads to.
pub open spec fn resolve_step_ok(
    pre: Connector,
    addr: DestAddr,
    proxy_host: String,
    proxy_port: u16,
    post: Connector,
    act: ConnAction,
) -> bool {
    if addr.encodable() {
        &&& post.state matches ConnState::Opening { plan, peer_host, peer_port }
            && plan matches TunnelPlan::SocksTunnel { request } && request@
            == socks5_request_bytes(addr, pre.dest_port) && peer_host@ == proxy_host@
            && peer_port == proxy_port
        &&& act matches ConnAction::OpenTcp { host, port } && host@ == proxy_host@ && port
            == proxy_port
    } else {
        failed_with(
            post,
            act,
            ConnectError::InvalidConfiguration { fault: ConfigFault::HostNameTooLong },
        )
    }
}

/// How one step of the machine relates what came in to what goes out. The
/// destination and the TLS wish never change; each state accepts exactly
/// the events its pending action can produce, and anything else is a
/// transport fault.
pub open spec fn step_ok(pre: Connector, e: ConnEvent, post: Connector, act: ConnAction) -> bool {
    &&& post.dest_host == pre.dest_host
    &&& post.dest_port == pre.dest_port
    &&& post.want_tls == pre.want_tls
    &&& match pre.state {
        ConnState::NeedResolve { proxy_host, proxy_port } => match e {
            ConnEvent::Resolved { addr } => resolve_step_ok(
                pre,
                addr,
                proxy_host,
                proxy_port,
                post,
                act,
            ),
            ConnEvent::ResolveFailed => {
                &&& post.state is Failed
                &&& act matches ConnAction::Fail { error } && error
                    matches ConnectError::DnsFailure { host } && host@ == dest_bytes(pre)
            },
            _ => failed_io(post, act),
        },
        ConnState::Opening { plan, peer_host, peer_port } => match e {
            ConnEvent::TcpOpened => match plan {
                TunnelPlan::Direct => tunnel_done_ok(pre, post, act),
                TunnelPlan::HttpTunnel => {
                    &&& post.state is HttpSent
                    &&& act matches ConnAction::Send { data } && data@
                        == http_connect_request_bytes(dest_bytes(pre), pre.dest_port)
                },
                TunnelPlan::SocksTunnel { request } => {
                    &&& post.state matches ConnState::SocksGreetingSent { request: r } && r@
                        == request@
                    &&& act matches ConnAction::Send { data } && data@ == socks5_greeting_bytes()
                },
            },
            ConnEvent::TcpFailed => {
                &&& post.state is Failed
                &&& act matches ConnAction::Fail { error } && error
                    matches ConnectError::ConnectFailure { host, port } && host@ == encode_utf8(
                    peer_host@,
                ) && port == peer_port
            },
            _ => failed_io(post, act),
        },
        ConnState::SocksGreetingSent { request } => match e {
            ConnEvent::Sent => {
                &&& post.state matches ConnState::SocksAuthWait { request: r } && r@ == request@
                &&& act matches ConnAction::RecvExact { count } && count == 2
            },
            _ => failed_io(post, act),
        },
        ConnState::SocksAuthWait { request } => match e {
            ConnEvent::Received { data } => if data@ == seq![5u8, 0u8] {
                &&& post.state is SocksRequestSent
                &&& act matches ConnAction::Send { data } && data@ == request@
            } else {
                &&& post.state is Failed
                &&& act matches ConnAction::Fail { error } && error
                    matches ConnectError::ProtocolViolation { fault } && fault
                    matches ProtocolFault::Socks5Auth { reply } && reply@ == data@
            },
            ConnEvent::Eof => failed_eof(pre, post, act),
            _ => failed_io(post, act),
        },
        ConnState::SocksRequestSent => match e {
            ConnEvent::Sent => {
                &&& post.state is SocksPrefixWait
                &&& act matches ConnAction::RecvUpTo { max } && max == 5
            },
            _ => failed_io(post, act),
        },
        ConnState::SocksPrefixWait => match e {
            ConnEvent::Received { data } => {
                let head_ok = data@.len() >= 5 && data@[0] == 5 && data@[1] == 0 && data@[2]
                    == 0;
                if !head_ok {
                    &&& post.state is Failed
                    &&& act matches ConnAction::Fail { error } && error
                        matches ConnectError::ProtocolViolation { fault } && fault
                        matches ProtocolFault::Socks5Refused { reply } && reply@ == data@
                } else {
                    let total = socks5_reply_total_len(data@[3], data@[4]);
                    if data@.len() > total {
                        &&& post.state is Failed
                        &&& act matches ConnAction::Fail { error } && error
                            matches ConnectError::ProtocolViolation { fault } && fault
                            matches ProtocolFault::Socks5Malformed { reply } && reply@ == data@
                    } else if data@.len() == total {
                        tunnel_done_ok(pre, post, act)
                    } else {
                        &&& post.state is SocksTailWait
                        &&& act matches ConnAction::RecvExact { count } && count == total
                            - data@.len()
                    }
                }
            },
            ConnEvent::Eof => failed_eof(pre, post, act),
            _ => failed_io(post, act),
        },
        ConnState::SocksTailWait => match e {
            ConnEvent::Received { .. } => tunnel_done_ok(pre, post, act),
            ConnEvent::Eof => failed_eof(pre, post, act),
            _ => failed_io(post, act),
        },
        ConnState::HttpSent => match e {
            ConnEvent::Sent => {
                &&& post.state matches ConnState::HttpRecv { buf } && buf@ == Seq::<u8>::empty()
                &&& act matches ConnAction::RecvUpTo { max } && max == 4096
            },
            _ => failed_io(post, act),
        },
        ConnState::HttpRecv { buf } => match e {
            ConnEvent::Received { data } => if data@.len() == 0 {
                failed_eof(pre, post, act)
            } else {
                let nb = buf@ + data@;
                if connect_established(nb) {
                    tunnel_done_ok(pre, post, act)
                } else if nb.len() >= 12 && !connect_prefix_ok(nb) {
                    &&& post.state is Failed
                    &&& act matches ConnAction::Fail { error } && error
                        matches ConnectError::ProtocolViolation { fault } && fault
                        matches ProtocolFault::HttpConnectRejected { host, reply } && host@
                        == dest_bytes(pre) && reply@ == nb
                } else {
                    &&& post.state matches ConnState::HttpRecv { buf: b } && b@ == nb
                    &&& act matches ConnAction::RecvUpTo { max } && max == 4096
                }
            },
            ConnEvent::Eof => failed_eof(pre, post, act),
            _ => failed_io(post, act),
        },
        ConnState::TlsWait => match e {
            ConnEvent::TlsDone => {
                &&& post.state matches ConnState::Done { tls } && tls == true
                &&& act matches ConnAction::Finished { tls } && tls == true
            },
            ConnEvent::TlsFailed => {
                &&& post.state is Failed
                &&& act matches ConnAction::Fail { error } && error
                    matches ConnectError::TlsFailure { host } && host@ == dest_bytes(pre)
            },
            _ => failed_io(post, act),
        },
        ConnState::Done { .. } => failed_io(post, act),
        ConnState::Failed => failed_io(post, act),
    }
}

/// What the machine's first state and action are, for a given decision:
/// direct connections and tunnel plans open the right TCP peer, SOCKS5
/// encodes the right address form — a literal IPv4 address as address type
/// 1, a literal IPv6 address as type 4, a name resolved at the proxy as a
/// length-prefixed domain (type 3), and any other name is first handed to
/// the system resolver.
pub open spec fn start_ok(
    d: ProxyDecision,
    hs: Seq<char>,
    port: u16,
    tls: bool,
    post: Connector,
    act: ConnAction,
) -> bool {
    &&& post.dest_host@ == hs
    &&& post.dest_port == port
    &&& post.want_tls == tls
    &&& match d {
        ProxyDecision::Direct => {
            &&& post.state matches ConnState::Opening { plan, peer_host, peer_port }
                && plan is Direct && peer_host@ == hs && peer_port == port
            &&& act matches ConnAction::OpenTcp { host, port: p } && host@ == hs && p == port
        },
        ProxyDecision::Http { host: ph, port: pp } => {
            &&& post.state matches ConnState::Opening { plan, peer_host, peer_port }
                && plan is HttpTunnel && peer_host@ == ph@ && peer_port == pp
            &&& act matches ConnAction::OpenTcp { host, port: p } && host@ == ph@ && p == pp
        },
        ProxyDecision::Socks5 { host: ph, port: pp, resolve_remotely } => {
            let hb = encode_utf8(hs);
            let opens_proxy_with = |req: Seq<u8>|
                {
                    &&& post.state matches ConnState::Opening { plan, peer_host, peer_port }
                        && plan matches TunnelPlan::SocksTunnel { request } && request@ == req
                        && peer_host@ == ph@ && peer_port == pp
                    &&& act matches ConnAction::OpenTcp { host, port: p } && host@ == ph@ && p
                        == pp
                };
            if resolve_remotely {
                if hb.len() <= 255 {
                    opens_proxy_with(
                        request_with_atyp(3, seq![hb.len() as u8] + hb, port),
                    )
                } else {
                    failed_with(
                        post,
                        act,
                        ConnectError::InvalidConfiguration {
                            fault: ConfigFault::HostNameTooLong,
                        },
                    )
                }
            } else if ipv4_ok(hb) {
                opens_proxy_with(request_with_atyp(1, ipv4_octets(hb), port))
            } else if ipv6_ok(hb) {
                opens_proxy_with(request_with_atyp(4, ipv6_octets(hb), port))
            } else {
                &&& post.state matches ConnState::NeedResolve { proxy_host, proxy_port }
                    && proxy_host@ == ph@ && proxy_port == pp
                &&& act matches ConnAction::Resolve { host, port: p } && host@ == hs && p
                    == port
            }
        },
    }
}

impl Connector {
    /// Begins a connection attempt for `host:port` along the decided path.
    pub fn start(d: ProxyDecision, host: &str, port: u16, tls: bool) -> (r: (
        Connector,
        ConnAction,
    ))
        ensures
            start_ok(d, host@, port, tls, r.0, r.1),
    {
        let dest_host = String::from_str(host);
        match d {
            ProxyDecision::Direct => {
                let peer_host = String::from_str(host);
                let open_host = String::from_str(host);
                (
                    Connector {
                        dest_host,
                        dest_port: port,
                        want_tls: tls,
                        state: ConnState::Opening {
                            plan: TunnelPlan::Direct,
                            peer_host,
                            peer_port: port,
                        },
                    },
                    ConnAction::OpenTcp { host: open_host, port },
                )
            },
            ProxyDecision::Http { host: ph, port: pp } => {
                let open_host = ph.clone();
                (
                    Connector {
                        dest_host,
                        dest_port: port,
                        want_tls: tls,
                        state: ConnState::Opening {
                            plan: TunnelPlan::HttpTunnel,
                            peer_host: ph,
                            peer_port: pp,
                        },
                    },
                    ConnAction::OpenTcp { host: open_host, port: pp },
                )
            },
            ProxyDecision::Socks5 { host: ph, port: pp, resolve_remotely } => {
                let hb = host.as_bytes();
                let addr: DestAddr = if resolve_remotely {
                    DestAddr::Domain { name: slice_to_vec(hb) }
                } else {
                    match parse_ipv4(hb) {
                        Some(octets) => DestAddr::V4 { octets },
                        None => match parse_ipv6(hb) {
                            Some(octets) => DestAddr::V6 { octets },
                            None => {
                                let open_host = String::from_str(host);
                                return (
                                    Connector {
                                        dest_host,
                                        dest_port: port,
                                        want_tls: tls,
                                        state: ConnState::NeedResolve {
                                            proxy_host: ph,
                                            proxy_port: pp,
                                        },
                                    },
                                    ConnAction::Resolve { host: open_host, port },
                                );
                            },
                        },
                    }
                };
                match socks5_request(&addr, port) {
                    Ok(request) => {
                        let open_host = ph.clone();
                        proof {
                            match addr {
                                DestAddr::Domain { name } => {
                                    assert(request@ =~= request_with_atyp(
                                        3,
                                        seq![name@.len() as u8] + name@,
                                        port,
                                    ));
                                },
                                DestAddr::V4 { octets } => {
                                    assert(request@ =~= request_with_atyp(1, octets@, port));
                                },
                                DestAddr::V6 { octets } => {
                                    assert(request@ =~= request_with_atyp(4, octets@, port));
                                },
                            }
                        }
                        (
                            Connector {
                                dest_host,
                                dest_port: port,
                                want_tls: tls,
                                state: ConnState::Opening {
                                    plan: TunnelPlan::SocksTunnel { request },
                                    peer_host: ph,
                                    peer_port: pp,
                                },
                            },
                            ConnAction::OpenTcp { host: open_host, port: pp },
                        )
                    },
                    Err(error) => (
                        Connector {
                            dest_host,
                            dest_port: port,
                            want_tls: tls,
                            state: ConnState::Failed,
                        },
                        ConnAction::Fail { error },
                    ),
                }
            },
        }
    }

    /// Decides the path for `host:port` from `cfg` and begins the attempt:
    /// a host on the exclusion list, or one with no proxy configured, is
    /// opened directly; otherwise the decided tunnel is begun, and a
    /// configuration fault ends the attempt before any socket is opened.
    pub fn connect_start(cfg: &ProxyConfig, host: &str, port: u16, tls: bool) -> (r: (
        Connector,
        ConnAction,
    ))
        ensures
            no_proxy_active(*cfg, encode_utf8(host@)) ==> start_ok(
                ProxyDecision::Direct,
                host@,
                port,
                tls,
                r.0,
                r.1,
            ),
            exists|dr: Result<ProxyDecision, ConnectError>|
                {
                    &&& #[trigger] decide_ok(*cfg, host@, tls, dr)
                    &&& match dr {
                        Ok(d) => start_ok(d, host@, port, tls, r.0, r.1),
                        Err(e) => failed_with(r.0, r.1, e),
                    }
                },
    {
        let dr = cfg.decide(host, tls);
        let ghost gdr = dr;
        let out = match dr {
            Ok(d) => Connector::start(d, host, port, tls),
            Err(error) => (
                Connector {
                    dest_host: String::from_str(host),
                    dest_port: port,
                    want_tls: tls,
                    state: ConnState::Failed,
                },
                ConnAction::Fail { error },
            ),
        };
        proof {
            assert(decide_ok(*cfg, host@, tls, gdr) && match gdr {
                Ok(d) => start_ok(d, host@, port, tls, out.0, out.1),
                Err(e) => failed_with(out.0, out.1, e),
            });
        }
        out
    }

    /// Moves to the state after the tunnel is established: start TLS when
    /// it was asked for, else finish.
    fn tunnel_done(self) -> (r: (Connector, ConnAction))
        ensures
            tunnel_done_ok(self, r.0, r.1),
            r.0.dest_host == self.dest_host,
            r.0.dest_port == self.dest_port,
            r.0.want_tls == self.want_tls,
    {
        let Connector { dest_host, dest_port, want_tls, state } = self;
        if want_tls {
            let host = dest_host.clone();
            (
                Connector { dest_host, dest_port, want_tls, state: ConnState::TlsWait },
                ConnAction::StartTls { host },
            )
        } else {
            (
                Connector {
                    dest_host,
                    dest_port,
                    want_tls,
                    state: ConnState::Done { tls: false },
                },
                ConnAction::Finished { tls: false },
            )
        }
    }

    /// Performs one step: `e` reports what the shell did for the previous
    /// action, and the result holds the machine as it now stands and what
    /// to do next.
    pub fn on_event(self, e: ConnEvent) -> (r: (Connector, ConnAction))
        ensures
            step_ok(self, e, r.0, r.1),
    {
        let Connector { dest_host, dest_port, want_tls, state } = self;
        match (state, e) {
            (ConnState::NeedResolve { proxy_host, proxy_port }, ConnEvent::Resolved { addr }) => {
                match socks5_request(&addr, dest_port) {
                    Ok(request) => {
                        let peer = proxy_host.clone();
                        (
                            Connector {
                                dest_host,
                                dest_port,
                                want_tls,
                                state: ConnState::Opening {
                                    plan: TunnelPlan::SocksTunnel { request },
                                    peer_host: proxy_host,
                                    peer_port: proxy_port,
                                },
                            },
                            ConnAction::OpenTcp { host: peer, port: proxy_port },
                        )
                    },
                    Err(error) => (
                        Connector { dest_host, dest_port, want_tls, state: ConnState::Failed },
                        ConnAction::Fail { error },
                    ),
                }
            },
            (ConnState::NeedResolve { .. }, ConnEvent::ResolveFailed) => {
                let host = slice_to_vec(dest_host.as_str().as_bytes());
                (
                    Connector { dest_host, dest_port, want_tls, state: ConnState::Failed },
                    ConnAction::Fail { error: ConnectError::DnsFailure { host } },
                )
            },
            (ConnState::Opening { plan, peer_host, peer_port }, ConnEvent::TcpOpened) => {
                match plan {
                    TunnelPlan::Direct => Connector {
                        dest_host,
                        dest_port,
                        want_tls,
                        state: ConnState::Opening {
                            plan: TunnelPlan::Direct,
                            peer_host,
                            peer_port,
                        },
                    }.tunnel_done(),
                    TunnelPlan::HttpTunnel => {
                        let data = http_connect_request(dest_host.as_str().as_bytes(), dest_port);
                        (
                            Connector {
                                dest_host,
                                dest_port,
                                want_tls,
                                state: ConnState::HttpSent,
                            },
                            ConnAction::Send { data },
                        )
                    },
                    TunnelPlan::SocksTunnel { request } => {
                        let data = socks5_greeting();
                        (
                            Connector {
                                dest_host,
                                dest_port,
                                want_tls,
                                state: ConnState::SocksGreetingSent { request },
                            },
                            ConnAction::Send { data },
                        )
                    },
                }
            },
            (ConnState::Opening { plan: _, peer_host, peer_port }, ConnEvent::TcpFailed) => {
                let host = slice_to_vec(peer_host.as_str().as_bytes());
                (
                    Connector { dest_host, dest_port, want_tls, state: ConnState::Failed },
                    ConnAction::Fail {
                        error: ConnectError::ConnectFailure { host, port: peer_port },
                    },
                )
            },
            (ConnState::SocksGreetingSent { request }, ConnEvent::Sent) => (
                Connector {
                    dest_host,
                    dest_port,
                    want_tls,
                    state: ConnState::SocksAuthWait { request },
                },
                ConnAction::RecvExact { count: 2 },
            ),
            (ConnState::SocksAuthWait { request }, ConnEvent::Received { data }) => {
                if socks5_auth_ok(data.as_slice()) {
                    (
                        Connector {
                            dest_host,
                            dest_port,
                            want_tls,
                            state: ConnState::SocksRequestSent,
                        },
                        ConnAction::Send { data: request },
                    )
                } else {
                    (
                        Connector { dest_host, dest_port, want_tls, state: ConnState::Failed },
                        ConnAction::Fail {
                            error: ConnectError::ProtocolViolation {
                                fault: ProtocolFault::Socks5Auth { reply: data },
                            },
                        },
                    )
                }
            },
            (ConnState::SocksRequestSent, ConnEvent::Sent) => (
                Connector { dest_host, dest_port, want_tls, state: ConnState::SocksPrefixWait },
                ConnAction::RecvUpTo { max: 5 },
            ),
            (ConnState::SocksPrefixWait, ConnEvent::Received { data }) => {
                match socks5_reply_check(&data) {
                    Err(error) => (
                        Connector { dest_host, dest_port, want_tls, state: ConnState::Failed },
                        ConnAction::Fail { error },
                    ),
                    Ok(total) => {
                        if total == data.len() {
                            Connector {
                                dest_host,
                                dest_port,
                                want_tls,
                                state: ConnState::SocksPrefixWait,
                            }.tunnel_done()
                        } else {
                            let count = total - data.len();
                            (
                                Connector {
                                    dest_host,
                                    dest_port,
                                    want_tls,
                                    state: ConnState::SocksTailWait,
                                },
                                ConnAction::RecvExact { count },
                            )
                        }
                    },
                }
            },
            (ConnState::SocksTailWait, ConnEvent::Received { .. }) => Connector {
                dest_host,
                dest_port,
                want_tls,
                state: ConnState::SocksTailWait,
            }.tunnel_done(),
            (ConnState::HttpSent, ConnEvent::Sent) => (
                Connector {
                    dest_host,
                    dest_port,
                    want_tls,
                    state: ConnState::HttpRecv { buf: Vec::new() },
                },
                ConnAction::RecvUpTo { max: 4096 },
            ),
            (ConnState::HttpRecv { buf }, ConnEvent::Received { data }) => {
                if data.len() == 0 {
                    let host = slice_to_vec(dest_host.as_str().as_bytes());
                    (
                        Connector { dest_host, dest_port, want_tls, state: ConnState::Failed },
                        ConnAction::Fail {
                            error: ConnectError::ProtocolViolation {
                                fault: ProtocolFault::UnexpectedEof { host },
                            },
                        },
                    )
                } else {
                    let mut nb = buf;
                    push_bytes(&mut nb, data.as_slice());
                    match http_connect_progress(&nb) {
                        TunnelProgress::Established => Connector {
                            dest_host,
                            dest_port,
                            want_tls,
                            state: ConnState::HttpSent,
                        }.tunnel_done(),
                        TunnelProgress::Rejected => {
                            let host = slice_to_vec(dest_host.as_str().as_bytes());
                            (
                                Connector {
                                    dest_host,
                                    dest_port,
                                    want_tls,
                                    state: ConnState::Failed,
                                },
                                ConnAction::Fail {
                                    error: ConnectError::ProtocolViolation {
                                        fault: ProtocolFault::HttpConnectRejected {
                                            host,
                                            reply: nb,
                                        },
                                    },
                                },
                            )
                        },
                        TunnelProgress::NeedMore => (
                            Connector {
                                dest_host,
                                dest_port,
                                want_tls,
                                state: ConnState::HttpRecv { buf: nb },
                            },
                            ConnAction::RecvUpTo { max: 4096 },
                        ),
                    }
                }
            },
            (ConnState::TlsWait, ConnEvent::TlsDone) => (
                Connector {
                    dest_host,
                    dest_port,
                    want_tls,
                    state: ConnState::Done { tls: true },
                },
                ConnAction::Finished { tls: true },
            ),
            (ConnState::TlsWait, ConnEvent::TlsFailed) => {
                let host = slice_to_vec(dest_host.as_str().as_bytes());
                (
                    Connector { dest_host, dest_port, want_tls, state: ConnState::Failed },
                    ConnAction::Fail { error: ConnectError::TlsFailure { host } },
                )
            },
            (st, ev) => {
                match (st, ev) {
                    (ConnState::SocksAuthWait { .. }, ConnEvent::Eof)
                    | (ConnState::SocksPrefixWait, ConnEvent::Eof)
                    | (ConnState::SocksTailWait, ConnEvent::Eof)
                    | (ConnState::HttpRecv { .. }, ConnEvent::Eof) => {
                        let host = slice_to_vec(dest_host.as_str().as_bytes());
                        (
                            Connector {
                                dest_host,
                                dest_port,
                                want_tls,
                                state: ConnState::Failed,
                            },
                            ConnAction::Fail {
                                error: ConnectError::ProtocolViolation {
                                    fault: ProtocolFault::UnexpectedEof { host },
                                },
                            },
                        )
                    },
                    _ => (
                        Connector { dest_host, dest_port, want_tls, state: ConnState::Failed },
                        ConnAction::Fail { error: ConnectError::Io {} },
                    ),
                }
            },
        }
    }
}

/// The default destination port of a URL scheme: 443 with TLS, 80 without.
pub fn scheme_port(tls: bool) -> (r: u16)
    ensures
        r == if tls {
            443u16
        } else {
            80u16
        },
{
    if tls {
        443
    } else {
        80
    }
}

/// Which HTTP version the upper layer should speak on a stream.
#[derive(Debug, Clone, Copy, PartialEq, Eq, Structural)]
pub enum HttpVersion {
    Http11,
    Http2,
}

/// The version selected by a TLS session's negotiated ALPN protocol: HTTP/2
/// exactly when the protocol is `h2`, else HTTP/1.1. A plain stream has no
/// ALPN protocol and always speaks HTTP/1.1.
pub fn version_for_alpn(alpn: Option<&[u8]>) -> (r: HttpVersion)
    ensures
        (r is Http2) == (alpn matches Some(p) && p@ == seq![104u8, 50u8]),
{
    match alpn {
        Some(p) => {
            if p.len() == 2 && p[0] == 104 && p[1] == 50 {
                proof {
                    assert(p@ =~= seq![104u8, 50u8]);
                }
                HttpVersion::Http2
            } else {
                proof {
                    assert(p@ != seq![104u8, 50u8]) by {
                        if p@ == seq![104u8, 50u8] {
                            assert(p@.len() == 2 && p@[0] == 104 && p@[1] == 50);
                        }
                    }
                }
                HttpVersion::Http11
            }
        },
        None => HttpVersion::Http11,
    }
}

/// The ALPN protocol list to advertise: `h2` before `http/1.1` when HTTP/2
/// may be spoken, else `http/1.1` alone.
pub fn alpn_protocols(offer_h2: bool) -> (r: Vec<Vec<u8>>)
    ensures
        offer_h2 ==> crate::bytesplit::vecs_view(r@) == seq![
            seq![104u8, 50u8],
            seq![104u8, 116u8, 116u8, 112u8, 47u8, 49u8, 46u8, 49u8],
        ],
        !offer_h2 ==> crate::bytesplit::vecs_view(r@) == seq![
            seq![104u8, 116u8, 116u8, 112u8, 47u8, 49u8, 46u8, 49u8],
        ],
{
    let mut r: Vec<Vec<u8>> = Vec::new();
    if offer_h2 {
        let mut h2: Vec<u8> = Vec::new();
        h2.push(104);
        h2.push(50);
        proof {
            assert(h2@ =~= seq![104u8, 50u8]);
        }
        r.push(h2);
    }
    let mut h11: Vec<u8> = Vec::new();
    h11.push(104);
    h11.push(116);
    h11.push(116);
    h11.push(112);
    h11.push(47);
    h11.push(49);
    h11.push(46);
    h11.push(49);
    proof {
        assert(h11@ =~= seq![104u8, 116u8, 116u8, 112u8, 47u8, 49u8, 46u8, 49u8]);
    }
    r.push(h11);
    proof {
        if offer_h2 {
            assert(crate::bytesplit::vecs_view(r@) =~= seq![
                seq![104u8, 50u8],
                seq![104u8, 116u8, 116u8, 112u8, 47u8, 49u8, 46u8, 49u8],
            ]);
        } else {
            assert(crate::bytesplit::vecs_view(r@) =~= seq![
                seq![104u8, 116u8, 116u8, 112u8, 47u8, 49u8, 46u8, 49u8],
            ]);
        }
    }
    r
}

} // verus!
