//! The transport layer's cross-cutting guarantees, each stated once over
//! the contracts of the selector and the connection machine and proved
//! here.

use vstd::prelude::*;
use vstd::utf8::encode_utf8;

use crate::connect::{
    request_with_atyp, start_ok, step_ok, tunnel_done_ok, ConnAction, ConnEvent, ConnState,
    Connector, TunnelPlan,
};
use crate::error::ConnectError;
use crate::http_connect::connect_established;
use crate::ip::{
    ipv4_octets, ipv4_ok, ipv6_octets, ipv6_ok, lemma_ipv4_octets_len, lemma_ipv6_octets_len,
};
use crate::proxy::{decide_ok, no_proxy_active, ProxyConfig, ProxyDecision};
use crate::socks5::socks5_reply_total_len;

verus! {

/// A host named (trimmed, exactly) on the `NO_PROXY` list, or any host when
/// the list holds `*`, bypasses every configured proxy: the decision is a
/// direct connection, and the machine's first action opens a TCP connection
/// to the destination itself.
pub proof fn lemma_no_proxy_bypass(
    cfg: ProxyConfig,
    host: Seq<char>,
    port: u16,
    tls: bool,
    d: ProxyDecision,
    post: Connector,
    act: ConnAction,
)
    requires
        no_proxy_active(cfg, encode_utf8(host)),
        decide_ok(cfg, host, tls, Ok(d)),
        start_ok(d, host, port, tls, post, act),
    ensures
        d is Direct,
        act matches ConnAction::OpenTcp { host: h, port: p } && h@ == host && p == port,
{
}

/// The SOCKS5 CONNECT request uses the address form the destination calls
/// for: an IPv4 literal resolved locally gives address type 1 with exactly
/// four address bytes, an IPv6 literal type 4 with sixteen, and a name
/// resolved at the proxy type 3 with a one-byte length prefix followed by
/// the raw name.
pub proof fn lemma_socks5_address_forms(
    hs: Seq<char>,
    proxy_host: String,
    proxy_port: u16,
    port: u16,
    tls: bool,
    resolve_remotely: bool,
    post: Connector,
    act: ConnAction,
)
    requires
        start_ok(
            ProxyDecision::Socks5 { host: proxy_host, port: proxy_port, resolve_remotely },
            hs,
            port,
            tls,
            post,
            act,
        ),
    ensures
        !resolve_remotely && ipv4_ok(encode_utf8(hs)) ==> (post.state
            matches ConnState::Opening { plan, .. } && plan
            matches TunnelPlan::SocksTunnel { request } && request@.len() == 10 && request@[3]
            == 1 && request@.subrange(4, 8) == ipv4_octets(encode_utf8(hs))),
        !resolve_remotely && !ipv4_ok(encode_utf8(hs)) && ipv6_ok(encode_utf8(hs)) ==> (
        post.state matches ConnState::Opening { plan, .. } && plan
            matches TunnelPlan::SocksTunnel { request } && request@.len() == 22 && request@[3]
            == 4 && request@.subrange(4, 20) == ipv6_octets(encode_utf8(hs))),
        resolve_remotely && encode_utf8(hs).len() <= 255 ==> (post.state
            matches ConnState::Opening { plan, .. } && plan
            matches TunnelPlan::SocksTunnel { request } && request@.len() == 7 + encode_utf8(
            hs,
        ).len() && request@[3] == 3 && request@[4] == encode_utf8(hs).len() && request@.subrange(
            5,
            5 + encode_utf8(hs).len() as int,
        ) == encode_utf8(hs)),
{
    let hb = encode_utf8(hs);
    if !resolve_remotely && ipv4_ok(hb) {
        lemma_ipv4_octets_len(hb);
        assert(post.state matches ConnState::Opening { plan, .. } && plan
            matches TunnelPlan::SocksTunnel { request } && request@ == request_with_atyp(
            1,
            ipv4_octets(hb),
            port,
        ));
        if post.state matches ConnState::Opening { plan, .. } && plan
            matches TunnelPlan::SocksTunnel { request } {
            match post.state {
                ConnState::Opening { plan: TunnelPlan::SocksTunnel { request }, .. } => {
                    assert(request@.subrange(4, 8) =~= ipv4_octets(hb));
                },
                _ => {},
            }
        }
    } else if !resolve_remotely && !ipv4_ok(hb) && ipv6_ok(hb) {
        lemma_ipv6_octets_len(hb);
        match post.state {
            ConnState::Opening { plan: TunnelPlan::SocksTunnel { request }, .. } => {
                assert(request@.subrange(4, 20) =~= ipv6_octets(hb));
            },
            _ => {},
        }
    } else if resolve_remotely && hb.len() <= 255 {
        match post.state {
            ConnState::Opening { plan: TunnelPlan::SocksTunnel { request }, .. } => {
                assert(request@ == request_with_atyp(3, seq![hb.len() as u8] + hb, port));
                assert(request@.subrange(5, 5 + hb.len() as int) =~= hb);
            },
            _ => {},
        }
    }
}

/// A SOCKS5 CONNECT reply that announces a domain address (type 3) with
/// length byte `n` makes the client read exactly `7 + n` reply bytes in
/// all: whatever the first read returned beyond the header, the follow-up
/// exact read asks for precisely the remainder, and the tunnel completes
/// without one only when the first read already held all `7 + n` bytes.
pub proof fn lemma_socks5_reply_domain_length(
    pre: Connector,
    data: Vec<u8>,
    post: Connector,
    act: ConnAction,
)
    requires
        step_ok(pre, ConnEvent::Received { data }, post, act),
        pre.state is SocksPrefixWait,
        data@.len() >= 5,
        data@[0] == 5 && data@[1] == 0 && data@[2] == 0,
        data@[3] == 3,
        data@.len() <= 7 + data@[4],
    ensures
        data@.len() < 7 + data@[4] ==> (act matches ConnAction::RecvExact { count } && data@.len()
            + count == 7 + data@[4]),
        data@.len() == 7 + data@[4] ==> tunnel_done_ok(pre, post, act),
{
    assert(socks5_reply_total_len(data@[3], data@[4]) == 7 + data@[4]);
}

/// An HTTP CONNECT tunnel is reported established only when the
/// accumulated reply both begins with an accepted status line and ends
/// with the empty line that closes the header block; a matching status
/// line alone never completes the tunnel.
pub proof fn lemma_http_tunnel_needs_header_end(
    pre: Connector,
    data: Vec<u8>,
    post: Connector,
    act: ConnAction,
    buf: Seq<u8>,
)
    requires
        step_ok(pre, ConnEvent::Received { data }, post, act),
        pre.state matches ConnState::HttpRecv { buf: b } && b@ == buf,
        act is StartTls || act is Finished,
    ensures
        connect_established(buf + data@),
{
}

/// Whether `e` is the event that completes `pre`'s tunnel: the direct
/// TCP connection opened, the SOCKS5 reply arrived complete and well, or
/// the HTTP proxy's accepting reply ended its header block.
pub open spec fn tunnel_success_step(pre: Connector, e: ConnEvent) -> bool {
    match (pre.state, e) {
        (ConnState::Opening { plan, .. }, ConnEvent::TcpOpened) => plan is Direct,
        (ConnState::SocksPrefixWait, ConnEvent::Received { data }) => {
            &&& data@.len() >= 5
            &&& data@[0] == 5 && data@[1] == 0 && data@[2] == 0
            &&& data@.len() == socks5_reply_total_len(data@[3], data@[4])
        },
        (ConnState::SocksTailWait, ConnEvent::Received { .. }) => true,
        (ConnState::HttpRecv { buf }, ConnEvent::Received { data }) => data@.len() > 0
            && connect_established(buf@ + data@),
        _ => false,
    }
}

/// The TLS handshake is started only on the step whose event completes the
/// tunnel, and only when TLS was asked for: never before the SOCKS5 or
/// HTTP CONNECT handshake has succeeded, and never on a failed attempt.
pub proof fn lemma_tls_only_after_tunnel(
    pre: Connector,
    e: ConnEvent,
    post: Connector,
    act: ConnAction,
)
    requires
        step_ok(pre, e, post, act),
        act is StartTls,
    ensures
        pre.want_tls,
        tunnel_success_step(pre, e),
        post.state is TlsWait,
{
}

} // verus!
