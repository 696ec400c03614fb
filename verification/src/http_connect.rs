//! The HTTP CONNECT side of the tunnel handshake: building the CONNECT
//! request and recognising, over the growing reply buffer, whether the proxy
//! has accepted the tunnel. Success needs both the exact status-line prefix
//! (`HTTP/1.1 200` or `HTTP/1.0 200`, case-sensitive) and a header block
//! terminated by an empty line; a matching prefix alone is not success.

use vstd::prelude::*;

use crate::util::{dec_digits, push_bytes, push_dec_u16};

verus! {

/// The byte string `"CONNECT "`.
pub open spec fn connect_verb() -> Seq<u8> {
    seq![67u8, 79u8, 78u8, 78u8, 69u8, 67u8, 84u8, 32u8]
}

/// The byte string `" HTTP/1.1\r\nHost: "`.
pub open spec fn connect_middle() -> Seq<u8> {
    seq![
        32u8,
        72u8,
        84u8,
        84u8,
        80u8,
        47u8,
        49u8,
        46u8,
        49u8,
        13u8,
        10u8,
        72u8,
        111u8,
        115u8,
        116u8,
        58u8,
        32u8,
    ]
}

/// The byte string `"\r\n\r\n"`, which ends a header block.
pub open spec fn crlf_crlf() -> Seq<u8> {
    seq![13u8, 10u8, 13u8, 10u8]
}

/// The byte string `host ":" port` in which the target is named, twice, in
/// the CONNECT request.
pub open spec fn host_port_bytes(host: Seq<u8>, port: u16) -> Seq<u8> {
    host + seq![58u8] + dec_digits(port as nat)
}

/// The whole CONNECT request:
/// `CONNECT host:port HTTP/1.1\r\nHost: host:port\r\n\r\n`.
pub open spec fn http_connect_request_bytes(host: Seq<u8>, port: u16) -> Seq<u8> {
    connect_verb() + host_port_bytes(host, port) + connect_middle() + host_port_bytes(host, port)
        + crlf_crlf()
}

/// The byte string `"HTTP/1.1 200"`.
pub open spec fn status_prefix_11() -> Seq<u8> {
    seq![72u8, 84u8, 84u8, 80u8, 47u8, 49u8, 46u8, 49u8, 32u8, 50u8, 48u8, 48u8]
}

/// The byte string `"HTTP/1.0 200"`.
pub open spec fn status_prefix_10() -> Seq<u8> {
    seq![72u8, 84u8, 84u8, 80u8, 47u8, 49u8, 46u8, 48u8, 32u8, 50u8, 48u8, 48u8]
}

/// Whether the reply's first 12 bytes are one of the two accepted
/// status-line prefixes.
pub open spec fn connect_prefix_ok(buf: Seq<u8>) -> bool {
    buf.len() >= 12 && (buf.take(12) == status_prefix_11() || buf.take(12) == status_prefix_10())
}

/// Whether the reply ends with an empty line, closing the header block.
pub open spec fn ends_with_crlf_crlf(buf: Seq<u8>) -> bool {
    buf.len() >= 4 && buf.skip(buf.len() - 4) == crlf_crlf()
}

/// A CONNECT tunnel is established exactly when the status-line prefix
/// matches and the header block is terminated.
pub open spec fn connect_established(buf: Seq<u8>) -> bool {
    connect_prefix_ok(buf) && ends_with_crlf_crlf(buf)
}

/// What the reply bytes accumulated so far say about the tunnel.
#[derive(Debug, Clone, PartialEq, Eq, Structural)]
pub enum TunnelProgress {
    /// Prefix and terminator are both present: the proxy relays bytes now.
    Established,
    /// Nothing is decided yet: more reply bytes are needed.
    NeedMore,
    /// Twelve or more bytes are in and the prefix does not match: the proxy
    /// refused the tunnel.
    Rejected,
}

/// Builds the CONNECT request for `host` and `port`.
pub fn http_connect_request(host: &[u8], port: u16) -> (r: Vec<u8>)
    ensures
        r@ == http_connect_request_bytes(host@, port),
{
    let mut v: Vec<u8> = Vec::new();
    v.push(67);
    v.push(79);
    v.push(78);
    v.push(78);
    v.push(69);
    v.push(67);
    v.push(84);
    v.push(32);
    proof {
        assert(v@ =~= connect_verb());
    }
    push_bytes(&mut v, host);
    v.push(58);
    push_dec_u16(&mut v, port);
    proof {
        assert(v@ =~= connect_verb() + host_port_bytes(host@, port));
    }
    let ghost mid = v@;
    v.push(32);
    v.push(72);
    v.push(84);
    v.push(84);
    v.push(80);
    v.push(47);
    v.push(49);
    v.push(46);
    v.push(49);
    v.push(13);
    v.push(10);
    v.push(72);
    v.push(111);
    v.push(115);
    v.push(116);
    v.push(58);
    v.push(32);
    proof {
        assert(v@ =~= mid + connect_middle());
    }
    push_bytes(&mut v, host);
    v.push(58);
    push_dec_u16(&mut v, port);
    v.push(13);
    v.push(10);
    v.push(13);
    v.push(10);
    proof {
        assert(v@ =~= http_connect_request_bytes(host@, port));
    }
    v
}

/// Reads the growing reply buffer: established once prefix and terminator
/// are both there, rejected as soon as twelve bytes are in and the prefix is
/// wrong, otherwise waiting for more bytes.
pub fn http_connect_progress(buf: &Vec<u8>) -> (r: TunnelProgress)
    ensures
        (r is Established) == connect_established(buf@),
        (r is Rejected) == (buf@.len() >= 12 && !connect_prefix_ok(buf@)),
        (r is NeedMore) == (buf@.len() < 12 || (connect_prefix_ok(buf@) && !ends_with_crlf_crlf(
            buf@,
        ))),
{
    if buf.len() < 12 {
        proof {
            assert(!connect_established(buf@));
        }
        return TunnelProgress::NeedMore;
    }
    let prefix_ok = buf[0] == 72 && buf[1] == 84 && buf[2] == 84 && buf[3] == 80 && buf[4] == 47
        && buf[5] == 49 && buf[6] == 46 && (buf[7] == 49 || buf[7] == 48) && buf[8] == 32 && buf[9]
        == 50 && buf[10] == 48 && buf[11] == 48;
    proof {
        if prefix_ok {
            if buf@[7] == 49 {
                assert(buf@.take(12) =~= status_prefix_11());
            } else {
                assert(buf@.take(12) =~= status_prefix_10());
            }
        } else {
            assert(buf@.take(12) != status_prefix_11()) by {
                if buf@.take(12) == status_prefix_11() {
                    assert(forall|i: int|
                        0 <= i < 12 ==> buf@[i] == status_prefix_11()[i]) by {
                        assert(forall|i: int|
                            0 <= i < 12 ==> buf@.take(12)[i] == buf@[i]);
                    }
                }
            }
            assert(buf@.take(12) != status_prefix_10()) by {
                if buf@.take(12) == status_prefix_10() {
                    assert(forall|i: int|
                        0 <= i < 12 ==> buf@[i] == status_prefix_10()[i]) by {
                        assert(forall|i: int|
                            0 <= i < 12 ==> buf@.take(12)[i] == buf@[i]);
                    }
                }
            }
        }
    }
    if !prefix_ok {
        return TunnelProgress::Rejected;
    }
    let n = buf.len();
    let ends = buf[n - 4] == 13 && buf[n - 3] == 10 && buf[n - 2] == 13 && buf[n - 1] == 10;
    proof {
        if ends {
            assert(buf@.skip(buf@.len() - 4) =~= crlf_crlf());
        } else {
            if buf@.skip(buf@.len() - 4) == crlf_crlf() {
                assert(forall|i: int|
                    0 <= i < 4 ==> #[trigger] buf@.skip(buf@.len() - 4)[i] == buf@[buf@.len() - 4
                        + i]);
            }
        }
    }
    if ends {
        TunnelProgress::Established
    } else {
        TunnelProgress::NeedMore
    }
}

} // verus!
