//! The SOCKS5 client side of the tunnel handshake, as pure byte-level
//! functions: the greeting, the CONNECT request for each address form, the
//! check of the greeting reply, and the computation of how long the CONNECT
//! reply must be. The unverified shell only moves these bytes over a socket.

use vstd::prelude::*;

use crate::error::{ConfigFault, ConnectError, ProtocolFault};

verus! {

/// The destination address carried in a SOCKS5 CONNECT request.
#[derive(Debug, Clone)]
pub enum DestAddr {
    /// A literal or locally resolved IPv4 address (address type 1).
    V4 { octets: [u8; 4] },
    /// A literal or locally resolved IPv6 address (address type 4).
    V6 { octets: [u8; 16] },
    /// A host name to be resolved by the proxy (address type 3).
    Domain { name: Vec<u8> },
}

impl DestAddr {
    /// The address-type byte that names this address form on the wire.
    pub open spec fn atyp(self) -> u8 {
        match self {
            DestAddr::V4 { .. } => 1,
            DestAddr::V6 { .. } => 4,
            DestAddr::Domain { .. } => 3,
        }
    }

    /// The encoding of the address itself: raw octets for IP forms, a
    /// length prefix followed by the raw name for the domain form.
    pub open spec fn addr_bytes(self) -> Seq<u8> {
        match self {
            DestAddr::V4 { octets } => octets@,
            DestAddr::V6 { octets } => octets@,
            DestAddr::Domain { name } => seq![name@.len() as u8] + name@,
        }
    }

    /// A domain name longer than 255 bytes does not fit its one-byte length
    /// prefix; every other address form is always encodable.
    pub open spec fn encodable(self) -> bool {
        match self {
            DestAddr::Domain { name } => name@.len() <= 255,
            _ => true,
        }
    }
}

/// The bytes of the client greeting: protocol version 5, one authentication
/// method on offer, and that method being "no authentication".
pub open spec fn socks5_greeting_bytes() -> Seq<u8> {
    seq![5u8, 1u8, 0u8]
}

/// The bytes of a CONNECT request for `addr` and `port`: version, the
/// CONNECT command, the reserved byte, the address type, the encoded
/// address, and the port in network byte order.
pub open spec fn socks5_request_bytes(addr: DestAddr, port: u16) -> Seq<u8> {
    seq![5u8, 1u8, 0u8, addr.atyp()] + addr.addr_bytes() + seq![
        (port / 256) as u8,
        (port % 256) as u8,
    ]
}

/// The total length of a CONNECT reply whose fourth byte announces address
/// type `atyp` and whose fifth byte is `len_byte`: 10 bytes for IPv4, 22
/// for IPv6, the header plus length prefix plus `len_byte` name bytes plus
/// the port for a domain, and 0 for an unknown address type (no length can
/// be expected of it).
pub open spec fn socks5_reply_total_len(atyp: u8, len_byte: u8) -> int {
    if atyp == 1 {
        10
    } else if atyp == 4 {
        22
    } else if atyp == 3 {
        7 + len_byte
    } else {
        0
    }
}

/// Builds the client greeting.
pub fn socks5_greeting() -> (r: Vec<u8>)
    ensures
        r@ == socks5_greeting_bytes(),
{
    let mut v: Vec<u8> = Vec::new();
    v.push(5);
    v.push(1);
    v.push(0);
    proof {
        assert(v@ =~= socks5_greeting_bytes());
    }
    v
}

/// Whether the two-byte greeting reply accepts version 5 with no
/// authentication.
pub fn socks5_auth_ok(reply: &[u8]) -> (r: bool)
    ensures
        r == (reply@ == seq![5u8, 0u8]),
{
    if reply.len() == 2 && reply[0] == 5 && reply[1] == 0 {
        proof {
            assert(reply@ =~= seq![5u8, 0u8]);
        }
        true
    } else {
        proof {
            assert(reply@ == seq![5u8, 0u8] ==> reply@.len() == 2 && reply@[0] == 5
                && reply@[1] == 0);
        }
        false
    }
}

/// Builds the CONNECT request for `addr` and `port`, refusing a domain name
/// that does not fit the one-byte length prefix.
pub fn socks5_request(addr: &DestAddr, port: u16) -> (r: Result<Vec<u8>, ConnectError>)
    ensures
        match r {
            Ok(v) => addr.encodable() && v@ == socks5_request_bytes(*addr, port),
            Err(e) => !addr.encodable() && e matches ConnectError::InvalidConfiguration {
                fault: ConfigFault::HostNameTooLong,
            },
        },
{
    let mut v: Vec<u8> = Vec::new();
    v.push(5);
    v.push(1);
    v.push(0);
    match addr {
        DestAddr::V4 { octets } => {
            v.push(1);
            let mut i: usize = 0;
            while i < 4
                invariant
                    i <= 4,
                    v@ == seq![5u8, 1u8, 0u8, 1u8] + octets@.take(i as int),
                decreases 4 - i,
            {
                v.push(octets[i]);
                proof {
                    assert(octets@.take(i + 1).drop_last() == octets@.take(i as int));
                    assert(v@ =~= seq![5u8, 1u8, 0u8, 1u8] + octets@.take(i + 1));
                }
                i = i + 1;
            }
            proof {
                assert(octets@.take(4) == octets@);
            }
        },
        DestAddr::V6 { octets } => {
            v.push(4);
            let mut i: usize = 0;
            while i < 16
                invariant
                    i <= 16,
                    v@ == seq![5u8, 1u8, 0u8, 4u8] + octets@.take(i as int),
                decreases 16 - i,
            {
                v.push(octets[i]);
                proof {
                    assert(octets@.take(i + 1).drop_last() == octets@.take(i as int));
                    assert(v@ =~= seq![5u8, 1u8, 0u8, 4u8] + octets@.take(i + 1));
                }
                i = i + 1;
            }
            proof {
                assert(octets@.take(16) == octets@);
            }
        },
        DestAddr::Domain { name } => {
            if name.len() > 255 {
                return Err(
                    ConnectError::InvalidConfiguration { fault: ConfigFault::HostNameTooLong },
                );
            }
            v.push(3);
            v.push(name.len() as u8);
            let mut i: usize = 0;
            while i < name.len()
                invariant
                    i <= name.len(),
                    name@.len() <= 255,
                    v@ == seq![5u8, 1u8, 0u8, 3u8, name@.len() as u8] + name@.take(i as int),
                decreases name.len() - i,
            {
                v.push(name[i]);
                proof {
                    assert(name@.take(i + 1).drop_last() == name@.take(i as int));
                    assert(v@ =~= seq![5u8, 1u8, 0u8, 3u8, name@.len() as u8] + name@.take(
                        i + 1,
                    ));
                }
                i = i + 1;
            }
            proof {
                assert(name@.take(name@.len() as int) == name@);
            }
        },
    }
    v.push((port / 256) as u8);
    v.push((port % 256) as u8);
    proof {
        assert(v@ =~= socks5_request_bytes(*addr, port));
    }
    Ok(v)
}

/// What the first read of the CONNECT reply decided: the proxy rejected or
/// broke the protocol, or the reply is `total` bytes long of which
/// `prefix.len()` have been read.
///
/// `prefix` must hold at least 5 bytes and begin with `05 00 00`, else the
/// tunnel is refused; an unknown address type expects a zero-length reply,
/// which the already-read bytes overrun, and is reported as malformed.
pub fn socks5_reply_check(prefix: &Vec<u8>) -> (r: Result<usize, ConnectError>)
    ensures
        match r {
            Ok(total) => {
                &&& prefix@.len() >= 5
                &&& prefix@[0] == 5 && prefix@[1] == 0 && prefix@[2] == 0
                &&& total == socks5_reply_total_len(prefix@[3], prefix@[4])
                &&& prefix@.len() <= total
            },
            Err(e) => match e {
                ConnectError::ProtocolViolation {
                    fault: ProtocolFault::Socks5Refused { reply },
                } => {
                    &&& reply@ == prefix@
                    &&& !(prefix@.len() >= 5 && prefix@[0] == 5 && prefix@[1] == 0 && prefix@[2]
                        == 0)
                },
                ConnectError::ProtocolViolation {
                    fault: ProtocolFault::Socks5Malformed { reply },
                } => {
                    &&& reply@ == prefix@
                    &&& prefix@.len() >= 5 && prefix@[0] == 5 && prefix@[1] == 0 && prefix@[2]
                        == 0
                    &&& prefix@.len() > socks5_reply_total_len(prefix@[3], prefix@[4])
                },
                _ => false,
            },
        },
{
    if prefix.len() < 5 || prefix[0] != 5 || prefix[1] != 0 || prefix[2] != 0 {
        return Err(
            ConnectError::ProtocolViolation {
                fault: ProtocolFault::Socks5Refused { reply: prefix.clone() },
            },
        );
    }
    let total: usize = if prefix[3] == 1 {
        10
    } else if prefix[3] == 4 {
        22
    } else if prefix[3] == 3 {
        7 + prefix[4] as usize
    } else {
        0
    };
    if prefix.len() > total {
        return Err(
            ConnectError::ProtocolViolation {
                fault: ProtocolFault::Socks5Malformed { reply: prefix.clone() },
            },
        );
    }
    Ok(total)
}

} // verus!
