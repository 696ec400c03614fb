//! The transport core: proxy selection, SOCKS5 and HTTP CONNECT framing,
//! and the connection state machine driven over scripted byte exchanges.

use generic_async_http_client::{
    decide_from_parts, socks5_greeting, socks5_reply_check, socks5_request, ConfigFault,
    ConnAction, ConnEvent, ConnState, ConnectError, Connector, DestAddr, ProtocolFault,
    ProxyConfig, ProxyDecision, TunnelPlan, UriParts,
};

fn socks5_decision(host: &str, port: u16, remote: bool) -> ProxyDecision {
    ProxyDecision::Socks5 {
        host: host.to_string(),
        port,
        resolve_remotely: remote,
    }
}

fn expect_open(act: &ConnAction, host: &str, port: u16) {
    match act {
        ConnAction::OpenTcp { host: h, port: p } => {
            assert_eq!(h, host);
            assert_eq!(*p, port);
        }
        other => panic!("expected OpenTcp, got {:?}", other),
    }
}

fn expect_send(act: &ConnAction, data: &[u8]) {
    match act {
        ConnAction::Send { data: d } => assert_eq!(d.as_slice(), data),
        other => panic!("expected Send, got {:?}", other),
    }
}

#[test]
fn socks5_greeting_bytes_are_fixed() {
    assert_eq!(socks5_greeting(), b"\x05\x01\0".to_vec());
}

#[test]
fn socks5_request_ipv4_literal_uses_atyp_1() {
    // An IPv4 literal with local resolution goes on the wire as address
    // type 1 with exactly four address bytes.
    let (c, act) = Connector::start(socks5_decision("127.0.0.1", 61082, false), "127.0.0.1", 0x1234, false);
    expect_open(&act, "127.0.0.1", 61082);
    match &c.state {
        ConnState::Opening {
            plan: TunnelPlan::SocksTunnel { request },
            ..
        } => {
            assert_eq!(request.as_slice(), b"\x05\x01\0\x01\x7f\0\0\x01\x12\x34");
        }
        other => panic!("expected a SOCKS tunnel plan, got {:?}", other),
    }
}

#[test]
fn socks5_request_ipv6_literal_uses_atyp_4() {
    let (c, _) = Connector::start(socks5_decision("127.0.0.1", 61083, false), "::1", 0x1234, false);
    match &c.state {
        ConnState::Opening {
            plan: TunnelPlan::SocksTunnel { request },
            ..
        } => {
            assert_eq!(
                request.as_slice(),
                b"\x05\x01\0\x04\0\0\0\0\0\0\0\0\0\0\0\0\0\0\0\x01\x12\x34"
            );
        }
        other => panic!("expected a SOCKS tunnel plan, got {:?}", other),
    }
}

#[test]
fn socks5_request_domain_uses_atyp_3() {
    // A name resolved at the proxy is sent as a length-prefixed domain.
    let (c, _) = Connector::start(socks5_decision("127.0.0.1", 61081, true), "host", 0x1234, false);
    match &c.state {
        ConnState::Opening {
            plan: TunnelPlan::SocksTunnel { request },
            ..
        } => {
            assert_eq!(request.as_slice(), b"\x05\x01\0\x03\x04host\x12\x34");
        }
        other => panic!("expected a SOCKS tunnel plan, got {:?}", other),
    }
}

#[test]
fn socks5_non_literal_local_resolution_asks_resolver() {
    let (c, act) = Connector::start(socks5_decision("prx", 1080, false), "host", 80, false);
    match &c.state {
        ConnState::NeedResolve {
            proxy_host,
            proxy_port,
        } => {
            assert_eq!(proxy_host, "prx");
            assert_eq!(*proxy_port, 1080);
        }
        other => panic!("expected NeedResolve, got {:?}", other),
    }
    match act {
        ConnAction::Resolve { host, port } => {
            assert_eq!(host, "host");
            assert_eq!(port, 80);
        }
        other => panic!("expected Resolve, got {:?}", other),
    }
    let (_, act) = c.on_event(ConnEvent::Resolved {
        addr: DestAddr::V4 { octets: [10, 0, 0, 7] },
    });
    expect_open(&act, "prx", 1080);
}

#[test]
fn socks5_tunnel_full_walk() {
    // A SOCKS5 exchange whose proxy greets `05 00` and then confirms the
    // CONNECT of IPv4 127.0.0.1:0x1234 yields a tunneled plain stream.
    let (c, act) = Connector::start(socks5_decision("127.0.0.1", 61082, false), "127.0.0.1", 0x1234, false);
    expect_open(&act, "127.0.0.1", 61082);
    let (c, act) = c.on_event(ConnEvent::TcpOpened);
    expect_send(&act, b"\x05\x01\0");
    let (c, act) = c.on_event(ConnEvent::Sent);
    assert!(matches!(act, ConnAction::RecvExact { count: 2 }));
    let (c, act) = c.on_event(ConnEvent::Received { data: vec![5, 0] });
    expect_send(&act, b"\x05\x01\0\x01\x7f\0\0\x01\x12\x34");
    let (c, act) = c.on_event(ConnEvent::Sent);
    assert!(matches!(act, ConnAction::RecvUpTo { max: 5 }));
    let (c, act) = c.on_event(ConnEvent::Received {
        data: vec![5, 0, 0, 1, 0x7f],
    });
    assert!(matches!(act, ConnAction::RecvExact { count: 5 }));
    let (c, act) = c.on_event(ConnEvent::Received {
        data: vec![0, 0, 1, 0x12, 0x34],
    });
    assert!(matches!(act, ConnAction::Finished { tls: false }));
    assert!(matches!(c.state, ConnState::Done { tls: false }));
}

#[test]
fn socks5_domain_reply_is_read_to_exactly_eleven_bytes() {
    // A reply announcing a domain of four bytes is 7 + 4 = 11 bytes long:
    // after five bytes were read, exactly six more are asked for.
    let (c, _) = Connector::start(socks5_decision("127.0.0.1", 61081, true), "host", 0x1234, false);
    let (c, _) = c.on_event(ConnEvent::TcpOpened);
    let (c, _) = c.on_event(ConnEvent::Sent);
    let (c, _) = c.on_event(ConnEvent::Received { data: vec![5, 0] });
    let (c, _) = c.on_event(ConnEvent::Sent);
    let (c, act) = c.on_event(ConnEvent::Received {
        data: vec![5, 0, 0, 3, 4],
    });
    assert!(matches!(act, ConnAction::RecvExact { count: 6 }));
    let (_, act) = c.on_event(ConnEvent::Received {
        data: b"host\x12\x34".to_vec(),
    });
    assert!(matches!(act, ConnAction::Finished { tls: false }));
}

#[test]
fn socks5_reply_check_errors() {
    // Too short, or not `05 00 00`: refused, carrying the raw bytes.
    let r = socks5_reply_check(&vec![5, 0]).expect_err("short reply");
    assert!(matches!(
        r,
        ConnectError::ProtocolViolation {
            fault: ProtocolFault::Socks5Refused { .. }
        }
    ));
    let r = socks5_reply_check(&vec![5, 1, 0, 1, 0]).expect_err("rejected");
    assert!(matches!(
        r,
        ConnectError::ProtocolViolation {
            fault: ProtocolFault::Socks5Refused { .. }
        }
    ));
    // Unknown address type: no reply length can be expected.
    let r = socks5_reply_check(&vec![5, 0, 0, 9, 9]).expect_err("unknown atyp");
    assert!(matches!(
        r,
        ConnectError::ProtocolViolation {
            fault: ProtocolFault::Socks5Malformed { .. }
        }
    ));
    assert_eq!(socks5_reply_check(&vec![5, 0, 0, 1, 0]).unwrap(), 10);
    assert_eq!(socks5_reply_check(&vec![5, 0, 0, 4, 0]).unwrap(), 22);
    assert_eq!(socks5_reply_check(&vec![5, 0, 0, 3, 4]).unwrap(), 11);
}

#[test]
fn socks5_auth_rejection_fails_tunnel() {
    let (c, _) = Connector::start(socks5_decision("p", 1080, true), "host", 80, false);
    let (c, _) = c.on_event(ConnEvent::TcpOpened);
    let (c, _) = c.on_event(ConnEvent::Sent);
    let (c, act) = c.on_event(ConnEvent::Received { data: vec![5, 2] });
    assert!(matches!(
        act,
        ConnAction::Fail {
            error: ConnectError::ProtocolViolation {
                fault: ProtocolFault::Socks5Auth { .. }
            }
        }
    ));
    assert!(matches!(c.state, ConnState::Failed));
}

#[test]
fn socks5_overlong_host_name_is_refused() {
    let long = "a".repeat(256);
    let (c, act) = Connector::start(socks5_decision("p", 1080, true), &long, 80, false);
    assert!(matches!(c.state, ConnState::Failed));
    assert!(matches!(
        act,
        ConnAction::Fail {
            error: ConnectError::InvalidConfiguration {
                fault: ConfigFault::HostNameTooLong
            }
        }
    ));
    let r = socks5_request(
        &DestAddr::Domain {
            name: long.into_bytes(),
        },
        80,
    );
    assert!(r.is_err());
}

#[test]
fn http_connect_request_bytes_are_exact() {
    let (c, act) = Connector::start(
        ProxyDecision::Http {
            host: "phost".to_string(),
            port: 3128,
        },
        "host",
        1234,
        false,
    );
    expect_open(&act, "phost", 3128);
    let (_, act) = c.on_event(ConnEvent::TcpOpened);
    expect_send(&act, b"CONNECT host:1234 HTTP/1.1\r\nHost: host:1234\r\n\r\n");
}

#[test]
fn http_connect_full_walk() {
    let (c, _) = Connector::start(
        ProxyDecision::Http {
            host: "p".to_string(),
            port: 8080,
        },
        "whatever",
        80,
        false,
    );
    let (c, _) = c.on_event(ConnEvent::TcpOpened);
    let (c, act) = c.on_event(ConnEvent::Sent);
    assert!(matches!(act, ConnAction::RecvUpTo { .. }));
    let (c, act) = c.on_event(ConnEvent::Received {
        data: b"HTTP/1.1 200 Connected\r\n\r\n".to_vec(),
    });
    assert!(matches!(act, ConnAction::Finished { tls: false }));
    assert!(matches!(c.state, ConnState::Done { tls: false }));
}

#[test]
fn http_connect_prefix_alone_is_not_success() {
    // A 200 status line whose header block never ends is not a tunnel:
    // when the proxy closes the stream first, the attempt fails.
    let (c, _) = Connector::start(
        ProxyDecision::Http {
            host: "p".to_string(),
            port: 8080,
        },
        "host",
        443,
        false,
    );
    let (c, _) = c.on_event(ConnEvent::TcpOpened);
    let (c, _) = c.on_event(ConnEvent::Sent);
    let (c, act) = c.on_event(ConnEvent::Received {
        data: b"HTTP/1.1 200 Connected\r\n".to_vec(),
    });
    assert!(matches!(act, ConnAction::RecvUpTo { .. }));
    let (c, act) = c.on_event(ConnEvent::Received { data: vec![] });
    assert!(matches!(
        act,
        ConnAction::Fail {
            error: ConnectError::ProtocolViolation {
                fault: ProtocolFault::UnexpectedEof { .. }
            }
        }
    ));
    assert!(matches!(c.state, ConnState::Failed));
}

#[test]
fn http_connect_rejection_is_immediate() {
    let (c, _) = Connector::start(
        ProxyDecision::Http {
            host: "p".to_string(),
            port: 8080,
        },
        "host",
        80,
        false,
    );
    let (c, _) = c.on_event(ConnEvent::TcpOpened);
    let (c, _) = c.on_event(ConnEvent::Sent);
    let (_, act) = c.on_event(ConnEvent::Received {
        data: b"HTTP/1.1 407 Proxy Authentication Required\r\n\r\n".to_vec(),
    });
    match act {
        ConnAction::Fail {
            error:
                ConnectError::ProtocolViolation {
                    fault: ProtocolFault::HttpConnectRejected { host, reply },
                },
        } => {
            assert_eq!(host, b"host".to_vec());
            assert!(reply.starts_with(b"HTTP/1.1 407"));
        }
        other => panic!("expected HttpConnectRejected, got {:?}", other),
    }
    // An old proxy speaking HTTP/1.0 is accepted.
    let (c, _) = Connector::start(
        ProxyDecision::Http {
            host: "p".to_string(),
            port: 8080,
        },
        "host",
        80,
        false,
    );
    let (c, _) = c.on_event(ConnEvent::TcpOpened);
    let (c, _) = c.on_event(ConnEvent::Sent);
    let (_, act) = c.on_event(ConnEvent::Received {
        data: b"HTTP/1.0 200 Connected\r\n\r\n".to_vec(),
    });
    assert!(matches!(act, ConnAction::Finished { tls: false }));
}

#[test]
fn tls_starts_only_after_tunnel_success() {
    // With TLS requested over SOCKS5, the handshake is asked for exactly
    // once, after the CONNECT reply completes - never earlier.
    let (c, act) = Connector::start(socks5_decision("p", 1080, true), "host", 443, true);
    assert!(!matches!(act, ConnAction::StartTls { .. }));
    let (c, act) = c.on_event(ConnEvent::TcpOpened);
    assert!(!matches!(act, ConnAction::StartTls { .. }));
    let (c, act) = c.on_event(ConnEvent::Sent);
    assert!(!matches!(act, ConnAction::StartTls { .. }));
    let (c, act) = c.on_event(ConnEvent::Received { data: vec![5, 0] });
    assert!(!matches!(act, ConnAction::StartTls { .. }));
    let (c, act) = c.on_event(ConnEvent::Sent);
    assert!(!matches!(act, ConnAction::StartTls { .. }));
    let (c, act) = c.on_event(ConnEvent::Received {
        data: vec![5, 0, 0, 1, 10],
    });
    assert!(matches!(act, ConnAction::RecvExact { count: 5 }));
    let (c, act) = c.on_event(ConnEvent::Received {
        data: vec![0, 0, 1, 0, 80],
    });
    match act {
        ConnAction::StartTls { host } => assert_eq!(host, "host"),
        other => panic!("expected StartTls only now, got {:?}", other),
    }
    let (c, act) = c.on_event(ConnEvent::TlsDone);
    assert!(matches!(act, ConnAction::Finished { tls: true }));
    assert!(matches!(c.state, ConnState::Done { tls: true }));
}

#[test]
fn tls_failure_is_its_own_error() {
    let (c, _) = Connector::start(ProxyDecision::Direct, "host", 443, true);
    let (c, act) = c.on_event(ConnEvent::TcpOpened);
    assert!(matches!(act, ConnAction::StartTls { .. }));
    let (_, act) = c.on_event(ConnEvent::TlsFailed);
    assert!(matches!(
        act,
        ConnAction::Fail {
            error: ConnectError::TlsFailure { .. }
        }
    ));
}

#[test]
fn tcp_and_dns_failures_carry_context() {
    let (c, _) = Connector::start(ProxyDecision::Direct, "host", 80, false);
    let (_, act) = c.on_event(ConnEvent::TcpFailed);
    match act {
        ConnAction::Fail {
            error: ConnectError::ConnectFailure { host, port },
        } => {
            assert_eq!(host, b"host".to_vec());
            assert_eq!(port, 80);
        }
        other => panic!("expected ConnectFailure, got {:?}", other),
    }
    let (c, _) = Connector::start(socks5_decision("p", 1080, false), "nodns.example", 80, false);
    let (_, act) = c.on_event(ConnEvent::ResolveFailed);
    match act {
        ConnAction::Fail {
            error: ConnectError::DnsFailure { host },
        } => assert_eq!(host, b"nodns.example".to_vec()),
        other => panic!("expected DnsFailure, got {:?}", other),
    }
}

#[test]
fn no_proxy_bypasses_configured_proxy() {
    // NO_PROXY=example.com with HTTP_PROXY=http://proxy:8080: the
    // connection to example.com:80 is opened directly, not via the proxy.
    let cfg = ProxyConfig {
        all_proxy: None,
        https_proxy: None,
        http_proxy: Some("http://proxy:8080".to_string()),
        no_proxy: Some("example.com".to_string()),
    };
    assert_eq!(
        cfg.decide("example.com", false).unwrap(),
        ProxyDecision::Direct
    );
    let (_, act) = Connector::connect_start(&cfg, "example.com", 80, false);
    expect_open(&act, "example.com", 80);

    // Any other host goes through the proxy.
    assert_eq!(
        cfg.decide("other.com", false).unwrap(),
        ProxyDecision::Http {
            host: "proxy".to_string(),
            port: 8080
        }
    );
    let (_, act) = Connector::connect_start(&cfg, "other.com", 80, false);
    expect_open(&act, "proxy", 8080);
}

#[test]
fn no_proxy_entries_are_trimmed_and_star_matches_all() {
    let cfg = ProxyConfig {
        all_proxy: Some("http://proxy:1".to_string()),
        https_proxy: None,
        http_proxy: None,
        no_proxy: Some(" a.com , example.com ".to_string()),
    };
    assert_eq!(
        cfg.decide("example.com", true).unwrap(),
        ProxyDecision::Direct
    );
    assert!(matches!(
        cfg.decide("sub.example.com", true).unwrap(),
        ProxyDecision::Http { .. }
    ));
    let star = ProxyConfig {
        all_proxy: Some("http://proxy:1".to_string()),
        https_proxy: None,
        http_proxy: None,
        no_proxy: Some("*".to_string()),
    };
    assert_eq!(star.decide("anything", false).unwrap(), ProxyDecision::Direct);
}

#[test]
fn proxy_url_faults() {
    let bad_scheme = ProxyConfig {
        all_proxy: Some("ftp://proxy:21".to_string()),
        ..Default::default()
    };
    assert!(matches!(
        bad_scheme.decide("h", false),
        Err(ConnectError::InvalidConfiguration {
            fault: ConfigFault::UnsupportedProxyScheme
        })
    ));
    let no_port = ProxyConfig {
        all_proxy: Some("ftp://proxy".to_string()),
        ..Default::default()
    };
    assert!(matches!(
        no_port.decide("h", false),
        Err(ConnectError::InvalidConfiguration {
            fault: ConfigFault::MissingProxyPort
        })
    ));
    let malformed = ProxyConfig {
        all_proxy: Some("http://".to_string()),
        ..Default::default()
    };
    assert!(malformed.decide("h", false).is_err());
}

#[test]
fn proxy_scheme_selects_tunnel_kind_and_default_port() {
    let cfg = ProxyConfig {
        all_proxy: Some("socks5://p".to_string()),
        ..Default::default()
    };
    assert_eq!(
        cfg.decide("h", false).unwrap(),
        ProxyDecision::Socks5 {
            host: "p".to_string(),
            port: 1080,
            resolve_remotely: false
        }
    );
    let cfg = ProxyConfig {
        all_proxy: Some("socks5h://p".to_string()),
        ..Default::default()
    };
    assert_eq!(
        cfg.decide("h", false).unwrap(),
        ProxyDecision::Socks5 {
            host: "p".to_string(),
            port: 1080,
            resolve_remotely: true
        }
    );
    let cfg = ProxyConfig {
        all_proxy: Some("http://p".to_string()),
        ..Default::default()
    };
    assert_eq!(
        cfg.decide("h", false).unwrap(),
        ProxyDecision::Http {
            host: "p".to_string(),
            port: 80
        }
    );
}

#[test]
fn proxy_selection_order() {
    // ALL_PROXY wins; else the protocol-specific URL applies.
    let cfg = ProxyConfig {
        all_proxy: Some("http://all:1".to_string()),
        https_proxy: Some("http://tls:2".to_string()),
        http_proxy: Some("http://plain:3".to_string()),
        no_proxy: None,
    };
    assert_eq!(
        cfg.decide("h", true).unwrap(),
        ProxyDecision::Http {
            host: "all".to_string(),
            port: 1
        }
    );
    let cfg = ProxyConfig {
        all_proxy: None,
        https_proxy: Some("http://tls:2".to_string()),
        http_proxy: Some("http://plain:3".to_string()),
        no_proxy: None,
    };
    assert_eq!(
        cfg.decide("h", true).unwrap(),
        ProxyDecision::Http {
            host: "tls".to_string(),
            port: 2
        }
    );
    assert_eq!(
        cfg.decide("h", false).unwrap(),
        ProxyDecision::Http {
            host: "plain".to_string(),
            port: 3
        }
    );
    let none = ProxyConfig::default();
    assert_eq!(none.decide("h", false).unwrap(), ProxyDecision::Direct);
}

#[test]
fn decide_from_parsed_url_parts() {
    let parts = UriParts {
        scheme: Some("socks5h".to_string()),
        host: Some("prx".to_string()),
        port: None,
    };
    assert_eq!(
        decide_from_parts(Some(parts)).unwrap(),
        ProxyDecision::Socks5 {
            host: "prx".to_string(),
            port: 1080,
            resolve_remotely: true
        }
    );
    assert!(matches!(
        decide_from_parts(None),
        Err(ConnectError::InvalidConfiguration {
            fault: ConfigFault::MalformedProxyUrl
        })
    ));
    let no_host = UriParts {
        scheme: Some("http".to_string()),
        host: None,
        port: Some(1),
    };
    assert!(matches!(
        decide_from_parts(Some(no_host)),
        Err(ConnectError::InvalidConfiguration {
            fault: ConfigFault::MissingProxyHost
        })
    ));
}
