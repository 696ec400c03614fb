//! The client-facing types: headers, bodies, requests, sessions, and the
//! ALPN helpers of the stream layer.

use generic_async_http_client::{
    alpn_protocols, http_connect_progress, http_connect_request, scheme_port, version_for_alpn,
    Body, Error, HeaderName, HeaderValue, HttpVersion, HttpError, Request, Session, TunnelProgress,
};

#[test]
fn header_names_are_lowercased_tokens() {
    let hn = HeaderName::new("Cookies").unwrap();
    assert_eq!(hn.as_bytes(), b"cookies");
    assert_eq!(hn.as_str().unwrap(), "cookies");
    assert!(hn.eq_str("COOKIES"));
    assert!(!hn.eq_str("cookie"));
    assert!(HeaderName::new("").is_err());
    assert!(HeaderName::new("sp ace").is_err());
    assert!(HeaderName::new("semi;colon").is_err());
}

#[test]
fn header_values_parse_and_decode() {
    let hv = HeaderValue::from_str("4");
    assert_eq!(hv.parse(), Some(4));
    assert_eq!(HeaderValue::from_str("1840").parse(), Some(1840));
    assert_eq!(HeaderValue::from_str("abc").parse(), None);
    assert_eq!(HeaderValue::from_str("").parse(), None);
    assert_eq!(HeaderValue::from_str("12x").parse(), None);
    // More than nineteen digits are out of range for this reader.
    assert_eq!(HeaderValue::from_str("12345678901234567890").parse(), None);
    assert_eq!(HeaderValue::from_str("9999999999999999999").parse(), Some(9_999_999_999_999_999_999));

    let valid = HeaderValue::from_str("jo");
    assert_eq!(valid.as_str(), Some("jo"));
    let invalid = HeaderValue::from_bytes(&[0xff, 0xfe]);
    assert_eq!(invalid.as_str(), None);
    assert!(valid.eq_str("jo"));
    assert!(valid.eq_bytes(b"jo"));
}

#[test]
fn request_builders_set_method_and_uri() {
    let r = Request::get("http://example.com/");
    assert_eq!(r.method_bytes(), b"GET");
    assert_eq!(r.uri_str(), "http://example.com/");
    assert_eq!(Request::post("u").method_bytes(), b"POST");
    assert_eq!(Request::put("u").method_bytes(), b"PUT");
    assert_eq!(Request::delete("u").method_bytes(), b"DELETE");
    assert_eq!(Request::head("u").method_bytes(), b"HEAD");
    assert_eq!(Request::options("u").method_bytes(), b"OPTIONS");
    let r = Request::new("PATCH", "u").unwrap();
    assert_eq!(r.method_bytes(), b"PATCH");
    assert!(matches!(
        Request::new("GE T", "u"),
        Err(Error::Other(HttpError::InvalidMethod))
    ));
    assert!(Request::new("", "u").is_err());
}

#[test]
fn request_headers_set_and_add() {
    let r = Request::put("u")
        .set_header(HeaderName::new("a").unwrap(), HeaderValue::from_str("1"))
        .unwrap()
        .add_header(HeaderName::new("a").unwrap(), HeaderValue::from_str("2"))
        .unwrap();
    let hs = r.header_list();
    assert_eq!(hs.len(), 2);
    assert_eq!(hs[0].1.as_bytes(), b"1");
    assert_eq!(hs[1].1.as_bytes(), b"2");
    // set_header replaces every earlier value under the name.
    let r = r
        .set_header(HeaderName::new("A").unwrap(), HeaderValue::from_str("3"))
        .unwrap();
    let hs = r.header_list();
    assert_eq!(hs.len(), 1);
    assert_eq!(hs[0].0.as_bytes(), b"a");
    assert_eq!(hs[0].1.as_bytes(), b"3");
}

#[test]
fn request_body_is_kept() {
    let r = Request::post("u").body(Body::from_str("some body")).unwrap();
    assert_eq!(r.body_bytes(), b"some body");
    let r = Request::post("u").body(Body::from("abc".to_string())).unwrap();
    assert_eq!(r.body_bytes(), b"abc");
    let r = Request::post("u").body(Body::from(vec![1u8, 2])).unwrap();
    assert_eq!(r.body_bytes(), &[1u8, 2][..]);
    let r = Request::post("u").body(Body::empty()).unwrap();
    assert_eq!(r.body_bytes(), b"");
}

#[test]
fn session_headers_apply_to_requests() {
    let s = Session::new();
    let mut s = s
        .set_header(
            HeaderName::new("Cookies").unwrap(),
            HeaderValue::from_str("jo"),
        )
        .unwrap();
    let r = s.put("http://example.com/");
    assert_eq!(r.method_bytes(), b"PUT");
    let hs = r.header_list();
    assert_eq!(hs.len(), 1);
    assert_eq!(hs[0].0.as_bytes(), b"cookies");
    assert_eq!(hs[0].1.as_bytes(), b"jo");
    // A later session value replaces the earlier one.
    let mut s = s
        .set_header(
            HeaderName::new("cookies").unwrap(),
            HeaderValue::from_str("ne"),
        )
        .unwrap();
    let r = s.get("u");
    let hs = r.header_list();
    assert_eq!(hs.len(), 1);
    assert_eq!(hs[0].1.as_bytes(), b"ne");
    let r = s.request("PATCH", "u").unwrap();
    assert_eq!(r.method_bytes(), b"PATCH");
    assert_eq!(r.header_list().len(), 1);
    s.cookies();
}

#[test]
fn alpn_advertisement_and_selection() {
    let offered = alpn_protocols(true);
    assert_eq!(offered.len(), 2);
    assert_eq!(offered[0], b"h2".to_vec());
    assert_eq!(offered[1], b"http/1.1".to_vec());
    let offered = alpn_protocols(false);
    assert_eq!(offered.len(), 1);
    assert_eq!(offered[0], b"http/1.1".to_vec());

    assert_eq!(version_for_alpn(Some(b"h2")), HttpVersion::Http2);
    assert_eq!(version_for_alpn(Some(b"http/1.1")), HttpVersion::Http11);
    assert_eq!(version_for_alpn(None), HttpVersion::Http11);
    assert_eq!(scheme_port(true), 443);
    assert_eq!(scheme_port(false), 80);
}

#[test]
fn connect_recognition_needs_prefix_and_terminator() {
    let req = http_connect_request(b"host", 1234);
    assert_eq!(
        req.as_slice(),
        &b"CONNECT host:1234 HTTP/1.1\r\nHost: host:1234\r\n\r\n"[..]
    );
    assert_eq!(
        http_connect_progress(&b"HTTP/1.1 200 Connected\r\n\r\n".to_vec()),
        TunnelProgress::Established
    );
    assert_eq!(
        http_connect_progress(&b"HTTP/1.0 200 OK\r\n\r\n".to_vec()),
        TunnelProgress::Established
    );
    // The prefix alone is not success.
    assert_eq!(
        http_connect_progress(&b"HTTP/1.1 200 Connected\r\n".to_vec()),
        TunnelProgress::NeedMore
    );
    assert_eq!(
        http_connect_progress(&b"HTTP/1.1 2".to_vec()),
        TunnelProgress::NeedMore
    );
    assert_eq!(
        http_connect_progress(&b"HTTP/1.1 404 No\r\n\r\n".to_vec()),
        TunnelProgress::Rejected
    );
    // The check is case-sensitive and exact.
    assert_eq!(
        http_connect_progress(&b"http/1.1 200 ok\r\n\r\n".to_vec()),
        TunnelProgress::Rejected
    );
}
