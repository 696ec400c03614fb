//! The mock facility: mocked responses, request assertions, and the
//! classification of mocked responses.

use generic_async_http_client::{
    Error, HeaderName, HeaderValue, Mock, MockErr, MockedEndpoint, MockedRequest, Request,
};

#[test]
fn mock_it() {
    let mut mock = Mock::new();
    let mut r = MockedEndpoint::new(503);
    r.set_response(200, "mock".into());
    r.add_response_header("test", "jo").unwrap();
    mock.update("GET", "http://example.com/", r);

    let resp = Request::get("http://example.com/").exec_mock(&mock).unwrap();
    assert_eq!(resp.header("test").unwrap().as_str().unwrap(), "jo");
    assert_eq!(resp.header("test").map(|s| s.as_bytes()), Some(&b"jo"[..]));
    assert_eq!(
        resp.header("test").unwrap().as_str().unwrap().to_string(),
        "jo".to_string()
    );
    assert_eq!(resp.text(), "mock");
}

#[test]
fn mock_it_different() {
    let mut mock = Mock::new();
    let mut r = MockedEndpoint::new(503);
    r.set_response(201, "different".into());
    mock.update("GET", "http://example.com/", r);

    let resp = Request::get("http://example.com/").exec_mock(&mock).unwrap();
    assert_eq!(resp.text(), "different");
}

#[test]
fn error_on_miss() {
    let mut mock = Mock::new();
    mock.update("GET", "anything", MockedEndpoint::new(503));

    let err = Request::get("http://example.com/")
        .exec_mock(&mock)
        .expect_err("should fail");

    assert!(matches!(err, Error::Mock(MockErr::NoResponseProvided)));
}

#[test]
fn assert_header() {
    let mut mock = Mock::new();
    let mut r = MockedEndpoint::new(503);
    r.add_header_assertion("test", "jo").unwrap();
    r.set_response(200, "mock".into());
    mock.update("GET", "http://example.com/", r);

    let err = Request::get("http://example.com/")
        .set_header(
            HeaderName::new("test").unwrap(),
            HeaderValue::from_str("123"),
        )
        .unwrap()
        .exec_mock(&mock)
        .expect_err("should fail");
    assert!(
        matches!(err, Error::Mock(MockErr::HeaderAssertionFailed(m)) if m == "test is [123] not [jo]")
    );
}

#[test]
fn multiple_headers() {
    let mut mock = Mock::new();
    let mut r = MockedEndpoint::new(503);
    r.add_header_assertion("test", "jo").unwrap();
    r.add_header_assertion("test", "1").unwrap();
    r.set_response(200, "mock".into());
    r.add_response_header("ret", "jo").unwrap();
    r.add_response_header("ret", "1").unwrap();
    mock.update("GET", "http://example.com/", r);

    let resp = Request::get("http://example.com/")
        .set_header(HeaderName::new("test").unwrap(), HeaderValue::from_str("jo"))
        .unwrap()
        .add_header(HeaderName::new("test").unwrap(), HeaderValue::from_str("1"))
        .unwrap()
        .exec_mock(&mock)
        .unwrap();
    let hv = resp.all_header("ret");
    assert_eq!(hv[0].as_str().unwrap(), "jo");
    assert_eq!(hv[1].as_str().unwrap(), "1");
    assert_eq!(hv.len(), 2);

    let allh = resp.headers();
    assert_eq!(allh[0].0.as_str().unwrap(), "ret");
    assert_eq!(allh[0].1.as_str().unwrap(), "jo");
    assert_eq!(allh[1].0.as_str().unwrap(), "ret");
    assert_eq!(allh[1].1.as_str().unwrap(), "1");
    assert_eq!(allh.len(), 2);
}

#[test]
fn mock_body_assertion() {
    let mut mock = Mock::new();
    let mut r = MockedEndpoint::new(200);
    r.assert_body("expected".into());
    mock.update("POST", "http://example.com/", r);

    let err = Request::post("http://example.com/")
        .body("sent".into())
        .unwrap()
        .exec_mock(&mock)
        .expect_err("should fail");
    assert!(matches!(err, Error::Mock(MockErr::BodyAssertionFailed(b)) if b == b"sent"));
}

#[test]
fn mock_missing_header_message() {
    let mut mock = Mock::new();
    let mut r = MockedEndpoint::new(200);
    r.add_header_assertion("test", "jo").unwrap();
    mock.update("GET", "http://example.com/", r);

    let err = Request::get("http://example.com/")
        .exec_mock(&mock)
        .expect_err("should fail");
    assert!(
        matches!(err, Error::Mock(MockErr::HeaderAssertionFailed(m)) if m == "test is None not [jo]")
    );
}

#[test]
fn mock_classifies_status() {
    let mut mock = Mock::new();
    mock.update("GET", "http://example.com/a", MockedEndpoint::new(404));
    let err = Request::get("http://example.com/a")
        .exec_mock(&mock)
        .expect_err("should fail");
    assert!(matches!(err, Error::HTTPClientErr(404, _)));

    mock.update("GET", "http://example.com/b", MockedEndpoint::new(503));
    let err = Request::get("http://example.com/b")
        .exec_mock(&mock)
        .expect_err("should fail");
    assert!(matches!(err, Error::HTTPServerErr(503, _)));

    mock.update("GET", "http://example.com/c", MockedEndpoint::new(302));
    let resp = Request::get("http://example.com/c").exec_mock(&mock).unwrap();
    assert_eq!(resp.status_code(), 302);
}

#[test]
fn mock_method_case() {
    let mut mock = Mock::new();
    mock.update("get", "http://example.com/", MockedEndpoint::new(200));
    let resp = Request::get("http://example.com/").exec_mock(&mock).unwrap();
    assert_eq!(resp.status_code(), 200);
    assert_eq!(resp.status(), "");
}

#[test]
fn mocked_request_view() {
    let mut req = Request::get("http://example.com/")
        .set_header(HeaderName::new("Test").unwrap(), HeaderValue::from_str("jo"))
        .unwrap();
    let (meth, uri) = req.endpoint();
    assert_eq!(meth, "GET");
    assert_eq!(uri, "http://example.com/");
    let vals = req.get_headers("TEST").unwrap();
    assert_eq!(vals.len(), 1);
    assert_eq!(vals[0].as_bytes(), b"jo");
    assert!(req.get_headers("other").is_none());
    assert!(req.assert_body_bytes(b"").is_ok());
    assert_eq!(req.assert_body_bytes(b"x"), Err(Vec::new()));
}
