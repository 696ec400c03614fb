//! Mocking responses and asserting on requests.
//!
//! A [`Mock`] holds endpoints keyed by upper-cased method and exact URL.
//! Executing a request against it checks the endpoint's body and header
//! assertions and yields the mocked response; an endpoint that is not
//! mocked is an error, so a test never falls through to the network.

use vstd::prelude::*;
use vstd::slice::slice_to_vec;
use vstd::string::{StrSliceExecFns, StringExecFns, StringSliceAdditionalSpecFns};

use crate::error::HttpError;
use crate::header::{HeaderName, HeaderValue};
use crate::request::{header_pairs, Request};
use crate::response::{all_values, collect_values, Response};
use crate::strutil::lossy_string;
use crate::util::{bytes_eq, lower_bytes, push_bytes, to_upper_bytes, upper_bytes};
use crate::Error;
use vstd::utf8::encode_utf8;

verus! {

/// Why a mocked execution failed.
#[derive(Debug)]
pub enum MockErr {
    /// The request's endpoint is not mocked.
    NoResponseProvided,
    /// The request's body is not the asserted one; the payload holds the
    /// body that was actually sent.
    BodyAssertionFailed(Vec<u8>),
    /// A header assertion did not hold; the message names the header and
    /// both value lists.
    HeaderAssertionFailed(String),
}

/// A body captured for mocking: a byte string.
#[derive(Debug, Clone)]
pub struct BodyMock {
    data: Vec<u8>,
}

impl View for BodyMock {
    type V = Seq<u8>;

    closed spec fn view(&self) -> Seq<u8> {
        self.data@
    }
}

impl BodyMock {
    /// A mock body of the bytes of `s`.
    pub fn from_str(s: &str) -> (r: BodyMock)
        ensures
            r@ == s.spec_bytes(),
    {
        BodyMock { data: s.as_bytes_vec() }
    }

    /// A mock body of raw bytes.
    pub fn from_bytes(b: &[u8]) -> (r: BodyMock)
        ensures
            r@ == b@,
    {
        BodyMock { data: slice_to_vec(b) }
    }
}

impl From<String> for BodyMock {
    fn from(t: String) -> (r: BodyMock) {
        BodyMock { data: t.as_str().as_bytes_vec() }
    }
}

impl vstd::std_specs::convert::FromSpecImpl<String> for BodyMock {
    open spec fn obeys_from_spec() -> bool {
        false
    }

    closed spec fn from_spec(t: String) -> BodyMock {
        arbitrary()
    }
}

impl From<Vec<u8>> for BodyMock {
    fn from(t: Vec<u8>) -> (r: BodyMock) {
        BodyMock { data: t }
    }
}

impl vstd::std_specs::convert::FromSpecImpl<Vec<u8>> for BodyMock {
    open spec fn obeys_from_spec() -> bool {
        true
    }

    closed spec fn from_spec(t: Vec<u8>) -> BodyMock {
        BodyMock { data: t }
    }
}

impl From<&'static str> for BodyMock {
    fn from(t: &'static str) -> (r: BodyMock) {
        BodyMock { data: t.as_bytes_vec() }
    }
}

impl vstd::std_specs::convert::FromSpecImpl<&'static str> for BodyMock {
    open spec fn obeys_from_spec() -> bool {
        false
    }

    closed spec fn from_spec(t: &'static str) -> BodyMock {
        arbitrary()
    }
}

impl From<&'static [u8]> for BodyMock {
    fn from(t: &'static [u8]) -> (r: BodyMock) {
        BodyMock { data: slice_to_vec(t) }
    }
}

impl vstd::std_specs::convert::FromSpecImpl<&'static [u8]> for BodyMock {
    open spec fn obeys_from_spec() -> bool {
        false
    }

    closed spec fn from_spec(t: &'static [u8]) -> BodyMock {
        arbitrary()
    }
}

/// A mocked HTTP endpoint: what to assert of the request that reaches it
/// and the response to give back.
#[derive(Debug)]
pub struct MockedEndpoint {
    req_body: Option<Vec<u8>>,
    req_header: Option<Vec<(HeaderName, HeaderValue)>>,
    res_body: Vec<u8>,
    res_header: Vec<(HeaderName, HeaderValue)>,
    res_code: u16,
}

impl MockedEndpoint {
    /// The asserted request body, if one is set.
    pub closed spec fn spec_req_body(self) -> Option<Seq<u8>> {
        match self.req_body {
            Some(b) => Some(b@),
            None => None,
        }
    }

    /// The asserted request headers, if any are set.
    pub closed spec fn spec_req_header(self) -> Option<Seq<(Seq<u8>, Seq<u8>)>> {
        match self.req_header {
            Some(h) => Some(header_pairs(h@)),
            None => None,
        }
    }

    /// The response's body bytes.
    pub closed spec fn spec_res_body(self) -> Seq<u8> {
        self.res_body@
    }

    /// The response's headers.
    pub closed spec fn spec_res_header(self) -> Seq<(Seq<u8>, Seq<u8>)> {
        header_pairs(self.res_header@)
    }

    /// The response's status code.
    pub closed spec fn spec_res_code(self) -> u16 {
        self.res_code
    }

    /// An endpoint that answers `res_code` with an empty body and asserts
    /// nothing.
    pub fn new(res_code: u16) -> (r: MockedEndpoint)
        ensures
            r.spec_req_body() is None,
            r.spec_req_header() is None,
            r.spec_res_body() == Seq::<u8>::empty(),
            r.spec_res_header() == Seq::<(Seq<u8>, Seq<u8>)>::empty(),
            r.spec_res_code() == res_code,
    {
        let r = MockedEndpoint {
            req_body: None,
            req_header: None,
            res_body: Vec::new(),
            res_header: Vec::new(),
            res_code,
        };
        proof {
            assert(r.spec_res_body() =~= Seq::<u8>::empty());
            assert(r.spec_res_header() =~= Seq::<(Seq<u8>, Seq<u8>)>::empty());
        }
        r
    }

    /// Asserts that the request's body is exactly `body`.
    pub fn assert_body(&mut self, body: BodyMock)
        ensures
            final(self).spec_req_body() == Some(body@),
            final(self).spec_req_header() == old(self).spec_req_header(),
            final(self).spec_res_body() == old(self).spec_res_body(),
            final(self).spec_res_header() == old(self).spec_res_header(),
            final(self).spec_res_code() == old(self).spec_res_code(),
    {
        self.req_body = Some(body.data);
    }

    /// Sets the response's status code and body.
    pub fn set_response(&mut self, code: u16, body: BodyMock)
        ensures
            final(self).spec_req_body() == old(self).spec_req_body(),
            final(self).spec_req_header() == old(self).spec_req_header(),
            final(self).spec_res_body() == body@,
            final(self).spec_res_header() == old(self).spec_res_header(),
            final(self).spec_res_code() == code,
    {
        self.res_body = body.data;
        self.res_code = code;
    }

    /// Sets the response's status code.
    pub fn set_response_status(&mut self, code: u16)
        ensures
            final(self).spec_req_body() == old(self).spec_req_body(),
            final(self).spec_req_header() == old(self).spec_req_header(),
            final(self).spec_res_body() == old(self).spec_res_body(),
            final(self).spec_res_header() == old(self).spec_res_header(),
            final(self).spec_res_code() == code,
    {
        self.res_code = code;
    }

    /// Adds one header to the response, after any earlier values under the
    /// same name; a name that is no HTTP token is refused.
    pub fn add_response_header(&mut self, name: &str, value: &str) -> (r: Result<(), Error>)
        ensures
            match r {
                Ok(_) => {
                    &&& crate::header::valid_header_name(name.spec_bytes())
                    &&& final(self).spec_res_header() == old(self).spec_res_header().push(
                        (lower_bytes(name.spec_bytes()), value.spec_bytes()),
                    )
                },
                Err(_) => {
                    &&& !crate::header::valid_header_name(name.spec_bytes())
                    &&& final(self).spec_res_header() == old(self).spec_res_header()
                },
            },
            final(self).spec_req_body() == old(self).spec_req_body(),
            final(self).spec_req_header() == old(self).spec_req_header(),
            final(self).spec_res_body() == old(self).spec_res_body(),
            final(self).spec_res_code() == old(self).spec_res_code(),
    {
        let n = match HeaderName::new(name) {
            Ok(n) => n,
            Err(e) => {
                return Err(Error::Other(e));
            },
        };
        let ghost before = header_pairs(self.res_header@);
        self.res_header.push((n, HeaderValue::from_str(value)));
        proof {
            assert(header_pairs(self.res_header@) =~= before.push(
                (lower_bytes(name.spec_bytes()), value.spec_bytes()),
            ));
        }
        Ok(())
    }

    /// Adds one header assertion: the request must carry, under `name`,
    /// exactly the values asserted for it, in order.
    pub fn add_header_assertion(&mut self, name: &str, value: &str) -> (r: Result<(), Error>)
        ensures
            match r {
                Ok(_) => {
                    &&& crate::header::valid_header_name(name.spec_bytes())
                    &&& match old(self).spec_req_header() {
                        Some(h) => final(self).spec_req_header() == Some(
                            h.push((lower_bytes(name.spec_bytes()), value.spec_bytes())),
                        ),
                        None => final(self).spec_req_header() == Some(
                            Seq::<(Seq<u8>, Seq<u8>)>::empty().push(
                                (lower_bytes(name.spec_bytes()), value.spec_bytes()),
                            ),
                        ),
                    }
                },
                Err(_) => {
                    &&& !crate::header::valid_header_name(name.spec_bytes())
                    &&& final(self).spec_req_header() == old(self).spec_req_header()
                },
            },
            final(self).spec_req_body() == old(self).spec_req_body(),
            final(self).spec_res_body() == old(self).spec_res_body(),
            final(self).spec_res_header() == old(self).spec_res_header(),
            final(self).spec_res_code() == old(self).spec_res_code(),
    {
        let n = match HeaderName::new(name) {
            Ok(n) => n,
            Err(e) => {
                return Err(Error::Other(e));
            },
        };
        let v = HeaderValue::from_str(value);
        let mut h: Vec<(HeaderName, HeaderValue)> = match self.req_header.take() {
            Some(h) => h,
            None => Vec::new(),
        };
        let ghost before = header_pairs(h@);
        proof {
            if old(self).req_header is None {
                assert(before =~= Seq::<(Seq<u8>, Seq<u8>)>::empty());
            }
        }
        h.push((n, v));
        proof {
            assert(header_pairs(h@) =~= before.push(
                (lower_bytes(name.spec_bytes()), value.spec_bytes()),
            ));
        }
        self.req_header = Some(h);
        Ok(())
    }
}

/// The endpoint registered for `meth`/`uri` (both as bytes), newest
/// registration first.
pub open spec fn mock_lookup(
    entries: Seq<(Vec<u8>, Vec<u8>, MockedEndpoint)>,
    meth: Seq<u8>,
    uri: Seq<u8>,
) -> Option<MockedEndpoint>
    decreases entries.len(),
{
    if entries.len() == 0 {
        None
    } else if entries[0].0@ == meth && entries[0].1@ == uri {
        Some(entries[0].2)
    } else {
        mock_lookup(entries.drop_first(), meth, uri)
    }
}

/// The value list `vals` written `v1, v2, ...`.
pub open spec fn joined_values(vals: Seq<Seq<u8>>) -> Seq<u8>
    decreases vals.len(),
{
    if vals.len() == 0 {
        Seq::<u8>::empty()
    } else if vals.len() == 1 {
        vals[0]
    } else {
        joined_values(vals.drop_last()) + seq![44u8, 32u8] + vals.last()
    }
}

/// The value list `vals` written `[v1, v2, ...]`.
pub open spec fn rendered_values(vals: Seq<Seq<u8>>) -> Seq<u8> {
    seq![91u8] + joined_values(vals) + seq![93u8]
}

/// The diagnostic for a failed assertion on header `name`:
/// `name is [got...] not [want...]`, with `None` in place of the first
/// list when the request carried no value at all.
pub open spec fn mismatch_bytes(name: Seq<u8>, got: Seq<Seq<u8>>, want: Seq<Seq<u8>>) -> Seq<
    u8,
> {
    name + seq![32u8, 105u8, 115u8, 32u8] + (if got.len() == 0 {
        seq![78u8, 111u8, 110u8, 101u8]
    } else {
        rendered_values(got)
    }) + seq![32u8, 110u8, 111u8, 116u8, 32u8] + rendered_values(want)
}

/// The smallest index at or after `i` of a header assertion that the
/// request's headers do not satisfy: the request's values under the
/// asserted name must be exactly the values asserted for that name.
pub open spec fn first_failing_from(
    asserts: Seq<(Seq<u8>, Seq<u8>)>,
    reqh: Seq<(Seq<u8>, Seq<u8>)>,
    i: int,
) -> Option<int>
    decreases asserts.len() - i,
{
    if i < 0 || i >= asserts.len() {
        None
    } else if all_values(reqh, asserts[i].0) != all_values(asserts, asserts[i].0) {
        Some(i)
    } else {
        first_failing_from(asserts, reqh, i + 1)
    }
}

/// Mocked responses with request validation. All executions against one
/// `Mock` are checked against what it holds; a fresh value holds nothing.
#[derive(Debug)]
pub struct Mock {
    entries: Vec<(Vec<u8>, Vec<u8>, MockedEndpoint)>,
}

/// Whether `r` is the outcome that checking `req` against `mock` calls
/// for.
pub open spec fn check_ok(mock: Mock, req: Request, r: Result<Response, MockErr>) -> bool {
    match mock_lookup(
        mock.spec_entries(),
        upper_bytes(req.spec_method()),
        encode_utf8(req.spec_uri()),
    ) {
        None => r matches Err(MockErr::NoResponseProvided),
        Some(ep) => {
            let body_fails = ep.spec_req_body() matches Some(b) && b != req.spec_body();
            if body_fails {
                r matches Err(MockErr::BodyAssertionFailed(b)) && b@ == req.spec_body()
            } else {
                let asserts = match ep.spec_req_header() {
                    Some(h) => h,
                    None => Seq::<(Seq<u8>, Seq<u8>)>::empty(),
                };
                match first_failing_from(asserts, req.spec_headers(), 0) {
                    Some(i) => {
                        let msg = mismatch_bytes(
                            asserts[i].0,
                            all_values(req.spec_headers(), asserts[i].0),
                            all_values(asserts, asserts[i].0),
                        );
                        r matches Err(MockErr::HeaderAssertionFailed(m)) && (
                        vstd::utf8::valid_utf8(msg) ==> m@ == vstd::utf8::decode_utf8(msg))
                    },
                    None => {
                        &&& r matches Ok(resp)
                        &&& resp.spec_code() == ep.spec_res_code()
                        &&& resp.spec_reason() == Seq::<char>::empty()
                        &&& resp.spec_headers() == ep.spec_res_header()
                        &&& resp.spec_body() == ep.spec_res_body()
                    },
                }
            }
        },
    }
}

impl Mock {
    /// The registered endpoints, newest first.
    pub closed spec fn spec_entries(self) -> Seq<(Vec<u8>, Vec<u8>, MockedEndpoint)> {
        self.entries@
    }

    /// A mock that holds nothing.
    pub fn new() -> (r: Mock)
        ensures
            r.spec_entries() == Seq::<(Vec<u8>, Vec<u8>, MockedEndpoint)>::empty(),
    {
        let entries: Vec<(Vec<u8>, Vec<u8>, MockedEndpoint)> = Vec::new();
        proof {
            assert(entries@ =~= Seq::<(Vec<u8>, Vec<u8>, MockedEndpoint)>::empty());
        }
        Mock { entries }
    }

    /// Registers a mocked endpoint for `meth` (upper-cased) and `uri`
    /// (matched exactly), shadowing any earlier registration for the same
    /// endpoint.
    pub fn add(&mut self, meth: &str, uri: &str, mep: MockedEndpoint)
        ensures
            mock_lookup(
                final(self).spec_entries(),
                upper_bytes(meth.spec_bytes()),
                uri.spec_bytes(),
            ) == Some(mep),
            forall|m: Seq<u8>, u: Seq<u8>|
                !(m == upper_bytes(meth.spec_bytes()) && u == uri.spec_bytes()) ==> mock_lookup(
                    final(self).spec_entries(),
                    m,
                    u,
                ) == mock_lookup(old(self).spec_entries(), m, u),
            final(self).spec_entries().len() == old(self).spec_entries().len() + 1,
    {
        let key = to_upper_bytes(meth.as_bytes());
        let entry = (key, uri.as_bytes_vec(), mep);
        self.entries.insert(0, entry);
        proof {
            assert(self.entries@.drop_first() =~= old(self).entries@);
        }
    }

    /// Registers or replaces a mocked endpoint; the same as [`Mock::add`].
    pub fn update(&mut self, meth: &str, uri: &str, mep: MockedEndpoint)
        ensures
            mock_lookup(
                final(self).spec_entries(),
                upper_bytes(meth.spec_bytes()),
                uri.spec_bytes(),
            ) == Some(mep),
            forall|m: Seq<u8>, u: Seq<u8>|
                !(m == upper_bytes(meth.spec_bytes()) && u == uri.spec_bytes()) ==> mock_lookup(
                    final(self).spec_entries(),
                    m,
                    u,
                ) == mock_lookup(old(self).spec_entries(), m, u),
            final(self).spec_entries().len() == old(self).spec_entries().len() + 1,
    {
        self.add(meth, uri, mep);
    }

    /// Whether anything is mocked here.
    pub fn uses_mock(&self) -> (r: bool)
        ensures
            r == (self.spec_entries().len() > 0),
    {
        self.entries.len() > 0
    }

    /// Checks `req` against this mock: an unmocked endpoint, a body that
    /// differs from the asserted one, or a header assertion that does not
    /// hold is an error; else the mocked response, with an empty reason
    /// phrase.
    pub fn check(&self, req: &Request) -> (r: Result<Response, MockErr>)
        ensures
            check_ok(*self, *req, r),
    {
        let meth = to_upper_bytes(req.method_bytes());
        let ghost gm = upper_bytes(req.spec_method());
        let ghost gu = encode_utf8(req.spec_uri());
        let ghost entries = self.entries@;
        let found = find_entry(&self.entries, meth.as_slice(), req.uri_str().as_bytes());
        let idx = match found {
            None => {
                return Err(MockErr::NoResponseProvided);
            },
            Some(idx) => idx,
        };
        let ep = &self.entries[idx].2;
        let ghost gep = entries[idx as int].2;
        proof {
            assert(mock_lookup(entries, gm, gu) == Some(gep));
        }
        match &ep.req_body {
            Some(b) => {
                if !bytes_eq(b.as_slice(), req.body_bytes()) {
                    return Err(MockErr::BodyAssertionFailed(slice_to_vec(req.body_bytes())));
                }
            },
            None => {},
        }
        let empty_asserts: Vec<(HeaderName, HeaderValue)> = Vec::new();
        let asserts: &Vec<(HeaderName, HeaderValue)> = match &ep.req_header {
            Some(h) => h,
            None => &empty_asserts,
        };
        let ghost ga = header_pairs(asserts@);
        let ghost reqh = req.spec_headers();
        proof {
            if gep.spec_req_header() is None {
                assert(ga =~= Seq::<(Seq<u8>, Seq<u8>)>::empty());
            }
        }
        let mut j: usize = 0;
        while j < asserts.len()
            invariant
                j <= asserts@.len(),
                ga == header_pairs(asserts@),
                reqh == req.spec_headers(),
                mock_lookup(
                    self.spec_entries(),
                    upper_bytes(req.spec_method()),
                    encode_utf8(req.spec_uri()),
                ) == Some(gep),
                !(gep.spec_req_body() matches Some(b) && b != req.spec_body()),
                ga == match gep.spec_req_header() {
                    Some(h) => h,
                    None => Seq::<(Seq<u8>, Seq<u8>)>::empty(),
                },
                first_failing_from(ga, reqh, 0) == first_failing_from(ga, reqh, j as int),
            decreases asserts.len() - j,
        {
            let name = &asserts[j].0;
            let got = collect_values(req.header_list(), name.as_bytes());
            let want = collect_values(asserts, name.as_bytes());
            let ghost gotv = Seq::new(got@.len(), |k: int| got@[k]@);
            let ghost wantv = Seq::new(want@.len(), |k: int| want@[k]@);
            proof {
                assert(ga[j as int] == (asserts@[j as int].0@, asserts@[j as int].1@));
                assert(ga[j as int].0 == name@);
                assert(gotv == all_values(reqh, ga[j as int].0));
                assert(wantv == all_values(ga, ga[j as int].0));
            }
            if got.len() == 0 && want.len() > 0 {
                proof {
                    assert(gotv.len() == 0 && wantv.len() > 0);
                    assert(gotv != wantv);
                    assert(first_failing_from(ga, reqh, j as int) == Some(j as int));
                }
                return Err(MockErr::HeaderAssertionFailed(mismatch_message(name, &got, &want)));
            }
            if !values_eq(&got, &want) {
                proof {
                    assert(gotv != wantv);
                    assert(first_failing_from(ga, reqh, j as int) == Some(j as int));
                }
                return Err(MockErr::HeaderAssertionFailed(mismatch_message(name, &got, &want)));
            }
            proof {
                assert(first_failing_from(ga, reqh, j as int) == first_failing_from(
                    ga,
                    reqh,
                    j + 1,
                ));
            }
            j = j + 1;
        }
        proof {
            assert(first_failing_from(ga, reqh, ga.len() as int) is None);
        }
        let res_headers = duplicate_headers(&ep.res_header);
        let body = slice_to_vec(ep.res_body.as_slice());
        let reason = String::new();
        Ok(Response::new(ep.res_code, reason, res_headers, body))
    }
}

/// An owned copy of a header list.
fn duplicate_headers(hs: &Vec<(HeaderName, HeaderValue)>) -> (r: Vec<(HeaderName, HeaderValue)>)
    ensures
        header_pairs(r@) == header_pairs(hs@),
{
    let mut out: Vec<(HeaderName, HeaderValue)> = Vec::new();
    let mut k: usize = 0;
    proof {
        assert(header_pairs(out@) =~= header_pairs(hs@).take(0));
    }
    while k < hs.len()
        invariant
            k <= hs@.len(),
            header_pairs(out@) == header_pairs(hs@).take(k as int),
        decreases hs.len() - k,
    {
        let ghost before = header_pairs(out@);
        out.push((hs[k].0.duplicate(), hs[k].1.duplicate()));
        proof {
            assert(header_pairs(out@) =~= before.push(header_pairs(hs@)[k as int]));
            assert(header_pairs(hs@).take(k + 1) =~= header_pairs(hs@).take(k as int).push(
                header_pairs(hs@)[k as int],
            ));
        }
        k = k + 1;
    }
    proof {
        assert(header_pairs(hs@).take(hs@.len() as int) =~= header_pairs(hs@));
    }
    out
}

/// The index of the entry that `mock_lookup` names, if any.
fn find_entry(
    entries: &Vec<(Vec<u8>, Vec<u8>, MockedEndpoint)>,
    meth: &[u8],
    uri: &[u8],
) -> (r: Option<usize>)
    ensures
        match r {
            Some(i) => i < entries@.len() && mock_lookup(entries@, meth@, uri@) == Some(
                entries@[i as int].2,
            ),
            None => mock_lookup(entries@, meth@, uri@) is None,
        },
{
    let ghost es = entries@;
    let mut i: usize = 0;
    proof {
        assert(es.skip(0) =~= es);
    }
    while i < entries.len()
        invariant
            i <= es.len(),
            es == entries@,
            mock_lookup(es, meth@, uri@) == mock_lookup(es.skip(i as int), meth@, uri@),
        decreases entries.len() - i,
    {
        proof {
            assert(es.skip(i as int)[0] == es[i as int]);
            assert(es.skip(i as int).drop_first() =~= es.skip(i + 1));
        }
        if bytes_eq(entries[i].0.as_slice(), meth) && bytes_eq(entries[i].1.as_slice(), uri) {
            return Some(i);
        }
        i = i + 1;
    }
    proof {
        assert(es.skip(es.len() as int) =~= Seq::<(Vec<u8>, Vec<u8>, MockedEndpoint)>::empty());
    }
    None
}

/// Whether two value lists hold the same bytes, position by position.
fn values_eq(a: &Vec<HeaderValue>, b: &Vec<HeaderValue>) -> (r: bool)
    ensures
        r == (Seq::new(a@.len(), |i: int| a@[i]@) == Seq::new(b@.len(), |i: int| b@[i]@)),
{
    let ghost av = Seq::new(a@.len(), |i: int| a@[i]@);
    let ghost bv = Seq::new(b@.len(), |i: int| b@[i]@);
    if a.len() != b.len() {
        proof {
            assert(av.len() != bv.len());
        }
        return false;
    }
    let mut i: usize = 0;
    while i < a.len()
        invariant
            a@.len() == b@.len(),
            i <= a@.len(),
            av == Seq::new(a@.len(), |k: int| a@[k]@),
            bv == Seq::new(b@.len(), |k: int| b@[k]@),
            forall|j: int| 0 <= j < i ==> av[j] == bv[j],
        decreases a.len() - i,
    {
        if !bytes_eq(a[i].as_bytes(), b[i].as_bytes()) {
            proof {
                assert(av[i as int] != bv[i as int]);
            }
            return false;
        }
        i = i + 1;
    }
    proof {
        assert(av =~= bv);
    }
    true
}

/// The diagnostic for a failed header assertion: the header's name, the
/// values the request carried (`None` when it carried none), and the
/// values that were asserted.
fn mismatch_message(name: &HeaderName, got: &Vec<HeaderValue>, want: &Vec<HeaderValue>) -> (r:
    String)
    ensures
        ({
            let msg = mismatch_bytes(
                name@,
                Seq::new(got@.len(), |i: int| got@[i]@),
                Seq::new(want@.len(), |i: int| want@[i]@),
            );
            vstd::utf8::valid_utf8(msg) ==> r@ == vstd::utf8::decode_utf8(msg)
        }),
{
    let mut m: Vec<u8> = Vec::new();
    push_bytes(&mut m, name.as_bytes());
    m.push(32);
    m.push(105);
    m.push(115);
    m.push(32);
    let ghost head = name@ + seq![32u8, 105u8, 115u8, 32u8];
    proof {
        assert(m@ =~= head);
    }
    if got.len() == 0 {
        m.push(78);
        m.push(111);
        m.push(110);
        m.push(101);
        proof {
            assert(m@ =~= head + seq![78u8, 111u8, 110u8, 101u8]);
        }
    } else {
        push_value_list(&mut m, got);
    }
    let ghost mid = m@;
    m.push(32);
    m.push(110);
    m.push(111);
    m.push(116);
    m.push(32);
    proof {
        assert(m@ =~= mid + seq![32u8, 110u8, 111u8, 116u8, 32u8]);
    }
    push_value_list(&mut m, want);
    proof {
        assert(m@ =~= mismatch_bytes(
            name@,
            Seq::new(got@.len(), |i: int| got@[i]@),
            Seq::new(want@.len(), |i: int| want@[i]@),
        ));
    }
    lossy_string(m.as_slice())
}

/// Appends `[v1, v2, ...]` to `m`.
fn push_value_list(m: &mut Vec<u8>, vals: &Vec<HeaderValue>)
    ensures
        final(m)@ == old(m)@ + rendered_values(Seq::new(vals@.len(), |i: int| vals@[i]@)),
{
    let ghost vs = Seq::new(vals@.len(), |i: int| vals@[i]@);
    m.push(91);
    let ghost opened = m@;
    let mut i: usize = 0;
    proof {
        assert(joined_values(vs.take(0)) =~= Seq::<u8>::empty());
        assert(m@ =~= opened + joined_values(vs.take(0)));
    }
    while i < vals.len()
        invariant
            i <= vals@.len(),
            vs == Seq::new(vals@.len(), |k: int| vals@[k]@),
            m@ == opened + joined_values(vs.take(i as int)),
        decreases vals.len() - i,
    {
        proof {
            assert(vs.take(i + 1).drop_last() == vs.take(i as int));
            assert(vs.take(i + 1).last() == vs[i as int]);
            assert(vs[i as int] == vals@[i as int]@);
        }
        if i > 0 {
            m.push(44);
            m.push(32);
            push_bytes(m, vals[i].as_bytes());
            proof {
                assert(m@ =~= opened + (joined_values(vs.take(i as int)) + seq![44u8, 32u8]
                    + vs[i as int]));
                assert(joined_values(vs.take(i + 1)) == joined_values(vs.take(i as int)) + seq![
                    44u8,
                    32u8,
                ] + vs[i as int]);
            }
        } else {
            push_bytes(m, vals[i].as_bytes());
            proof {
                assert(joined_values(vs.take(1)) == vs[0]);
                assert(m@ =~= opened + joined_values(vs.take(1)));
            }
        }
        i = i + 1;
    }
    proof {
        assert(vs.take(vs.len() as int) == vs);
    }
    m.push(93);
    proof {
        assert(m@ =~= old(m)@ + rendered_values(vs));
    }
}

/// What a request must expose to be checked against a mock.
pub trait MockedRequest {
    /// Checks the body against `should_be`; on error, the full body comes
    /// back.
    fn assert_body_bytes(&mut self, should_be: &[u8]) -> Result<(), Vec<u8>>;

    /// The values carried under `name`, or nothing when the header is
    /// absent.
    fn get_headers(&self, name: &str) -> Option<Vec<HeaderValue>>;

    /// Upper-cased method and full URL.
    fn endpoint(&self) -> (String, String);
}

impl MockedRequest for Request {
    fn assert_body_bytes(&mut self, should_be: &[u8]) -> Result<(), Vec<u8>> {
        if bytes_eq(self.body_bytes(), should_be) {
            Ok(())
        } else {
            Err(slice_to_vec(self.body_bytes()))
        }
    }

    fn get_headers(&self, name: &str) -> Option<Vec<HeaderValue>> {
        let low = crate::util::to_lower_bytes(name.as_bytes());
        let vals = collect_values(self.header_list(), low.as_slice());
        if vals.len() == 0 {
            None
        } else {
            Some(vals)
        }
    }

    fn endpoint(&self) -> (String, String) {
        let meth = to_upper_bytes(self.method_bytes());
        (lossy_string(meth.as_slice()), lossy_string(self.uri_str().as_bytes()))
    }
}

impl Request {
    /// Executes this request against `mock` alone: the checked, mocked
    /// response classified by its status code, exactly as a sent request
    /// would be.
    pub fn exec_mock(self, mock: &Mock) -> (r: Result<Response, Error>)
        ensures
            exists|cr: Result<Response, MockErr>|
                {
                    &&& #[trigger] check_ok(*mock, self, cr)
                    &&& match cr {
                        Err(m) => r matches Err(Error::Mock(m2)) && m2 == m,
                        Ok(resp) => crate::classify_ok(resp, r),
                    }
                },
    {
        let cr = mock.check(&self);
        let ghost gcr = cr;
        let out = match cr {
            Err(m) => Err(Error::Mock(m)),
            Ok(resp) => crate::classify_response(resp),
        };
        proof {
            assert(check_ok(*mock, self, gcr) && match gcr {
                Err(m) => out matches Err(Error::Mock(m2)) && m2 == m,
                Ok(resp) => crate::classify_ok(resp, out),
            });
        }
        out
    }
}

} // verus!
