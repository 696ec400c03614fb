//! Building an HTTP request: method, URL, headers and body, as plain
//! values. Executing a request against the network is the unverified
//! shell's work; executing it against a mock is
//! [`Request::exec_mock`](crate::Request::exec_mock).

use vstd::prelude::*;
use vstd::string::{StrSliceExecFns, StringSliceAdditionalSpecFns};

use crate::body::Body;
use crate::error::HttpError;
use crate::header::{is_token_byte, HeaderName, HeaderValue};
use crate::Error;

verus! {

/// The views of a header list: each name with its value.
pub open spec fn header_pairs(hs: Seq<(HeaderName, HeaderValue)>) -> Seq<(Seq<u8>, Seq<u8>)> {
    Seq::new(hs.len(), |i: int| (hs[i].0@, hs[i].1@))
}

/// Whether `s` is a well-formed request method: a non-empty HTTP token.
pub open spec fn valid_method(s: Seq<u8>) -> bool {
    s.len() >= 1 && forall|i: int| 0 <= i < s.len() ==> is_token_byte(#[trigger] s[i])
}

/// An HTTP request under construction.
#[derive(Debug)]
pub struct Request {
    meth: Vec<u8>,
    uri: String,
    headers: Vec<(HeaderName, HeaderValue)>,
    body: Vec<u8>,
}

impl Request {
    /// The request's method bytes.
    pub closed spec fn spec_method(self) -> Seq<u8> {
        self.meth@
    }

    /// The request's URL.
    pub closed spec fn spec_uri(self) -> Seq<char> {
        self.uri@
    }

    /// The request's headers, in order.
    pub closed spec fn spec_headers(self) -> Seq<(Seq<u8>, Seq<u8>)> {
        header_pairs(self.headers@)
    }

    /// The request's body bytes.
    pub closed spec fn spec_body(self) -> Seq<u8> {
        self.body@
    }

    /// A fresh request with the given already-validated method bytes.
    fn raw(meth: Vec<u8>, uri: &str) -> (r: Request)
        ensures
            r.spec_method() == meth@,
            r.spec_uri() == uri@,
            r.spec_headers() == Seq::<(Seq<u8>, Seq<u8>)>::empty(),
            r.spec_body() == Seq::<u8>::empty(),
    {
        let r = Request {
            meth,
            uri: String::from_str(uri),
            headers: Vec::new(),
            body: Vec::new(),
        };
        proof {
            assert(r.spec_headers() =~= Seq::<(Seq<u8>, Seq<u8>)>::empty());
            assert(r.spec_body() =~= Seq::<u8>::empty());
        }
        r
    }

    /// A GET request for `uri`.
    pub fn get(uri: &str) -> (r: Request)
        ensures
            r.spec_method() == seq![71u8, 69u8, 84u8],
            r.spec_uri() == uri@,
            r.spec_headers() == Seq::<(Seq<u8>, Seq<u8>)>::empty(),
            r.spec_body() == Seq::<u8>::empty(),
    {
        let mut m: Vec<u8> = Vec::new();
        m.push(71);
        m.push(69);
        m.push(84);
        proof {
            assert(m@ =~= seq![71u8, 69u8, 84u8]);
        }
        Self::raw(m, uri)
    }

    /// A POST request for `uri`.
    pub fn post(uri: &str) -> (r: Request)
        ensures
            r.spec_method() == seq![80u8, 79u8, 83u8, 84u8],
            r.spec_uri() == uri@,
            r.spec_headers() == Seq::<(Seq<u8>, Seq<u8>)>::empty(),
            r.spec_body() == Seq::<u8>::empty(),
    {
        let mut m: Vec<u8> = Vec::new();
        m.push(80);
        m.push(79);
        m.push(83);
        m.push(84);
        proof {
            assert(m@ =~= seq![80u8, 79u8, 83u8, 84u8]);
        }
        Self::raw(m, uri)
    }

    /// A PUT request for `uri`.
    pub fn put(uri: &str) -> (r: Request)
        ensures
            r.spec_method() == seq![80u8, 85u8, 84u8],
            r.spec_uri() == uri@,
            r.spec_headers() == Seq::<(Seq<u8>, Seq<u8>)>::empty(),
            r.spec_body() == Seq::<u8>::empty(),
    {
        let mut m: Vec<u8> = Vec::new();
        m.push(80);
        m.push(85);
        m.push(84);
        proof {
            assert(m@ =~= seq![80u8, 85u8, 84u8]);
        }
        Self::raw(m, uri)
    }

    /// A DELETE request for `uri`.
    pub fn delete(uri: &str) -> (r: Request)
        ensures
            r.spec_method() == seq![68u8, 69u8, 76u8, 69u8, 84u8, 69u8],
            r.spec_uri() == uri@,
            r.spec_headers() == Seq::<(Seq<u8>, Seq<u8>)>::empty(),
            r.spec_body() == Seq::<u8>::empty(),
    {
        let mut m: Vec<u8> = Vec::new();
        m.push(68);
        m.push(69);
        m.push(76);
        m.push(69);
        m.push(84);
        m.push(69);
        proof {
            assert(m@ =~= seq![68u8, 69u8, 76u8, 69u8, 84u8, 69u8]);
        }
        Self::raw(m, uri)
    }

    /// A HEAD request for `uri`.
    pub fn head(uri: &str) -> (r: Request)
        ensures
            r.spec_method() == seq![72u8, 69u8, 65u8, 68u8],
            r.spec_uri() == uri@,
            r.spec_headers() == Seq::<(Seq<u8>, Seq<u8>)>::empty(),
            r.spec_body() == Seq::<u8>::empty(),
    {
        let mut m: Vec<u8> = Vec::new();
        m.push(72);
        m.push(69);
        m.push(65);
        m.push(68);
        proof {
            assert(m@ =~= seq![72u8, 69u8, 65u8, 68u8]);
        }
        Self::raw(m, uri)
    }

    /// An OPTIONS request for `uri`.
    pub fn options(uri: &str) -> (r: Request)
        ensures
            r.spec_method() == seq![79u8, 80u8, 84u8, 73u8, 79u8, 78u8, 83u8],
            r.spec_uri() == uri@,
            r.spec_headers() == Seq::<(Seq<u8>, Seq<u8>)>::empty(),
            r.spec_body() == Seq::<u8>::empty(),
    {
        let mut m: Vec<u8> = Vec::new();
        m.push(79);
        m.push(80);
        m.push(84);
        m.push(73);
        m.push(79);
        m.push(78);
        m.push(83);
        proof {
            assert(m@ =~= seq![79u8, 80u8, 84u8, 73u8, 79u8, 78u8, 83u8]);
        }
        Self::raw(m, uri)
    }

    /// A request with any token as its method; a method that is empty or
    /// no HTTP token is refused.
    pub fn new(meth: &str, uri: &str) -> (r: Result<Request, Error>)
        ensures
            match r {
                Ok(rq) => {
                    &&& valid_method(meth.spec_bytes())
                    &&& rq.spec_method() == meth.spec_bytes()
                    &&& rq.spec_uri() == uri@
                    &&& rq.spec_headers() == Seq::<(Seq<u8>, Seq<u8>)>::empty()
                    &&& rq.spec_body() == Seq::<u8>::empty()
                },
                Err(e) => !valid_method(meth.spec_bytes()) && e matches Error::Other(
                    HttpError::InvalidMethod,
                ),
            },
    {
        let b = meth.as_bytes();
        if b.len() == 0 {
            return Err(Error::Other(HttpError::InvalidMethod));
        }
        let mut i: usize = 0;
        while i < b.len()
            invariant
                i <= b@.len(),
                b@ == meth.spec_bytes(),
                forall|j: int| 0 <= j < i ==> is_token_byte(#[trigger] b@[j]),
            decreases b.len() - i,
        {
            let c = b[i];
            let ok = (c >= 97 && c <= 122) || (c >= 65 && c <= 90) || (c >= 48 && c <= 57) || c
                == 33 || (c >= 35 && c <= 39) || c == 42 || c == 43 || c == 45 || c == 46 || c
                == 94 || c == 95 || c == 96 || c == 124 || c == 126;
            if !ok {
                proof {
                    assert(!is_token_byte(meth.spec_bytes()[i as int]));
                }
                return Err(Error::Other(HttpError::InvalidMethod));
            }
            i = i + 1;
        }
        Ok(Self::raw(meth.as_bytes_vec(), uri))
    }

    /// Gives the request this body, in place of any earlier one.
    pub fn body(self, body: Body) -> (r: Result<Request, Error>)
        ensures
            r matches Ok(rq) && rq.spec_method() == self.spec_method() && rq.spec_uri()
                == self.spec_uri() && rq.spec_headers() == self.spec_headers() && rq.spec_body()
                == body@,
    {
        let Request { meth, uri, headers, body: _old } = self;
        Ok(Request { meth, uri, headers, body: body.into_vec() })
    }

    /// Sets a header: any earlier values under the same name give way to
    /// this one, which stands at the end of the list.
    pub fn set_header(self, name: HeaderName, value: HeaderValue) -> (r: Result<Request, Error>)
        ensures
            r matches Ok(rq) && rq.spec_method() == self.spec_method() && rq.spec_uri()
                == self.spec_uri() && rq.spec_body() == self.spec_body() && rq.spec_headers()
                == self.spec_headers().filter(
                |p: (Seq<u8>, Seq<u8>)| p.0 != name@,
            ).push((name@, value@)),
    {
        let Request { meth, uri, headers, body } = self;
        let kept = retain_other(headers, &name);
        let mut kept = kept;
        let ghost n = name@;
        let ghost v = value@;
        kept.push((name, value));
        proof {
            assert(header_pairs(kept@) =~= header_pairs(kept@.drop_last()).push((n, v)));
        }
        Ok(Request { meth, uri, headers: kept, body })
    }

    /// Adds a header at the end of the list, keeping any earlier values
    /// under the same name.
    pub fn add_header(self, name: HeaderName, value: HeaderValue) -> (r: Result<Request, Error>)
        ensures
            r matches Ok(rq) && rq.spec_method() == self.spec_method() && rq.spec_uri()
                == self.spec_uri() && rq.spec_body() == self.spec_body() && rq.spec_headers()
                == self.spec_headers().push((name@, value@)),
    {
        let Request { meth, uri, mut headers, body } = self;
        let ghost n = name@;
        let ghost v = value@;
        let ghost before = header_pairs(headers@);
        headers.push((name, value));
        proof {
            assert(header_pairs(headers@) =~= before.push((n, v)));
        }
        Ok(Request { meth, uri, headers, body })
    }

    /// The request's method bytes.
    pub fn method_bytes(&self) -> (r: &[u8])
        ensures
            r@ == self.spec_method(),
    {
        self.meth.as_slice()
    }

    /// The request's URL.
    pub fn uri_str(&self) -> (r: &str)
        ensures
            r@ == self.spec_uri(),
    {
        self.uri.as_str()
    }

    /// The request's headers, in order.
    pub fn header_list(&self) -> (r: &Vec<(HeaderName, HeaderValue)>)
        ensures
            header_pairs(r@) == self.spec_headers(),
    {
        &self.headers
    }

    /// The request's body bytes.
    pub fn body_bytes(&self) -> (r: &[u8])
        ensures
            r@ == self.spec_body(),
    {
        self.body.as_slice()
    }
}

/// The pairs of `headers` whose name is not `name`, in order.
fn retain_other(headers: Vec<(HeaderName, HeaderValue)>, name: &HeaderName) -> (r: Vec<
    (HeaderName, HeaderValue),
>)
    ensures
        header_pairs(r@) == header_pairs(headers@).filter(
            |p: (Seq<u8>, Seq<u8>)| p.0 != name@,
        ),
{
    let ghost pred = |p: (Seq<u8>, Seq<u8>)| p.0 != name@;
    let mut out: Vec<(HeaderName, HeaderValue)> = Vec::new();
    let rest = headers;
    let mut i: usize = 0;
    proof {
        assert(header_pairs(rest@).take(0) =~= Seq::<(Seq<u8>, Seq<u8>)>::empty());
        reveal(Seq::filter);
        assert(header_pairs(out@) =~= header_pairs(rest@).take(0).filter(pred));
    }
    while i < rest.len()
        invariant
            i <= rest@.len(),
            header_pairs(out@) == header_pairs(rest@).take(i as int).filter(
                |p: (Seq<u8>, Seq<u8>)| p.0 != name@,
            ),
        decreases rest.len() - i,
    {
        let ghost prefix = header_pairs(rest@).take(i as int);
        let ghost x = header_pairs(rest@)[i as int];
        let keep = !crate::util::bytes_eq(rest[i].0.as_bytes(), name.as_bytes());
        proof {
            reveal(Seq::filter);
            assert(x == (rest@[i as int].0@, rest@[i as int].1@));
            assert(header_pairs(rest@).take(i + 1) =~= prefix.push(x));
            assert(prefix.push(x).drop_last() == prefix);
            assert(prefix.push(x).last() == x);
            if keep {
                assert(prefix.push(x).filter(|p: (Seq<u8>, Seq<u8>)| p.0 != name@)
                    == prefix.filter(|p: (Seq<u8>, Seq<u8>)| p.0 != name@).push(x));
            } else {
                assert(prefix.push(x).filter(|p: (Seq<u8>, Seq<u8>)| p.0 != name@)
                    == prefix.filter(|p: (Seq<u8>, Seq<u8>)| p.0 != name@));
            }
        }
        if keep {
            let pair = (rest[i].0.duplicate(), rest[i].1.duplicate());
            let ghost before = header_pairs(out@);
            out.push(pair);
            proof {
                assert(header_pairs(out@) =~= before.push(x));
            }
        }
        i = i + 1;
    }
    proof {
        assert(header_pairs(rest@).take(rest@.len() as int) =~= header_pairs(rest@));
    }
    out
}

} // verus!
