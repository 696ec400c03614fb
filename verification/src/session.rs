//! A helper to perform multiple associated requests: headers set on the
//! session are applied to every request it builds.

use vstd::prelude::*;
use vstd::string::StringSliceAdditionalSpecFns;

use crate::header::{HeaderName, HeaderValue};
use crate::request::{header_pairs, Request};
use crate::Error;

verus! {

/// One session header applied to a request's header list: earlier values
/// under the same name give way, the new pair stands at the end.
pub open spec fn apply_one(h: Seq<(Seq<u8>, Seq<u8>)>, p: (Seq<u8>, Seq<u8>)) -> Seq<
    (Seq<u8>, Seq<u8>),
> {
    h.filter(|q: (Seq<u8>, Seq<u8>)| q.0 != p.0).push(p)
}

/// All session headers applied in order.
pub open spec fn apply_all(h: Seq<(Seq<u8>, Seq<u8>)>, sess: Seq<(Seq<u8>, Seq<u8>)>) -> Seq<
    (Seq<u8>, Seq<u8>),
>
    decreases sess.len(),
{
    if sess.len() == 0 {
        h
    } else {
        apply_all(apply_one(h, sess[0]), sess.drop_first())
    }
}

/// Applying one more session header at the end applies it last.
proof fn lemma_apply_all_snoc(
    h: Seq<(Seq<u8>, Seq<u8>)>,
    sess: Seq<(Seq<u8>, Seq<u8>)>,
    p: (Seq<u8>, Seq<u8>),
)
    ensures
        apply_all(h, sess.push(p)) == apply_one(apply_all(h, sess), p),
    decreases sess.len(),
{
    if sess.len() == 0 {
        assert(sess.push(p)[0] == p);
        assert(sess.push(p).drop_first() =~= Seq::<(Seq<u8>, Seq<u8>)>::empty());
        assert(apply_all(h, sess.push(p)) == apply_all(
            apply_one(h, p),
            Seq::<(Seq<u8>, Seq<u8>)>::empty(),
        ));
        assert(apply_all(apply_one(h, p), Seq::<(Seq<u8>, Seq<u8>)>::empty()) == apply_one(
            h,
            p,
        ));
        assert(apply_all(h, sess) == h);
    } else {
        assert(sess.push(p)[0] == sess[0]);
        assert(sess.push(p).drop_first() =~= sess.drop_first().push(p));
        assert(apply_all(h, sess.push(p)) == apply_all(
            apply_one(h, sess[0]),
            sess.drop_first().push(p),
        ));
        lemma_apply_all_snoc(apply_one(h, sess[0]), sess.drop_first(), p);
        assert(apply_all(h, sess) == apply_all(apply_one(h, sess[0]), sess.drop_first()));
    }
}

/// A helper to perform multiple associated requests: every request built
/// through it carries the session's headers.
#[derive(Debug)]
pub struct Session {
    headers: Vec<(HeaderName, HeaderValue)>,
}

impl Session {
    /// The session's headers, in order.
    pub closed spec fn spec_headers(self) -> Seq<(Seq<u8>, Seq<u8>)> {
        header_pairs(self.headers@)
    }

    /// A session with no headers.
    pub fn new() -> (r: Session)
        ensures
            r.spec_headers() == Seq::<(Seq<u8>, Seq<u8>)>::empty(),
    {
        let headers: Vec<(HeaderName, HeaderValue)> = Vec::new();
        proof {
            assert(header_pairs(headers@) =~= Seq::<(Seq<u8>, Seq<u8>)>::empty());
        }
        Session { headers }
    }

    /// Cookie handling is not part of this core; session cookies are not
    /// yet collected.
    pub fn cookies(&self) {
    }

    /// Adds a single header to every request done with this session; an
    /// earlier value under the same name gives way.
    pub fn set_header(self, name: HeaderName, value: HeaderValue) -> (r: Result<Session, Error>)
        ensures
            r matches Ok(s) && s.spec_headers() == self.spec_headers().filter(
                |p: (Seq<u8>, Seq<u8>)| p.0 != name@,
            ).push((name@, value@)),
    {
        let Session { headers } = self;
        let mut kept = retain_other_name(headers, &name);
        let ghost n = name@;
        let ghost v = value@;
        kept.push((name, value));
        proof {
            assert(header_pairs(kept@) =~= header_pairs(kept@.drop_last()).push((n, v)));
        }
        Ok(Session { headers: kept })
    }

    /// `req` with this session's headers applied, in order.
    fn add_session_data(&self, req: Request) -> (r: Request)
        ensures
            r.spec_method() == req.spec_method(),
            r.spec_uri() == req.spec_uri(),
            r.spec_body() == req.spec_body(),
            r.spec_headers() == apply_all(req.spec_headers(), self.spec_headers()),
    {
        let ghost sess = self.spec_headers();
        let ghost orig = req.spec_headers();
        let mut cur = req;
        let mut i: usize = 0;
        proof {
            assert(sess.take(0) =~= Seq::<(Seq<u8>, Seq<u8>)>::empty());
        }
        while i < self.headers.len()
            invariant
                i <= self.headers@.len(),
                sess == self.spec_headers(),
                sess.len() == self.headers@.len(),
                forall|j: int| 0 <= j < sess.len() ==> #[trigger] sess[j] == (
                    self.headers@[j].0@,
                    self.headers@[j].1@,
                ),
                cur.spec_method() == req.spec_method(),
                cur.spec_uri() == req.spec_uri(),
                cur.spec_body() == req.spec_body(),
                cur.spec_headers() == apply_all(orig, sess.take(i as int)),
            decreases self.headers.len() - i,
        {
            let name = self.headers[i].0.duplicate();
            let value = self.headers[i].1.duplicate();
            let ghost p = sess[i as int];
            let next = match cur.set_header(name, value) {
                Ok(c) => c,
                Err(_) => {
                    proof {
                        assert(false);
                    }
                    return Request::get("");
                },
            };
            proof {
                assert(sess.take(i + 1) =~= sess.take(i as int).push(p));
                lemma_apply_all_snoc(orig, sess.take(i as int), p);
            }
            cur = next;
            i = i + 1;
        }
        proof {
            assert(sess.take(sess.len() as int) =~= sess);
        }
        cur
    }

    /// A GET request for `uri` carrying the session's headers.
    pub fn get(&mut self, uri: &str) -> (r: Request)
        ensures
            r.spec_method() == seq![71u8, 69u8, 84u8],
            r.spec_uri() == uri@,
            r.spec_headers() == apply_all(
                Seq::<(Seq<u8>, Seq<u8>)>::empty(),
                old(self).spec_headers(),
            ),
            r.spec_body() == Seq::<u8>::empty(),
    {
        self.add_session_data(Request::get(uri))
    }

    /// A POST request for `uri` carrying the session's headers.
    pub fn post(&mut self, uri: &str) -> (r: Request)
        ensures
            r.spec_method() == seq![80u8, 79u8, 83u8, 84u8],
            r.spec_uri() == uri@,
            r.spec_headers() == apply_all(
                Seq::<(Seq<u8>, Seq<u8>)>::empty(),
                old(self).spec_headers(),
            ),
            r.spec_body() == Seq::<u8>::empty(),
    {
        self.add_session_data(Request::post(uri))
    }

    /// A PUT request for `uri` carrying the session's headers.
    pub fn put(&mut self, uri: &str) -> (r: Request)
        ensures
            r.spec_method() == seq![80u8, 85u8, 84u8],
            r.spec_uri() == uri@,
            r.spec_headers() == apply_all(
                Seq::<(Seq<u8>, Seq<u8>)>::empty(),
                old(self).spec_headers(),
            ),
            r.spec_body() == Seq::<u8>::empty(),
    {
        self.add_session_data(Request::put(uri))
    }

    /// A DELETE request for `uri` carrying the session's headers.
    pub fn delete(&mut self, uri: &str) -> (r: Request)
        ensures
            r.spec_method() == seq![68u8, 69u8, 76u8, 69u8, 84u8, 69u8],
            r.spec_uri() == uri@,
            r.spec_headers() == apply_all(
                Seq::<(Seq<u8>, Seq<u8>)>::empty(),
                old(self).spec_headers(),
            ),
            r.spec_body() == Seq::<u8>::empty(),
    {
        self.add_session_data(Request::delete(uri))
    }

    /// A HEAD request for `uri` carrying the session's headers.
    pub fn head(&mut self, uri: &str) -> (r: Request)
        ensures
            r.spec_method() == seq![72u8, 69u8, 65u8, 68u8],
            r.spec_uri() == uri@,
            r.spec_headers() == apply_all(
                Seq::<(Seq<u8>, Seq<u8>)>::empty(),
                old(self).spec_headers(),
            ),
            r.spec_body() == Seq::<u8>::empty(),
    {
        self.add_session_data(Request::head(uri))
    }

    /// An OPTIONS request for `uri` carrying the session's headers.
    pub fn options(&mut self, uri: &str) -> (r: Request)
        ensures
            r.spec_method() == seq![79u8, 80u8, 84u8, 73u8, 79u8, 78u8, 83u8],
            r.spec_uri() == uri@,
            r.spec_headers() == apply_all(
                Seq::<(Seq<u8>, Seq<u8>)>::empty(),
                old(self).spec_headers(),
            ),
            r.spec_body() == Seq::<u8>::empty(),
    {
        self.add_session_data(Request::options(uri))
    }

    /// A request with any token method for `uri` carrying the session's
    /// headers.
    pub fn request(&mut self, meth: &str, uri: &str) -> (r: Result<Request, Error>)
        ensures
            match r {
                Ok(rq) => {
                    &&& crate::request::valid_method(meth.spec_bytes())
                    &&& rq.spec_method() == meth.spec_bytes()
                    &&& rq.spec_uri() == uri@
                    &&& rq.spec_headers() == apply_all(
                        Seq::<(Seq<u8>, Seq<u8>)>::empty(),
                        old(self).spec_headers(),
                    )
                    &&& rq.spec_body() == Seq::<u8>::empty()
                },
                Err(_) => !crate::request::valid_method(meth.spec_bytes()),
            },
    {
        match Request::new(meth, uri) {
            Ok(rq) => Ok(self.add_session_data(rq)),
            Err(e) => Err(e),
        }
    }
}

/// The pairs of `headers` whose name is not `name`, in order.
fn retain_other_name(headers: Vec<(HeaderName, HeaderValue)>, name: &HeaderName) -> (r: Vec<
    (HeaderName, HeaderValue),
>)
    ensures
        header_pairs(r@) == header_pairs(headers@).filter(
            |p: (Seq<u8>, Seq<u8>)| p.0 != name@,
        ),
{
    let mut out: Vec<(HeaderName, HeaderValue)> = Vec::new();
    let rest = headers;
    let mut i: usize = 0;
    proof {
        reveal(Seq::filter);
        assert(header_pairs(rest@).take(0) =~= Seq::<(Seq<u8>, Seq<u8>)>::empty());
        assert(header_pairs(out@) =~= header_pairs(rest@).take(0).filter(
            |p: (Seq<u8>, Seq<u8>)| p.0 != name@,
        ));
    }
    while i < rest.len()
        invariant
            i <= rest@.len(),
            header_pairs(out@) == header_pairs(rest@).take(i as int).filter(
                |p: (Seq<u8>, Seq<u8>)| p.0 != name@,
            ),
        decreases rest.len() - i,
    {
        let ghost prefix = header_pairs(rest@).take(i as int);
        let ghost x = header_pairs(rest@)[i as int];
        let keep = !crate::util::bytes_eq(rest[i].0.as_bytes(), name.as_bytes());
        proof {
            reveal(Seq::filter);
            assert(x == (rest@[i as int].0@, rest@[i as int].1@));
            assert(header_pairs(rest@).take(i + 1) =~= prefix.push(x));
            assert(prefix.push(x).drop_last() == prefix);
            assert(prefix.push(x).last() == x);
            if keep {
                assert(prefix.push(x).filter(|p: (Seq<u8>, Seq<u8>)| p.0 != name@)
                    == prefix.filter(|p: (Seq<u8>, Seq<u8>)| p.0 != name@).push(x));
            } else {
                assert(prefix.push(x).filter(|p: (Seq<u8>, Seq<u8>)| p.0 != name@)
                    == prefix.filter(|p: (Seq<u8>, Seq<u8>)| p.0 != name@));
            }
        }
        if keep {
            let pair = (rest[i].0.duplicate(), rest[i].1.duplicate());
            let ghost before = header_pairs(out@);
            out.push(pair);
            proof {
                assert(header_pairs(out@) =~= before.push(x));
            }
        }
        i = i + 1;
    }
    proof {
        assert(header_pairs(rest@).take(rest@.len() as int) =~= header_pairs(rest@));
    }
    out
}

} // verus!
