//! The response of a webserver: status, headers and body as plain values.
//! Status and headers are available from the start; the body is whatever
//! the shell (or a mock) collected.

use vstd::prelude::*;
use vstd::string::StringSliceAdditionalSpecFns;
use vstd::utf8::{decode_utf8, valid_utf8};

use crate::header::{HeaderName, HeaderValue};
use crate::request::header_pairs;
use crate::strutil::lossy_string;
use crate::util::{bytes_eq, lower_bytes, to_lower_bytes};

verus! {

/// The first value under `name` in `hs`, if any.
pub open spec fn first_value(hs: Seq<(Seq<u8>, Seq<u8>)>, name: Seq<u8>) -> Option<Seq<u8>>
    decreases hs.len(),
{
    if hs.len() == 0 {
        None
    } else if hs[0].0 == name {
        Some(hs[0].1)
    } else {
        first_value(hs.drop_first(), name)
    }
}

/// Every value under `name` in `hs`, in order.
pub open spec fn all_values(hs: Seq<(Seq<u8>, Seq<u8>)>, name: Seq<u8>) -> Seq<Seq<u8>> {
    hs.filter(|p: (Seq<u8>, Seq<u8>)| p.0 == name).map_values(|p: (Seq<u8>, Seq<u8>)| p.1)
}

/// Every value under `name` in `hs`, in order.
pub(crate) fn collect_values(hs: &Vec<(HeaderName, HeaderValue)>, name: &[u8]) -> (r: Vec<HeaderValue>)
    ensures
        Seq::new(r@.len(), |i: int| r@[i]@) == all_values(header_pairs(hs@), name@),
{
    let ghost pairs = header_pairs(hs@);
    let mut out: Vec<HeaderValue> = Vec::new();
    let mut i: usize = 0;
    proof {
        assert(pairs.take(0) =~= Seq::<(Seq<u8>, Seq<u8>)>::empty());
        reveal(Seq::filter);
        assert(Seq::new(out@.len(), |k: int| out@[k]@) =~= pairs.take(0).filter(
            |p: (Seq<u8>, Seq<u8>)| p.0 == name@,
        ).map_values(|p: (Seq<u8>, Seq<u8>)| p.1));
    }
    while i < hs.len()
        invariant
            i <= hs@.len(),
            pairs == header_pairs(hs@),
            Seq::new(out@.len(), |k: int| out@[k]@) == pairs.take(i as int).filter(
                |p: (Seq<u8>, Seq<u8>)| p.0 == name@,
            ).map_values(|p: (Seq<u8>, Seq<u8>)| p.1),
        decreases hs.len() - i,
    {
        let ghost prefix = pairs.take(i as int);
        let ghost x = pairs[i as int];
        proof {
            reveal(Seq::filter);
            assert(x == (hs@[i as int].0@, hs@[i as int].1@));
            assert(pairs.take(i + 1) =~= prefix.push(x));
            assert(prefix.push(x).drop_last() == prefix);
            assert(prefix.push(x).last() == x);
        }
        if bytes_eq(hs[i].0.as_bytes(), name) {
            let ghost before = Seq::new(out@.len(), |k: int| out@[k]@);
            out.push(hs[i].1.duplicate());
            proof {
                assert(prefix.push(x).filter(|p: (Seq<u8>, Seq<u8>)| p.0 == name@)
                    == prefix.filter(|p: (Seq<u8>, Seq<u8>)| p.0 == name@).push(x));
                assert(Seq::new(out@.len(), |k: int| out@[k]@) =~= before.push(x.1));
                assert(prefix.push(x).filter(|p: (Seq<u8>, Seq<u8>)| p.0 == name@).map_values(
                    |p: (Seq<u8>, Seq<u8>)| p.1,
                ) =~= before.push(x.1));
            }
        } else {
            proof {
                assert(prefix.push(x).filter(|p: (Seq<u8>, Seq<u8>)| p.0 == name@)
                    == prefix.filter(|p: (Seq<u8>, Seq<u8>)| p.0 == name@));
            }
        }
        i = i + 1;
    }
    proof {
        assert(pairs.take(pairs.len() as int) =~= pairs);
    }
    out
}

/// The response of a webserver.
#[derive(Debug)]
pub struct Response {
    code: u16,
    reason: String,
    headers: Vec<(HeaderName, HeaderValue)>,
    body: Vec<u8>,
}

impl Response {
    /// The status code.
    pub closed spec fn spec_code(self) -> u16 {
        self.code
    }

    /// The status line's reason phrase.
    pub closed spec fn spec_reason(self) -> Seq<char> {
        self.reason@
    }

    /// The headers, in order.
    pub closed spec fn spec_headers(self) -> Seq<(Seq<u8>, Seq<u8>)> {
        header_pairs(self.headers@)
    }

    /// The body bytes.
    pub closed spec fn spec_body(self) -> Seq<u8> {
        self.body@
    }

    /// Assembles a response from its parts.
    pub fn new(code: u16, reason: String, headers: Vec<(HeaderName, HeaderValue)>, body: Vec<
        u8,
    >) -> (r: Response)
        ensures
            r.spec_code() == code,
            r.spec_reason() == reason@,
            r.spec_headers() == header_pairs(headers@),
            r.spec_body() == body@,
    {
        Response { code, reason, headers, body }
    }

    /// The status code.
    pub fn status_code(&self) -> (r: u16)
        ensures
            r == self.spec_code(),
    {
        self.code
    }

    /// The status as string: the reason phrase of the status line, or the
    /// empty string where none was recorded.
    pub fn status(&self) -> (r: &str)
        ensures
            r@ == self.spec_reason(),
    {
        self.reason.as_str()
    }

    /// The whole body as bytes.
    pub fn content(&self) -> (r: &[u8])
        ensures
            r@ == self.spec_body(),
    {
        self.body.as_slice()
    }

    /// The whole body as text; valid UTF-8 is decoded unchanged.
    pub fn text(&self) -> (r: String)
        ensures
            valid_utf8(self.spec_body()) ==> r@ == decode_utf8(self.spec_body()),
    {
        lossy_string(self.body.as_slice())
    }

    /// The first value under `name` (compared case-insensitively), if any.
    pub fn header(&self, name: &str) -> (r: Option<&HeaderValue>)
        ensures
            match r {
                Some(v) => first_value(self.spec_headers(), lower_bytes(name.spec_bytes()))
                    == Some(v@),
                None => first_value(self.spec_headers(), lower_bytes(name.spec_bytes()))
                    is None,
            },
    {
        let low = to_lower_bytes(name.as_bytes());
        let ghost n = lower_bytes(name.spec_bytes());
        let ghost hs = self.spec_headers();
        let mut i: usize = 0;
        proof {
            assert(hs.skip(0) =~= hs);
        }
        while i < self.headers.len()
            invariant
                i <= self.headers@.len(),
                n == lower_bytes(name.spec_bytes()),
                low@ == n,
                hs == self.spec_headers(),
                hs.len() == self.headers@.len(),
                forall|j: int| 0 <= j < hs.len() ==> #[trigger] hs[j] == (
                    self.headers@[j].0@,
                    self.headers@[j].1@,
                ),
                first_value(hs, n) == first_value(hs.skip(i as int), n),
            decreases self.headers.len() - i,
        {
            proof {
                assert(hs.skip(i as int)[0] == hs[i as int]);
                assert(hs.skip(i as int).drop_first() =~= hs.skip(i + 1));
            }
            if bytes_eq(self.headers[i].0.as_bytes(), low.as_slice()) {
                return Some(&self.headers[i].1);
            }
            i = i + 1;
        }
        proof {
            assert(hs.skip(hs.len() as int) =~= Seq::<(Seq<u8>, Seq<u8>)>::empty());
        }
        None
    }

    /// Every value under `name` (compared case-insensitively), in order.
    pub fn all_header(&self, name: &str) -> (r: Vec<HeaderValue>)
        ensures
            Seq::new(r@.len(), |i: int| r@[i]@) == all_values(
                self.spec_headers(),
                lower_bytes(name.spec_bytes()),
            ),
    {
        let low = to_lower_bytes(name.as_bytes());
        collect_values(&self.headers, low.as_slice())
    }

    /// Every header, one pair per value, in order.
    pub fn headers(&self) -> (r: &Vec<(HeaderName, HeaderValue)>)
        ensures
            header_pairs(r@) == self.spec_headers(),
    {
        &self.headers
    }
}

} // verus!
