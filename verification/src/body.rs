//! A request body: a byte string with conversions from the common owned
//! and borrowed text and byte types.

use vstd::prelude::*;
use vstd::slice::slice_to_vec;
use vstd::string::{StrSliceExecFns, StringSliceAdditionalSpecFns};

verus! {

/// A body for a request. Most callers hand one to
/// [`Request::body`](crate::Request::body).
#[derive(Debug, Clone)]
pub struct Body {
    data: Vec<u8>,
}

impl View for Body {
    type V = Seq<u8>;

    closed spec fn view(&self) -> Seq<u8> {
        self.data@
    }
}

impl Body {
    /// The empty body.
    pub fn empty() -> (r: Body)
        ensures
            r@ == Seq::<u8>::empty(),
    {
        let data: Vec<u8> = Vec::new();
        proof {
            assert(data@ =~= Seq::<u8>::empty());
        }
        Body { data }
    }

    /// A body of the bytes of `s`.
    pub fn from_str(s: &str) -> (r: Body)
        ensures
            r@ == s.spec_bytes(),
    {
        Body { data: s.as_bytes_vec() }
    }

    /// A body of raw bytes.
    pub fn from_bytes(b: &[u8]) -> (r: Body)
        ensures
            r@ == b@,
    {
        Body { data: slice_to_vec(b) }
    }

    /// The body's bytes.
    pub fn into_vec(self) -> (r: Vec<u8>)
        ensures
            r@ == self@,
    {
        self.data
    }
}

impl From<Vec<u8>> for Body {
    fn from(t: Vec<u8>) -> (r: Body) {
        Body { data: t }
    }
}

impl vstd::std_specs::convert::FromSpecImpl<Vec<u8>> for Body {
    open spec fn obeys_from_spec() -> bool {
        true
    }

    closed spec fn from_spec(t: Vec<u8>) -> Body {
        Body { data: t }
    }
}

impl From<String> for Body {
    fn from(t: String) -> (r: Body) {
        Body { data: t.as_str().as_bytes_vec() }
    }
}

impl vstd::std_specs::convert::FromSpecImpl<String> for Body {
    open spec fn obeys_from_spec() -> bool {
        false
    }

    closed spec fn from_spec(t: String) -> Body {
        arbitrary()
    }
}

impl From<&'static str> for Body {
    fn from(t: &'static str) -> (r: Body) {
        Body { data: t.as_bytes_vec() }
    }
}

impl vstd::std_specs::convert::FromSpecImpl<&'static str> for Body {
    open spec fn obeys_from_spec() -> bool {
        false
    }

    closed spec fn from_spec(t: &'static str) -> Body {
        arbitrary()
    }
}

impl From<&'static [u8]> for Body {
    fn from(t: &'static [u8]) -> (r: Body) {
        Body { data: slice_to_vec(t) }
    }
}

impl vstd::std_specs::convert::FromSpecImpl<&'static [u8]> for Body {
    open spec fn obeys_from_spec() -> bool {
        false
    }

    closed spec fn from_spec(t: &'static [u8]) -> Body {
        arbitrary()
    }
}

} // verus!
