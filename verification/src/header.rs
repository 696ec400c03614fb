//! HTTP header names and values as plain bytes.
//!
//! A header name is a non-empty string of HTTP token characters, stored
//! lower-cased so that equal names compare equal however they were written.
//! A header value is an arbitrary byte string.

use vstd::prelude::*;
use vstd::slice::slice_to_vec;
use vstd::string::{StrSliceExecFns, StringSliceAdditionalSpecFns};
use vstd::utf8::{decode_utf8, valid_utf8};

use crate::error::HttpError;
use crate::strutil::utf8_str;
use crate::util::{lower_byte, lower_bytes, to_lower_bytes, bytes_eq};

verus! {

/// Whether `b` may stand in an HTTP header name: an HTTP token character.
pub open spec fn is_token_byte(b: u8) -> bool {
    ||| (97 <= b <= 122)  // a-z
    ||| (65 <= b <= 90)  // A-Z
    ||| (48 <= b <= 57)  // 0-9
    ||| b == 33  // !
    ||| (35 <= b <= 39)  // # $ % & '
    ||| b == 42 || b == 43 || b == 45 || b == 46  // * + - .
    ||| b == 94 || b == 95 || b == 96  // ^ _ `
    ||| b == 124 || b == 126  // | ~
}

/// Whether `s` is a well-formed header name before lower-casing: non-empty
/// and all token characters.
pub open spec fn valid_header_name(s: Seq<u8>) -> bool {
    s.len() >= 1 && forall|i: int| 0 <= i < s.len() ==> is_token_byte(#[trigger] s[i])
}

/// A HTTP header name.
///
/// It is held lower-cased; two names that differ only in case are one name.
#[derive(Debug, Clone, PartialEq, Eq, Hash)]
pub struct HeaderName {
    name: Vec<u8>,
}

impl View for HeaderName {
    type V = Seq<u8>;

    closed spec fn view(&self) -> Seq<u8> {
        self.name@
    }
}

impl HeaderName {
    /// A header name is non-empty, lower-cased, and all token characters.
    pub open spec fn wf(self) -> bool {
        &&& self@.len() >= 1
        &&& forall|i: int|
            0 <= i < self@.len() ==> is_token_byte(#[trigger] self@[i]) && self@[i]
                == lower_byte(self@[i])
    }

    /// Makes a header name from `s`, lower-casing it; a name that is empty
    /// or holds a character no token allows is refused.
    pub fn new(s: &str) -> (r: Result<HeaderName, HttpError>)
        ensures
            match r {
                Ok(h) => {
                    &&& valid_header_name(s.spec_bytes())
                    &&& h@ == lower_bytes(s.spec_bytes())
                    &&& h.wf()
                },
                Err(e) => !valid_header_name(s.spec_bytes()) && e is InvalidHeaderName,
            },
    {
        let b = s.as_bytes();
        if b.len() == 0 {
            return Err(HttpError::InvalidHeaderName);
        }
        let mut i: usize = 0;
        while i < b.len()
            invariant
                i <= b@.len(),
                b@ == s.spec_bytes(),
                forall|j: int| 0 <= j < i ==> is_token_byte(#[trigger] b@[j]),
            decreases b.len() - i,
        {
            let c = b[i];
            let ok = (c >= 97 && c <= 122) || (c >= 65 && c <= 90) || (c >= 48 && c <= 57) || c
                == 33 || (c >= 35 && c <= 39) || c == 42 || c == 43 || c == 45 || c == 46 || c
                == 94 || c == 95 || c == 96 || c == 124 || c == 126;
            if !ok {
                proof {
                    assert(!is_token_byte(s.spec_bytes()[i as int]));
                }
                return Err(HttpError::InvalidHeaderName);
            }
            i = i + 1;
        }
        let name = to_lower_bytes(b);
        proof {
            assert(forall|j: int|
                0 <= j < name@.len() ==> #[trigger] name@[j] == lower_byte(b@[j]));
        }
        Ok(HeaderName { name })
    }

    /// The name's bytes.
    pub fn as_bytes(&self) -> (r: &[u8])
        ensures
            r@ == self@,
    {
        self.name.as_slice()
    }

    /// The name as text.
    pub fn as_str(&self) -> (r: Option<&str>)
        ensures
            (r is Some) == valid_utf8(self@),
            r matches Some(s) ==> s@ == decode_utf8(self@),
    {
        utf8_str(self.name.as_slice())
    }

    /// An owned copy of this name.
    pub fn duplicate(&self) -> (r: HeaderName)
        ensures
            r@ == self@,
    {
        HeaderName { name: slice_to_vec(self.name.as_slice()) }
    }

    /// Whether this name is `s` up to ASCII case.
    pub fn eq_str(&self, s: &str) -> (r: bool)
        ensures
            r == (self@ == lower_bytes(s.spec_bytes())),
    {
        let low = to_lower_bytes(s.as_bytes());
        bytes_eq(self.name.as_slice(), low.as_slice())
    }
}

/// A HTTP header value: an arbitrary byte string.
#[derive(Debug, Clone, PartialEq, Eq)]
pub struct HeaderValue {
    value: Vec<u8>,
}

impl View for HeaderValue {
    type V = Seq<u8>;

    closed spec fn view(&self) -> Seq<u8> {
        self.value@
    }
}

impl HeaderValue {
    /// Makes a header value of the bytes of `s`.
    pub fn from_str(s: &str) -> (r: HeaderValue)
        ensures
            r@ == s.spec_bytes(),
    {
        HeaderValue { value: s.as_bytes_vec() }
    }

    /// Makes a header value of raw bytes.
    pub fn from_bytes(b: &[u8]) -> (r: HeaderValue)
        ensures
            r@ == b@,
    {
        HeaderValue { value: slice_to_vec(b) }
    }

    /// The value's bytes.
    pub fn as_bytes(&self) -> (r: &[u8])
        ensures
            r@ == self@,
    {
        self.value.as_slice()
    }

    /// The value as text, when it is valid UTF-8.
    pub fn as_str(&self) -> (r: Option<&str>)
        ensures
            (r is Some) == valid_utf8(self@),
            r matches Some(s) ==> s@ == decode_utf8(self@),
    {
        utf8_str(self.value.as_slice())
    }

    /// The value read as a decimal number of at most nineteen digits.
    pub fn parse(&self) -> (r: Option<u64>)
        ensures
            match r {
                Some(v) => {
                    &&& 1 <= self@.len() <= 19
                    &&& crate::ip::all_digits(self@)
                    &&& v == crate::ip::dec_value(self@)
                },
                None => !(1 <= self@.len() <= 19 && crate::ip::all_digits(self@)),
            },
    {
        let b = &self.value;
        if b.len() < 1 || b.len() > 19 {
            return None;
        }
        let mut v: u64 = 0;
        let mut i: usize = 0;
        proof {
            lemma_pow10_19();
        }
        while i < b.len()
            invariant
                i <= b@.len() <= 19,
                b@ == self@,
                crate::ip::all_digits(b@.take(i as int)),
                v == crate::ip::dec_value(b@.take(i as int)),
                v < pow10(i as nat),
                pow10(19) == 10_000_000_000_000_000_000,
            decreases b.len() - i,
        {
            let c = b[i];
            if c < 48 || c > 57 {
                proof {
                    assert(!crate::ip::is_digit(self@[i as int]));
                }
                return None;
            }
            proof {
                assert(pow10((i + 1) as nat) == 10 * pow10(i as nat));
                lemma_pow10_mono(i as nat, 18);
            }
            v = v * 10 + (c - 48) as u64;
            i = i + 1;
            proof {
                assert(b@.take(i as int).drop_last() == b@.take(i - 1));
                assert(b@.take(i as int).last() == c);
            }
        }
        proof {
            assert(b@.take(b@.len() as int) == b@);
        }
        Some(v)
    }

    /// An owned copy of this value.
    pub fn duplicate(&self) -> (r: HeaderValue)
        ensures
            r@ == self@,
    {
        HeaderValue { value: slice_to_vec(self.value.as_slice()) }
    }

    /// Whether this value holds exactly the bytes of `s`.
    pub fn eq_str(&self, s: &str) -> (r: bool)
        ensures
            r == (self@ == s.spec_bytes()),
    {
        bytes_eq(self.value.as_slice(), s.as_bytes())
    }

    /// Whether this value holds exactly the bytes `b`.
    pub fn eq_bytes(&self, b: &[u8]) -> (r: bool)
        ensures
            r == (self@ == b@),
    {
        bytes_eq(self.value.as_slice(), b)
    }
}

/// Ten to the `n`th.
pub open spec fn pow10(n: nat) -> int
    decreases n,
{
    if n == 0 {
        1
    } else {
        10 * pow10((n - 1) as nat)
    }
}

/// Ten to the nineteenth, written out.
proof fn lemma_pow10_19()
    ensures
        pow10(19) == 10_000_000_000_000_000_000,
{
    reveal_with_fuel(pow10, 20);
}

/// `pow10` is at least one.
proof fn lemma_pow10_pos(n: nat)
    ensures
        pow10(n) >= 1,
    decreases n,
{
    if n > 0 {
        lemma_pow10_pos((n - 1) as nat);
    }
}

/// `pow10` grows with its argument.
proof fn lemma_pow10_mono(a: nat, b: nat)
    requires
        a <= b,
    ensures
        1 <= pow10(a) <= pow10(b),
    decreases b,
{
    lemma_pow10_pos(a);
    if a < b {
        lemma_pow10_mono(a, (b - 1) as nat);
        assert(pow10(b) == 10 * pow10((b - 1) as nat));
    }
}

} // verus!
