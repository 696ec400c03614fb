//! Small byte- and string-level helpers shared by the protocol modules.

use vstd::prelude::*;
use vstd::slice::slice_subrange;

verus! {

/// Whether `b` is an ASCII whitespace byte (tab through carriage return, or
/// space).
pub open spec fn is_space(b: u8) -> bool {
    b == 32 || (9 <= b <= 13)
}

/// `s` with leading whitespace removed.
pub open spec fn trim_start_sp(s: Seq<u8>) -> Seq<u8>
    decreases s.len(),
{
    if s.len() > 0 && is_space(s[0]) {
        trim_start_sp(s.drop_first())
    } else {
        s
    }
}

/// `s` with trailing whitespace removed.
pub open spec fn trim_end_sp(s: Seq<u8>) -> Seq<u8>
    decreases s.len(),
{
    if s.len() > 0 && is_space(s.last()) {
        trim_end_sp(s.drop_last())
    } else {
        s
    }
}

/// `s` with whitespace removed from both ends.
pub open spec fn trim_sp(s: Seq<u8>) -> Seq<u8> {
    trim_end_sp(trim_start_sp(s))
}

/// Trims ASCII whitespace from both ends of `s`.
pub fn trim_bytes(s: &[u8]) -> (r: &[u8])
    ensures
        r@ == trim_sp(s@),
{
    let mut i: usize = 0;
    proof {
        assert(s@.skip(0) =~= s@);
    }
    while i < s.len() && (s[i] == 32 || (s[i] >= 9 && s[i] <= 13))
        invariant
            i <= s.len(),
            trim_start_sp(s@) == trim_start_sp(s@.skip(i as int)),
        decreases s.len() - i,
    {
        proof {
            assert(s@.skip(i as int)[0] == s@[i as int]);
            assert(s@.skip(i as int).drop_first() =~= s@.skip(i + 1));
        }
        i = i + 1;
    }
    proof {
        if i < s.len() {
            assert(s@.skip(i as int)[0] == s@[i as int]);
        }
        assert(trim_start_sp(s@.skip(i as int)) == s@.skip(i as int));
    }
    let ghost t = s@.skip(i as int);
    let mut j: usize = s.len();
    proof {
        assert(t.take(j - i) =~= t);
    }
    while j > i && (s[j - 1] == 32 || (s[j - 1] >= 9 && s[j - 1] <= 13))
        invariant
            i <= j <= s.len(),
            t == s@.skip(i as int),
            trim_end_sp(t) == trim_end_sp(t.take(j - i)),
        decreases j,
    {
        proof {
            assert(t.take(j - i).last() == s@[j - 1]);
            assert(t.take(j - i).drop_last() =~= t.take(j - 1 - i));
        }
        j = j - 1;
    }
    proof {
        if j > i {
            assert(t.take(j - i).last() == s@[j - 1]);
        }
        assert(trim_end_sp(t.take(j - i)) == t.take(j - i));
    }
    let r = slice_subrange(s, i, j);
    proof {
        assert(r@ =~= t.take(j - i));
    }
    r
}

/// Lower-case image of a single byte: ASCII upper-case letters are mapped to
/// lower case, every other byte is unchanged.
pub open spec fn lower_byte(b: u8) -> u8 {
    if 65 <= b <= 90 {
        (b + 32) as u8
    } else {
        b
    }
}

/// Lower-case image of a byte sequence.
pub open spec fn lower_bytes(s: Seq<u8>) -> Seq<u8> {
    s.map_values(|b: u8| lower_byte(b))
}

/// ASCII-lower-cases one byte.
pub fn to_lower_byte(b: u8) -> (r: u8)
    ensures
        r == lower_byte(b),
{
    if 65 <= b && b <= 90 {
        b + 32
    } else {
        b
    }
}

/// ASCII-lower-cases a byte string.
pub fn to_lower_bytes(s: &[u8]) -> (r: Vec<u8>)
    ensures
        r@ == lower_bytes(s@),
{
    let mut out: Vec<u8> = Vec::new();
    let mut i: usize = 0;
    while i < s.len()
        invariant
            i <= s.len(),
            out@ == lower_bytes(s@.take(i as int)),
        decreases s.len() - i,
    {
        out.push(to_lower_byte(s[i]));
        i = i + 1;
        proof {
            assert(s@.take(i as int).drop_last() == s@.take(i - 1));
            assert(lower_bytes(s@.take(i as int)).drop_last() == lower_bytes(s@.take(i - 1)));
            assert(out@ =~= lower_bytes(s@.take(i as int)));
        }
    }
    proof {
        assert(s@.take(s@.len() as int) == s@);
    }
    out
}

/// Upper-case image of a single byte: ASCII lower-case letters are mapped
/// to upper case, every other byte is unchanged.
pub open spec fn upper_byte(b: u8) -> u8 {
    if 97 <= b <= 122 {
        (b - 32) as u8
    } else {
        b
    }
}

/// Upper-case image of a byte sequence.
pub open spec fn upper_bytes(s: Seq<u8>) -> Seq<u8> {
    s.map_values(|b: u8| upper_byte(b))
}

/// ASCII-upper-cases a byte string.
pub fn to_upper_bytes(s: &[u8]) -> (r: Vec<u8>)
    ensures
        r@ == upper_bytes(s@),
{
    let mut out: Vec<u8> = Vec::new();
    let mut i: usize = 0;
    while i < s.len()
        invariant
            i <= s.len(),
            out@ == upper_bytes(s@.take(i as int)),
        decreases s.len() - i,
    {
        let b = s[i];
        if b >= 97 && b <= 122 {
            out.push(b - 32);
        } else {
            out.push(b);
        }
        i = i + 1;
        proof {
            assert(s@.take(i as int).drop_last() == s@.take(i - 1));
            assert(upper_bytes(s@.take(i as int)).drop_last() == upper_bytes(s@.take(i - 1)));
            assert(out@ =~= upper_bytes(s@.take(i as int)));
        }
    }
    proof {
        assert(s@.take(s@.len() as int) == s@);
    }
    out
}

/// Appends all of `s` to `v`.
pub fn push_bytes(v: &mut Vec<u8>, s: &[u8])
    ensures
        final(v)@ == old(v)@ + s@,
{
    let mut i: usize = 0;
    while i < s.len()
        invariant
            i <= s.len(),
            v@ == old(v)@ + s@.take(i as int),
        decreases s.len() - i,
    {
        v.push(s[i]);
        i = i + 1;
        proof {
            assert(s@.take(i as int).drop_last() == s@.take(i - 1));
            assert(v@ =~= old(v)@ + s@.take(i as int));
        }
    }
    proof {
        assert(s@.take(s@.len() as int) == s@);
    }
}

/// The shortest decimal numeral of `n`, as ASCII digit bytes.
pub open spec fn dec_digits(n: nat) -> Seq<u8>
    decreases n,
{
    if n < 10 {
        seq![(48 + n) as u8]
    } else {
        dec_digits(n / 10).push((48 + n % 10) as u8)
    }
}

/// Appends the decimal numeral of `n` to `v`.
pub fn push_dec_u16(v: &mut Vec<u8>, n: u16)
    ensures
        final(v)@ == old(v)@ + dec_digits(n as nat),
    decreases n,
{
    if n < 10 {
        v.push(48 + n as u8);
        proof {
            assert(final(v)@ =~= old(v)@ + dec_digits(n as nat));
        }
    } else {
        push_dec_u16(v, n / 10);
        v.push(48 + (n % 10) as u8);
        proof {
            assert(final(v)@ =~= old(v)@ + dec_digits(n as nat));
        }
    }
}

/// Whether `a` and `b` hold the same bytes.
pub fn bytes_eq(a: &[u8], b: &[u8]) -> (r: bool)
    ensures
        r == (a@ == b@),
{
    if a.len() != b.len() {
        return false;
    }
    let mut i: usize = 0;
    while i < a.len()
        invariant
            a.len() == b.len(),
            i <= a.len(),
            forall|j: int| 0 <= j < i ==> a@[j] == b@[j],
        decreases a.len() - i,
    {
        if a[i] != b[i] {
            return false;
        }
        i = i + 1;
    }
    proof {
        assert(a@ =~= b@);
    }
    true
}

} // verus!
