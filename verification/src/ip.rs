//! Recognising IP-address literals in host names, so that a SOCKS5 CONNECT
//! request can carry a literal address directly instead of asking for
//! resolution.
//!
//! An IPv4 literal is four dot-separated decimal octets, each of one to
//! three digits without a superfluous leading zero and at most 255. An IPv6
//! literal is up to eight colon-separated groups of one to four hex digits,
//! with at most one `::` eliding a run of zero groups, and optionally an
//! IPv4 literal in place of the last two groups.

use vstd::prelude::*;
use vstd::slice::slice_subrange;

use crate::bytesplit::{lemma_split_on_len, lemma_split_on_whole, split_bytes, split_on, vecs_view};

verus! {

/// Whether `b` is an ASCII decimal digit.
pub open spec fn is_digit(b: u8) -> bool {
    48 <= b <= 57
}

/// Whether every byte of `s` is a decimal digit.
pub open spec fn all_digits(s: Seq<u8>) -> bool {
    forall|i: int| 0 <= i < s.len() ==> is_digit(#[trigger] s[i])
}

/// The value of the decimal numeral `s`.
pub open spec fn dec_value(s: Seq<u8>) -> int
    decreases s.len(),
{
    if s.len() == 0 {
        0
    } else {
        dec_value(s.drop_last()) * 10 + (s.last() - 48)
    }
}

/// Whether `s` is a valid dotted-decimal octet: one to three digits, no
/// superfluous leading zero, value at most 255.
pub open spec fn octet_ok(s: Seq<u8>) -> bool {
    &&& 1 <= s.len() <= 3
    &&& all_digits(s)
    &&& (s.len() > 1 ==> s[0] != 48)
    &&& dec_value(s) <= 255
}

/// Whether `s` is an IPv4 literal.
pub open spec fn ipv4_ok(s: Seq<u8>) -> bool {
    let parts = split_on(s, 46);
    parts.len() == 4 && (forall|i: int| 0 <= i < 4 ==> octet_ok(#[trigger] parts[i]))
}

/// The four address bytes of the IPv4 literal `s`.
pub open spec fn ipv4_octets(s: Seq<u8>) -> Seq<u8> {
    split_on(s, 46).map_values(|p: Seq<u8>| dec_value(p) as u8)
}

/// Parses one dotted-decimal octet.
fn parse_octet(s: &Vec<u8>) -> (r: Option<u8>)
    ensures
        match r {
            Some(v) => octet_ok(s@) && v == dec_value(s@),
            None => !octet_ok(s@),
        },
{
    if s.len() < 1 || s.len() > 3 {
        return None;
    }
    if s.len() > 1 && s[0] == 48 {
        return None;
    }
    let mut v: u32 = 0;
    let mut i: usize = 0;
    while i < s.len()
        invariant
            i <= s.len(),
            s@.len() <= 3,
            all_digits(s@.take(i as int)),
            v == dec_value(s@.take(i as int)),
            i == 0 ==> v == 0,
            i == 1 ==> v <= 9,
            i == 2 ==> v <= 99,
            i == 3 ==> v <= 999,
        decreases s.len() - i,
    {
        let b = s[i];
        if b < 48 || b > 57 {
            proof {
                assert(!all_digits(s@));
            }
            return None;
        }
        v = v * 10 + (b - 48) as u32;
        i = i + 1;
        proof {
            assert(s@.take(i as int).drop_last() == s@.take(i - 1));
            assert(s@.take(i as int).last() == b);
        }
    }
    proof {
        assert(s@.take(s@.len() as int) == s@);
    }
    if v > 255 {
        return None;
    }
    Some(v as u8)
}

/// Parses an IPv4 literal into its four address bytes.
pub fn parse_ipv4(s: &[u8]) -> (r: Option<[u8; 4]>)
    ensures
        match r {
            Some(o) => ipv4_ok(s@) && o@ == ipv4_octets(s@),
            None => !ipv4_ok(s@),
        },
{
    let parts = split_bytes(s, 46);
    proof {
        assert(parts@.len() == vecs_view(parts@).len());
    }
    if parts.len() != 4 {
        return None;
    }
    let a = match parse_octet(&parts[0]) {
        Some(v) => v,
        None => {
            proof {
                assert(split_on(s@, 46)[0] == parts@[0]@);
            }
            return None;
        },
    };
    let b = match parse_octet(&parts[1]) {
        Some(v) => v,
        None => {
            proof {
                assert(split_on(s@, 46)[1] == parts@[1]@);
            }
            return None;
        },
    };
    let c = match parse_octet(&parts[2]) {
        Some(v) => v,
        None => {
            proof {
                assert(split_on(s@, 46)[2] == parts@[2]@);
            }
            return None;
        },
    };
    let d = match parse_octet(&parts[3]) {
        Some(v) => v,
        None => {
            proof {
                assert(split_on(s@, 46)[3] == parts@[3]@);
            }
            return None;
        },
    };
    let o: [u8; 4] = [a, b, c, d];
    proof {
        assert(forall|i: int| 0 <= i < 4 ==> #[trigger] split_on(s@, 46)[i] == vecs_view(
            parts@,
        )[i]);
        assert(o@ =~= ipv4_octets(s@));
    }
    Some(o)
}

/// Whether `b` is an ASCII hex digit.
pub open spec fn is_hex_digit(b: u8) -> bool {
    is_digit(b) || (97 <= b <= 102) || (65 <= b <= 70)
}

/// The value of the hex digit `b`.
pub open spec fn hex_digit_value(b: u8) -> int {
    if is_digit(b) {
        b - 48
    } else if 97 <= b <= 102 {
        b - 87
    } else {
        b - 55
    }
}

/// The value of the hex numeral `s`.
pub open spec fn hex_value(s: Seq<u8>) -> int
    decreases s.len(),
{
    if s.len() == 0 {
        0
    } else {
        hex_value(s.drop_last()) * 16 + hex_digit_value(s.last())
    }
}

/// Whether `s` is a valid 16-bit group: one to four hex digits.
pub open spec fn h16_ok(s: Seq<u8>) -> bool {
    1 <= s.len() <= 4 && (forall|i: int| 0 <= i < s.len() ==> is_hex_digit(#[trigger] s[i]))
}

/// The two big-endian bytes of the 16-bit group `s`.
pub open spec fn h16_bytes(s: Seq<u8>) -> Seq<u8> {
    seq![(hex_value(s) / 256) as u8, (hex_value(s) % 256) as u8]
}

/// The address bytes contributed by one colon-separated group: four for a
/// trailing IPv4 literal, two for a 16-bit group.
pub open spec fn group_bytes(g: Seq<u8>) -> Seq<u8> {
    if ipv4_ok(g) {
        ipv4_octets(g)
    } else {
        h16_bytes(g)
    }
}

/// The address bytes of a list of groups.
pub open spec fn groups_bytes(gs: Seq<Seq<u8>>) -> Seq<u8>
    decreases gs.len(),
{
    if gs.len() == 0 {
        Seq::<u8>::empty()
    } else {
        groups_bytes(gs.drop_last()) + group_bytes(gs.last())
    }
}

/// Whether every group in the list is well formed: each a 16-bit group,
/// except that the last may be an IPv4 literal when `v4_last` allows it.
pub open spec fn groups_ok(gs: Seq<Seq<u8>>, v4_last: bool) -> bool {
    forall|i: int|
        0 <= i < gs.len() ==> (h16_ok(#[trigger] gs[i]) || (v4_last && i == gs.len() - 1
            && ipv4_ok(gs[i])))
}

/// How many 16-bit address groups the list stands for: an IPv4 literal in
/// the last place counts twice.
pub open spec fn group_count(gs: Seq<Seq<u8>>) -> int {
    gs.len() + if gs.len() > 0 && ipv4_ok(gs.last()) {
        1int
    } else {
        0int
    }
}

/// The group list of one side of an elision: the empty string stands for no
/// groups at all.
pub open spec fn side_groups(s: Seq<u8>) -> Seq<Seq<u8>> {
    if s.len() == 0 {
        Seq::<Seq<u8>>::empty()
    } else {
        split_on(s, 58)
    }
}

/// The position of the first `::` in `s`, or -1 when there is none.
pub open spec fn find_elision(s: Seq<u8>) -> int
    decreases s.len(),
{
    if s.len() < 2 {
        -1
    } else if s[0] == 58 && s[1] == 58 {
        0
    } else if find_elision(s.drop_first()) < 0 {
        -1
    } else {
        1 + find_elision(s.drop_first())
    }
}

/// `find_elision` names the first adjacent pair of colons, if any.
pub proof fn lemma_find_elision(s: Seq<u8>)
    ensures
        find_elision(s) < 0 ==> forall|i: int|
            0 <= i < s.len() - 1 ==> !(s[i] == 58 && #[trigger] s[i + 1] == 58),
        find_elision(s) >= 0 ==> {
            &&& find_elision(s) <= s.len() - 2
            &&& s[find_elision(s)] == 58 && s[find_elision(s) + 1] == 58
            &&& forall|i: int|
                0 <= i < find_elision(s) ==> !(s[i] == 58 && #[trigger] s[i + 1] == 58)
        },
    decreases s.len(),
{
    if s.len() < 2 {
    } else if s[0] == 58 && s[1] == 58 {
    } else {
        let t = s.drop_first();
        lemma_find_elision(t);
        if find_elision(s) < 0 {
            assert forall|i: int| 0 <= i < s.len() - 1 implies !(s[i] == 58 && #[trigger] s[i
                + 1] == 58) by {
                if i > 0 {
                    assert(t[i - 1] == s[i]);
                    assert(t[i] == s[i + 1]);
                    assert(!(t[i - 1] == 58 && t[i] == 58));
                }
            }
        } else {
            let e = find_elision(s);
            assert(e == 1 + find_elision(t));
            assert(t[e - 1] == s[e]);
            assert(t[e] == s[e + 1]);
            assert forall|i: int| 0 <= i < e implies !(s[i] == 58 && #[trigger] s[i + 1] == 58)
                by {
                if i > 0 {
                    assert(t[i - 1] == s[i]);
                    assert(t[i] == s[i + 1]);
                    assert(!(t[i - 1] == 58 && t[i] == 58));
                }
            }
        }
    }
}

/// Whether `s` is an IPv6 literal.
pub open spec fn ipv6_ok(s: Seq<u8>) -> bool {
    let e = find_elision(s);
    if e < 0 {
        groups_ok(split_on(s, 58), true) && group_count(split_on(s, 58)) == 8
    } else {
        let head = side_groups(s.take(e));
        let tail = side_groups(s.skip(e + 2));
        &&& find_elision(s.skip(e + 2)) < 0
        &&& groups_ok(head, false)
        &&& groups_ok(tail, true)
        &&& group_count(head) + group_count(tail) <= 7
    }
}

/// A run of `n` zero bytes.
pub open spec fn zero_bytes(n: int) -> Seq<u8> {
    Seq::new(n as nat, |i: int| 0u8)
}

/// The sixteen address bytes of the IPv6 literal `s`: the bytes of the
/// groups before the elision, zeros for the elided run, and the bytes of the
/// groups after it.
pub open spec fn ipv6_octets(s: Seq<u8>) -> Seq<u8> {
    let e = find_elision(s);
    if e < 0 {
        groups_bytes(split_on(s, 58))
    } else {
        let hb = groups_bytes(side_groups(s.take(e)));
        let tb = groups_bytes(side_groups(s.skip(e + 2)));
        hb + zero_bytes(16 - hb.len() - tb.len()) + tb
    }
}

/// A 16-bit group is never an IPv4 literal: it holds no dot to split on.
proof fn lemma_h16_not_ipv4(g: Seq<u8>)
    requires
        h16_ok(g),
    ensures
        !ipv4_ok(g),
{
    assert(forall|i: int| 0 <= i < g.len() ==> #[trigger] g[i] != 46);
    lemma_split_on_whole(g, 46);
}

/// Appending a group appends its bytes.
proof fn lemma_groups_bytes_push(gs: Seq<Seq<u8>>, g: Seq<u8>)
    ensures
        groups_bytes(gs.push(g)) == groups_bytes(gs) + group_bytes(g),
{
    assert(gs.push(g).drop_last() == gs);
    assert(gs.push(g).last() == g);
}

/// The bytes of a well-formed group list are two per 16-bit group.
proof fn lemma_groups_bytes_len(gs: Seq<Seq<u8>>, v4_last: bool)
    requires
        groups_ok(gs, v4_last),
    ensures
        groups_bytes(gs).len() == 2 * group_count(gs),
    decreases gs.len(),
{
    if gs.len() == 0 {
    } else {
        assert(groups_ok(gs.drop_last(), false)) by {
            assert(forall|i: int|
                0 <= i < gs.len() - 1 ==> #[trigger] gs.drop_last()[i] == gs[i]);
            assert forall|i: int| 0 <= i < gs.drop_last().len() implies h16_ok(
                #[trigger] gs.drop_last()[i],
            ) by {
                assert(h16_ok(gs[i]) || (v4_last && i == gs.len() - 1 && ipv4_ok(gs[i])));
            }
        }
        lemma_groups_bytes_len(gs.drop_last(), false);
        if ipv4_ok(gs.last()) {
            assert(group_bytes(gs.last()).len() == 4) by {
                lemma_split_on_len(gs.last(), 46);
            }
            assert(group_count(gs) == gs.len() + 1);
            assert(group_count(gs.drop_last()) == gs.len() - 1) by {
                if gs.drop_last().len() > 0 {
                    assert(h16_ok(gs.drop_last().last()));
                    lemma_h16_not_ipv4(gs.drop_last().last());
                }
            }
        } else {
            assert(group_bytes(gs.last()).len() == 2);
            assert(group_count(gs.drop_last()) == gs.len() - 1) by {
                if gs.drop_last().len() > 0 {
                    assert(h16_ok(gs.drop_last().last()));
                    lemma_h16_not_ipv4(gs.drop_last().last());
                }
            }
        }
    }
}

/// An IPv4 literal has exactly four address bytes.
pub proof fn lemma_ipv4_octets_len(s: Seq<u8>)
    requires
        ipv4_ok(s),
    ensures
        ipv4_octets(s).len() == 4,
{
}

/// An IPv6 literal has exactly sixteen address bytes.
pub proof fn lemma_ipv6_octets_len(s: Seq<u8>)
    requires
        ipv6_ok(s),
    ensures
        ipv6_octets(s).len() == 16,
{
    let e = find_elision(s);
    if e < 0 {
        lemma_groups_bytes_len(split_on(s, 58), true);
    } else {
        let head = side_groups(s.take(e));
        let tail = side_groups(s.skip(e + 2));
        lemma_groups_bytes_len(head, false);
        lemma_groups_bytes_len(tail, true);
    }
}

/// Parses one 16-bit hex group.
fn parse_h16(s: &Vec<u8>) -> (r: Option<u16>)
    ensures
        match r {
            Some(v) => h16_ok(s@) && v == hex_value(s@),
            None => !h16_ok(s@),
        },
{
    if s.len() < 1 || s.len() > 4 {
        return None;
    }
    let mut v: u32 = 0;
    let mut i: usize = 0;
    while i < s.len()
        invariant
            i <= s.len(),
            s@.len() <= 4,
            forall|j: int| 0 <= j < i ==> is_hex_digit(#[trigger] s@[j]),
            v == hex_value(s@.take(i as int)),
            v < 65536,
            i < s@.len() ==> v < 4096,
        decreases s.len() - i,
    {
        let b = s[i];
        let d: u32 = if b >= 48 && b <= 57 {
            (b - 48) as u32
        } else if b >= 97 && b <= 102 {
            (b - 87) as u32
        } else if b >= 65 && b <= 70 {
            (b - 55) as u32
        } else {
            proof {
                assert(!is_hex_digit(s@[i as int]));
            }
            return None;
        };
        v = v * 16 + d;
        i = i + 1;
        proof {
            assert(s@.take(i as int).drop_last() == s@.take(i - 1));
            assert(s@.take(i as int).last() == b);
            assert(v == hex_value(s@.take(i as int)));
            assert(i < s@.len() ==> i <= 3);
            assert(i <= 3 ==> v < 4096) by {
                lemma_hex_value_bound(s@.take(i as int));
            }
            lemma_hex_value_bound(s@.take(i as int));
        }
    }
    proof {
        assert(s@.take(s@.len() as int) == s@);
    }
    Some(v as u16)
}

/// A hex numeral of at most four digits is below two to the sixteenth.
proof fn lemma_hex_value_bound(s: Seq<u8>)
    requires
        forall|j: int| 0 <= j < s.len() ==> is_hex_digit(#[trigger] s[j]),
    ensures
        0 <= hex_value(s),
        s.len() <= 1 ==> hex_value(s) < 16,
        s.len() <= 2 ==> hex_value(s) < 256,
        s.len() <= 3 ==> hex_value(s) < 4096,
        s.len() <= 4 ==> hex_value(s) < 65536,
    decreases s.len(),
{
    if s.len() == 0 {
    } else {
        assert(forall|j: int| 0 <= j < s.len() - 1 ==> #[trigger] s.drop_last()[j] == s[j]);
        lemma_hex_value_bound(s.drop_last());
        assert(0 <= hex_digit_value(s.last()) < 16);
    }
}

/// Parses a colon-separated group list into its address bytes; the last
/// group may be an IPv4 literal when `v4_last` allows it.
fn parse_groups(parts: &Vec<Vec<u8>>, v4_last: bool) -> (r: Option<Vec<u8>>)
    ensures
        match r {
            Some(v) => {
                &&& groups_ok(vecs_view(parts@), v4_last)
                &&& v@ == groups_bytes(vecs_view(parts@))
                &&& v@.len() == 2 * group_count(vecs_view(parts@))
            },
            None => !groups_ok(vecs_view(parts@), v4_last),
        },
{
    let ghost gs = vecs_view(parts@);
    let mut out: Vec<u8> = Vec::new();
    let mut i: usize = 0;
    proof {
        assert(gs.take(0) =~= Seq::<Seq<u8>>::empty());
        assert(out@ =~= groups_bytes(gs.take(0)));
    }
    while i < parts.len()
        invariant
            i <= parts.len(),
            gs == vecs_view(parts@),
            forall|j: int| 0 <= j < i ==> h16_ok(#[trigger] gs[j]) || (v4_last && j == gs.len()
                - 1 && ipv4_ok(gs[j])),
            out@ == groups_bytes(gs.take(i as int)),
        decreases parts.len() - i,
    {
        let part = &parts[i];
        proof {
            assert(gs[i as int] == part@);
            assert(gs.take(i + 1).drop_last() == gs.take(i as int));
            assert(gs.take(i + 1).last() == gs[i as int]);
        }
        match parse_h16(part) {
            Some(v) => {
                proof {
                    lemma_h16_not_ipv4(part@);
                }
                out.push((v / 256) as u8);
                out.push((v % 256) as u8);
                proof {
                    assert(out@ =~= groups_bytes(gs.take(i as int)) + h16_bytes(part@));
                }
            },
            None => {
                if v4_last && i == parts.len() - 1 {
                    match parse_ipv4(part.as_slice()) {
                        Some(o) => {
                            out.push(o[0]);
                            out.push(o[1]);
                            out.push(o[2]);
                            out.push(o[3]);
                            proof {
                                assert(o@ =~= seq![o@[0], o@[1], o@[2], o@[3]]);
                                assert(out@ =~= groups_bytes(gs.take(i as int)) + ipv4_octets(
                                    part@,
                                ));
                            }
                        },
                        None => {
                            return None;
                        },
                    }
                } else {
                    return None;
                }
            },
        }
        i = i + 1;
    }
    proof {
        assert(gs.take(gs.len() as int) == gs);
        lemma_groups_bytes_len(gs, v4_last);
    }
    Some(out)
}

/// Finds the first `::` in `s`.
fn find_double_colon(s: &[u8]) -> (r: Option<usize>)
    ensures
        match r {
            Some(e) => e == find_elision(s@),
            None => find_elision(s@) < 0,
        },
{
    proof {
        lemma_find_elision(s@);
    }
    if s.len() < 2 {
        return None;
    }
    let mut i: usize = 0;
    while i < s.len() - 1
        invariant
            s@.len() >= 2,
            i <= s@.len() - 1,
            forall|j: int| 0 <= j < i ==> !(s@[j] == 58 && #[trigger] s@[j + 1] == 58),
        decreases s.len() - i,
    {
        if s[i] == 58 && s[i + 1] == 58 {
            proof {
                lemma_find_elision(s@);
                assert(find_elision(s@) >= 0) by {
                    if find_elision(s@) < 0 {
                        assert(!(s@[i as int] == 58 && s@[i as int + 1] == 58));
                    }
                }
                let e = find_elision(s@);
                assert(e == i) by {
                    if e < i {
                        assert(!(s@[e] == 58 && s@[e + 1] == 58));
                    }
                    if e > i {
                        assert(!(s@[i as int] == 58 && s@[i as int + 1] == 58));
                    }
                }
            }
            return Some(i);
        }
        i = i + 1;
    }
    proof {
        lemma_find_elision(s@);
        if find_elision(s@) >= 0 {
            let e = find_elision(s@);
            assert(!(s@[e] == 58 && s@[e + 1] == 58));
        }
    }
    None
}

/// Parses an IPv6 literal into its sixteen address bytes.
pub fn parse_ipv6(s: &[u8]) -> (r: Option<[u8; 16]>)
    ensures
        match r {
            Some(o) => ipv6_ok(s@) && o@ == ipv6_octets(s@),
            None => !ipv6_ok(s@),
        },
{
    let bytes: Vec<u8> = match find_double_colon(s) {
        None => {
            let parts = split_bytes(s, 58);
            let b = match parse_groups(&parts, true) {
                Some(b) => b,
                None => {
                    return None;
                },
            };
            if b.len() != 16 {
                return None;
            }
            b
        },
        Some(e) => {
            proof {
                lemma_find_elision(s@);
                assert(e == find_elision(s@));
                assert(find_elision(s@) >= 0);
                assert(e + 2 <= s@.len());
            }
            let n = s.len();
            let head = slice_subrange(s, 0, e);
            let tail = slice_subrange(s, e + 2, n);
            proof {
                assert(head@ == s@.take(e as int));
                assert(tail@ == s@.skip(e + 2));
            }
            match find_double_colon(tail) {
                Some(_) => {
                    return None;
                },
                None => {},
            }
            let hb: Vec<u8> = if head.len() == 0 {
                proof {
                    assert(side_groups(head@) =~= Seq::<Seq<u8>>::empty());
                }
                Vec::new()
            } else {
                let hparts = split_bytes(head, 58);
                match parse_groups(&hparts, false) {
                    Some(b) => b,
                    None => {
                        return None;
                    },
                }
            };
            let tb: Vec<u8> = if tail.len() == 0 {
                proof {
                    assert(side_groups(tail@) =~= Seq::<Seq<u8>>::empty());
                }
                Vec::new()
            } else {
                let tparts = split_bytes(tail, 58);
                match parse_groups(&tparts, true) {
                    Some(b) => b,
                    None => {
                        return None;
                    },
                }
            };
            if hb.len() > 14 || tb.len() > 14 - hb.len() {
                proof {
                    assert(!ipv6_ok(s@));
                }
                return None;
            }
            let mut v: Vec<u8> = Vec::new();
            let ghost hbs = hb@;
            let ghost tbs = tb@;
            let mut hb = hb;
            v.append(&mut hb);
            let fill = 16 - v.len() - tb.len();
            let mut k: usize = 0;
            while k < fill
                invariant
                    k <= fill,
                    v@ == hbs + zero_bytes(k as int),
                decreases fill - k,
            {
                v.push(0);
                proof {
                    assert(v@ =~= hbs + zero_bytes(k + 1));
                }
                k = k + 1;
            }
            let mut tb = tb;
            v.append(&mut tb);
            proof {
                assert(v@ =~= ipv6_octets(s@));
                assert(v@.len() == 16) by {
                    assert(zero_bytes(fill as int).len() == fill);
                }
            }
            v
        },
    };
    let o: [u8; 16] = [
        bytes[0],
        bytes[1],
        bytes[2],
        bytes[3],
        bytes[4],
        bytes[5],
        bytes[6],
        bytes[7],
        bytes[8],
        bytes[9],
        bytes[10],
        bytes[11],
        bytes[12],
        bytes[13],
        bytes[14],
        bytes[15],
    ];
    proof {
        assert(o@ =~= bytes@);
    }
    Some(o)
}

} // verus!

