//! Splitting a byte string on a separator byte, with the lemmas that connect
//! the specification-level split to a single left-to-right scan. Used for
//! the `NO_PROXY` list (split on `,`) and the IP-literal grammars (split on
//! `.` and `:`).

use vstd::prelude::*;

verus! {

/// The entries of `s` between occurrences of `sep`. Splitting the empty
/// string gives one empty entry; every separator ends one entry and begins
/// the next, so there is always one entry more than there are separators.
pub open spec fn split_on(s: Seq<u8>, sep: u8) -> Seq<Seq<u8>>
    decreases s.len(),
{
    if s.len() == 0 {
        seq![Seq::<u8>::empty()]
    } else if s[0] == sep {
        seq![Seq::<u8>::empty()] + split_on(s.drop_first(), sep)
    } else {
        let rest = split_on(s.drop_first(), sep);
        seq![seq![s[0]] + rest[0]] + rest.drop_first()
    }
}

/// A split is never empty.
pub proof fn lemma_split_on_len(s: Seq<u8>, sep: u8)
    ensures
        split_on(s, sep).len() >= 1,
    decreases s.len(),
{
    if s.len() == 0 {
    } else {
        lemma_split_on_len(s.drop_first(), sep);
    }
}

/// An entry that contains no separator is the whole first entry of the
/// split of itself followed by anything more.
pub proof fn lemma_split_on_head(cur: Seq<u8>, rest: Seq<u8>, sep: u8)
    requires
        forall|i: int| 0 <= i < cur.len() ==> cur[i] != sep,
    ensures
        split_on(cur + rest, sep) == seq![cur + split_on(rest, sep)[0]] + split_on(
            rest,
            sep,
        ).drop_first(),
    decreases cur.len(),
{
    lemma_split_on_len(rest, sep);
    if cur.len() == 0 {
        assert(cur + rest == rest);
        assert(cur + split_on(rest, sep)[0] == split_on(rest, sep)[0]);
        assert(seq![split_on(rest, sep)[0]] + split_on(rest, sep).drop_first() =~= split_on(
            rest,
            sep,
        ));
    } else {
        let s = cur + rest;
        assert(s[0] == cur[0]);
        assert(s.drop_first() =~= cur.drop_first() + rest);
        lemma_split_on_head(cur.drop_first(), rest, sep);
        let inner = split_on(cur.drop_first() + rest, sep);
        assert(split_on(s, sep) == seq![seq![s[0]] + inner[0]] + inner.drop_first());
        assert(seq![s[0]] + (cur.drop_first() + split_on(rest, sep)[0]) =~= cur + split_on(
            rest,
            sep,
        )[0]);
        assert(split_on(s, sep) =~= seq![cur + split_on(rest, sep)[0]] + split_on(
            rest,
            sep,
        ).drop_first());
    }
}

/// A string without the separator splits into itself alone.
pub proof fn lemma_split_on_whole(s: Seq<u8>, sep: u8)
    requires
        forall|i: int| 0 <= i < s.len() ==> s[i] != sep,
    ensures
        split_on(s, sep) == seq![s],
{
    lemma_split_on_head(s, Seq::<u8>::empty(), sep);
    assert(s + Seq::<u8>::empty() == s);
    assert(s + split_on(Seq::<u8>::empty(), sep)[0] == s);
    assert(seq![s] + split_on(Seq::<u8>::empty(), sep).drop_first() =~= seq![s]);
}

/// A separator after a separator-free prefix closes that prefix as the
/// first entry.
pub proof fn lemma_split_on_sep(cur: Seq<u8>, rest: Seq<u8>, sep: u8)
    requires
        forall|i: int| 0 <= i < cur.len() ==> cur[i] != sep,
    ensures
        split_on(cur + seq![sep] + rest, sep) == seq![cur] + split_on(rest, sep),
{
    lemma_split_on_len(rest, sep);
    lemma_split_on_head(cur, seq![sep] + rest, sep);
    assert(cur + (seq![sep] + rest) =~= cur + seq![sep] + rest);
    assert((seq![sep] + rest)[0] == sep);
    assert((seq![sep] + rest).drop_first() =~= rest);
    assert(split_on(seq![sep] + rest, sep) == seq![Seq::<u8>::empty()] + split_on(rest, sep));
    assert(cur + split_on(seq![sep] + rest, sep)[0] == cur);
    assert((seq![Seq::<u8>::empty()] + split_on(rest, sep)).drop_first() =~= split_on(rest, sep));
    assert(seq![cur + split_on(seq![sep] + rest, sep)[0]] + split_on(
        seq![sep] + rest,
        sep,
    ).drop_first() =~= seq![cur] + split_on(rest, sep));
}

/// The byte sequences held by a sequence of byte vectors.
pub open spec fn vecs_view(v: Seq<Vec<u8>>) -> Seq<Seq<u8>> {
    Seq::new(v.len(), |i: int| v[i]@)
}

/// Splits `s` on `sep` by one scan.
pub fn split_bytes(s: &[u8], sep: u8) -> (r: Vec<Vec<u8>>)
    ensures
        vecs_view(r@) == split_on(s@, sep),
{
    let mut out: Vec<Vec<u8>> = Vec::new();
    let mut cur: Vec<u8> = Vec::new();
    let mut i: usize = 0;
    proof {
        assert(vecs_view(out@) =~= Seq::<Seq<u8>>::empty());
        assert(cur@ + s@.skip(0) =~= s@);
        assert(vecs_view(out@) + split_on(cur@ + s@.skip(0), sep) =~= split_on(s@, sep));
    }
    while i < s.len()
        invariant
            i <= s.len(),
            forall|j: int| 0 <= j < cur@.len() ==> cur@[j] != sep,
            split_on(s@, sep) == vecs_view(out@) + split_on(cur@ + s@.skip(i as int), sep),
        decreases s.len() - i,
    {
        let b = s[i];
        if b == sep {
            proof {
                assert(s@.skip(i as int) =~= seq![sep] + s@.skip(i + 1));
                assert(cur@ + s@.skip(i as int) =~= cur@ + seq![sep] + s@.skip(i + 1));
                lemma_split_on_sep(cur@, s@.skip(i + 1), sep);
                assert(vecs_view(out@.push(cur)) =~= vecs_view(out@).push(cur@));
                assert(vecs_view(out@).push(cur@) + split_on(s@.skip(i + 1), sep) =~= vecs_view(
                    out@,
                ) + (seq![cur@] + split_on(s@.skip(i + 1), sep)));
                assert((Seq::<u8>::empty() + s@.skip(i + 1)) =~= s@.skip(i + 1));
            }
            out.push(cur);
            cur = Vec::new();
        } else {
            proof {
                assert(s@.skip(i as int) =~= seq![b] + s@.skip(i + 1));
                assert(cur@ + s@.skip(i as int) =~= cur@.push(b) + s@.skip(i + 1));
            }
            cur.push(b);
        }
        i = i + 1;
    }
    proof {
        assert(s@.skip(s@.len() as int) =~= Seq::<u8>::empty());
        assert(cur@ + s@.skip(s@.len() as int) =~= cur@);
        lemma_split_on_whole(cur@, sep);
        assert(vecs_view(out@.push(cur)) =~= vecs_view(out@).push(cur@));
        assert(vecs_view(out@).push(cur@) =~= split_on(s@, sep));
    }
    out.push(cur);
    out
}

} // verus!
