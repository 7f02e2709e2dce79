//! Byte-sequence helpers shared by the other modules.

use vstd::prelude::*;

verus! {

/// Whether `p` occurs in `s` starting at offset `i`.
pub open spec fn occurs_at(s: Seq<u8>, p: Seq<u8>, i: int) -> bool {
    0 <= i && i + p.len() <= s.len() && s.subrange(i, i + p.len()) == p
}

/// Appends the bytes of `t` to `out`.
pub fn append_bytes(out: &mut Vec<u8>, t: &[u8])
    ensures
        final(out)@ == old(out)@ + t@,
{
    let mut i: usize = 0;
    while i < t.len()
        invariant
            i <= t@.len(),
            out@ == old(out)@ + t@.subrange(0, i as int),
        decreases t@.len() - i,
    {
        out.push(t[i]);
        i = i + 1;
        assert(t@.subrange(0, i as int) == t@.subrange(0, i - 1) + seq![t@[i - 1]]);
    }
    assert(t@.subrange(0, i as int) == t@);
}


/// `s` with every occurrence of `p` deleted, matched leftmost first and
/// without overlap, as a text replace with the empty string does.
pub open spec fn remove_all(s: Seq<u8>, p: Seq<u8>) -> Seq<u8>
    decreases s.len(),
{
    if p.len() == 0 || s.len() < p.len() {
        s
    } else if s.subrange(0, p.len() as int) == p {
        remove_all(s.subrange(p.len() as int, s.len() as int), p)
    } else {
        seq![s[0]] + remove_all(s.subrange(1, s.len() as int), p)
    }
}

/// Whether `p` occurs in `s` at `i`, tested byte by byte.
pub fn matches_at(s: &[u8], p: &[u8], i: usize) -> (r: bool)
    ensures
        r == occurs_at(s@, p@, i as int),
{
    if p.len() > s.len() || i > s.len() - p.len() {
        return false;
    }
    let mut k: usize = 0;
    while k < p.len()
        invariant
            k <= p@.len(),
            i + p@.len() <= s@.len(),
            s@.len() == s.len(),
            forall|j: int| 0 <= j < k ==> s@[i + j] == p@[j],
        decreases p@.len() - k,
    {
        if s[i + k] != p[k] {
            assert(s@.subrange(i as int, i + p@.len())[k as int] != p@[k as int]);
            return false;
        }
        k = k + 1;
    }
    assert(s@.subrange(i as int, i + p@.len()) =~= p@);
    true
}

proof fn lemma_remove_all_step(s: Seq<u8>, p: Seq<u8>, i: int)
    requires
        p.len() > 0,
        0 <= i < s.len(),
    ensures
        occurs_at(s, p, i) ==> remove_all(s.subrange(i, s.len() as int), p) == remove_all(
            s.subrange(i + p.len(), s.len() as int),
            p,
        ),
        !occurs_at(s, p, i) ==> remove_all(s.subrange(i, s.len() as int), p) == seq![s[i]]
            + remove_all(s.subrange(i + 1, s.len() as int), p),
{
    let t = s.subrange(i, s.len() as int);
    if t.len() < p.len() {
        assert(!occurs_at(s, p, i));
        assert(t.subrange(1, t.len() as int) =~= s.subrange(i + 1, s.len() as int));
        assert(t =~= seq![s[i]] + t.subrange(1, t.len() as int));
    } else {
        assert(t.subrange(0, p.len() as int) =~= s.subrange(i, i + p.len()));
        assert(t.subrange(p.len() as int, t.len() as int) =~= s.subrange(
            i + p.len(),
            s.len() as int,
        ));
        assert(t.subrange(1, t.len() as int) =~= s.subrange(i + 1, s.len() as int));
    }
}

/// Deletes every occurrence of `p` from `s`.
pub fn remove_occurrences(s: &[u8], p: &[u8]) -> (r: Vec<u8>)
    requires
        p@.len() > 0,
    ensures
        r@ == remove_all(s@, p@),
{
    let mut out: Vec<u8> = Vec::new();
    let mut i: usize = 0;
    assert(s@.subrange(0, s@.len() as int) =~= s@);
    while i < s.len()
        invariant
            p@.len() > 0,
            i <= s@.len(),
            out@ + remove_all(s@.subrange(i as int, s@.len() as int), p@) == remove_all(s@, p@),
        decreases s@.len() - i,
    {
        proof {
            lemma_remove_all_step(s@, p@, i as int);
        }
        if matches_at(s, p, i) {
            i = i + p.len();
        } else {
            let ghost before = out@;
            out.push(s[i]);
            assert(out@ == before + seq![s@[i as int]]);
            assert(before + (seq![s@[i as int]] + remove_all(s@.subrange(i + 1, s@.len() as int), p@))
                =~= out@ + remove_all(s@.subrange(i + 1, s@.len() as int), p@));
            i = i + 1;
        }
    }
    assert(s@.subrange(i as int, s@.len() as int) =~= Seq::<u8>::empty());
    assert(out@ + Seq::<u8>::empty() =~= out@);
    out
}

} // verus!
