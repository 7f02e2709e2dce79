//! Cleanup of completion output: code-fence markers are deleted wherever
//! they stand, paired or not.

use vstd::prelude::*;
use crate::text::{occurs_at, remove_all, remove_occurrences};

verus! {

/// The bare fence marker: three backticks.
pub open spec fn fence() -> Seq<u8> {
    seq![96u8, 96u8, 96u8]
}

/// The language-tagged fence marker: three backticks then `rust`.
pub open spec fn tagged_fence() -> Seq<u8> {
    seq![96u8, 96u8, 96u8, 114u8, 117u8, 115u8, 116u8]
}

/// The response with every tagged fence deleted, then every bare fence.
pub open spec fn sanitized(s: Seq<u8>) -> Seq<u8> {
    remove_all(remove_all(s, tagged_fence()), fence())
}

/// Deletes every fence marker from a completion response.
pub fn sanitize_response(response: &[u8]) -> (r: Vec<u8>)
    ensures
        r@ == sanitized(response@),
{
    let tagged: Vec<u8> = vec![96u8, 96u8, 96u8, 114u8, 117u8, 115u8, 116u8];
    let bare: Vec<u8> = vec![96u8, 96u8, 96u8];
    assert(tagged@ =~= tagged_fence());
    assert(bare@ =~= fence());
    let once = remove_occurrences(response, tagged.as_slice());
    remove_occurrences(once.as_slice(), bare.as_slice())
}

/// Number of backticks that `s` starts with.
pub open spec fn leading_ticks(s: Seq<u8>) -> nat
    decreases s.len(),
{
    if s.len() > 0 && s[0] == 96u8 {
        1 + leading_ticks(s.subrange(1, s.len() as int))
    } else {
        0
    }
}

proof fn lemma_leading_ticks_at_least(s: Seq<u8>, k: int)
    requires
        0 <= k <= s.len(),
        forall|j: int| 0 <= j < k ==> s[j] == 96u8,
    ensures
        leading_ticks(s) >= k,
    decreases k,
{
    if k > 0 {
        let t = s.subrange(1, s.len() as int);
        assert forall|j: int| 0 <= j < k - 1 implies t[j] == 96u8 by {
            assert(t[j] == s[j + 1]);
        }
        lemma_leading_ticks_at_least(t, k - 1);
    }
}

proof fn lemma_leading_ticks_at_most(s: Seq<u8>)
    ensures
        leading_ticks(s) <= s.len(),
        leading_ticks(s) < s.len() ==> s[leading_ticks(s) as int] != 96u8,
    decreases s.len(),
{
    if s.len() > 0 && s[0] == 96u8 {
        let t = s.subrange(1, s.len() as int);
        lemma_leading_ticks_at_most(t);
        if leading_ticks(s) < s.len() {
            assert(s[leading_ticks(s) as int] == t[leading_ticks(t) as int]);
        }
    }
}

/// Shifting past a first byte moves every occurrence one place down.
proof fn lemma_occurs_in_tail(c: u8, t: Seq<u8>, p: Seq<u8>, i: int)
    requires
        i >= 1,
    ensures
        occurs_at(seq![c] + t, p, i) == occurs_at(t, p, i - 1),
{
    let r = seq![c] + t;
    if 0 <= i - 1 && i + p.len() <= r.len() {
        assert(r.subrange(i, i + p.len()) =~= t.subrange(i - 1, i - 1 + p.len()));
    }
}

/// Deleting bare fences leaves none behind, and cuts a leading run of
/// backticks to its length modulo three.
proof fn lemma_fence_free(s: Seq<u8>)
    ensures
        forall|i: int| !occurs_at(remove_all(s, fence()), fence(), i),
        leading_ticks(remove_all(s, fence())) == leading_ticks(s) % 3,
    decreases s.len(),
{
    let f = fence();
    let r = remove_all(s, f);
    if s.len() < 3 {
        lemma_leading_ticks_at_most(s);
        if s.len() == 2 && s[0] == 96u8 && s[1] == 96u8 {
            lemma_leading_ticks_at_least(s, 2);
        }
    } else if s.subrange(0, 3) == f {
        let t = s.subrange(3, s.len() as int);
        lemma_fence_free(t);
        let s1 = s.subrange(1, s.len() as int);
        let s2 = s1.subrange(1, s1.len() as int);
        let s3 = s2.subrange(1, s2.len() as int);
        assert(s[0] == s.subrange(0, 3)[0]);
        assert(s1[0] == s.subrange(0, 3)[1]);
        assert(s2[0] == s.subrange(0, 3)[2]);
        assert(s3 =~= t);
        assert(leading_ticks(s2) == 1 + leading_ticks(s3));
        assert(leading_ticks(s1) == 1 + leading_ticks(s2));
        assert(leading_ticks(s) == 1 + leading_ticks(s1));
    } else {
        let t = s.subrange(1, s.len() as int);
        lemma_fence_free(t);
        let rt = remove_all(t, f);
        assert(r == seq![s[0]] + rt);
        assert forall|i: int| !occurs_at(r, f, i) by {
            if i >= 1 {
                lemma_occurs_in_tail(s[0], rt, f, i);
            } else if i == 0 && occurs_at(r, f, 0) {
                assert(r.subrange(0, 3)[0] == r[0]);
                assert(r.subrange(0, 3)[1] == rt[0]);
                assert(r.subrange(0, 3)[2] == rt[1]);
                if s[0] == 96u8 {
                    if t[0] == 96u8 && t[1] == 96u8 {
                        assert(s.subrange(0, 3) =~= f);
                    }
                    assert(leading_ticks(t) <= 1) by {
                        lemma_leading_ticks_at_most(t);
                        if leading_ticks(t) >= 2 {
                            lemma_leading_ticks_at_most(t.subrange(1, t.len() as int));
                        }
                    }
                }
                lemma_leading_ticks_at_least(rt, 2);
            }
        }
        if s[0] == 96u8 {
            assert(leading_ticks(t) <= 1) by {
                lemma_leading_ticks_at_most(t);
                if t[0] == 96u8 && t[1] == 96u8 {
                    assert(s.subrange(0, 3) =~= f);
                }
                if leading_ticks(t) >= 2 {
                    lemma_leading_ticks_at_most(t.subrange(1, t.len() as int));
                }
            }
            assert(r.subrange(1, r.len() as int) =~= rt);
            assert(leading_ticks(r) == 1 + leading_ticks(rt));
        } else {
            assert(r[0] == s[0]);
        }
    }
}

/// Deleting a pattern that does not occur changes nothing.
proof fn lemma_remove_absent(s: Seq<u8>, p: Seq<u8>)
    requires
        p.len() > 0,
        forall|i: int| !occurs_at(s, p, i),
    ensures
        remove_all(s, p) == s,
    decreases s.len(),
{
    if s.len() >= p.len() {
        assert(!occurs_at(s, p, 0));
        assert(s.subrange(0, p.len() as int) != p);
        let t = s.subrange(1, s.len() as int);
        assert forall|i: int| !occurs_at(t, p, i) by {
            if occurs_at(t, p, i) {
                assert(s.subrange(i + 1, i + 1 + p.len()) =~= t.subrange(i, i + p.len()));
                assert(occurs_at(s, p, i + 1));
            }
        }
        lemma_remove_absent(t, p);
        assert(s =~= seq![s[0]] + t);
    }
}

/// After one pass of the sanitizer no fence marker of either kind is left.
pub proof fn lemma_sanitized_has_no_fence(s: Seq<u8>)
    ensures
        forall|i: int| !occurs_at(sanitized(s), fence(), i),
        forall|i: int| !occurs_at(sanitized(s), tagged_fence(), i),
{
    let r = sanitized(s);
    lemma_fence_free(remove_all(s, tagged_fence()));
    assert forall|i: int| !occurs_at(r, tagged_fence(), i) by {
        if occurs_at(r, tagged_fence(), i) {
            assert(r.subrange(i, i + 3) =~= tagged_fence().subrange(0, 3));
            assert(tagged_fence().subrange(0, 3) =~= fence());
            assert(occurs_at(r, fence(), i));
        }
    }
}

/// The sanitizer is idempotent: a second pass returns its input unchanged.
pub proof fn lemma_sanitize_idempotent(s: Seq<u8>)
    ensures
        sanitized(sanitized(s)) == sanitized(s),
{
    let r = sanitized(s);
    lemma_sanitized_has_no_fence(s);
    lemma_remove_absent(r, tagged_fence());
    lemma_remove_absent(r, fence());
}

} // verus!
