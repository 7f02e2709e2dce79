//! Choice of the workspace root among the manifests found by a walk.

use vstd::prelude::*;

verus! {

/// The characters with the Unicode White_Space property.
pub open spec fn white_space(c: char) -> bool {
    ('\u{9}' <= c && c <= '\u{d}') || c == ' ' || c == '\u{85}' || c == '\u{a0}'
        || c == '\u{1680}' || ('\u{2000}' <= c && c <= '\u{200a}') || c == '\u{2028}'
        || c == '\u{2029}' || c == '\u{202f}' || c == '\u{205f}' || c == '\u{3000}'
}

/// `s` with every white-space character removed.
pub open spec fn strip_white_space(s: Seq<char>) -> Seq<char>
    decreases s.len(),
{
    if s.len() == 0 {
        s
    } else if white_space(s.last()) {
        strip_white_space(s.drop_last())
    } else {
        strip_white_space(s.drop_last()).push(s.last())
    }
}

/// Whether `p` occurs in `s` as a contiguous run.
pub open spec fn contains_run(s: Seq<char>, p: Seq<char>) -> bool {
    exists|i: int| 0 <= i && i + p.len() <= s.len() && #[trigger] s.subrange(i, i + p.len()) == p
}

/// The entry a manifest holds for a package: `name="<package>"`.
pub open spec fn name_entry(package: Seq<char>) -> Seq<char> {
    seq!['n', 'a', 'm', 'e', '=', '"'] + package + seq!['"']
}

/// A manifest declares a package when, with all white space removed, its
/// text holds the package's name entry.
pub open spec fn declares(manifest: Seq<char>, package: Seq<char>) -> bool {
    contains_run(strip_white_space(manifest), name_entry(package))
}

/// Relies on `str::chars`: the characters of the text, in order.
#[verifier::external_body]
fn chars_of(s: &str) -> (r: Vec<char>)
    ensures
        r@ == s@,
{
    s.chars().collect()
}

/// Whether `c` has the Unicode White_Space property.
pub fn is_white_space(c: char) -> (r: bool)
    ensures
        r == white_space(c),
{
    ('\u{9}' <= c && c <= '\u{d}') || c == ' ' || c == '\u{85}' || c == '\u{a0}'
        || c == '\u{1680}' || ('\u{2000}' <= c && c <= '\u{200a}') || c == '\u{2028}'
        || c == '\u{2029}' || c == '\u{202f}' || c == '\u{205f}' || c == '\u{3000}'
}

fn strip(s: &Vec<char>) -> (r: Vec<char>)
    ensures
        r@ == strip_white_space(s@),
{
    let mut out: Vec<char> = Vec::new();
    let mut i: usize = 0;
    while i < s.len()
        invariant
            i <= s@.len(),
            out@ == strip_white_space(s@.subrange(0, i as int)),
        decreases s@.len() - i,
    {
        let c = s[i];
        proof {
            let next = s@.subrange(0, i + 1);
            assert(next.drop_last() =~= s@.subrange(0, i as int));
            assert(next.last() == c);
        }
        if !is_white_space(c) {
            out.push(c);
        }
        i = i + 1;
    }
    assert(s@.subrange(0, s@.len() as int) =~= s@);
    out
}

fn contains(s: &Vec<char>, p: &Vec<char>) -> (r: bool)
    ensures
        r == contains_run(s@, p@),
{
    if p.len() > s.len() {
        return false;
    }
    assert(s@.len() == s.len());
    let last: usize = s.len() - p.len();
    let mut i: usize = 0;
    while i <= last
        invariant
            last == s@.len() - p@.len(),
            s@.len() <= usize::MAX,
            i <= last + 1,
            forall|j: int| 0 <= j < i ==> #[trigger] s@.subrange(j, j + p@.len()) != p@,
        decreases last + 1 - i,
    {
        let mut k: usize = 0;
        let mut same: bool = true;
        while k < p.len()
            invariant
                i <= last,
                last == s@.len() - p@.len(),
                s@.len() <= usize::MAX,
                k <= p@.len(),
                same == forall|j: int| 0 <= j < k ==> s@[i + j] == p@[j],
            decreases p@.len() - k,
        {
            if s[i + k] != p[k] {
                same = false;
            }
            k = k + 1;
        }
        if same {
            assert(s@.subrange(i as int, i + p@.len()) =~= p@);
            return true;
        }
        assert(s@.subrange(i as int, i + p@.len()) != p@) by {
            let w = choose|j: int| 0 <= j < p@.len() && !(s@[i + j] == p@[j]);
            assert(s@.subrange(i as int, i + p@.len())[w] == s@[i + w]);
        }
        i = i + 1;
    }
    proof {
        assert forall|j: int| !(0 <= j && j + p@.len() <= s@.len() && #[trigger] s@.subrange(j, j + p@.len()) == p@) by {
            if 0 <= j && j + p@.len() <= s@.len() {
                assert(j < i);
            }
        }
    }
    false
}

/// Whether a manifest's text declares the package of the given name.
pub fn declares_package(manifest: &str, package: &str) -> (r: bool)
    ensures
        r == declares(manifest@, package@),
{
    let text = chars_of(manifest);
    let stripped = strip(&text);
    let mut entry: Vec<char> = vec!['n', 'a', 'm', 'e', '=', '"'];
    let name = chars_of(package);
    let mut i: usize = 0;
    while i < name.len()
        invariant
            i <= name@.len(),
            entry@ == seq!['n', 'a', 'm', 'e', '=', '"'] + name@.subrange(0, i as int),
        decreases name@.len() - i,
    {
        entry.push(name[i]);
        i = i + 1;
        assert(name@.subrange(0, i as int) =~= name@.subrange(0, i - 1).push(name@[i - 1]));
    }
    entry.push('"');
    assert(name@.subrange(0, name@.len() as int) =~= name@);
    assert(entry@ =~= name_entry(package@));
    contains(&stripped, &entry)
}

/// Index of the first manifest, in walk order, that declares the package;
/// `None` when none does, and the caller then keeps its starting directory.
pub fn find_workspace(manifests: &Vec<String>, package: &str) -> (r: Option<usize>)
    ensures
        r is None <==> forall|i: int| 0 <= i < manifests@.len() ==> !declares(manifests@[i]@, package@),
        r matches Some(k) ==> k < manifests@.len() && declares(manifests@[k as int]@, package@)
            && forall|i: int| 0 <= i < k ==> !declares(manifests@[i]@, package@),
{
    let mut i: usize = 0;
    while i < manifests.len()
        invariant
            i <= manifests@.len(),
            forall|j: int| 0 <= j < i ==> !declares(manifests@[j]@, package@),
        decreases manifests@.len() - i,
    {
        if declares_package(manifests[i].as_str(), package) {
            return Some(i);
        }
        i = i + 1;
    }
    None
}

} // verus!
