//! Rules on file and directory names met while walking a workspace.

use vstd::prelude::*;
use vstd::string::StringSliceAdditionalSpecFns;

verus! {

/// Name of the build-output directory, pruned from every walk.
pub const BUILD_DIR: &'static str = "target";

/// Name of a package manifest.
pub const MANIFEST_NAME: &'static str = "Cargo.toml";

/// Extension of a source file.
pub const SOURCE_EXTENSION: &'static str = "rs";

/// ASCII upper-case letters mapped to lower case; other bytes unchanged.
pub open spec fn ascii_lower(b: u8) -> u8 {
    if 65 <= b <= 90 {
        (b + 32) as u8
    } else {
        b
    }
}

/// Equal byte strings once ASCII letters are folded to lower case.
pub open spec fn same_ignoring_ascii_case(a: Seq<u8>, b: Seq<u8>) -> bool {
    a.len() == b.len() && forall|i: int| 0 <= i < a.len() ==> ascii_lower(a[i]) == ascii_lower(b[i])
}

/// Index of the last `.` in a name, or -1 when it has none.
pub open spec fn last_dot(name: Seq<u8>) -> int
    decreases name.len(),
{
    if name.len() == 0 {
        -1
    } else if name.last() == 46u8 {
        name.len() - 1
    } else {
        last_dot(name.drop_last())
    }
}

/// A file name whose extension (the text after its last dot, where that dot
/// is not the first byte) is the source extension, ignoring ASCII case.
pub open spec fn is_source_name(name: Seq<u8>) -> bool {
    let k = last_dot(name);
    k > 0 && same_ignoring_ascii_case(
        name.subrange(k + 1, name.len() as int),
        SOURCE_EXTENSION.spec_bytes(),
    )
}

/// A directory entry name that the walk prunes with everything below it.
pub open spec fn is_build_dir(name: Seq<u8>) -> bool {
    same_ignoring_ascii_case(name, BUILD_DIR.spec_bytes())
}

/// A file name that marks a package manifest.
pub open spec fn is_manifest(name: Seq<u8>) -> bool {
    same_ignoring_ascii_case(name, MANIFEST_NAME.spec_bytes())
}

/// Compares two byte strings, folding ASCII letters to lower case.
pub fn eq_ignoring_ascii_case(a: &[u8], b: &[u8]) -> (r: bool)
    ensures
        r == same_ignoring_ascii_case(a@, b@),
{
    if a.len() != b.len() {
        return false;
    }
    let mut i: usize = 0;
    while i < a.len()
        invariant
            a@.len() == b@.len(),
            i <= a@.len(),
            forall|j: int| 0 <= j < i ==> ascii_lower(a@[j]) == ascii_lower(b@[j]),
        decreases a@.len() - i,
    {
        let x: u8 = a[i];
        let y: u8 = b[i];
        let lx: u8 = if 65 <= x && x <= 90 { x + 32 } else { x };
        let ly: u8 = if 65 <= y && y <= 90 { y + 32 } else { y };
        if lx != ly {
            return false;
        }
        i = i + 1;
    }
    true
}

/// Whether an entry of this name is a build-output directory to prune.
pub fn is_build_dir_name(name: &[u8]) -> (r: bool)
    ensures
        r == is_build_dir(name@),
{
    eq_ignoring_ascii_case(name, BUILD_DIR.as_bytes())
}

/// Whether a file of this name is a package manifest.
pub fn is_manifest_name(name: &[u8]) -> (r: bool)
    ensures
        r == is_manifest(name@),
{
    eq_ignoring_ascii_case(name, MANIFEST_NAME.as_bytes())
}

proof fn lemma_last_dot(name: Seq<u8>, k: int)
    requires
        0 <= k <= name.len(),
        forall|j: int| k <= j < name.len() ==> name[j] != 46u8,
    ensures
        last_dot(name) == last_dot(name.subrange(0, k)),
    decreases name.len() - k,
{
    if k < name.len() {
        assert(name.drop_last() =~= name.subrange(0, name.len() - 1));
        lemma_last_dot(name.drop_last(), k);
        assert(name.drop_last().subrange(0, k) =~= name.subrange(0, k));
    } else {
        assert(name.subrange(0, k) =~= name);
    }
}

/// Whether a file of this name is a source file.
pub fn is_source_file_name(name: &[u8]) -> (r: bool)
    ensures
        r == is_source_name(name@),
{
    let n: usize = name.len();
    let mut k: usize = n;
    while k > 0
        invariant
            k <= n,
            n == name@.len(),
            forall|j: int| k <= j < n ==> name@[j] != 46u8,
        decreases k,
    {
        if name[k - 1] == 46u8 {
            proof {
                lemma_last_dot(name@, k as int);
                let pre = name@.subrange(0, k as int);
                assert(pre.last() == 46u8);
            }
            if k - 1 == 0 {
                return false;
            }
            return eq_ignoring_ascii_case(
                vstd::slice::slice_subrange(name, k, n),
                SOURCE_EXTENSION.as_bytes(),
            );
        }
        k = k - 1;
    }
    proof {
        lemma_last_dot(name@, 0);
    }
    false
}

} // verus!
