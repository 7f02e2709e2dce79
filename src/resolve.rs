//! Resolution of a marker invocation: the first file, in walk order, whose
//! syntax holds a marker call with the searched key, and the first such call
//! in it.

use vstd::prelude::*;
use crate::names::{is_build_dir, is_build_dir_name, is_source_file_name, is_source_name};

verus! {

/// Name of the marker macro.
pub const MARKER: &'static str = "gpt_inject";

/// A macro call as the parser reports it: the last segment of its path, its
/// argument tokens as text, and its byte span `[start, end)` in the file.
pub struct MacroCall {
    pub name: String,
    pub tokens: String,
    pub start: usize,
    pub end: usize,
}

/// What became of one file of the walk.
pub enum Scan {
    /// The file could not be read; it is passed over.
    Unreadable,
    /// The file was read but did not parse; the message is the parser's.
    Malformed(String),
    /// The file parsed; its text and its macro calls in traversal order.
    Parsed(Vec<u8>, Vec<MacroCall>),
}

/// A regular file met by the walk: its path components from the walk's root
/// (the root's own name first), and its scan.
pub struct SourceFile {
    pub path: Vec<Vec<u8>>,
    pub scan: Scan,
}

/// Where the marker was found: index of the file and of the call in it.
#[derive(PartialEq, Eq, Structural, Debug, Clone, Copy)]
pub struct Found {
    pub file: usize,
    pub call: usize,
}

/// Why resolution stopped without a marker.
#[derive(PartialEq, Eq, Structural, Debug, Clone, Copy)]
pub enum ResolveError {
    /// No candidate file holds a marker call with the key.
    NotFound,
    /// The candidate file at this index did not parse.
    Unparsable(usize),
}

/// The value of the single string literal that `tokens` spell, if they
/// spell exactly one.
pub uninterp spec fn string_literal_value(tokens: Seq<char>) -> Option<Seq<char>>;

/// Relies on `syn::parse_str::<syn::LitStr>` and `syn::LitStr::value`: the
/// tokens parse as one string literal, and its unescaped value.
#[verifier::external_body]
fn literal_value(tokens: &str) -> (r: Option<String>)
    ensures
        r is None <==> string_literal_value(tokens@) is None,
        r matches Some(v) ==> string_literal_value(tokens@) == Some(v@),
{
    syn::parse_str::<syn::LitStr>(tokens).ok().map(|lit| lit.value())
}

/// A marker call whose literal argument is the key.
pub open spec fn is_marker(call: MacroCall, key: Seq<char>) -> bool {
    call.name@ == MARKER@ && string_literal_value(call.tokens@) == Some(key)
}

/// A file the resolver reads: no component of its path is a build-output
/// directory, and its name has the source extension.
pub open spec fn is_candidate(path: Seq<Vec<u8>>) -> bool {
    path.len() > 0 && (forall|k: int| 0 <= k < path.len() ==> !is_build_dir(#[trigger] path[k]@))
        && is_source_name(path.last()@)
}

/// Index of the first marker call with the key at or after `from`.
pub open spec fn first_marker(calls: Seq<MacroCall>, key: Seq<char>, from: int) -> Option<int>
    decreases calls.len() - from,
{
    if from < 0 || from >= calls.len() {
        None
    } else if is_marker(calls[from], key) {
        Some(from)
    } else {
        first_marker(calls, key, from + 1)
    }
}

/// Resolution over the files from index `from` on: a malformed candidate
/// stops it, a candidate with a marker ends it, other files are passed over.
pub open spec fn resolution(files: Seq<SourceFile>, key: Seq<char>, from: int) -> Result<(int, int), ResolveError>
    decreases files.len() - from,
{
    if from < 0 || from >= files.len() {
        Err(ResolveError::NotFound)
    } else if !is_candidate(files[from].path@) {
        resolution(files, key, from + 1)
    } else {
        match files[from].scan {
            Scan::Malformed(_) => Err(ResolveError::Unparsable(from as usize)),
            Scan::Parsed(_, calls) => match first_marker(calls@, key, 0) {
                Some(j) => Ok((from, j)),
                None => resolution(files, key, from + 1),
            },
            Scan::Unreadable => resolution(files, key, from + 1),
        }
    }
}

/// The result of `resolve` as a pair of indices.
pub open spec fn outcome(r: Result<Found, ResolveError>) -> Result<(int, int), ResolveError> {
    match r {
        Ok(f) => Ok((f.file as int, f.call as int)),
        Err(e) => Err(e),
    }
}

/// Whether a call is the marker with the given key.
pub fn marker_matches(call: &MacroCall, key: &String) -> (r: bool)
    ensures
        r == is_marker(*call, key@),
{
    let marker = MARKER.to_owned();
    if call.name != marker {
        return false;
    }
    match literal_value(call.tokens.as_str()) {
        Some(v) => v == *key,
        None => false,
    }
}

/// Index of the first marker call with the key, in traversal order.
pub fn find_marker(calls: &Vec<MacroCall>, key: &String) -> (r: Option<usize>)
    ensures
        match r {
            Some(j) => first_marker(calls@, key@, 0) == Some(j as int),
            None => first_marker(calls@, key@, 0) is None,
        },
{
    let mut i: usize = 0;
    while i < calls.len()
        invariant
            i <= calls@.len(),
            first_marker(calls@, key@, 0) == first_marker(calls@, key@, i as int),
        decreases calls@.len() - i,
    {
        if marker_matches(&calls[i], key) {
            return Some(i);
        }
        i = i + 1;
    }
    None
}

/// Whether the resolver reads a file at this path.
pub fn is_candidate_path(path: &Vec<Vec<u8>>) -> (r: bool)
    ensures
        r == is_candidate(path@),
{
    if path.len() == 0 {
        return false;
    }
    let mut k: usize = 0;
    while k < path.len()
        invariant
            k <= path@.len(),
            forall|j: int| 0 <= j < k ==> !is_build_dir(#[trigger] path@[j]@),
        decreases path@.len() - k,
    {
        if is_build_dir_name(path[k].as_slice()) {
            return false;
        }
        k = k + 1;
    }
    is_source_file_name(path[path.len() - 1].as_slice())
}

/// Finds the marker call with the key: the first candidate file in walk
/// order that holds one, and the first such call in it. A candidate that did
/// not parse before that stops the search.
pub fn resolve(files: &Vec<SourceFile>, key: &String) -> (r: Result<Found, ResolveError>)
    ensures
        outcome(r) == resolution(files@, key@, 0),
{
    let mut i: usize = 0;
    while i < files.len()
        invariant
            i <= files@.len(),
            resolution(files@, key@, 0) == resolution(files@, key@, i as int),
        decreases files@.len() - i,
    {
        let f = &files[i];
        if is_candidate_path(&f.path) {
            match &f.scan {
                Scan::Malformed(_) => {
                    return Err(ResolveError::Unparsable(i));
                },
                Scan::Parsed(_, calls) => {
                    if let Some(j) = find_marker(calls, key) {
                        return Ok(Found { file: i, call: j });
                    }
                },
                Scan::Unreadable => {},
            }
        }
        i = i + 1;
    }
    Err(ResolveError::NotFound)
}


/// A file holds a marker call with the key.
pub open spec fn holds_marker(f: SourceFile, key: Seq<char>) -> bool {
    match f.scan {
        Scan::Parsed(_, calls) => exists|j: int| 0 <= j < calls@.len() && is_marker(#[trigger] calls@[j], key),
        _ => false,
    }
}

/// A file the resolver would stop on as unparsable.
pub open spec fn malformed_candidate(f: SourceFile) -> bool {
    is_candidate(f.path@) && f.scan is Malformed
}

proof fn lemma_first_marker_none(calls: Seq<MacroCall>, key: Seq<char>, from: int)
    requires
        0 <= from,
        forall|j: int| from <= j < calls.len() ==> !is_marker(#[trigger] calls[j], key),
    ensures
        first_marker(calls, key, from) is None,
    decreases calls.len() - from,
{
    if from < calls.len() {
        lemma_first_marker_none(calls, key, from + 1);
    }
}

proof fn lemma_no_candidate_marker(files: Seq<SourceFile>, key: Seq<char>, from: int)
    requires
        0 <= from,
        forall|i: int| 0 <= i < files.len() ==> !malformed_candidate(#[trigger] files[i]),
        forall|i: int| 0 <= i < files.len() && is_candidate(files[i].path@) ==> !holds_marker(#[trigger] files[i], key),
    ensures
        resolution(files, key, from) == Err::<(int, int), ResolveError>(ResolveError::NotFound),
    decreases files.len() - from,
{
    if from < files.len() {
        lemma_no_candidate_marker(files, key, from + 1);
        let f = files[from];
        if is_candidate(f.path@) {
            assert(!malformed_candidate(files[from]));
            assert(!holds_marker(files[from], key));
            if let Scan::Parsed(_, calls) = f.scan {
                assert forall|j: int| 0 <= j < calls@.len() implies !is_marker(#[trigger] calls@[j], key) by {}
                lemma_first_marker_none(calls@, key, 0);
            }
        }
    }
}

/// A key that no file of the workspace holds is not found, provided every
/// candidate file parses: no marker comes back, so nothing can be spliced.
pub proof fn lemma_absent_key_not_found(files: Seq<SourceFile>, key: Seq<char>)
    requires
        forall|i: int| 0 <= i < files.len() ==> !malformed_candidate(#[trigger] files[i]),
        forall|i: int| 0 <= i < files.len() ==> !holds_marker(#[trigger] files[i], key),
    ensures
        resolution(files, key, 0) == Err::<(int, int), ResolveError>(ResolveError::NotFound),
{
    lemma_no_candidate_marker(files, key, 0);
}

/// A marker that stands only in files under a build-output directory is never
/// reached: resolution reports it as not found, provided every candidate
/// file parses.
pub proof fn lemma_build_dir_not_visited(files: Seq<SourceFile>, key: Seq<char>)
    requires
        forall|i: int| 0 <= i < files.len() ==> !malformed_candidate(#[trigger] files[i]),
        forall|i: int|
            0 <= i < files.len() && holds_marker(#[trigger] files[i], key) ==> exists|k: int|
                0 <= k < files[i].path@.len() && is_build_dir(#[trigger] files[i].path@[k]@),
    ensures
        resolution(files, key, 0) == Err::<(int, int), ResolveError>(ResolveError::NotFound),
{
    assert forall|i: int| 0 <= i < files.len() && is_candidate(files[i].path@) implies !holds_marker(#[trigger] files[i], key) by {
        if holds_marker(files[i], key) {
            let k = choose|k: int| 0 <= k < files[i].path@.len() && is_build_dir(#[trigger] files[i].path@[k]@);
            assert(!is_build_dir(files[i].path@[k]@));
        }
    }
    lemma_no_candidate_marker(files, key, 0);
}

proof fn lemma_first_marker_found(calls: Seq<MacroCall>, key: Seq<char>, from: int)
    requires
        first_marker(calls, key, from) is Some,
    ensures
        0 <= first_marker(calls, key, from)->0 < calls.len(),
        is_marker(calls[first_marker(calls, key, from)->0], key),
    decreases calls.len() - from,
{
    if 0 <= from < calls.len() && !is_marker(calls[from], key) {
        lemma_first_marker_found(calls, key, from + 1);
    }
}

proof fn lemma_found_from(files: Seq<SourceFile>, key: Seq<char>, from: int)
    requires
        resolution(files, key, from) is Ok,
    ensures
        ({
            let (i, j) = resolution(files, key, from)->Ok_0;
            &&& 0 <= i < files.len()
            &&& is_candidate(files[i].path@)
            &&& files[i].scan matches Scan::Parsed(_, calls) && 0 <= j < calls@.len() && is_marker(calls@[j], key)
        }),
    decreases files.len() - from,
{
    if 0 <= from < files.len() {
        let f = files[from];
        if !is_candidate(f.path@) {
            lemma_found_from(files, key, from + 1);
        } else if let Scan::Parsed(_, calls) = f.scan {
            if first_marker(calls@, key, 0) is Some {
                lemma_first_marker_found(calls@, key, 0);
            } else {
                lemma_found_from(files, key, from + 1);
            }
        } else if f.scan is Unreadable {
            lemma_found_from(files, key, from + 1);
        }
    }
}

/// What resolution finds is a marker call whose literal argument is the key,
/// in a candidate file that parsed.
pub proof fn lemma_found_is_marker(files: Seq<SourceFile>, key: Seq<char>)
    requires
        resolution(files, key, 0) is Ok,
    ensures
        ({
            let (i, j) = resolution(files, key, 0)->Ok_0;
            &&& 0 <= i < files.len()
            &&& is_candidate(files[i].path@)
            &&& files[i].scan matches Scan::Parsed(_, calls) && 0 <= j < calls@.len()
                && calls@[j].name@ == MARKER@ && string_literal_value(calls@[j].tokens@) == Some(key)
        }),
{
    lemma_found_from(files, key, 0);
}

} // verus!
