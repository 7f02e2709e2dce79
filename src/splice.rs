//! Rewriting of a source text: a marker's byte span is replaced by an
//! annotated block of generated code.

use vstd::prelude::*;
use vstd::slice::slice_subrange;
use vstd::string::StringSliceAdditionalSpecFns;
use crate::text::append_bytes;
use crate::sanitize::{sanitize_response, sanitized};

verus! {

/// Opens the provenance comment; the search key follows it.
pub const PROVENANCE_OPEN: &'static str = "\n// generated by: gpt_inject!(\"";

/// Closes the provenance comment; the generated code follows it.
pub const PROVENANCE_CLOSE: &'static str = "\")\n";

/// Marks the end of the generated code.
pub const END_MARKER: &'static str = "\n// end of generated code\n";

/// The annotated block that replaces a marker: provenance comment naming the
/// key, the code, and the end marker.
pub open spec fn generated_block(key: Seq<u8>, code: Seq<u8>) -> Seq<u8> {
    PROVENANCE_OPEN.spec_bytes() + key + PROVENANCE_CLOSE.spec_bytes() + code
        + END_MARKER.spec_bytes()
}

/// The text before `start`, the annotated block, and the text after the byte
/// that follows the span (the delimiter that closed the marker is dropped).
pub open spec fn spliced(text: Seq<u8>, start: int, end: int, key: Seq<u8>, code: Seq<u8>) -> Seq<u8> {
    text.subrange(0, start) + generated_block(key, code) + text.subrange(end + 1, text.len() as int)
}

/// Builds the new file text for a marker found at `[start, end)`.
pub fn splice(text: &[u8], start: usize, end: usize, key: &str, code: &[u8]) -> (r: Vec<u8>)
    requires
        start <= end < text@.len(),
    ensures
        r@ == spliced(text@, start as int, end as int, key.spec_bytes(), code@),
{
    let n: usize = text.len();
    let mut out: Vec<u8> = Vec::new();
    append_bytes(&mut out, slice_subrange(text, 0, start));
    append_bytes(&mut out, PROVENANCE_OPEN.as_bytes());
    append_bytes(&mut out, key.as_bytes());
    append_bytes(&mut out, PROVENANCE_CLOSE.as_bytes());
    append_bytes(&mut out, code);
    append_bytes(&mut out, END_MARKER.as_bytes());
    append_bytes(&mut out, slice_subrange(text, end + 1, n));
    out
}

/// The new file text once a completion response is injected at a marker:
/// the response is cleaned of fence markers and spliced over `[start, end)`.
pub fn rewrite_source(text: &[u8], start: usize, end: usize, key: &str, response: &[u8]) -> (r: Vec<u8>)
    requires
        start <= end < text@.len(),
    ensures
        r@ == spliced(text@, start as int, end as int, key.spec_bytes(), sanitized(response@)),
{
    let code = sanitize_response(response);
    splice(text, start, end, key, code.as_slice())
}

} // verus!
