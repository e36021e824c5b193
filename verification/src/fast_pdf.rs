//! A page counter that reads the file as text: first the chain from
//! `startxref` to the Pages object, each object read up to its `endobj`, then
//! the `/Count` that stands near a `/Type` naming `/Pages`.

use vstd::prelude::*;
use vstd::slice::slice_subrange;
use vstd::string::StringSliceAdditionalSpecFns;
use crate::keywords::{
    count_bytes, count_key, endobj_bytes, endobj_key, media_box_bytes, media_box_key, pages_bytes,
    pages_key, root_bytes, root_key, startxref_bytes, startxref_key, trailer_bytes, trailer_key,
    type_bytes, type_key,
};
use crate::page_box::{read_text_box, text_box, PagePoints};
use crate::scanner::{
    find, first_match, first_occurrence, last_match, lesser, matches_at, matches_pattern,
    push_decimal, rfind_between,
};
use crate::fast_path::object_marker;
use crate::ultra_fast_pdf::{leading_number, leading_number_within, COUNT_BOUND, NUMBER_BOUND};

verus! {

/// `/Pages` must start and end within this many bytes from a `/Type` for the
/// dictionary to count as a node of the page tree.
pub const TYPE_WINDOW: usize = 50;

/// A `/Count` is looked for in this many bytes from such a `/Type`.
pub const SNIPPET_WINDOW: usize = 1000;

/// The number behind the first `/Count` of `s`, where it does not exceed the
/// bound on page counts. Only the first `/Count` is looked at.
pub open spec fn snippet_count(s: Seq<u8>) -> Option<usize> {
    match first_occurrence(s, count_key()) {
        Some(i) => leading_number(s.subrange(i + 6, s.len() as int), COUNT_BOUND as int),
        None => None,
    }
}

/// The object number behind the first occurrence of `key` in `s`.
pub open spec fn text_reference(s: Seq<u8>, key: Seq<u8>) -> Option<usize> {
    match first_occurrence(s, key) {
        Some(i) => leading_number(s.subrange(i + key.len(), s.len() as int), NUMBER_BOUND as int),
        None => None,
    }
}

/// The definition of object `id`: from the first occurrence of its marker up
/// to the `endobj` that follows.
pub open spec fn text_object(doc: Seq<u8>, id: nat) -> Option<Seq<u8>> {
    match first_occurrence(doc, object_marker(id)) {
        Some(start) => match first_match(doc, endobj_key(), start, (doc.len() + 1) as int) {
            Some(end) => Some(doc.subrange(start, end)),
            None => None,
        },
        None => None,
    }
}

/// A `/Type` stands at `i`, and `/Pages` within the type window from it.
pub open spec fn names_pages(doc: Seq<u8>, i: int) -> bool {
    matches_at(doc, i, type_key()) && first_occurrence(
        doc.subrange(i, lesser(i + TYPE_WINDOW, doc.len() as int)),
        pages_key(),
    ) is Some
}

/// The positive page count that the text at `i` declares, where a node of the
/// page tree stands there.
pub open spec fn typed_count_at(doc: Seq<u8>, i: int) -> Option<usize> {
    if names_pages(doc, i) {
        match snippet_count(doc.subrange(i, lesser(i + SNIPPET_WINDOW, doc.len() as int))) {
            Some(n) => if n > 0 {
                Some(n)
            } else {
                None
            },
            None => None,
        }
    } else {
        None
    }
}

/// The count declared at the first position in `[from, to)` that declares one.
pub open spec fn first_typed_count(doc: Seq<u8>, from: int, to: int) -> Option<usize>
    decreases to - from,
{
    if from >= to {
        None
    } else if typed_count_at(doc, from) is Some {
        typed_count_at(doc, from)
    } else {
        first_typed_count(doc, from + 1, to)
    }
}

/// The count declared by the first node of the page tree that declares a
/// positive one.
pub open spec fn pattern_page_count(doc: Seq<u8>) -> Option<usize> {
    first_typed_count(doc, 0, doc.len() as int)
}

/// The cross-reference offset written behind the last `startxref` of `doc`;
/// none where it does not lie inside `doc`.
pub open spec fn text_xref_offset(doc: Seq<u8>) -> Option<usize> {
    match last_match(doc, startxref_key(), 0, doc.len() as int) {
        Some(p) => match leading_number(doc.subrange(p + 9, doc.len() as int), NUMBER_BOUND as int) {
            Some(offset) => if offset < doc.len() {
                Some(offset)
            } else {
                None
            },
            None => None,
        },
        None => None,
    }
}

/// The trailer: everything from the first `trailer` behind `offset`.
pub open spec fn text_trailer(doc: Seq<u8>, offset: int) -> Option<Seq<u8>> {
    let rest = doc.subrange(offset, doc.len() as int);
    match first_occurrence(rest, trailer_key()) {
        Some(t) => Some(rest.subrange(t, rest.len() as int)),
        None => None,
    }
}

/// The definition of the root Pages object, reached through the trailer and
/// the catalog.
pub open spec fn text_pages_object(doc: Seq<u8>) -> Option<Seq<u8>> {
    match text_xref_offset(doc) {
        Some(offset) => match text_trailer(doc, offset as int) {
            Some(trailer) => match text_reference(trailer, root_key()) {
                Some(root_id) => match text_object(doc, root_id as nat) {
                    Some(catalog) => match text_reference(catalog, pages_key()) {
                        Some(pages_id) => text_object(doc, pages_id as nat),
                        None => None,
                    },
                    None => None,
                },
                None => None,
            },
            None => None,
        },
        None => None,
    }
}

/// The page count that the root Pages object declares.
pub open spec fn structure_page_count(doc: Seq<u8>) -> Option<usize> {
    match text_pages_object(doc) {
        Some(pages) => snippet_count(pages),
        None => None,
    }
}

/// Where no position from `from` on declares a count, none is found.
pub proof fn lemma_first_typed_count_none(doc: Seq<u8>, from: int, to: int)
    requires
        forall|j: int| from <= j < to ==> typed_count_at(doc, j) is None,
    ensures
        first_typed_count(doc, from, to) is None,
    decreases to - from,
{
    if from < to {
        lemma_first_typed_count_none(doc, from + 1, to);
    }
}

/// The number behind the first `/Count` in `bytes`.
pub fn count_in_snippet(bytes: &[u8]) -> (r: Option<usize>)
    ensures
        r == snippet_count(bytes@),
{
    let key = count_bytes();
    let len: usize = bytes.len();
    match find(bytes, key.as_slice(), 0) {
        Some(i) => leading_number_within(slice_subrange(bytes, i + 6, len), COUNT_BOUND),
        None => None,
    }
}

/// The number behind the first `/Count` in `snippet`; `None` where there is no
/// `/Count`, no number behind the first one, or a number above the bound on
/// page counts.
pub fn extract_count_from_snippet(snippet: &str) -> (r: Option<usize>)
    ensures
        r == snippet_count(snippet.spec_bytes()),
{
    count_in_snippet(snippet.as_bytes())
}

/// The object number behind the first occurrence of `key` in `bytes`.
pub fn reference_in_text(bytes: &[u8], key: &[u8]) -> (r: Option<usize>)
    ensures
        r == text_reference(bytes@, key@),
{
    let len: usize = bytes.len();
    match find(bytes, key, 0) {
        Some(i) => leading_number_within(slice_subrange(bytes, i + key.len(), len), NUMBER_BOUND),
        None => None,
    }
}

/// The number of the catalog, as the trailer names it behind `/Root`.
pub fn extract_root_obj_id(trailer: &str) -> (r: Option<usize>)
    ensures
        r == text_reference(trailer.spec_bytes(), root_key()),
{
    let key = root_bytes();
    reference_in_text(trailer.as_bytes(), key.as_slice())
}

/// The number of the root Pages object, as the catalog names it behind `/Pages`.
pub fn extract_pages_obj_id(catalog: &str) -> (r: Option<usize>)
    ensures
        r == text_reference(catalog.spec_bytes(), pages_key()),
{
    let key = pages_bytes();
    reference_in_text(catalog.as_bytes(), key.as_slice())
}

/// The definition of object `obj_id`, from its marker up to its `endobj`.
pub fn find_object_content(bytes: &[u8], obj_id: usize) -> (r: Option<&[u8]>)
    ensures
        match r {
            Some(content) => text_object(bytes@, obj_id as nat) == Some(content@),
            None => text_object(bytes@, obj_id as nat) is None,
        },
{
    let mut marker: Vec<u8> = Vec::new();
    push_decimal(&mut marker, obj_id);
    marker.push(' ' as u8);
    marker.push('0' as u8);
    marker.push(' ' as u8);
    marker.push('o' as u8);
    marker.push('b' as u8);
    marker.push('j' as u8);
    assert(marker@ =~= object_marker(obj_id as nat));
    let start: usize = match find(bytes, marker.as_slice(), 0) {
        Some(start) => start,
        None => { return None; },
    };
    let endobj = endobj_bytes();
    match find(bytes, endobj.as_slice(), start) {
        Some(end) => Some(slice_subrange(bytes, start, end)),
        None => None,
    }
}

/// The positive page count declared within the snippet window of the first
/// `/Type` that names `/Pages` and has one.
pub fn find_pages_count_pattern(bytes: &[u8]) -> (r: Option<usize>)
    ensures
        r == pattern_page_count(bytes@),
{
    let type_key = type_bytes();
    let pages = pages_bytes();
    let len: usize = bytes.len();
    let mut i: usize = 0;
    while i < len
        invariant
            i <= len,
            len == bytes@.len(),
            type_key@ == crate::keywords::type_key(),
            pages@ == pages_key(),
            first_typed_count(bytes@, 0, len as int) == first_typed_count(bytes@, i as int, len as int),
        decreases len - i,
    {
        if matches_pattern(bytes, i, type_key.as_slice()) {
            let near: usize = if len - i > TYPE_WINDOW {
                i + TYPE_WINDOW
            } else {
                len
            };
            if find(slice_subrange(bytes, i, near), pages.as_slice(), 0).is_some() {
                let far: usize = if len - i > SNIPPET_WINDOW {
                    i + SNIPPET_WINDOW
                } else {
                    len
                };
                match count_in_snippet(slice_subrange(bytes, i, far)) {
                    Some(n) => {
                        if n > 0 {
                            return Some(n);
                        }
                    },
                    None => {},
                }
            }
        }
        i += 1;
    }
    None
}

/// The page count that the root Pages object declares, reached from the last
/// `startxref` through the trailer and the catalog.
pub fn parse_pdf_structure(bytes: &[u8]) -> (r: Option<usize>)
    ensures
        r == structure_page_count(bytes@),
{
    let len: usize = bytes.len();
    let startxref = startxref_bytes();
    let position: usize = match rfind_between(bytes, startxref.as_slice(), 0, len) {
        Some(p) => p,
        None => { return None; },
    };
    let offset: usize = match leading_number_within(
        slice_subrange(bytes, position + 9, len),
        NUMBER_BOUND,
    ) {
        Some(offset) => offset,
        None => { return None; },
    };
    if offset >= len {
        return None;
    }
    let rest = slice_subrange(bytes, offset, len);
    let trailer = trailer_bytes();
    let trailer_at: usize = match find(rest, trailer.as_slice(), 0) {
        Some(t) => t,
        None => { return None; },
    };
    let trailer_text = slice_subrange(rest, trailer_at, rest.len());
    let root = root_bytes();
    let root_id: usize = match reference_in_text(trailer_text, root.as_slice()) {
        Some(id) => id,
        None => { return None; },
    };
    let catalog = match find_object_content(bytes, root_id) {
        Some(content) => content,
        None => { return None; },
    };
    let pages = pages_bytes();
    let pages_id: usize = match reference_in_text(catalog, pages.as_slice()) {
        Some(id) => id,
        None => { return None; },
    };
    let pages_object = match find_object_content(bytes, pages_id) {
        Some(content) => content,
        None => { return None; },
    };
    count_in_snippet(pages_object)
}

/// The page count of a PDF read as text: the count that the root of the page
/// tree declares where the structure of the file leads to it, else the count
/// of the first node of the page tree that declares a positive one.
pub fn extract_page_count_fast(bytes: &[u8]) -> (r: Option<usize>)
    ensures
        r == match structure_page_count(bytes@) {
            Some(n) => Some(n),
            None => pattern_page_count(bytes@),
        },
{
    if let Some(n) = parse_pdf_structure(bytes) {
        return Some(n);
    }
    find_pages_count_pattern(bytes)
}

/// The size of the first page, from the first `/MediaBox` of the file:
/// width and height in thousandths of a point. Only the first `/MediaBox` is
/// looked at.
pub fn extract_first_page_dimensions(bytes: &[u8]) -> (r: Option<PagePoints>)
    ensures
        r == text_box(bytes@, media_box_key()),
{
    let key = media_box_bytes();
    read_text_box(bytes, key.as_slice())
}

} // verus!
