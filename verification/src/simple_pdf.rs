//! A conservative page counter for PDFs that are text throughout: the
//! greatest `/Count` whose number stands within a short window behind the key.

use vstd::prelude::*;
use vstd::slice::slice_subrange;
use vstd::string::StringSliceAdditionalSpecFns;
use vstd::utf8::valid_utf8;
use crate::keywords::{count_bytes, count_key, media_box_bytes, media_box_key};
use crate::page_box::{read_text_box, text_box, PagePoints};
use crate::scanner::{lesser, matches_at, matches_pattern};
use crate::text::as_text;
use crate::ultra_fast_pdf::{greater, leading_number, leading_number_within, plausible, plausible_count};

verus! {

/// A number is looked for in this many bytes behind a `/Count`.
pub const SHORT_WINDOW: usize = 50;

/// The page count that position `i` of `doc` suggests: the plausible number
/// that follows optional white space within the short window behind a `/Count`
/// that stands at `i`; zero where there is none.
pub open spec fn window_suggestion(doc: Seq<u8>, i: int) -> usize {
    if matches_at(doc, i, count_key()) && i + 6 < doc.len() {
        plausible(
            leading_number(
                doc.subrange(i + 6, lesser(i + 6 + SHORT_WINDOW, doc.len() as int)),
                usize::MAX as int,
            ),
        )
    } else {
        0
    }
}

/// The greatest suggestion of the positions below `hi`.
pub open spec fn best_window_below(doc: Seq<u8>, hi: int) -> usize
    decreases hi,
{
    if hi <= 0 {
        0
    } else {
        greater(best_window_below(doc, hi - 1), window_suggestion(doc, hi - 1))
    }
}

/// The page count of a document that is text: the greatest suggestion of any
/// position, where there is one.
pub open spec fn text_page_count(doc: Seq<u8>) -> Option<usize> {
    let best = best_window_below(doc, doc.len() as int);
    if best == 0 {
        None
    } else {
        Some(best)
    }
}

/// The best suggestion is the maximum: no position below `hi` suggests more,
/// and where it is not zero, some position suggests it.
pub proof fn lemma_best_window_is_max(doc: Seq<u8>, hi: int)
    ensures
        forall|i: int|
            0 <= i < hi ==> #[trigger] window_suggestion(doc, i) <= best_window_below(doc, hi),
        best_window_below(doc, hi) > 0 ==> exists|i: int|
            0 <= i < hi && #[trigger] window_suggestion(doc, i) == best_window_below(doc, hi),
    decreases hi,
{
    if hi > 0 {
        lemma_best_window_is_max(doc, hi - 1);
        let before = best_window_below(doc, hi - 1);
        let here = window_suggestion(doc, hi - 1);
        if before > 0 && before >= here {
            let i = choose|i: int| 0 <= i < hi - 1 && #[trigger] window_suggestion(doc, i) == before;
            assert(0 <= i < hi && window_suggestion(doc, i) == best_window_below(doc, hi));
        } else if here > 0 {
            assert(0 <= hi - 1 < hi && window_suggestion(doc, hi - 1) == best_window_below(doc, hi));
        }
    }
}


/// The number at the start of `s`, behind optional white space; `None` where
/// something else stands there or the number does not fit the machine word.
pub fn extract_number(s: &str) -> (r: Option<usize>)
    ensures
        r == leading_number(s.spec_bytes(), usize::MAX as int),
{
    leading_number_within(s.as_bytes(), usize::MAX)
}

/// The page count of a PDF that is well-formed UTF-8 throughout: the greatest
/// plausible number found within the short window behind any `/Count`. A
/// document that is not UTF-8, or that holds no such number, gives `None`.
pub fn count_pdf_pages_simple(bytes: &[u8]) -> (r: Option<usize>)
    ensures
        r == if valid_utf8(bytes@) {
            text_page_count(bytes@)
        } else {
            None
        },
        match r {
            Some(best) => {
                &&& valid_utf8(bytes@)
                &&& exists|i: int|
                    0 <= i < bytes@.len() && #[trigger] window_suggestion(bytes@, i) == best
                &&& forall|i: int|
                    0 <= i < bytes@.len() ==> #[trigger] window_suggestion(bytes@, i) <= best
            },
            None => !valid_utf8(bytes@) || forall|i: int|
                0 <= i < bytes@.len() ==> #[trigger] window_suggestion(bytes@, i) == 0,
        },
{
    proof {
        lemma_best_window_is_max(bytes@, bytes@.len() as int);
    }
    if as_text(bytes).is_none() {
        return None;
    }
    let key = count_bytes();
    let len: usize = bytes.len();
    let mut best: usize = 0;
    let mut i: usize = 0;
    while i < len
        invariant
            i <= len,
            len == bytes@.len(),
            key@ == count_key(),
            best == best_window_below(bytes@, i as int),
        decreases len - i,
    {
        if matches_pattern(bytes, i, key.as_slice()) && i + 6 < len {
            let start: usize = i + 6;
            let end: usize = if len - start > SHORT_WINDOW {
                start + SHORT_WINDOW
            } else {
                len
            };
            let window = slice_subrange(bytes, start, end);
            let here: usize = plausible_count(leading_number_within(window, usize::MAX));
            if here > best {
                best = here;
            }
        }
        i += 1;
    }
    if best == 0 {
        None
    } else {
        Some(best)
    }
}

/// The size of the first page of a PDF that is well-formed UTF-8 throughout,
/// from the first `/MediaBox` of the file: width and height in thousandths of
/// a point.
pub fn extract_mediabox_simple(bytes: &[u8]) -> (r: Option<PagePoints>)
    ensures
        r == if valid_utf8(bytes@) {
            text_box(bytes@, media_box_key())
        } else {
            None
        },
{
    if as_text(bytes).is_none() {
        return None;
    }
    let key = media_box_bytes();
    read_text_box(bytes, key.as_slice())
}

} // verus!
