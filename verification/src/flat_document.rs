//! The simplest well-formed document, one whose page tree is a single node,
//! and the proof that every strategy finds the same page count in it.

use vstd::prelude::*;
use crate::dimension_sampler::page_leaves;
use crate::extraction::{extraction, resolution};
use crate::keywords::{count_key, pages_key};
use crate::scanner::{
    decimal_value, in_class, lemma_decimal_prefix, lemma_first_match_sole, lemma_matches_at_shift,
    lemma_run_end, lemma_run_end_cut, lemma_run_end_is, lemma_run_end_shift, lesser, matches_at,
    minus_or_zero, run_end, ByteClass, Number,
};
use crate::strategy::Strategy;
use crate::ultra_fast_pdf::{
    best_below, count_value, counted, declared_page_count, first_count, heuristic_count,
    leading_number,
    lemma_best_below_is_max, lemma_first_count_none, number_behind, plausible, root_pages_section,
    scan_reach, strategy_count, suggestion, value_of, BODY_WINDOW, COUNT_BOUND, NEAR_WINDOW,
};

verus! {

/// A document of `n` pages whose page tree is flat and stands in the file as
/// plain text:
/// - the prescribed chain leads to the object that starts at `tree`;
/// - in the body window of that object stand `/Pages`, at `pages`, and the
///   only `/Count` of the file, at `count`, in either order;
/// - behind the `/Count` stand white space and then the digits of `n`, all of
///   it inside the body window of the object;
/// - the file shows `n` pages.
pub open spec fn flat_document(doc: Seq<u8>, n: usize, tree: int, pages: int, count: int) -> bool {
    let len = doc.len() as int;
    let digits = run_end(doc, count + 6, len, ByteClass::Space);
    let end = run_end(doc, digits, len, ByteClass::Digit);
    &&& 0 < n <= COUNT_BOUND
    &&& 0 <= tree <= pages < tree + BODY_WINDOW
    &&& tree <= count
    &&& root_pages_section(doc) == Some(doc.subrange(tree, lesser(tree + BODY_WINDOW, len)))
    &&& matches_at(doc, pages, pages_key())
    &&& matches_at(doc, count, count_key())
    &&& forall|j: int| matches_at(doc, j, count_key()) ==> j == count
    &&& digits < end
    &&& decimal_value(doc.subrange(digits, end)) == n
    &&& end <= tree + BODY_WINDOW
    &&& page_leaves(doc).len() == n
}

/// Where the digits end that stand behind the `/Count` at `count`.
pub open spec fn digits_end(doc: Seq<u8>, count: int) -> int {
    run_end(
        doc,
        run_end(doc, count + 6, doc.len() as int, ByteClass::Space),
        doc.len() as int,
        ByteClass::Digit,
    )
}

/// Where `/Count` stands at `c` and nowhere else, the search for a count in a
/// range gives what stands behind `c`, where the range holds `c`.
pub proof fn lemma_first_count_sole(doc: Seq<u8>, from: int, to: int, limit: int, c: int)
    requires
        matches_at(doc, c, count_key()),
        forall|j: int| matches_at(doc, j, count_key()) ==> j == c,
    ensures
        first_count(doc, from, to, limit) == if from <= c < to {
            counted(number_behind(doc, c + 6, limit, ByteClass::FillerOrColon))
        } else {
            None::<usize>
        },
    decreases to - from,
{
    if from < to {
        if from == c {
            lemma_first_count_none(doc, c + 1, to, limit);
        } else {
            lemma_first_count_sole(doc, from + 1, to, limit, c);
        }
    }
}

/// What is read behind the `/Count` of a flat document when nothing is read
/// at or past `limit`: nothing where the limit cuts the white space, else a
/// number that is `n` at most, and `n` itself where the limit lies behind the
/// digits.
pub proof fn lemma_count_read(
    doc: Seq<u8>,
    n: usize,
    tree: int,
    pages: int,
    count: int,
    limit: int,
    class: ByteClass,
)
    requires
        flat_document(doc, n, tree, pages, count),
        count + 6 <= limit <= doc.len(),
        class is Space || class is Filler || class is FillerOrColon,
    ensures
        plausible(value_of(number_behind(doc, count + 6, limit, class))) <= n,
        digits_end(doc, count) <= limit ==> number_behind(doc, count + 6, limit, class) == (
        Number::Value { value: n, end: digits_end(doc, count) as usize }),
{
    let len = doc.len() as int;
    let digits = run_end(doc, count + 6, len, ByteClass::Space);
    let end = run_end(doc, digits, len, ByteClass::Digit);
    lemma_run_end(doc, count + 6, len, ByteClass::Space);
    lemma_run_end(doc, digits, len, ByteClass::Digit);
    assert(in_class(ByteClass::Digit, doc[digits]));
    // the run of the wider class ends where the white space ends
    assert forall|k: int| count + 6 <= k < digits implies in_class(class, #[trigger] doc[k]) by {
        assert(in_class(ByteClass::Space, doc[k]));
    }
    lemma_run_end_is(doc, count + 6, len, class, digits);
    lemma_run_end_cut(doc, count + 6, len, limit, class);
    let start = run_end(doc, count + 6, limit, class);
    assert(start == lesser(digits, limit));
    if limit <= digits {
        assert(run_end(doc, limit, limit, ByteClass::Digit) == limit);
    } else {
        lemma_run_end_cut(doc, digits, len, limit, ByteClass::Digit);
        let stop = lesser(end, limit);
        assert(run_end(doc, digits, limit, ByteClass::Digit) == stop);
        let all = doc.subrange(digits, end);
        assert(all.subrange(0, stop - digits) =~= doc.subrange(digits, stop));
        lemma_decimal_prefix(all, stop - digits);
        if end <= limit {
            assert(doc.subrange(digits, stop) =~= all);
        }
    }
}

/// In a flat document the greatest `/Count` of the file is `n`.
pub proof fn lemma_flat_global_max(doc: Seq<u8>, n: usize, tree: int, pages: int, count: int)
    requires
        flat_document(doc, n, tree, pages, count),
    ensures
        heuristic_count(doc, Strategy::GlobalMaxCount) == Some(n),
{
    let len = doc.len() as int;
    let reach = scan_reach(doc, Strategy::GlobalMaxCount);
    lemma_count_read(doc, n, tree, pages, count, len, ByteClass::Filler);
    lemma_run_end(doc, count + 6, len, ByteClass::Space);
    lemma_run_end(
        doc,
        run_end(doc, count + 6, len, ByteClass::Space),
        len,
        ByteClass::Digit,
    );
    assert(suggestion(doc, Strategy::GlobalMaxCount, count) == n);
    lemma_best_below_is_max(doc, Strategy::GlobalMaxCount, reach);
    let best = best_below(doc, Strategy::GlobalMaxCount, reach);
    assert(best >= n);
    let i = choose|i: int|
        0 <= i < reach && #[trigger] suggestion(doc, Strategy::GlobalMaxCount, i) == best;
    assert(i == count);
}

/// In a flat document the greatest `/Count` near a `/Pages` is `n`.
pub proof fn lemma_flat_proximity(doc: Seq<u8>, n: usize, tree: int, pages: int, count: int)
    requires
        flat_document(doc, n, tree, pages, count),
    ensures
        heuristic_count(doc, Strategy::TypePagesProximity) == Some(n),
{
    let len = doc.len() as int;
    let reach = scan_reach(doc, Strategy::TypePagesProximity);
    let digits = run_end(doc, count + 6, len, ByteClass::Space);
    let end = run_end(doc, digits, len, ByteClass::Digit);
    lemma_run_end(doc, count + 6, len, ByteClass::Space);
    lemma_run_end(doc, digits, len, ByteClass::Digit);
    lemma_count_read(doc, n, tree, pages, count, len, ByteClass::FillerOrColon);
    assert forall|i: int| 0 <= i < reach implies #[trigger] suggestion(
        doc,
        Strategy::TypePagesProximity,
        i,
    ) <= n by {
        if matches_at(doc, i, pages_key()) {
            let window = lesser(i + NEAR_WINDOW, len);
            lemma_first_count_sole(doc, minus_or_zero(i, NEAR_WINDOW as int), i, len, count);
            lemma_first_count_sole(doc, i, window, window, count);
            if i <= count < window {
                if count + 6 <= window {
                    lemma_count_read(doc, n, tree, pages, count, window, ByteClass::FillerOrColon);
                } else {
                    assert(run_end(doc, count + 6, window, ByteClass::FillerOrColon) == count + 6);
                    assert(run_end(doc, count + 6, window, ByteClass::Digit) == count + 6);
                }
            }
        }
    }
    let window = lesser(pages + NEAR_WINDOW, len);
    lemma_first_count_sole(doc, minus_or_zero(pages, NEAR_WINDOW as int), pages, len, count);
    lemma_first_count_sole(doc, pages, window, window, count);
    if pages <= count {
        lemma_count_read(doc, n, tree, pages, count, window, ByteClass::FillerOrColon);
    }
    assert(suggestion(doc, Strategy::TypePagesProximity, pages) == n);
    lemma_best_below_is_max(doc, Strategy::TypePagesProximity, reach);
    let best = best_below(doc, Strategy::TypePagesProximity, reach);
    assert(best >= n);
    let i = choose|i: int|
        0 <= i < reach && #[trigger] suggestion(doc, Strategy::TypePagesProximity, i) == best;
    assert(suggestion(doc, Strategy::TypePagesProximity, i) <= n);
}

/// In a flat document the root of the page tree declares `n`.
pub proof fn lemma_flat_declared(doc: Seq<u8>, n: usize, tree: int, pages: int, count: int)
    requires
        flat_document(doc, n, tree, pages, count),
    ensures
        declared_page_count(doc) == Some(n),
{
    let len = doc.len() as int;
    let stop = lesser(tree + BODY_WINDOW, len);
    let section = doc.subrange(tree, stop);
    let at = count - tree;
    let digits = run_end(doc, count + 6, len, ByteClass::Space);
    let end = run_end(doc, digits, len, ByteClass::Digit);
    lemma_run_end(doc, count + 6, len, ByteClass::Space);
    lemma_run_end(doc, digits, len, ByteClass::Digit);
    // the only `/Count` of the section is the one of the file
    lemma_matches_at_shift(doc, tree, stop, at, count_key());
    assert forall|j: int| matches_at(section, j, count_key()) implies j == at by {
        lemma_matches_at_shift(doc, tree, stop, j, count_key());
    }
    lemma_first_match_sole(section, count_key(), 0, (section.len() + 1) as int, at);
    // what follows it in the section is what follows it in the file
    let rest = section.subrange(at + 6, section.len() as int);
    assert(rest =~= doc.subrange(count + 6, stop));
    lemma_run_end_shift(doc, count + 6, stop, 0, rest.len() as int, ByteClass::Space);
    lemma_run_end_cut(doc, count + 6, len, stop, ByteClass::Space);
    let local = run_end(rest, 0, rest.len() as int, ByteClass::Space);
    assert(local + count + 6 == digits);
    lemma_run_end_shift(doc, count + 6, stop, local, rest.len() as int, ByteClass::Digit);
    lemma_run_end_cut(doc, digits, len, stop, ByteClass::Digit);
    let local_end = run_end(rest, local, rest.len() as int, ByteClass::Digit);
    assert(local_end + count + 6 == end);
    assert(rest.subrange(local, local_end) =~= doc.subrange(digits, end));
    assert(leading_number(rest, COUNT_BOUND as int) == Some(n));
    assert(count_value(section) == Some(n));
}

/// In a flat, well-formed document that stands in the file as plain text, the
/// prescribed chain, the search near `/Pages`, the search for the greatest
/// `/Count` and the count of the pages that the file shows all give the same
/// page count, and that is the page count of the extraction.
pub proof fn theorem_strategies_agree(doc: Seq<u8>, n: usize, tree: int, pages: int, count: int)
    requires
        flat_document(doc, n, tree, pages, count),
    ensures
        strategy_count(doc, Strategy::SpecFollowing) == Some(n),
        strategy_count(doc, Strategy::TypePagesProximity) == Some(n),
        strategy_count(doc, Strategy::GlobalMaxCount) == Some(n),
        page_leaves(doc).len() == n,
        resolution(doc) == Some((Strategy::SpecFollowing, n)),
        extraction(doc).page_count == Some(n),
{
    lemma_flat_declared(doc, n, tree, pages, count);
    lemma_flat_proximity(doc, n, tree, pages, count);
    lemma_flat_global_max(doc, n, tree, pages, count);
}

} // verus!
