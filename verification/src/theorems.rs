//! What holds of the extraction as a whole, proved from the definitions that
//! the contracts of the functions use.

use vstd::prelude::*;
use crate::dimension_sampler::{
    dimensions, in_mm, large_note, mixed_note, page_size, sampling_note, uniform, uniform_note,
};
use crate::extraction::{
    assembled, extraction, notes_with, resolution, strategy_note, warning_note, Extraction,
};
use crate::fast_path::{chain_outcome, startxref_position, ChainFailure, ChainState, ScanError};
use crate::keywords::startxref_key;
use crate::scanner::{lemma_last_match, matches_at, minus_or_zero};
use crate::strategy::Strategy;
use crate::ultra_fast_pdf::{
    declared_page_count, fast_resolution, heuristic_count, lemma_best_below_is_max, scan_reach,
    strategy_count, suggestion, COUNT_BOUND, TAIL_WINDOW,
};

verus! {

/// A document in whose tail no `startxref` stands, as one cut off before that
/// marker, defeats the prescribed chain: it declares no page count, and
/// whatever the extraction gives, it gives by a later strategy.
pub proof fn theorem_missing_startxref_escalates(doc: Seq<u8>)
    requires
        forall|j: int|
            minus_or_zero(doc.len() as int, TAIL_WINDOW as int) <= j < doc.len() ==> !matches_at(
                doc,
                j,
                startxref_key(),
            ),
    ensures
        chain_outcome(doc) == Err::<usize, ChainFailure>(
            (ChainFailure { state: ChainState::LocateStartXref, error: ScanError::NotFound }),
        ),
        strategy_count(doc, Strategy::SpecFollowing) is None,
        !(extraction(doc).strategy_used is SpecFollowing),
        resolution(doc) matches Some((strategy, n)) ==> strategy.rank() > 0,
{
    lemma_last_match(
        doc,
        startxref_key(),
        minus_or_zero(doc.len() as int, TAIL_WINDOW as int),
        doc.len() as int,
    );
    assert(startxref_position(doc) is None);
    assert(declared_page_count(doc) is None);
}

/// A pattern search returns the greatest page count that any position
/// suggests: some position suggests what it returns, no position suggests
/// more, and it returns nothing only where no position suggests anything.
pub proof fn theorem_heuristic_is_maximum(doc: Seq<u8>, strategy: Strategy)
    ensures
        match heuristic_count(doc, strategy) {
            Some(best) => 0 < best <= COUNT_BOUND && (exists|i: int|
                0 <= i < scan_reach(doc, strategy) && #[trigger] suggestion(doc, strategy, i) == best)
                && (forall|i: int|
                0 <= i < scan_reach(doc, strategy) ==> #[trigger] suggestion(doc, strategy, i) <= best),
            None => forall|i: int|
                0 <= i < scan_reach(doc, strategy) ==> #[trigger] suggestion(doc, strategy, i) == 0,
        },
{
    lemma_best_below_is_max(doc, strategy, scan_reach(doc, strategy));
}

/// The strategies are tried in their order and none after the first that
/// succeeds: the strategy of a result found a count, and no strategy before
/// it did.
pub proof fn theorem_first_success_wins(doc: Seq<u8>, earlier: Strategy)
    ensures
        match fast_resolution(doc) {
            Some((strategy, n)) => strategy_count(doc, strategy) == Some(n) && (earlier.rank()
                < strategy.rank() ==> strategy_count(doc, earlier) is None),
            None => strategy_count(doc, earlier) is None,
        },
{
}

/// Extraction is a function of the bytes: two results for the same document
/// are equal in every part.
pub proof fn theorem_extraction_deterministic(doc: Seq<u8>, first: Extraction, second: Extraction)
    requires
        first == extraction(doc),
        second == extraction(doc),
    ensures
        first == second,
        first.page_count == second.page_count,
        first.page_dimensions == second.page_dimensions,
        first.strategy_used == second.strategy_used,
        first.notes == second.notes,
{
}

/// A page count that the prescribed chain gave is the one that the document
/// declares: the `/Count` of the root of its page tree.
pub proof fn theorem_spec_following_is_authoritative(doc: Seq<u8>)
    ensures
        extraction(doc).strategy_used is SpecFollowing ==> extraction(doc).page_count
            == declared_page_count(doc) && declared_page_count(doc) is Some,
        declared_page_count(doc) is Some ==> extraction(doc).strategy_used is SpecFollowing,
{
}

/// No number above the bound on page counts is taken for a page count: what
/// the chain reads is the bound at most, and what a pattern search finds is
/// positive and the bound at most.
pub proof fn theorem_counts_are_bounded(doc: Seq<u8>, strategy: Strategy)
    ensures
        strategy_count(doc, strategy) matches Some(n) ==> n <= COUNT_BOUND,
        strategy.is_heuristic() ==> (strategy_count(doc, strategy) matches Some(n) ==> 0 < n
            <= COUNT_BOUND),
{
    lemma_best_below_is_max(doc, strategy, scan_reach(doc, strategy));
}

/// Whatever page count the byte-level strategies find is the page count of
/// the extraction, whether the document is well-formed or not: the later
/// strategies and the count of the pages that the file shows come in only
/// where those find nothing.
pub proof fn theorem_fast_count_is_the_page_count(doc: Seq<u8>)
    ensures
        fast_resolution(doc) matches Some((strategy, n)) ==> extraction(doc).page_count == Some(n)
            && extraction(doc).strategy_used == strategy,
        fast_resolution(doc) is None ==> extraction(doc).page_count is None || extraction(
            doc,
        ).strategy_used is FullParse,
{
}

/// Every result holds one size for each page: as many sizes as the page count
/// says, and none where no page count was found.
pub proof fn theorem_one_size_per_page(doc: Seq<u8>)
    ensures
        extraction(doc).well_formed(),
{
}

/// Where the sampled pages agree, every page of the result has the size of
/// the first page, and the note tells that the sizes were sampled; where they
/// differ, each page has its own size, and the note tells that.
pub proof fn theorem_sampling_decides_the_sizes(doc: Seq<u8>, page_count: nat, i: int, j: int)
    requires
        0 <= i < page_count,
        0 <= j < page_count,
    ensures
        dimensions(doc, page_count).len() == page_count,
        uniform(doc, page_count) ==> dimensions(doc, page_count)[i] == dimensions(doc, page_count)[j],
        uniform(doc, page_count) ==> dimensions(doc, page_count)[i] == in_mm(page_size(doc, 0)),
        uniform(doc, page_count) ==> (sampling_note(doc, page_count) == Some(large_note())
            || sampling_note(doc, page_count) == Some(uniform_note())),
        !uniform(doc, page_count) ==> dimensions(doc, page_count)[i] == in_mm(page_size(doc, i)),
        !uniform(doc, page_count) ==> sampling_note(doc, page_count) == Some(mixed_note()),
{
}

/// The notes of a result warn of an unverified count exactly where a pattern
/// search gave the count, whatever the note on the sampling is.
pub proof fn lemma_notes_are_flagged(strategy: Strategy, sampling: Option<Seq<char>>)
    requires
        sampling is None || sampling == Some(large_note()) || sampling == Some(uniform_note())
            || sampling == Some(mixed_note()),
    ensures
        notes_with(strategy, sampling).contains(warning_note()) <==> strategy.is_heuristic(),
{
    reveal_strlit("page count found by pattern search — not verified against the page tree");
    reveal_strlit("page count read from the root of the page tree");
    reveal_strlit("page count taken from the pages of the whole document");
    reveal_strlit("sampled first page only — large PDF");
    reveal_strlit("uniform page size — sampled the first pages");
    reveal_strlit("mixed page sizes detected — sizes extracted per page");
    let notes = notes_with(strategy, sampling);
    if strategy.is_heuristic() {
        assert(notes[1] == warning_note());
    } else {
        assert(strategy is SpecFollowing || strategy is FullParse);
        assert(strategy_note(strategy).len() != warning_note().len());
        assert(large_note().len() != warning_note().len());
        assert(uniform_note().len() != warning_note().len());
        assert(mixed_note().len() != warning_note().len());
        assert forall|i: int| 0 <= i < notes.len() implies notes[i] != warning_note() by {
            assert(notes[i].len() != warning_note().len());
        }
    }
}

/// Whatever the outcome of the search for the page count, the notes of the
/// result warn of an unverified count exactly where a pattern search gave it.
pub proof fn lemma_assembled_is_flagged(doc: Seq<u8>, outcome: Option<(Strategy, usize)>)
    ensures
        outcome matches Some((strategy, n)) ==> (assembled(doc, outcome).flagged_unverified()
            <==> strategy.is_heuristic()),
{
    if let Some((strategy, n)) = outcome {
        let sampling = sampling_note(doc, n as nat);
        assert(sampling is None || sampling == Some(large_note()) || sampling == Some(
            uniform_note(),
        ) || sampling == Some(mixed_note()));
        lemma_notes_are_flagged(strategy, sampling);
        assert(assembled(doc, outcome).notes == notes_with(strategy, sampling));
    }
}

/// The notes warn of an unverified count exactly where a pattern search gave
/// it; a count from the prescribed chain or from the whole document carries
/// no warning.
pub proof fn theorem_heuristics_are_flagged(doc: Seq<u8>)
    ensures
        extraction(doc).page_count is Some ==> (extraction(doc).flagged_unverified()
            <==> extraction(doc).strategy_used.is_heuristic()),
{
    lemma_assembled_is_flagged(doc, resolution(doc));
}

} // verus!
