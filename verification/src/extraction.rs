//! The whole extraction: the strategies in their order, the first plausible
//! page count, the sizes of that many pages, and notes on how the result was
//! had.
//!
//! The last resort reads the whole file and counts the pages it shows. A
//! caller that has a parser of the object graph runs the byte-level
//! strategies with `resolve_fast`, hands their outcome and the parser's count
//! to [`conclude`], and the conclusion to [`assemble`].

use vstd::prelude::*;
use crate::dimension_sampler::{
    count_page_leaves, dimensions, page_leaves, sample_dimensions, sampling_note,
};
use crate::schema::PageSizeMm;
use crate::strategy::Strategy;
use crate::ultra_fast_pdf::{fast_resolution, resolve_fast};

verus! {

/// What extraction gives: the page count, where one was found; one size for
/// each page; the strategy that gave the count, or the last one tried where
/// none did; and notes for the reader.
#[derive(Debug)]
pub struct ExtractionResult {
    pub page_count: Option<usize>,
    pub page_dimensions: Vec<PageSizeMm>,
    pub strategy_used: Strategy,
    pub notes: Vec<String>,
}

/// An extraction result as a mathematical value.
pub struct Extraction {
    pub page_count: Option<usize>,
    pub page_dimensions: Seq<PageSizeMm>,
    pub strategy_used: Strategy,
    pub notes: Seq<Seq<char>>,
}

impl View for ExtractionResult {
    type V = Extraction;

    open spec fn view(&self) -> Extraction {
        Extraction {
            page_count: self.page_count,
            page_dimensions: self.page_dimensions@,
            strategy_used: self.strategy_used,
            notes: self.notes.deep_view(),
        }
    }
}

impl Extraction {
    /// There is one size for each page, and none where there is no page count.
    pub open spec fn well_formed(self) -> bool {
        match self.page_count {
            Some(n) => self.page_dimensions.len() == n,
            None => self.page_dimensions.len() == 0,
        }
    }

    /// The notes warn that the page count is a guess.
    pub open spec fn flagged_unverified(self) -> bool {
        self.notes.contains(warning_note())
    }
}

/// The note on the strategy that gave the page count.
pub open spec fn strategy_note(strategy: Strategy) -> Seq<char> {
    match strategy {
        Strategy::SpecFollowing => "page count read from the root of the page tree"@,
        Strategy::TypePagesProximity => "page count found near /Pages"@,
        Strategy::GlobalMaxCount => "page count is the greatest /Count in the file"@,
        Strategy::ExpandedWindow => "page count found in the wide window around /Pages"@,
        Strategy::CountWithoutSlash => "page count found behind a bare Count"@,
        Strategy::FullParse => "page count taken from the pages of the whole document"@,
    }
}

/// The warning that goes with a page count found by a pattern search.
pub open spec fn warning_note() -> Seq<char> {
    "page count found by pattern search — not verified against the page tree"@
}

/// The note of an extraction that found no page count.
pub open spec fn missing_note() -> Seq<char> {
    "no page count found"@
}

/// The notes of an extraction whose page count `strategy` gave: the note on
/// the strategy, the warning where the strategy is a pattern search, and the
/// note on the sampling of page sizes, where there is one.
pub open spec fn notes_with(strategy: Strategy, sampling: Option<Seq<char>>) -> Seq<Seq<char>> {
    let head = if strategy.is_heuristic() {
        seq![strategy_note(strategy), warning_note()]
    } else {
        seq![strategy_note(strategy)]
    };
    match sampling {
        Some(note) => head.push(note),
        None => head,
    }
}

/// The notes of an extraction that ended as `resolution` says.
pub open spec fn notes_of(doc: Seq<u8>, resolution: Option<(Strategy, usize)>) -> Seq<Seq<char>> {
    match resolution {
        Some((strategy, n)) => notes_with(strategy, sampling_note(doc, n as nat)),
        None => seq![missing_note()],
    }
}

/// The result for `doc` when the search for its page count ended as
/// `resolution` says.
pub open spec fn assembled(doc: Seq<u8>, resolution: Option<(Strategy, usize)>) -> Extraction {
    match resolution {
        Some((strategy, n)) => Extraction {
            page_count: Some(n),
            page_dimensions: dimensions(doc, n as nat),
            strategy_used: strategy,
            notes: notes_of(doc, resolution),
        },
        None => Extraction {
            page_count: None,
            page_dimensions: Seq::empty(),
            strategy_used: Strategy::FullParse,
            notes: notes_of(doc, resolution),
        },
    }
}

/// How the search for the page count ends, given what the byte-level
/// strategies found and what a parse of the whole document would give: with
/// what the strategies found, else with the pages of the full parse, where it
/// counts any.
pub open spec fn concluded(fast: Option<(Strategy, usize)>, full_parse: Option<usize>) -> Option<
    (Strategy, usize),
> {
    match fast {
        Some(found) => Some(found),
        None => match full_parse {
            Some(pages) => if pages > 0 {
                Some((Strategy::FullParse, pages))
            } else {
                None
            },
            None => None,
        },
    }
}

/// How the search for the page count of `doc` ends: with the first of the
/// five byte-level strategies that finds one, else with the number of pages
/// that the whole file shows, where it shows any.
pub open spec fn resolution(doc: Seq<u8>) -> Option<(Strategy, usize)> {
    concluded(fast_resolution(doc), Some(page_leaves(doc).len() as usize))
}

/// The extraction result of `doc`.
pub open spec fn extraction(doc: Seq<u8>) -> Extraction {
    assembled(doc, resolution(doc))
}

/// Appends a note.
fn push_note(notes: &mut Vec<String>, note: String)
    ensures
        final(notes).deep_view() == old(notes).deep_view().push(note@),
{
    notes.push(note);
    assert(final(notes).deep_view() =~= old(notes).deep_view().push(note@));
}

/// The note on the strategy that gave the page count.
pub fn note_on(strategy: Strategy) -> (r: String)
    ensures
        r@ == strategy_note(strategy),
{
    match strategy {
        Strategy::SpecFollowing => "page count read from the root of the page tree".to_owned(),
        Strategy::TypePagesProximity => "page count found near /Pages".to_owned(),
        Strategy::GlobalMaxCount => "page count is the greatest /Count in the file".to_owned(),
        Strategy::ExpandedWindow => "page count found in the wide window around /Pages".to_owned(),
        Strategy::CountWithoutSlash => "page count found behind a bare Count".to_owned(),
        Strategy::FullParse => "page count taken from the pages of the whole document".to_owned(),
    }
}

/// The view of a note that may be absent.
pub open spec fn note_view(note: Option<String>) -> Option<Seq<char>> {
    match note {
        Some(text) => Some(text@),
        None => None,
    }
}

/// Puts the notes of a successful extraction together.
fn compose_notes(strategy: Strategy, sampling: Option<String>) -> (r: Vec<String>)
    ensures
        r.deep_view() == notes_with(strategy, note_view(sampling)),
{
    let mut notes: Vec<String> = Vec::new();
    assert(notes.deep_view() =~= Seq::<Seq<char>>::empty());
    push_note(&mut notes, note_on(strategy));
    if strategy.heuristic() {
        push_note(
            &mut notes,
            "page count found by pattern search — not verified against the page tree".to_owned(),
        );
    }
    match sampling {
        Some(note) => { push_note(&mut notes, note); },
        None => {},
    }
    assert(notes.deep_view() =~= notes_with(strategy, note_view(sampling)));
    notes
}

/// Builds the result from the outcome of the search for the page count: the
/// sizes of that many pages, the strategy, and the notes, among them the
/// warning where the strategy is a pattern search.
pub fn assemble(bytes: &[u8], resolution: Option<(Strategy, usize)>) -> (r: ExtractionResult)
    ensures
        r@ == assembled(bytes@, resolution),
        r@.well_formed(),
{
    match resolution {
        Some((strategy, n)) => {
            let (sizes, sampling) = sample_dimensions(bytes, n);
            let notes = compose_notes(strategy, sampling);
            ExtractionResult {
                page_count: Some(n),
                page_dimensions: sizes,
                strategy_used: strategy,
                notes,
            }
        },
        None => {
            let mut notes: Vec<String> = Vec::new();
            assert(notes.deep_view() =~= Seq::<Seq<char>>::empty());
            push_note(&mut notes, "no page count found".to_owned());
            assert(notes.deep_view() =~= seq![missing_note()]);
            ExtractionResult {
                page_count: None,
                page_dimensions: Vec::new(),
                strategy_used: Strategy::FullParse,
                notes,
            }
        },
    }
}

/// Decides how the search for the page count ends. What the byte-level
/// strategies found stands; where they found nothing, the count of a parse of
/// the whole document stands, unless it is missing or zero.
pub fn conclude(fast: Option<(Strategy, usize)>, full_parse: Option<usize>) -> (r: Option<
    (Strategy, usize),
>)
    ensures
        r == concluded(fast, full_parse),
{
    match fast {
        Some(found) => Some(found),
        None => match full_parse {
            Some(pages) => if pages > 0 {
                Some((Strategy::FullParse, pages))
            } else {
                None
            },
            None => None,
        },
    }
}

/// Searches for the page count: the five byte-level strategies in their
/// order, then the pages that the whole file shows. The whole file is read
/// for its pages only where the strategies found nothing.
pub fn resolve(bytes: &[u8]) -> (r: Option<(Strategy, usize)>)
    ensures
        r == resolution(bytes@),
{
    match resolve_fast(bytes) {
        Some(found) => Some(found),
        None => conclude(None, Some(count_page_leaves(bytes))),
    }
}

/// Extracts the page count and the page sizes of a PDF. The strategies run
/// from the fastest and most trustworthy to the slowest and most permissive;
/// the first page count found is taken and none is tried after it.
pub fn extract(bytes: &[u8]) -> (r: ExtractionResult)
    ensures
        r@ == extraction(bytes@),
        r@.well_formed(),
{
    assemble(bytes, resolve(bytes))
}

} // verus!
