//! Page counting on raw bytes, without decoding text and without building the
//! object graph: the chain that the file format prescribes, from the end of
//! the file to the root of the page tree, and the pattern searches that stand
//! in for it where the chain cannot be followed.

use vstd::prelude::*;
pub use crate::page_box::parse_float;
pub use crate::scanner::{is_whitespace, matches_pattern};
use crate::fast_path::{
    chain_outcome, count_read, follow_chain, found, locate_object, number_read, object_section,
    pages_read, read_count, read_number, read_reference, reference_read,
};
use crate::keywords::{
    bare_count_bytes, bare_count_key, count_bytes, count_key, media_box_bytes, media_box_key,
    pages_bytes, pages_key,
};
use crate::page_box::{find_box, first_box, PagePoints};
use crate::scanner::{
    is_space, lesser, matches_at, minus_or_zero, number_at, run_end, scan_number, skip_class,
    ByteClass, Number,
};
use crate::strategy::Strategy;

verus! {

/// No page count above this is believed.
pub const COUNT_BOUND: usize = 1_000_000;

/// No object number or file offset above this is read.
pub const NUMBER_BOUND: usize = 100_000_000;

/// `startxref` is looked for in this many bytes at the end of the file.
pub const TAIL_WINDOW: usize = 1024;

/// `trailer` is looked for in this many bytes behind the cross-reference offset.
pub const TRAILER_WINDOW: usize = 5000;

/// An object's body, and the trailer dictionary, are read this far.
pub const BODY_WINDOW: usize = 2000;

/// `TypePagesProximity` looks this far before and behind an occurrence of
/// `/Pages`.
pub const NEAR_WINDOW: usize = 2000;

/// `ExpandedWindow` looks this far before and behind an occurrence of `/Pages`.
pub const FAR_WINDOW: usize = 5000;

/// The start of a page's object is looked for this far before its type.
pub const BACK_WINDOW: usize = 2000;

/// The number that follows optional white space at the start of `s`, where it
/// does not exceed `bound`.
pub open spec fn leading_number(s: Seq<u8>, bound: int) -> Option<usize> {
    found(number_read(s, bound))
}

/// The object number that follows the first occurrence of `key` in `s`.
pub open spec fn object_reference(s: Seq<u8>, key: Seq<u8>) -> Option<usize> {
    found(reference_read(s, key))
}

/// The number behind the first `/Count` of `s`, where it does not exceed the
/// bound on page counts.
pub open spec fn count_value(s: Seq<u8>) -> Option<usize> {
    found(count_read(s))
}

/// The body of the root of the page tree, where the chain reaches it.
pub open spec fn root_pages_section(doc: Seq<u8>) -> Option<Seq<u8>> {
    found(pages_read(doc))
}

/// The page count that the document itself declares: the `/Count` of the root
/// of its page tree, where the chain reaches it.
pub open spec fn declared_page_count(doc: Seq<u8>) -> Option<usize> {
    found(chain_outcome(doc))
}

/// Reads the number that follows optional white space at the start of
/// `bytes`, where it does not exceed `bound`.
pub fn leading_number_within(bytes: &[u8], bound: usize) -> (r: Option<usize>)
    ensures
        r == leading_number(bytes@, bound as int),
{
    match read_number(bytes, bound) {
        Ok(n) => Some(n),
        Err(_) => None,
    }
}

/// The first number in `bytes`, behind optional white space; `None` where
/// something else stands there or the number exceeds the bound on object
/// numbers and offsets.
pub fn extract_first_number(bytes: &[u8]) -> (r: Option<usize>)
    ensures
        r == leading_number(bytes@, NUMBER_BOUND as int),
{
    leading_number_within(bytes, NUMBER_BOUND)
}

/// The object number behind the first occurrence of `keyword` in `bytes`.
pub fn find_object_reference(bytes: &[u8], keyword: &[u8]) -> (r: Option<usize>)
    ensures
        r == object_reference(bytes@, keyword@),
{
    match read_reference(bytes, keyword) {
        Ok(id) => Some(id),
        Err(_) => None,
    }
}

/// The body of object `obj_id`: from the first occurrence of its marker,
/// `obj_id 0 obj`, as far as the body window reaches.
pub fn find_object_by_id(bytes: &[u8], obj_id: usize) -> (r: Option<&[u8]>)
    ensures
        match r {
            Some(section) => object_section(bytes@, obj_id as nat) == Some(section@),
            None => object_section(bytes@, obj_id as nat) is None,
        },
{
    locate_object(bytes, obj_id)
}

/// The number behind the first `/Count` in `bytes`, where it does not exceed
/// the bound on page counts.
pub fn find_count_value(bytes: &[u8]) -> (r: Option<usize>)
    ensures
        r == count_value(bytes@),
{
    match read_count(bytes) {
        Ok(n) => Some(n),
        Err(_) => None,
    }
}

/// Follows the chain that the file format prescribes and returns the page
/// count that the root of the page tree declares. Any link that is missing,
/// out of range or out of bounds gives `None`.
pub fn parse_from_end_of_file(bytes: &[u8]) -> (r: Option<usize>)
    ensures
        r == declared_page_count(bytes@),
        r matches Some(n) ==> n <= COUNT_BOUND,
{
    match follow_chain(bytes) {
        Ok(n) => Some(n),
        Err(_) => None,
    }
}

/// The number that stands behind a key: the bytes of `class` from `at` on are
/// passed over, and neither they nor the digits are read at or past `limit`.
pub open spec fn number_behind(doc: Seq<u8>, at: int, limit: int, class: ByteClass) -> Number {
    number_at(doc, run_end(doc, at, limit, class), limit, COUNT_BOUND as int)
}

/// What a number read counts for as a page count: itself where it was read
/// whole, within the bound, and is positive; else nothing.
pub open spec fn counted(n: Number) -> Option<usize> {
    match n {
        Number::Value { value, end } => if value > 0 {
            Some(value)
        } else {
            None
        },
        _ => None,
    }
}

/// The first page count behind a `/Count` in `[from, to)`, the number read
/// below `limit`. A `/Count` without a number behind it, with a zero or with
/// a number above the bound on page counts is passed over.
pub open spec fn first_count(doc: Seq<u8>, from: int, to: int, limit: int) -> Option<usize>
    decreases to - from,
{
    if from >= to {
        None
    } else if matches_at(doc, from, count_key()) && counted(
        number_behind(doc, from + 6, limit, ByteClass::FillerOrColon),
    ) is Some {
        counted(number_behind(doc, from + 6, limit, ByteClass::FillerOrColon))
    } else {
        first_count(doc, from + 1, to, limit)
    }
}

/// What a found number counts for: itself where it is positive and does not
/// exceed the bound on page counts, else nothing.
pub open spec fn plausible(n: Option<usize>) -> usize {
    match n {
        Some(value) => if 0 < value <= COUNT_BOUND {
            value
        } else {
            0
        },
        None => 0,
    }
}

/// The number that a parse gave, where there is one.
pub open spec fn value_of(n: Number) -> Option<usize> {
    match n {
        Number::Value { value, end } => Some(value),
        _ => None,
    }
}

/// The greater of two numbers.
pub open spec fn greater(a: usize, b: usize) -> usize {
    if a >= b {
        a
    } else {
        b
    }
}

/// The plausible count found around position `i`: the greater of the first
/// `/Count` with a number in the `window` bytes before `i` and of the first in
/// the `window` bytes from `i` on. Before `i` the key must start in the
/// window; from `i` on nothing is read past the window.
pub open spec fn count_near(doc: Seq<u8>, i: int, window: int) -> usize {
    let end = lesser(i + window, doc.len() as int);
    greater(
        plausible(first_count(doc, minus_or_zero(i, window), i, doc.len() as int)),
        plausible(first_count(doc, i, end, end)),
    )
}

/// The page count that position `i` of `doc` suggests under a pattern search;
/// zero where it suggests none.
/// - `TypePagesProximity`: `/Pages` stands at `i`; the count found in the near
///   window around it.
/// - `GlobalMaxCount`: `/Count` stands at `i`; the number behind it.
/// - `ExpandedWindow`: `/Pages` stands at `i`; the count found in the far
///   window around it.
/// - `CountWithoutSlash`: `Count` stands at `i`, behind white space or a slash;
///   the number behind it.
///
/// A number counts only where it is positive and does not exceed the bound
/// on page counts.
pub open spec fn suggestion(doc: Seq<u8>, strategy: Strategy, i: int) -> usize {
    let len = doc.len() as int;
    match strategy {
        Strategy::TypePagesProximity => if matches_at(doc, i, pages_key()) {
            count_near(doc, i, NEAR_WINDOW as int)
        } else {
            0
        },
        Strategy::GlobalMaxCount => if matches_at(doc, i, count_key()) {
            plausible(value_of(number_behind(doc, i + 6, len, ByteClass::Filler)))
        } else {
            0
        },
        Strategy::ExpandedWindow => if matches_at(doc, i, pages_key()) {
            count_near(doc, i, FAR_WINDOW as int)
        } else {
            0
        },
        Strategy::CountWithoutSlash => if i > 0 && (is_space(doc[i - 1]) || doc[i - 1] == '/' as u8)
            && matches_at(doc, i, bare_count_key()) {
            plausible(value_of(number_behind(doc, i + 5, len, ByteClass::FillerOrColon)))
        } else {
            0
        },
        _ => 0,
    }
}

/// The positions below this one are asked for a suggestion: all of them.
pub open spec fn scan_reach(doc: Seq<u8>, strategy: Strategy) -> int {
    doc.len() as int
}

/// The greatest suggestion of the positions below `hi`.
pub open spec fn best_below(doc: Seq<u8>, strategy: Strategy, hi: int) -> usize
    decreases hi,
{
    if hi <= 0 {
        0
    } else {
        greater(best_below(doc, strategy, hi - 1), suggestion(doc, strategy, hi - 1))
    }
}

/// The result of a pattern search: the greatest suggestion, where there is one.
pub open spec fn heuristic_count(doc: Seq<u8>, strategy: Strategy) -> Option<usize> {
    let best = best_below(doc, strategy, scan_reach(doc, strategy));
    if best == 0 {
        None
    } else {
        Some(best)
    }
}

/// Where no `/Count` stands from `from` on, none is found.
pub proof fn lemma_first_count_none(doc: Seq<u8>, from: int, to: int, limit: int)
    requires
        forall|j: int| from <= j < to ==> !matches_at(doc, j, count_key()),
    ensures
        first_count(doc, from, to, limit) is None,
    decreases to - from,
{
    if from < to {
        lemma_first_count_none(doc, from + 1, to, limit);
    }
}

/// The best suggestion is the maximum: no position below `hi` suggests more,
/// and where it is not zero, some position suggests it.
pub proof fn lemma_best_below_is_max(doc: Seq<u8>, strategy: Strategy, hi: int)
    ensures
        forall|i: int|
            0 <= i < hi ==> #[trigger] suggestion(doc, strategy, i) <= best_below(doc, strategy, hi),
        best_below(doc, strategy, hi) > 0 ==> exists|i: int|
            0 <= i < hi && #[trigger] suggestion(doc, strategy, i) == best_below(doc, strategy, hi),
        best_below(doc, strategy, hi) <= COUNT_BOUND,
    decreases hi,
{
    if hi > 0 {
        lemma_best_below_is_max(doc, strategy, hi - 1);
        let before = best_below(doc, strategy, hi - 1);
        let here = suggestion(doc, strategy, hi - 1);
        if before > 0 && before >= here {
            let i = choose|i: int| 0 <= i < hi - 1 && #[trigger] suggestion(doc, strategy, i) == before;
            assert(0 <= i < hi && suggestion(doc, strategy, i) == best_below(doc, strategy, hi));
        } else if here > 0 {
            assert(0 <= hi - 1 < hi && suggestion(doc, strategy, hi - 1) == best_below(
                doc,
                strategy,
                hi,
            ));
        }
    }
}

/// The first page count behind a `/Count` in `[start, end)`: positive and
/// within the bound on page counts. Nothing is read at or past `end`.
pub fn find_count_after_position(bytes: &[u8], start: usize, end: usize) -> (r: Option<usize>)
    ensures
        r == first_count(bytes@, start as int, end as int, end as int),
        r matches Some(n) ==> 0 < n <= COUNT_BOUND,
{
    first_count_between(bytes, start, end, end)
}

/// The first page count behind a `/Count` in `[start, end)`: positive and
/// within the bound on page counts. The number is read as far as the data
/// reaches.
pub fn find_count_in_range(bytes: &[u8], start: usize, end: usize) -> (r: Option<usize>)
    ensures
        r == first_count(bytes@, start as int, end as int, bytes@.len() as int),
        r matches Some(n) ==> 0 < n <= COUNT_BOUND,
{
    first_count_between(bytes, start, end, bytes.len())
}

/// The first page count behind a `/Count` in `[from, to)`, the number read
/// below `limit`.
pub fn first_count_between(bytes: &[u8], from: usize, to: usize, limit: usize) -> (r: Option<usize>)
    ensures
        r == first_count(bytes@, from as int, to as int, limit as int),
        r matches Some(n) ==> 0 < n <= COUNT_BOUND,
{
    let key = count_bytes();
    let mut i: usize = from;
    while i < to && i < bytes.len()
        invariant
            from <= i,
            key@ == count_key(),
            first_count(bytes@, from as int, to as int, limit as int) == first_count(
                bytes@,
                i as int,
                to as int,
                limit as int,
            ),
        decreases bytes.len() - i,
    {
        if matches_pattern(bytes, i, key.as_slice()) {
            let at: usize = skip_class(bytes, i + 6, limit, ByteClass::FillerOrColon);
            match scan_number(bytes, at, limit, COUNT_BOUND) {
                Number::Value { value, end } => {
                    if value > 0 {
                        return Some(value);
                    }
                },
                _ => {},
            }
        }
        i += 1;
    }
    proof {
        lemma_first_count_none(bytes@, i as int, to as int, limit as int);
    }
    None
}

/// The number that was found, where it is positive and does not exceed the
/// bound on page counts; else zero.
pub fn plausible_count(n: Option<usize>) -> (r: usize)
    ensures
        r == plausible(n),
{
    match n {
        Some(value) => if 0 < value && value <= COUNT_BOUND {
            value
        } else {
            0
        },
        None => 0,
    }
}

/// The plausible number behind the key that ends just before `at`.
fn plausible_behind(bytes: &[u8], at: usize, class: ByteClass) -> (r: usize)
    ensures
        r == plausible(value_of(number_behind(bytes@, at as int, bytes@.len() as int, class))),
{
    let start: usize = skip_class(bytes, at, bytes.len(), class);
    match scan_number(bytes, start, bytes.len(), COUNT_BOUND) {
        Number::Value { value, end } => plausible_count(Some(value)),
        _ => 0,
    }
}

/// The plausible count found in the `window` bytes before `i` or in the
/// `window` bytes from `i` on, the greater of the two.
fn count_around(bytes: &[u8], i: usize, window: usize) -> (r: usize)
    requires
        i <= bytes@.len(),
    ensures
        r == count_near(bytes@, i as int, window as int),
{
    let len: usize = bytes.len();
    let back: usize = if i > window {
        i - window
    } else {
        0
    };
    let end: usize = if len - i > window {
        i + window
    } else {
        len
    };
    let before: usize = plausible_count(find_count_in_range(bytes, back, i));
    let behind: usize = plausible_count(find_count_after_position(bytes, i, end));
    if before >= behind {
        before
    } else {
        behind
    }
}

/// The page count that position `i` suggests under `strategy`.
pub fn suggestion_at(bytes: &[u8], strategy: Strategy, i: usize) -> (r: usize)
    ensures
        r == suggestion(bytes@, strategy, i as int),
{
    let len: usize = bytes.len();
    if i >= len {
        return 0;
    }
    match strategy {
        Strategy::TypePagesProximity => {
            let key = pages_bytes();
            if matches_pattern(bytes, i, key.as_slice()) {
                count_around(bytes, i, NEAR_WINDOW)
            } else {
                0
            }
        },
        Strategy::GlobalMaxCount => {
            let key = count_bytes();
            if matches_pattern(bytes, i, key.as_slice()) {
                plausible_behind(bytes, i + 6, ByteClass::Filler)
            } else {
                0
            }
        },
        Strategy::ExpandedWindow => {
            let key = pages_bytes();
            if matches_pattern(bytes, i, key.as_slice()) {
                count_around(bytes, i, FAR_WINDOW)
            } else {
                0
            }
        },
        Strategy::CountWithoutSlash => {
            let key = bare_count_bytes();
            if i > 0 && (is_whitespace(bytes[i - 1]) || bytes[i - 1] == '/' as u8)
                && matches_pattern(bytes, i, key.as_slice()) {
                plausible_behind(bytes, i + 5, ByteClass::FillerOrColon)
            } else {
                0
            }
        },
        _ => 0,
    }
}

/// Runs one pattern search over the file and returns the greatest page count
/// that any position suggests; `None` where none suggests one. A strategy that
/// is no pattern search finds nothing.
pub fn search_heuristic(bytes: &[u8], strategy: Strategy) -> (r: Option<usize>)
    ensures
        r == heuristic_count(bytes@, strategy),
        match r {
            Some(best) => {
                &&& 0 < best <= COUNT_BOUND
                &&& exists|i: int|
                    0 <= i < scan_reach(bytes@, strategy) && #[trigger] suggestion(
                        bytes@,
                        strategy,
                        i,
                    ) == best
                &&& forall|i: int|
                    0 <= i < scan_reach(bytes@, strategy) ==> #[trigger] suggestion(
                        bytes@,
                        strategy,
                        i,
                    ) <= best
            },
            None => forall|i: int|
                0 <= i < scan_reach(bytes@, strategy) ==> #[trigger] suggestion(bytes@, strategy, i)
                    == 0,
        },
{
    let reach: usize = bytes.len();
    let mut best: usize = 0;
    let mut i: usize = 0;
    while i < reach
        invariant
            i <= reach,
            reach <= bytes@.len(),
            best == best_below(bytes@, strategy, i as int),
        decreases reach - i,
    {
        let here: usize = suggestion_at(bytes, strategy, i);
        if here > best {
            best = here;
        }
        i += 1;
    }
    proof {
        lemma_best_below_is_max(bytes@, strategy, reach as int);
    }
    if best == 0 {
        None
    } else {
        Some(best)
    }
}

/// The greatest `/Count` found within the near window around an occurrence
/// of `/Pages`.
pub fn search_type_pages_pattern(bytes: &[u8]) -> (r: Option<usize>)
    ensures
        r == heuristic_count(bytes@, Strategy::TypePagesProximity),
{
    search_heuristic(bytes, Strategy::TypePagesProximity)
}

/// The greatest `/Count` found anywhere in the file: of all the plausible
/// numbers that stand behind a `/Count`, the maximum. That the greatest count
/// is the count of the root is a guess: a page tree whose counts do not grow
/// towards the root defeats it.
pub fn search_all_count_values(bytes: &[u8]) -> (r: Option<usize>)
    ensures
        r == heuristic_count(bytes@, Strategy::GlobalMaxCount),
        forall|i: int|
            0 <= i < scan_reach(bytes@, Strategy::GlobalMaxCount) ==> #[trigger] suggestion(
                bytes@,
                Strategy::GlobalMaxCount,
                i,
            ) <= plausible(r),
{
    search_heuristic(bytes, Strategy::GlobalMaxCount)
}

/// The greatest `/Count` found within the far window around an occurrence of
/// `/Pages`.
pub fn search_pages_with_large_window(bytes: &[u8]) -> (r: Option<usize>)
    ensures
        r == heuristic_count(bytes@, Strategy::ExpandedWindow),
{
    search_heuristic(bytes, Strategy::ExpandedWindow)
}

/// The greatest number found behind a `Count` that follows white space or a
/// slash.
pub fn search_count_without_slash(bytes: &[u8]) -> (r: Option<usize>)
    ensures
        r == heuristic_count(bytes@, Strategy::CountWithoutSlash),
{
    search_heuristic(bytes, Strategy::CountWithoutSlash)
}

/// What one of the five byte-level strategies makes of `doc`; the full parse
/// is not among them and gives nothing here.
pub open spec fn strategy_count(doc: Seq<u8>, strategy: Strategy) -> Option<usize> {
    match strategy {
        Strategy::SpecFollowing => declared_page_count(doc),
        Strategy::FullParse => None,
        _ => heuristic_count(doc, strategy),
    }
}

/// The first strategy, in the order of trial, that finds a page count, with
/// what it finds.
pub open spec fn fast_resolution(doc: Seq<u8>) -> Option<(Strategy, usize)> {
    if let Some(n) = strategy_count(doc, Strategy::SpecFollowing) {
        Some((Strategy::SpecFollowing, n))
    } else if let Some(n) = strategy_count(doc, Strategy::TypePagesProximity) {
        Some((Strategy::TypePagesProximity, n))
    } else if let Some(n) = strategy_count(doc, Strategy::GlobalMaxCount) {
        Some((Strategy::GlobalMaxCount, n))
    } else if let Some(n) = strategy_count(doc, Strategy::ExpandedWindow) {
        Some((Strategy::ExpandedWindow, n))
    } else if let Some(n) = strategy_count(doc, Strategy::CountWithoutSlash) {
        Some((Strategy::CountWithoutSlash, n))
    } else {
        None
    }
}

/// Runs one byte-level strategy.
pub fn run_strategy(bytes: &[u8], strategy: Strategy) -> (r: Option<usize>)
    ensures
        r == strategy_count(bytes@, strategy),
        r matches Some(n) ==> n <= COUNT_BOUND,
        r matches Some(n) ==> strategy.is_heuristic() ==> 0 < n <= COUNT_BOUND,
{
    match strategy {
        Strategy::SpecFollowing => parse_from_end_of_file(bytes),
        Strategy::FullParse => None,
        _ => search_heuristic(bytes, strategy),
    }
}

/// Tries the five byte-level strategies in their order and returns the first
/// page count found, with the strategy that found it. No strategy is run once
/// an earlier one has succeeded.
pub fn resolve_fast(bytes: &[u8]) -> (r: Option<(Strategy, usize)>)
    ensures
        r == fast_resolution(bytes@),
        r matches Some((strategy, n)) ==> n <= COUNT_BOUND && strategy_count(bytes@, strategy)
            == Some(n) && !(strategy is FullParse),
{
    if let Some(n) = run_strategy(bytes, Strategy::SpecFollowing) {
        return Some((Strategy::SpecFollowing, n));
    }
    if let Some(n) = run_strategy(bytes, Strategy::TypePagesProximity) {
        return Some((Strategy::TypePagesProximity, n));
    }
    if let Some(n) = run_strategy(bytes, Strategy::GlobalMaxCount) {
        return Some((Strategy::GlobalMaxCount, n));
    }
    if let Some(n) = run_strategy(bytes, Strategy::ExpandedWindow) {
        return Some((Strategy::ExpandedWindow, n));
    }
    if let Some(n) = run_strategy(bytes, Strategy::CountWithoutSlash) {
        return Some((Strategy::CountWithoutSlash, n));
    }
    None
}

/// The page count of a PDF, by the first of the five byte-level strategies
/// that finds one: the prescribed chain, then the four pattern searches.
pub fn count_pages_ultra_fast(bytes: &[u8]) -> (r: Option<usize>)
    ensures
        r == match fast_resolution(bytes@) {
            Some((strategy, n)) => Some(n),
            None => None,
        },
{
    match resolve_fast(bytes) {
        Some((strategy, n)) => Some(n),
        None => None,
    }
}

/// The size of the first page whose `MediaBox` can be read: width and height
/// in thousandths of a point.
pub fn extract_mediabox_ultra_fast(bytes: &[u8]) -> (r: Option<PagePoints>)
    ensures
        r == first_box(bytes@, media_box_key(), 0, bytes@.len() as int),
{
    let key = media_box_bytes();
    find_box(bytes, key.as_slice(), 0, bytes.len())
}

} // verus!
