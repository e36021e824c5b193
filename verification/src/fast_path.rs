//! The chain that the file format prescribes, as a machine of nine states:
//! from the end of the file to `startxref`, the cross-reference offset, the
//! trailer, its `/Root`, the catalog, its `/Pages`, the root of the page tree
//! and the `/Count` in it. A step that does not find what it looks for ends
//! the chain, and the failure tells in which state and why.

use vstd::prelude::*;
use vstd::slice::slice_subrange;
use crate::keywords::{
    count_bytes, count_key, obj_suffix, pages_bytes, pages_key, root_bytes, root_key,
    startxref_bytes, startxref_key, trailer_bytes, trailer_key,
};
use crate::scanner::{
    decimal_digits, find, find_between, first_match, first_occurrence, last_match, lesser,
    minus_or_zero, number_at, push_decimal, rfind_between, run_end, scan_number, skip_class,
    ByteClass, Number,
};
use crate::ultra_fast_pdf::{
    BODY_WINDOW, COUNT_BOUND, NUMBER_BOUND, TAIL_WINDOW, TRAILER_WINDOW,
};

verus! {

/// The number of an indirect object. Its generation is taken to be zero.
pub type ObjectReference = usize;

/// The states of the chain, in their order. From the last one the chain is done.
#[derive(Clone, Copy, PartialEq, Eq, Structural, Debug)]
pub enum ChainState {
    /// Nothing has been read. No step is taken in this state, so no chain
    /// ends in it.
    Start,
    /// `startxref` is looked for in the tail of the file.
    LocateStartXref,
    /// The offset behind `startxref` is read; it must lie inside the file.
    ReadXrefOffset,
    /// `trailer` is looked for behind the offset.
    LocateTrailer,
    /// The number of the catalog is read behind `/Root`.
    ExtractRootRef,
    /// The catalog is looked for by its marker.
    LocateRootObject,
    /// The number of the root of the page tree is read behind `/Pages`.
    ExtractPagesRef,
    /// The root of the page tree is looked for by its marker.
    LocatePagesObject,
    /// The page count is read behind `/Count`.
    ExtractCount,
}

/// Why a step found nothing.
#[derive(Clone, Copy, PartialEq, Eq, Structural, Debug)]
pub enum ScanError {
    /// The keyword or marker that the step looks for is not in its window.
    NotFound,
    /// The anchor is there, and what follows it is no number, or the offset
    /// read lies outside the file.
    Malformed,
    /// A number is there, and it exceeds its bound.
    Overflow,
}

/// The state in which the chain ended without a page count, and why.
#[derive(Clone, Copy, PartialEq, Eq, Structural, Debug)]
pub struct ChainFailure {
    pub state: ChainState,
    pub error: ScanError,
}

/// What a step found, where it found anything.
pub open spec fn found<T, E>(outcome: Result<T, E>) -> Option<T> {
    match outcome {
        Ok(value) => Some(value),
        Err(_) => None,
    }
}

/// The failure of a step in `state`.
pub open spec fn failed<T>(state: ChainState, error: ScanError) -> Result<T, ChainFailure> {
    Err(ChainFailure { state, error })
}

/// The number that follows optional white space at the start of `s`, held
/// against `bound`.
pub open spec fn number_read(s: Seq<u8>, bound: int) -> Result<usize, ScanError> {
    match number_at(s, run_end(s, 0, s.len() as int, ByteClass::Space), s.len() as int, bound) {
        Number::Value { value, end } => Ok(value),
        Number::TooLarge => Err(ScanError::Overflow),
        Number::Missing => Err(ScanError::Malformed),
    }
}

/// The object number that follows the first occurrence of `key` in `s`.
pub open spec fn reference_read(s: Seq<u8>, key: Seq<u8>) -> Result<ObjectReference, ScanError> {
    match first_occurrence(s, key) {
        Some(i) => number_read(s.subrange(i + key.len(), s.len() as int), NUMBER_BOUND as int),
        None => Err(ScanError::NotFound),
    }
}

/// The number behind the first `/Count` of `s`, held against the bound on
/// page counts.
pub open spec fn count_read(s: Seq<u8>) -> Result<usize, ScanError> {
    match first_occurrence(s, count_key()) {
        Some(i) => number_read(s.subrange(i + 6, s.len() as int), COUNT_BOUND as int),
        None => Err(ScanError::NotFound),
    }
}

/// The text that opens the definition of object `id`: its number, then ` 0 obj`.
pub open spec fn object_marker(id: nat) -> Seq<u8> {
    decimal_digits(id) + obj_suffix()
}

/// Where the body of object `id` starts in `doc`: at the first occurrence of
/// its marker.
pub open spec fn object_start(doc: Seq<u8>, id: nat) -> Option<int> {
    first_occurrence(doc, object_marker(id))
}

/// The body of object `id`: from its marker on, as far as the body window reaches.
pub open spec fn object_section(doc: Seq<u8>, id: nat) -> Option<Seq<u8>> {
    match object_start(doc, id) {
        Some(i) => Some(doc.subrange(i, lesser(i + BODY_WINDOW, doc.len() as int))),
        None => None,
    }
}

/// Where the last `startxref` stands in the tail of `doc`.
pub open spec fn startxref_position(doc: Seq<u8>) -> Option<int> {
    last_match(
        doc,
        startxref_key(),
        minus_or_zero(doc.len() as int, TAIL_WINDOW as int),
        doc.len() as int,
    )
}

/// The start of the trailer dictionary as read: from the first `trailer`
/// inside the trailer window behind `offset`, as far as the body window reaches.
pub open spec fn trailer_section(doc: Seq<u8>, offset: int) -> Option<Seq<u8>> {
    let rest = doc.subrange(offset, doc.len() as int);
    match first_match(rest, trailer_key(), 0, TRAILER_WINDOW as int) {
        Some(t) => Some(rest.subrange(t, lesser(t + BODY_WINDOW, rest.len() as int))),
        None => None,
    }
}

/// The first three states: the offset of the cross-reference section, as
/// written behind the last `startxref` in the tail of the file, where it
/// lies inside the file.
pub open spec fn xref_read(doc: Seq<u8>) -> Result<usize, ChainFailure> {
    match startxref_position(doc) {
        None => failed(ChainState::LocateStartXref, ScanError::NotFound),
        Some(p) => match number_read(doc.subrange(p + 9, doc.len() as int), NUMBER_BOUND as int) {
            Err(error) => failed(ChainState::ReadXrefOffset, error),
            Ok(offset) => if offset < doc.len() {
                Ok(offset)
            } else {
                failed(ChainState::ReadXrefOffset, ScanError::Malformed)
            },
        },
    }
}

/// The chain up to the trailer dictionary.
pub open spec fn trailer_read(doc: Seq<u8>) -> Result<Seq<u8>, ChainFailure> {
    match xref_read(doc) {
        Err(failure) => Err(failure),
        Ok(offset) => match trailer_section(doc, offset as int) {
            None => failed(ChainState::LocateTrailer, ScanError::NotFound),
            Some(trailer) => Ok(trailer),
        },
    }
}

/// The chain up to the body of the catalog.
pub open spec fn catalog_read(doc: Seq<u8>) -> Result<Seq<u8>, ChainFailure> {
    match trailer_read(doc) {
        Err(failure) => Err(failure),
        Ok(trailer) => match reference_read(trailer, root_key()) {
            Err(error) => failed(ChainState::ExtractRootRef, error),
            Ok(id) => match object_section(doc, id as nat) {
                None => failed(ChainState::LocateRootObject, ScanError::NotFound),
                Some(catalog) => Ok(catalog),
            },
        },
    }
}

/// The chain up to the body of the root of the page tree.
pub open spec fn pages_read(doc: Seq<u8>) -> Result<Seq<u8>, ChainFailure> {
    match catalog_read(doc) {
        Err(failure) => Err(failure),
        Ok(catalog) => match reference_read(catalog, pages_key()) {
            Err(error) => failed(ChainState::ExtractPagesRef, error),
            Ok(id) => match object_section(doc, id as nat) {
                None => failed(ChainState::LocatePagesObject, ScanError::NotFound),
                Some(pages) => Ok(pages),
            },
        },
    }
}

/// The whole chain: the page count that the root of the page tree declares,
/// or the state in which the chain ended and why.
pub open spec fn chain_outcome(doc: Seq<u8>) -> Result<usize, ChainFailure> {
    match pages_read(doc) {
        Err(failure) => Err(failure),
        Ok(pages) => match count_read(pages) {
            Err(error) => failed(ChainState::ExtractCount, error),
            Ok(n) => Ok(n),
        },
    }
}

/// Reads the number that follows optional white space at the start of
/// `bytes` and holds it against `bound`.
pub fn read_number(bytes: &[u8], bound: usize) -> (r: Result<usize, ScanError>)
    ensures
        r == number_read(bytes@, bound as int),
        r matches Ok(n) ==> n <= bound,
{
    let start: usize = skip_class(bytes, 0, bytes.len(), ByteClass::Space);
    match scan_number(bytes, start, bytes.len(), bound) {
        Number::Value { value, end } => Ok(value),
        Number::TooLarge => Err(ScanError::Overflow),
        Number::Missing => Err(ScanError::Malformed),
    }
}

/// Reads the object number behind the first occurrence of `keyword`.
pub fn read_reference(bytes: &[u8], keyword: &[u8]) -> (r: Result<ObjectReference, ScanError>)
    ensures
        r == reference_read(bytes@, keyword@),
{
    let len: usize = bytes.len();
    match find(bytes, keyword, 0) {
        Some(i) => read_number(slice_subrange(bytes, i + keyword.len(), len), NUMBER_BOUND),
        None => Err(ScanError::NotFound),
    }
}

/// Reads the number behind the first `/Count`.
pub fn read_count(bytes: &[u8]) -> (r: Result<usize, ScanError>)
    ensures
        r == count_read(bytes@),
        r matches Ok(n) ==> n <= COUNT_BOUND,
{
    let key = count_bytes();
    let len: usize = bytes.len();
    match find(bytes, key.as_slice(), 0) {
        Some(i) => read_number(slice_subrange(bytes, i + 6, len), COUNT_BOUND),
        None => Err(ScanError::NotFound),
    }
}

/// The body of object `obj_id`, found by its marker in the text of the file.
pub fn locate_object(bytes: &[u8], obj_id: ObjectReference) -> (r: Option<&[u8]>)
    ensures
        match r {
            Some(section) => object_section(bytes@, obj_id as nat) == Some(section@),
            None => object_section(bytes@, obj_id as nat) is None,
        },
{
    let mut marker: Vec<u8> = Vec::new();
    push_decimal(&mut marker, obj_id);
    marker.push(' ' as u8);
    marker.push('0' as u8);
    marker.push(' ' as u8);
    marker.push('o' as u8);
    marker.push('b' as u8);
    marker.push('j' as u8);
    assert(marker@ =~= object_marker(obj_id as nat));
    match find(bytes, marker.as_slice(), 0) {
        Some(i) => {
            let end: usize = if bytes.len() - i > BODY_WINDOW {
                i + BODY_WINDOW
            } else {
                bytes.len()
            };
            Some(slice_subrange(bytes, i, end))
        },
        None => None,
    }
}

/// The first three states of the chain.
pub fn read_xref(bytes: &[u8]) -> (r: Result<usize, ChainFailure>)
    ensures
        r == xref_read(bytes@),
        r matches Ok(offset) ==> offset < bytes@.len(),
{
    let len: usize = bytes.len();
    let tail: usize = if len > TAIL_WINDOW {
        len - TAIL_WINDOW
    } else {
        0
    };
    let key = startxref_bytes();
    let position: usize = match rfind_between(bytes, key.as_slice(), tail, len) {
        Some(p) => p,
        None => {
            return Err(
                ChainFailure { state: ChainState::LocateStartXref, error: ScanError::NotFound },
            );
        },
    };
    match read_number(slice_subrange(bytes, position + 9, len), NUMBER_BOUND) {
        Ok(offset) => if offset < len {
            Ok(offset)
        } else {
            Err(ChainFailure { state: ChainState::ReadXrefOffset, error: ScanError::Malformed })
        },
        Err(error) => Err(ChainFailure { state: ChainState::ReadXrefOffset, error }),
    }
}

/// The chain up to the trailer dictionary.
pub fn read_trailer(bytes: &[u8]) -> (r: Result<&[u8], ChainFailure>)
    ensures
        match r {
            Ok(trailer) => trailer_read(bytes@) == Ok::<Seq<u8>, ChainFailure>(trailer@),
            Err(failure) => trailer_read(bytes@) == Err::<Seq<u8>, ChainFailure>(failure),
        },
{
    let offset: usize = match read_xref(bytes) {
        Ok(offset) => offset,
        Err(failure) => { return Err(failure); },
    };
    let rest = slice_subrange(bytes, offset, bytes.len());
    let key = trailer_bytes();
    match find_between(rest, key.as_slice(), 0, TRAILER_WINDOW) {
        Some(at) => {
            let end: usize = if rest.len() - at > BODY_WINDOW {
                at + BODY_WINDOW
            } else {
                rest.len()
            };
            Ok(slice_subrange(rest, at, end))
        },
        None => Err(ChainFailure { state: ChainState::LocateTrailer, error: ScanError::NotFound }),
    }
}

/// The chain up to the body of the catalog.
pub fn read_catalog(bytes: &[u8]) -> (r: Result<&[u8], ChainFailure>)
    ensures
        match r {
            Ok(catalog) => catalog_read(bytes@) == Ok::<Seq<u8>, ChainFailure>(catalog@),
            Err(failure) => catalog_read(bytes@) == Err::<Seq<u8>, ChainFailure>(failure),
        },
{
    let trailer = match read_trailer(bytes) {
        Ok(trailer) => trailer,
        Err(failure) => { return Err(failure); },
    };
    let key = root_bytes();
    let id: ObjectReference = match read_reference(trailer, key.as_slice()) {
        Ok(id) => id,
        Err(error) => { return Err(ChainFailure { state: ChainState::ExtractRootRef, error }); },
    };
    match locate_object(bytes, id) {
        Some(catalog) => Ok(catalog),
        None => Err(
            ChainFailure { state: ChainState::LocateRootObject, error: ScanError::NotFound },
        ),
    }
}

/// The chain up to the body of the root of the page tree.
pub fn read_pages(bytes: &[u8]) -> (r: Result<&[u8], ChainFailure>)
    ensures
        match r {
            Ok(pages) => pages_read(bytes@) == Ok::<Seq<u8>, ChainFailure>(pages@),
            Err(failure) => pages_read(bytes@) == Err::<Seq<u8>, ChainFailure>(failure),
        },
{
    let catalog = match read_catalog(bytes) {
        Ok(catalog) => catalog,
        Err(failure) => { return Err(failure); },
    };
    let key = pages_bytes();
    let id: ObjectReference = match read_reference(catalog, key.as_slice()) {
        Ok(id) => id,
        Err(error) => { return Err(ChainFailure { state: ChainState::ExtractPagesRef, error }); },
    };
    match locate_object(bytes, id) {
        Some(pages) => Ok(pages),
        None => Err(
            ChainFailure { state: ChainState::LocatePagesObject, error: ScanError::NotFound },
        ),
    }
}

/// Follows the chain from the end of the file. Returns the page count that
/// the root of the page tree declares, or the state in which the chain ended
/// and why: every window is bounded, nothing outside the file is read, and a
/// number above its bound is not taken.
pub fn follow_chain(bytes: &[u8]) -> (r: Result<usize, ChainFailure>)
    ensures
        r == chain_outcome(bytes@),
        r matches Ok(n) ==> n <= COUNT_BOUND,
{
    let pages = match read_pages(bytes) {
        Ok(pages) => pages,
        Err(failure) => { return Err(failure); },
    };
    match read_count(pages) {
        Ok(n) => Ok(n),
        Err(error) => Err(ChainFailure { state: ChainState::ExtractCount, error }),
    }
}

} // verus!
