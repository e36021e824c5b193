//! Page bounds: decimal numbers read as thousandths, and the four numbers of
//! a box behind its key.

use vstd::prelude::*;
use crate::scanner::{
    decimal_value, find, find_between, first_match, lemma_run_end, lesser, matches_at,
    matches_pattern, run_end, scan_number, skip_class, ByteClass, Number,
};
use crate::ultra_fast_pdf::NUMBER_BOUND;

verus! {

/// The opening bracket of a box is looked for in this many bytes behind the key,
/// and the box is read no further.
pub const BOX_WINDOW: usize = 100;

/// A side of a page is shorter than this: ten thousand points, in thousandths.
pub const MAX_SIDE: u64 = 10_000_000;

/// No decimal number read is greater than this, or less than its negative:
/// the bound on numbers and 999 thousandths.
pub const MAX_DECIMAL: i64 = 100_000_000_999;

/// The width and height of a page in thousandths of a point.
#[derive(Clone, Copy, PartialEq, Eq, Structural, Debug)]
pub struct PagePoints {
    pub width: u64,
    pub height: u64,
}

/// `[`, which opens a box.
pub open spec fn bracket_key() -> Seq<u8> {
    seq!['[' as u8]
}

/// The digit at place `k` behind the decimal point; zero where none is written.
pub open spec fn fraction_digit(frac: Seq<u8>, k: int) -> int {
    if 0 <= k < frac.len() {
        frac[k] - 0x30
    } else {
        0
    }
}

/// The thousandths that the digits behind a decimal point denote; digits past
/// the third are dropped.
pub open spec fn milli_fraction(frac: Seq<u8>) -> int {
    fraction_digit(frac, 0) * 100 + fraction_digit(frac, 1) * 10 + fraction_digit(frac, 2)
}

/// The decimal number written at `from`, in thousandths, and the offset behind
/// it. A number is an optional minus sign, digits, and at most one decimal
/// point among them; at least one digit must stand there, nothing is read at
/// or past `limit`, and the part before the point must not exceed the bound on
/// numbers.
pub open spec fn decimal_at(hay: Seq<u8>, from: int, limit: int) -> Option<(i64, usize)> {
    let negative = 0 <= from < limit && from < hay.len() && hay[from] == '-' as u8;
    let body = if negative {
        from + 1
    } else {
        from
    };
    let end = run_end(hay, body, limit, ByteClass::Decimal);
    let point = run_end(hay, body, end, ByteClass::Digit);
    let whole = hay.subrange(body, point);
    let frac = if point < end {
        hay.subrange(point + 1, end)
    } else {
        Seq::<u8>::empty()
    };
    let digits = (point - body) + (if point < end {
        end - point - 1
    } else {
        0
    });
    if digits == 0 {
        None
    } else if point < end && run_end(hay, point + 1, end, ByteClass::Digit) != end {
        None
    } else if decimal_value(whole) > NUMBER_BOUND {
        None
    } else {
        let magnitude = decimal_value(whole) * 1000 + milli_fraction(frac);
        Some(
            (
                if negative {
                    (-magnitude) as i64
                } else {
                    magnitude as i64
                },
                end as usize,
            ),
        )
    }
}

/// The decimal number that follows optional white space at `pos`.
pub open spec fn spaced_decimal_at(hay: Seq<u8>, pos: int, limit: int) -> Option<(i64, usize)> {
    decimal_at(hay, run_end(hay, pos, limit, ByteClass::Space), limit)
}

/// Four decimal numbers in a row from `pos`, each behind optional white space.
pub open spec fn four_decimals(hay: Seq<u8>, pos: int, limit: int) -> Option<(i64, i64, i64, i64)> {
    match spaced_decimal_at(hay, pos, limit) {
        Some((x0, second)) => match spaced_decimal_at(hay, second as int, limit) {
            Some((y0, third)) => match spaced_decimal_at(hay, third as int, limit) {
                Some((x1, fourth)) => match spaced_decimal_at(hay, fourth as int, limit) {
                    Some((y1, end)) => Some((x0, y0, x1, y1)),
                    None => None,
                },
                None => None,
            },
            None => None,
        },
        None => None,
    }
}

/// The distance between two numbers.
pub open spec fn distance(a: i64, b: i64) -> int {
    if a >= b {
        a - b
    } else {
        b - a
    }
}

/// The page size that the corners `(x0, y0)` and `(x1, y1)` span, where both
/// sides are positive and shorter than the longest side believed.
pub open spec fn spanned(corners: (i64, i64, i64, i64)) -> Option<PagePoints> {
    let width = distance(corners.2, corners.0);
    let height = distance(corners.3, corners.1);
    if 0 < width < MAX_SIDE && 0 < height < MAX_SIDE {
        Some(PagePoints { width: width as u64, height: height as u64 })
    } else {
        None
    }
}

/// The page size that the box behind the key at `i` gives: `key` stands at
/// `i`, an opening bracket within the box window behind it, and behind that
/// four numbers that span a believable page.
pub open spec fn box_at(doc: Seq<u8>, i: int, key: Seq<u8>) -> Option<PagePoints> {
    if matches_at(doc, i, key) {
        let start = i + key.len();
        let end = lesser(start + BOX_WINDOW, doc.len() as int);
        match first_match(doc, bracket_key(), start, end) {
            Some(open) => match four_decimals(doc, open + 1, end) {
                Some(corners) => spanned(corners),
                None => None,
            },
            None => None,
        }
    } else {
        None
    }
}

/// The page size from the first position in `[from, to)` at which a box
/// behind `key` gives one.
pub open spec fn first_box(doc: Seq<u8>, key: Seq<u8>, from: int, to: int) -> Option<PagePoints>
    decreases to - from,
{
    if from >= to {
        None
    } else if box_at(doc, from, key) is Some {
        box_at(doc, from, key)
    } else {
        first_box(doc, key, from + 1, to)
    }
}

/// `]`, which closes a box.
pub open spec fn closing_key() -> Seq<u8> {
    seq![']' as u8]
}

/// The first four decimal numbers among the words that stand between `pos`
/// and `limit`, `found` holding those already met. Words are parted by white
/// space, and a word that is no decimal number is passed over. (A word that
/// starts below the limit ends behind its start and not past the limit; the
/// test for that lets the definition be seen to end.)
pub open spec fn listed_decimals(hay: Seq<u8>, pos: int, limit: int, found: Seq<i64>) -> Option<
    Seq<i64>,
>
    decreases limit - pos,
{
    let word = run_end(hay, pos, limit, ByteClass::Space);
    let end = run_end(hay, word, limit, ByteClass::Solid);
    if found.len() >= 4 {
        Some(found)
    } else if word >= limit || end <= pos || end > limit {
        None
    } else {
        match decimal_at(hay, word, end) {
            Some((value, next)) => if next == end {
                listed_decimals(hay, end, limit, found.push(value))
            } else {
                listed_decimals(hay, end, limit, found)
            },
            None => listed_decimals(hay, end, limit, found),
        }
    }
}

/// The page size that the first `/MediaBox` of a document read as text
/// gives: the first four numbers between the first `[` and the first `]`
/// behind the key span a believable page.
pub open spec fn text_box(doc: Seq<u8>, key: Seq<u8>) -> Option<PagePoints> {
    let len = doc.len() as int;
    match first_match(doc, key, 0, len + 1) {
        Some(at) => match first_match(doc, bracket_key(), at, len + 1) {
            Some(open) => match first_match(doc, closing_key(), at, len + 1) {
                Some(close) => if close <= open {
                    None
                } else {
                    match listed_decimals(doc, open + 1, close, Seq::empty()) {
                        Some(corners) => spanned((corners[0], corners[1], corners[2], corners[3])),
                        None => None,
                    }
                },
                None => None,
            },
            None => None,
        },
        None => None,
    }
}

/// A first box is the box at some position of the range, and no position
/// before that one gives a box; where there is none, no position gives one.
pub proof fn lemma_first_box(doc: Seq<u8>, key: Seq<u8>, from: int, to: int)
    ensures
        match first_box(doc, key, from, to) {
            Some(size) => exists|i: int|
                from <= i < to && #[trigger] box_at(doc, i, key) == Some(size) && forall|j: int|
                    from <= j < i ==> box_at(doc, j, key) is None,
            None => forall|j: int| from <= j < to ==> box_at(doc, j, key) is None,
        },
    decreases to - from,
{
    if from < to {
        if box_at(doc, from, key) is Some {
            assert(from <= from < to && box_at(doc, from, key) == first_box(doc, key, from, to));
        } else {
            lemma_first_box(doc, key, from + 1, to);
            match first_box(doc, key, from + 1, to) {
                Some(size) => {
                    let i = choose|i: int|
                        from + 1 <= i < to && #[trigger] box_at(doc, i, key) == Some(size) && forall|j: int|
                            from + 1 <= j < i ==> box_at(doc, j, key) is None;
                    assert(from <= i < to && box_at(doc, i, key) == Some(size) && forall|j: int|
                        from <= j < i ==> box_at(doc, j, key) is None);
                },
                None => {},
            }
        }
    }
}

/// Where no position from `from` on gives a box, there is no first box.
pub proof fn lemma_first_box_none(doc: Seq<u8>, key: Seq<u8>, from: int, to: int)
    requires
        forall|j: int| from <= j < to ==> box_at(doc, j, key) is None,
    ensures
        first_box(doc, key, from, to) is None,
    decreases to - from,
{
    if from < to {
        lemma_first_box_none(doc, key, from + 1, to);
    }
}

/// Reads the decimal number written at `start`, in thousandths, and returns it
/// with the offset behind it. `None` where no well-formed number stands there:
/// no digit, a second decimal point, or a part before the point above the
/// bound on numbers. Nothing is read at or past `end`.
pub fn parse_float(bytes: &[u8], start: usize, end: usize) -> (r: Option<(i64, usize)>)
    ensures
        r == decimal_at(bytes@, start as int, end as int),
        r matches Some((value, next)) ==> start < next && next <= end && next <= bytes@.len(),
        r matches Some((value, next)) ==> -MAX_DECIMAL <= value <= MAX_DECIMAL,
{
    let ghost hay = bytes@;
    let len: usize = bytes.len();
    let negative: bool = start < end && start < len && bytes[start] == '-' as u8;
    let body: usize = if negative {
        start + 1
    } else {
        start
    };
    let stop: usize = skip_class(bytes, body, end, ByteClass::Decimal);
    let point: usize = skip_class(bytes, body, stop, ByteClass::Digit);
    proof {
        lemma_run_end(hay, body as int, end as int, ByteClass::Decimal);
        lemma_run_end(hay, body as int, stop as int, ByteClass::Digit);
    }
    if stop == body {
        return None;
    }
    assert(body < stop <= len && stop <= end);
    let whole: u64 = match scan_number(bytes, body, stop, NUMBER_BOUND) {
        Number::Missing => 0,
        Number::TooLarge => { return None; },
        Number::Value { value, end } => value as u64,
    };
    assert(whole == decimal_value(hay.subrange(body as int, point as int))) by {
        if point == body {
            assert(hay.subrange(body as int, point as int) =~= Seq::<u8>::empty());
        }
    }
    let mut thousandths: u64 = 0;
    if point < stop {
        let frac_end: usize = skip_class(bytes, point + 1, stop, ByteClass::Digit);
        proof {
            lemma_run_end(hay, point as int + 1, stop as int, ByteClass::Digit);
        }
        if frac_end != stop {
            return None;
        }
        let ghost frac = hay.subrange(point as int + 1, stop as int);
        if stop - point == 1 && point == body {
            return None;
        }
        if stop - point > 1 {
            thousandths = (bytes[point + 1] - 0x30) as u64 * 100;
            assert(frac[0] == hay[point as int + 1]);
        }
        if stop - point > 2 {
            thousandths = thousandths + (bytes[point + 2] - 0x30) as u64 * 10;
            assert(frac[1] == hay[point as int + 2]);
        }
        if stop - point > 3 {
            thousandths = thousandths + (bytes[point + 3] - 0x30) as u64;
            assert(frac[2] == hay[point as int + 3]);
        }
        assert(thousandths == milli_fraction(frac));
    }
    let magnitude: i64 = (whole * 1000 + thousandths) as i64;
    let value: i64 = if negative {
        -magnitude
    } else {
        magnitude
    };
    Some((value, stop))
}

/// Reads the decimal number that follows optional white space at `pos`.
fn parse_spaced(bytes: &[u8], pos: usize, end: usize) -> (r: Option<(i64, usize)>)
    ensures
        r == spaced_decimal_at(bytes@, pos as int, end as int),
        r matches Some((value, next)) ==> -MAX_DECIMAL <= value <= MAX_DECIMAL,
{
    let at: usize = skip_class(bytes, pos, end, ByteClass::Space);
    parse_float(bytes, at, end)
}

/// The page size that two opposite corners span.
fn span(x0: i64, y0: i64, x1: i64, y1: i64) -> (r: Option<PagePoints>)
    requires
        -MAX_DECIMAL <= x0 <= MAX_DECIMAL,
        -MAX_DECIMAL <= y0 <= MAX_DECIMAL,
        -MAX_DECIMAL <= x1 <= MAX_DECIMAL,
        -MAX_DECIMAL <= y1 <= MAX_DECIMAL,
    ensures
        r == spanned((x0, y0, x1, y1)),
{
    let width: i64 = if x1 >= x0 {
        x1 - x0
    } else {
        x0 - x1
    };
    let height: i64 = if y1 >= y0 {
        y1 - y0
    } else {
        y0 - y1
    };
    if 0 < width && width < MAX_SIDE as i64 && 0 < height && height < MAX_SIDE as i64 {
        Some(PagePoints { width: width as u64, height: height as u64 })
    } else {
        None
    }
}

/// The page size that the box behind `key` at `i` gives.
pub fn read_box_at(bytes: &[u8], i: usize, key: &[u8]) -> (r: Option<PagePoints>)
    ensures
        r == box_at(bytes@, i as int, key@),
{
    if !matches_pattern(bytes, i, key) {
        return None;
    }
    let len: usize = bytes.len();
    let start: usize = i + key.len();
    let end: usize = if len - start > BOX_WINDOW {
        start + BOX_WINDOW
    } else {
        len
    };
    let bracket: [u8; 1] = ['[' as u8];
    assert(bracket@ =~= bracket_key());
    let open: usize = match find_between(bytes, bracket.as_slice(), start, end) {
        Some(open) => open,
        None => { return None; },
    };
    let (x0, second) = match parse_spaced(bytes, open + 1, end) {
        Some(pair) => pair,
        None => { return None; },
    };
    let (y0, third) = match parse_spaced(bytes, second, end) {
        Some(pair) => pair,
        None => { return None; },
    };
    let (x1, fourth) = match parse_spaced(bytes, third, end) {
        Some(pair) => pair,
        None => { return None; },
    };
    let (y1, behind) = match parse_spaced(bytes, fourth, end) {
        Some(pair) => pair,
        None => { return None; },
    };
    span(x0, y0, x1, y1)
}

/// The page size from the first position in `[from, to)` at which a box
/// behind `key` gives one.
fn scan_boxes(bytes: &[u8], key: &[u8], from: usize, to: usize) -> (r: Option<PagePoints>)
    ensures
        r == first_box(bytes@, key@, from as int, to as int),
{
    let mut i: usize = from;
    while i < to && i < bytes.len()
        invariant
            from <= i,
            first_box(bytes@, key@, from as int, to as int) == first_box(
                bytes@,
                key@,
                i as int,
                to as int,
            ),
        decreases bytes.len() - i,
    {
        let here = read_box_at(bytes, i, key);
        if here.is_some() {
            return here;
        }
        i += 1;
    }
    proof {
        assert forall|j: int| i <= j < to implies box_at(bytes@, j, key@) is None by {
            if matches_at(bytes@, j, key@) {
                assert(first_match(
                    bytes@,
                    bracket_key(),
                    j + key@.len(),
                    lesser(j + key@.len() + BOX_WINDOW, bytes@.len() as int),
                ) is None);
            }
        }
        lemma_first_box_none(bytes@, key@, i as int, to as int);
    }
    None
}

/// The page size that the first box behind `key` gives which gives one: the
/// box at the least position in `[from, to)` at which `key` stands with a
/// bracket and four numbers behind it that span a believable page.
pub fn find_box(bytes: &[u8], key: &[u8], from: usize, to: usize) -> (r: Option<PagePoints>)
    ensures
        r == first_box(bytes@, key@, from as int, to as int),
        match r {
            Some(size) => exists|i: int|
                from <= i < to && #[trigger] box_at(bytes@, i, key@) == Some(size) && forall|j: int|
                    from <= j < i ==> box_at(bytes@, j, key@) is None,
            None => forall|j: int| from <= j < to ==> box_at(bytes@, j, key@) is None,
        },
{
    proof {
        lemma_first_box(bytes@, key@, from as int, to as int);
    }
    scan_boxes(bytes, key, from, to)
}

/// The first four decimal numbers among the words between `from` and `limit`.
fn list_decimals(bytes: &[u8], from: usize, limit: usize) -> (r: Option<(i64, i64, i64, i64)>)
    requires
        from <= limit <= bytes@.len(),
    ensures
        match r {
            Some(corners) => listed_decimals(bytes@, from as int, limit as int, Seq::empty())
                == Some(seq![corners.0, corners.1, corners.2, corners.3]),
            None => listed_decimals(bytes@, from as int, limit as int, Seq::empty()) is None,
        },
        r matches Some(corners) ==> {
            &&& -MAX_DECIMAL <= corners.0 <= MAX_DECIMAL
            &&& -MAX_DECIMAL <= corners.1 <= MAX_DECIMAL
            &&& -MAX_DECIMAL <= corners.2 <= MAX_DECIMAL
            &&& -MAX_DECIMAL <= corners.3 <= MAX_DECIMAL
        },
{
    let ghost hay = bytes@;
    let mut found: Vec<i64> = Vec::new();
    let mut pos: usize = from;
    while found.len() < 4
        invariant
            hay == bytes@,
            from <= pos <= limit <= hay.len(),
            found@.len() <= 4,
            forall|k: int|
                0 <= k < found@.len() ==> -MAX_DECIMAL <= #[trigger] found@[k] <= MAX_DECIMAL,
            listed_decimals(hay, from as int, limit as int, Seq::empty()) == listed_decimals(
                hay,
                pos as int,
                limit as int,
                found@,
            ),
        decreases limit - pos,
    {
        let word: usize = skip_class(bytes, pos, limit, ByteClass::Space);
        let end: usize = skip_class(bytes, word, limit, ByteClass::Solid);
        proof {
            lemma_run_end(hay, pos as int, limit as int, ByteClass::Space);
            lemma_run_end(hay, word as int, limit as int, ByteClass::Solid);
        }
        if word >= limit {
            return None;
        }
        assert(end > word);
        match parse_float(bytes, word, end) {
            Some((value, next)) => {
                if next == end {
                    found.push(value);
                }
            },
            None => {},
        }
        pos = end;
    }
    assert(found@ =~= seq![found@[0], found@[1], found@[2], found@[3]]);
    Some((found[0], found[1], found[2], found[3]))
}

/// The page size that the first occurrence of `key` gives, the document read
/// as text.
pub fn read_text_box(bytes: &[u8], key: &[u8]) -> (r: Option<PagePoints>)
    ensures
        r == text_box(bytes@, key@),
{
    let at: usize = match find(bytes, key, 0) {
        Some(at) => at,
        None => { return None; },
    };
    let bracket: [u8; 1] = ['[' as u8];
    let closing: [u8; 1] = [']' as u8];
    assert(bracket@ =~= bracket_key());
    assert(closing@ =~= closing_key());
    let open: usize = match find(bytes, bracket.as_slice(), at) {
        Some(open) => open,
        None => { return None; },
    };
    let close: usize = match find(bytes, closing.as_slice(), at) {
        Some(close) => close,
        None => { return None; },
    };
    if close <= open {
        return None;
    }
    match list_decimals(bytes, open + 1, close) {
        Some((x0, y0, x1, y1)) => span(x0, y0, x1, y1),
        None => None,
    }
}

} // verus!
