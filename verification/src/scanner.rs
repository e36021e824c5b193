//! Byte-level scanning primitives: pattern matching, runs of a byte class,
//! and bounded unsigned decimal numbers. Every operation is total over any
//! slice and any offset.

use vstd::prelude::*;

verus! {

/// The bytes treated as white space: space, tab, carriage return, line feed, NUL.
pub open spec fn is_space(b: u8) -> bool {
    b == 0x20 || b == 0x09 || b == 0x0d || b == 0x0a || b == 0x00
}

/// The ASCII decimal digits.
pub open spec fn is_digit(b: u8) -> bool {
    0x30 <= b <= 0x39
}

/// The delimiters that may stand between a key and its number: `( ) < > [ ]`.
pub open spec fn is_bracket(b: u8) -> bool {
    b == 0x28 || b == 0x29 || b == 0x3c || b == 0x3e || b == 0x5b || b == 0x5d
}

/// A class of bytes that a scan can run over.
#[derive(Clone, Copy, PartialEq, Eq, Structural, Debug)]
pub enum ByteClass {
    /// White space only.
    Space,
    /// White space and brackets.
    Filler,
    /// White space, brackets and the colon.
    FillerOrColon,
    /// Decimal digits.
    Digit,
    /// Decimal digits and the decimal point.
    Decimal,
    /// Anything but white space.
    Solid,
}

/// Membership of a byte in a class.
pub open spec fn in_class(class: ByteClass, b: u8) -> bool {
    match class {
        ByteClass::Space => is_space(b),
        ByteClass::Filler => is_space(b) || is_bracket(b),
        ByteClass::FillerOrColon => is_space(b) || is_bracket(b) || b == 0x3a,
        ByteClass::Digit => is_digit(b),
        ByteClass::Decimal => is_digit(b) || b == 0x2e,
        ByteClass::Solid => !is_space(b),
    }
}

/// `pat` occurs in `hay` starting at `pos`.
pub open spec fn matches_at(hay: Seq<u8>, pos: int, pat: Seq<u8>) -> bool {
    &&& 0 <= pos
    &&& pos + pat.len() <= hay.len()
    &&& forall|k: int| 0 <= k < pat.len() ==> hay[pos + k] == #[trigger] pat[k]
}

/// The least start position in `[from, to)` at which `pat` occurs, if any.
pub open spec fn first_match(hay: Seq<u8>, pat: Seq<u8>, from: int, to: int) -> Option<int>
    decreases to - from,
{
    if from >= to {
        None
    } else if matches_at(hay, from, pat) {
        Some(from)
    } else {
        first_match(hay, pat, from + 1, to)
    }
}

/// The least position at which `pat` occurs in `hay`, if any.
pub open spec fn first_occurrence(hay: Seq<u8>, pat: Seq<u8>) -> Option<int> {
    first_match(hay, pat, 0, (hay.len() + 1) as int)
}

/// The greatest start position in `[from, to)` at which `pat` occurs, if any.
pub open spec fn last_match(hay: Seq<u8>, pat: Seq<u8>, from: int, to: int) -> Option<int>
    decreases to - from,
{
    if from >= to {
        None
    } else if matches_at(hay, to - 1, pat) {
        Some(to - 1)
    } else {
        last_match(hay, pat, from, to - 1)
    }
}

/// The end of the longest run of bytes of `class` that starts at `from` and
/// stays below `limit`. Nothing is consumed when `from` is outside `hay` or
/// not below `limit`.
pub open spec fn run_end(hay: Seq<u8>, from: int, limit: int, class: ByteClass) -> int
    decreases limit - from,
{
    if 0 <= from < limit && from < hay.len() && in_class(class, hay[from]) {
        run_end(hay, from + 1, limit, class)
    } else {
        from
    }
}

/// The number of positions below `hi` at which `pat` occurs in `hay`.
pub open spec fn occurrences_below(hay: Seq<u8>, pat: Seq<u8>, hi: int) -> nat
    decreases hi,
{
    if hi <= 0 {
        0
    } else if matches_at(hay, hi - 1, pat) {
        occurrences_below(hay, pat, hi - 1) + 1
    } else {
        occurrences_below(hay, pat, hi - 1)
    }
}

/// The number of positions at which `pat` occurs in `hay`.
pub open spec fn occurrences(hay: Seq<u8>, pat: Seq<u8>) -> nat {
    occurrences_below(hay, pat, hay.len() as int)
}

/// The number that a sequence of decimal digits denotes.
pub open spec fn decimal_value(digits: Seq<u8>) -> nat
    decreases digits.len(),
{
    if digits.len() == 0 {
        0
    } else {
        decimal_value(digits.drop_last()) * 10 + (digits.last() - 0x30) as nat
    }
}

/// The decimal digits of `n`, most significant first, without leading zeros.
pub open spec fn decimal_digits(n: nat) -> Seq<u8>
    decreases n,
{
    if n < 10 {
        seq![(0x30 + n) as u8]
    } else {
        decimal_digits(n / 10).push((0x30 + n % 10) as u8)
    }
}

/// `a - b` where that is not negative, else zero.
pub open spec fn minus_or_zero(a: int, b: int) -> int {
    if a >= b {
        a - b
    } else {
        0
    }
}

/// The lesser of two integers.
pub open spec fn lesser(a: int, b: int) -> int {
    if a <= b {
        a
    } else {
        b
    }
}

/// What stands at a position where a number is expected.
#[derive(Clone, Copy, PartialEq, Eq, Structural, Debug)]
pub enum Number {
    /// No digit stands there.
    Missing,
    /// Digits stand there, and the number they denote exceeds the bound.
    TooLarge,
    /// The number, and the offset just behind its last digit read.
    Value { value: usize, end: usize },
}

/// The number denoted by the digits of `hay` that start at `from` and stay
/// below `limit`, held against `bound`.
pub open spec fn number_at(hay: Seq<u8>, from: int, limit: int, bound: int) -> Number {
    let end = run_end(hay, from, limit, ByteClass::Digit);
    if end <= from {
        Number::Missing
    } else if decimal_value(hay.subrange(from, end)) > bound {
        Number::TooLarge
    } else {
        Number::Value { value: decimal_value(hay.subrange(from, end)) as usize, end: end as usize }
    }
}

/// A first match is a match, lies in the range, and nothing before it matches;
/// where there is none, nothing in the range matches.
pub proof fn lemma_first_match(hay: Seq<u8>, pat: Seq<u8>, from: int, to: int)
    ensures
        match first_match(hay, pat, from, to) {
            Some(i) => from <= i < to && matches_at(hay, i, pat) && forall|j: int|
                from <= j < i ==> !matches_at(hay, j, pat),
            None => forall|j: int| from <= j < to ==> !matches_at(hay, j, pat),
        },
    decreases to - from,
{
    if from < to && !matches_at(hay, from, pat) {
        lemma_first_match(hay, pat, from + 1, to);
    }
}

/// A last match is a match, lies in the range, and nothing behind it matches;
/// where there is none, nothing in the range matches.
pub proof fn lemma_last_match(hay: Seq<u8>, pat: Seq<u8>, from: int, to: int)
    ensures
        match last_match(hay, pat, from, to) {
            Some(i) => from <= i < to && matches_at(hay, i, pat) && forall|j: int|
                i < j < to ==> !matches_at(hay, j, pat),
            None => forall|j: int| from <= j < to ==> !matches_at(hay, j, pat),
        },
    decreases to - from,
{
    if from < to && !matches_at(hay, to - 1, pat) {
        lemma_last_match(hay, pat, from, to - 1);
    }
}

/// A run starts at `from`, stays inside the data and below the limit, holds
/// only bytes of its class, and stops at the limit, at the end of the data or
/// at a byte outside the class.
pub proof fn lemma_run_end(hay: Seq<u8>, from: int, limit: int, class: ByteClass)
    requires
        0 <= from,
    ensures
        from <= run_end(hay, from, limit, class),
        run_end(hay, from, limit, class) == from || (run_end(hay, from, limit, class) <= limit
            && run_end(hay, from, limit, class) <= hay.len()),
        forall|k: int|
            from <= k < run_end(hay, from, limit, class) ==> in_class(class, #[trigger] hay[k]),
        run_end(hay, from, limit, class) < limit && run_end(hay, from, limit, class) < hay.len()
            ==> !in_class(class, hay[run_end(hay, from, limit, class)]),
    decreases limit - from,
{
    if from < limit && from < hay.len() && in_class(class, hay[from]) {
        lemma_run_end(hay, from + 1, limit, class);
    }
}

/// A run is known by its end: where the bytes from `from` up to `r` are of
/// the class and the run cannot go on at `r`, it ends at `r`.
pub proof fn lemma_run_end_is(hay: Seq<u8>, from: int, limit: int, class: ByteClass, r: int)
    requires
        0 <= from <= r,
        r <= limit,
        r <= hay.len(),
        forall|k: int| from <= k < r ==> in_class(class, #[trigger] hay[k]),
        r == limit || r == hay.len() || !in_class(class, hay[r]),
    ensures
        run_end(hay, from, limit, class) == r,
    decreases r - from,
{
    if from < r {
        lemma_run_end_is(hay, from + 1, limit, class, r);
    }
}

/// A lower limit cuts a run short and changes nothing else.
pub proof fn lemma_run_end_cut(hay: Seq<u8>, from: int, limit: int, lower: int, class: ByteClass)
    requires
        0 <= from <= lower <= limit,
    ensures
        run_end(hay, from, lower, class) == lesser(run_end(hay, from, limit, class), lower),
{
    if from < hay.len() {
        lemma_run_end(hay, from, limit, class);
        lemma_run_end_is(
            hay,
            from,
            lower,
            class,
            lesser(run_end(hay, from, limit, class), lower),
        );
    }
}

/// A run in a part of the data is the run in the whole, shifted.
pub proof fn lemma_run_end_shift(
    hay: Seq<u8>,
    start: int,
    end: int,
    from: int,
    limit: int,
    class: ByteClass,
)
    requires
        0 <= start <= end <= hay.len(),
        0 <= from,
        limit <= end - start,
    ensures
        run_end(hay.subrange(start, end), from, limit, class) + start == run_end(
            hay,
            start + from,
            start + limit,
            class,
        ),
    decreases limit - from,
{
    let part = hay.subrange(start, end);
    if from < limit && from < part.len() && in_class(class, part[from]) {
        lemma_run_end_shift(hay, start, end, from + 1, limit, class);
    }
}

/// A pattern occurs in a part of the data where it occurs in the whole and
/// fits the part.
pub proof fn lemma_matches_at_shift(hay: Seq<u8>, start: int, end: int, i: int, pat: Seq<u8>)
    requires
        0 <= start <= end <= hay.len(),
    ensures
        matches_at(hay.subrange(start, end), i, pat) <==> (0 <= i && start + i + pat.len() <= end
            && matches_at(hay, start + i, pat)),
{
    let part = hay.subrange(start, end);
    if 0 <= i && start + i + pat.len() <= end {
        if matches_at(hay, start + i, pat) {
            assert forall|k: int| 0 <= k < pat.len() implies part[i + k] == #[trigger] pat[k] by {
                assert(part[i + k] == hay[start + i + k]);
            }
        }
        if matches_at(part, i, pat) {
            assert forall|k: int| 0 <= k < pat.len() implies hay[start + i + k] == #[trigger] pat[k] by {
                assert(part[i + k] == hay[start + i + k]);
            }
        }
    }
}

/// Where a pattern occurs at `c` and nowhere else, the first match of a range
/// is `c` where the range holds it, and there is none where it does not.
pub proof fn lemma_first_match_sole(hay: Seq<u8>, pat: Seq<u8>, from: int, to: int, c: int)
    requires
        matches_at(hay, c, pat),
        forall|j: int| matches_at(hay, j, pat) ==> j == c,
    ensures
        first_match(hay, pat, from, to) == if from <= c < to {
            Some(c)
        } else {
            None::<int>
        },
{
    lemma_first_match(hay, pat, from, to);
}

/// The first match in a range is the first match in any longer range.
pub proof fn lemma_first_match_agree(hay: Seq<u8>, pat: Seq<u8>, from: int, to: int, longer: int)
    requires
        to <= longer,
        first_match(hay, pat, from, to) is Some,
    ensures
        first_match(hay, pat, from, longer) == first_match(hay, pat, from, to),
    decreases to - from,
{
    if from < to && !matches_at(hay, from, pat) {
        lemma_first_match_agree(hay, pat, from + 1, to, longer);
    }
}

/// Where nothing from `from` on matches, there is no first match.
pub proof fn lemma_first_match_none(hay: Seq<u8>, pat: Seq<u8>, from: int, to: int)
    requires
        forall|j: int| from <= j < to ==> !matches_at(hay, j, pat),
    ensures
        first_match(hay, pat, from, to) is None,
    decreases to - from,
{
    if from < to {
        lemma_first_match_none(hay, pat, from + 1, to);
    }
}

/// Positions from `cut` on that cannot match do not change the last match.
pub proof fn lemma_last_match_cut(hay: Seq<u8>, pat: Seq<u8>, from: int, cut: int, to: int)
    requires
        cut <= to,
        forall|j: int| cut <= j < to ==> !matches_at(hay, j, pat),
    ensures
        last_match(hay, pat, from, to) == last_match(hay, pat, from, cut),
    decreases to - cut,
{
    if cut < to && from < to {
        lemma_last_match_cut(hay, pat, from, cut, to - 1);
    }
}

/// A decimal number is at least as large as the number its leading digits denote.
pub proof fn lemma_decimal_prefix(digits: Seq<u8>, k: int)
    requires
        0 <= k <= digits.len(),
        forall|i: int| 0 <= i < digits.len() ==> is_digit(#[trigger] digits[i]),
    ensures
        decimal_value(digits.subrange(0, k)) <= decimal_value(digits),
    decreases digits.len() - k,
{
    if k == digits.len() {
        assert(digits.subrange(0, k) =~= digits);
    } else {
        lemma_decimal_prefix(digits, k + 1);
        let longer = digits.subrange(0, k + 1);
        assert(longer.drop_last() =~= digits.subrange(0, k));
    }
}

/// Whether `b` is PDF white space.
pub fn is_whitespace(b: u8) -> (r: bool)
    ensures
        r == is_space(b),
{
    b == 0x20 || b == 0x09 || b == 0x0d || b == 0x0a || b == 0x00
}

/// Whether `b` belongs to `class`.
pub fn byte_in_class(class: ByteClass, b: u8) -> (r: bool)
    ensures
        r == in_class(class, b),
{
    let bracket: bool = b == 0x28 || b == 0x29 || b == 0x3c || b == 0x3e || b == 0x5b || b == 0x5d;
    match class {
        ByteClass::Space => is_whitespace(b),
        ByteClass::Filler => is_whitespace(b) || bracket,
        ByteClass::FillerOrColon => is_whitespace(b) || bracket || b == 0x3a,
        ByteClass::Digit => 0x30 <= b && b <= 0x39,
        ByteClass::Decimal => (0x30 <= b && b <= 0x39) || b == 0x2e,
        ByteClass::Solid => !is_whitespace(b),
    }
}

/// Whether `pattern` occurs in `bytes` at `pos`. A position at which the
/// pattern would run past the end does not match.
pub fn matches_pattern(bytes: &[u8], pos: usize, pattern: &[u8]) -> (r: bool)
    ensures
        r == matches_at(bytes@, pos as int, pattern@),
{
    if pos > bytes.len() || pattern.len() > bytes.len() - pos {
        return false;
    }
    let mut k: usize = 0;
    while k < pattern.len()
        invariant
            k <= pattern.len(),
            pos + pattern.len() <= bytes.len(),
            forall|j: int| 0 <= j < k ==> bytes@[pos + j] == #[trigger] pattern@[j],
        decreases pattern.len() - k,
    {
        if bytes[pos + k] != pattern[k] {
            return false;
        }
        k += 1;
    }
    true
}

/// The end of the run of bytes of `class` that starts at `from` and stays
/// below `limit`.
pub fn skip_class(bytes: &[u8], from: usize, limit: usize, class: ByteClass) -> (r: usize)
    ensures
        r == run_end(bytes@, from as int, limit as int, class),
{
    let mut pos: usize = from;
    while pos < limit && pos < bytes.len() && byte_in_class(class, bytes[pos])
        invariant
            from <= pos,
            run_end(bytes@, from as int, limit as int, class) == run_end(
                bytes@,
                pos as int,
                limit as int,
                class,
            ),
        decreases bytes.len() - pos,
    {
        pos += 1;
    }
    pos
}

/// The offset of the first byte at or behind `from` that is not white space:
/// the length of the data where only white space follows, `from` itself where
/// it lies outside the data.
pub fn skip_whitespace(haystack: &[u8], from: usize) -> (r: usize)
    ensures
        r == run_end(haystack@, from as int, haystack@.len() as int, ByteClass::Space),
        from <= r,
        r == from || r <= haystack@.len(),
        forall|k: int| from <= k < r ==> is_space(#[trigger] haystack@[k]),
        r < haystack@.len() ==> !is_space(haystack@[r as int]),
{
    proof {
        lemma_run_end(haystack@, from as int, haystack@.len() as int, ByteClass::Space);
    }
    skip_class(haystack, from, haystack.len(), ByteClass::Space)
}

/// The least position in `[from, to)` at which `pattern` occurs.
pub fn find_between(bytes: &[u8], pattern: &[u8], from: usize, to: usize) -> (r: Option<usize>)
    ensures
        match r {
            Some(i) => first_match(bytes@, pattern@, from as int, to as int) == Some(i as int),
            None => first_match(bytes@, pattern@, from as int, to as int) is None,
        },
        r matches Some(i) ==> from <= i < to && matches_at(bytes@, i as int, pattern@),
{
    proof {
        lemma_first_match(bytes@, pattern@, from as int, to as int);
    }
    if pattern.len() > bytes.len() {
        proof {
            lemma_first_match_none(bytes@, pattern@, from as int, to as int);
        }
        return None;
    }
    let last_start: usize = bytes.len() - pattern.len();
    let mut i: usize = from;
    while i < to && i <= last_start
        invariant
            from <= i,
            last_start + pattern.len() == bytes.len(),
            first_match(bytes@, pattern@, from as int, to as int) == first_match(
                bytes@,
                pattern@,
                i as int,
                to as int,
            ),
        decreases bytes.len() - i,
    {
        if matches_pattern(bytes, i, pattern) {
            return Some(i);
        }
        i += 1;
    }
    proof {
        lemma_first_match_none(bytes@, pattern@, i as int, to as int);
    }
    None
}

/// The first occurrence of `pattern` in `haystack` at or behind `from`.
pub fn find(haystack: &[u8], pattern: &[u8], from: usize) -> (r: Option<usize>)
    ensures
        match r {
            Some(i) => from <= i && matches_at(haystack@, i as int, pattern@) && forall|j: int|
                from <= j < i ==> !matches_at(haystack@, j, pattern@),
            None => forall|j: int| from <= j ==> !matches_at(haystack@, j, pattern@),
        },
        match r {
            Some(i) => first_match(haystack@, pattern@, from as int, (haystack@.len() + 1) as int) == Some(
                i as int,
            ),
            None => first_match(haystack@, pattern@, from as int, (haystack@.len() + 1) as int) is None,
        },
        r matches Some(i) ==> i + pattern@.len() <= haystack@.len(),
{
    let ghost hay = haystack@;
    let ghost pat = pattern@;
    if pattern.len() == 0 {
        if from <= haystack.len() {
            proof {
                assert(matches_at(hay, from as int, pat));
            }
            return Some(from);
        }
        proof {
            lemma_first_match_none(hay, pat, from as int, (hay.len() + 1) as int);
        }
        return None;
    }
    let r = find_between(haystack, pattern, from, haystack.len());
    proof {
        lemma_first_match(hay, pat, from as int, hay.len() as int);
        match first_match(hay, pat, from as int, hay.len() as int) {
            Some(i) => {
                lemma_first_match_agree(
                    hay,
                    pat,
                    from as int,
                    hay.len() as int,
                    (hay.len() + 1) as int,
                );
            },
            None => {
                lemma_first_match_none(hay, pat, from as int, (hay.len() + 1) as int);
            },
        }
    }
    r
}

/// The greatest position in `[from, to)` at which `pattern` occurs.
pub fn rfind_between(bytes: &[u8], pattern: &[u8], from: usize, to: usize) -> (r: Option<usize>)
    ensures
        match r {
            Some(i) => last_match(bytes@, pattern@, from as int, to as int) == Some(i as int),
            None => last_match(bytes@, pattern@, from as int, to as int) is None,
        },
        r matches Some(i) ==> from <= i < to && matches_at(bytes@, i as int, pattern@),
{
    proof {
        lemma_last_match(bytes@, pattern@, from as int, to as int);
    }
    if pattern.len() > bytes.len() {
        proof {
            if from < to {
                lemma_last_match_cut(bytes@, pattern@, from as int, from as int, to as int);
            }
        }
        return None;
    }
    let last_start: usize = bytes.len() - pattern.len();
    let top: usize = if to <= last_start {
        to
    } else {
        last_start + 1
    };
    proof {
        if top <= to {
            lemma_last_match_cut(bytes@, pattern@, from as int, top as int, to as int);
        }
    }
    let mut i: usize = top;
    while i > from
        invariant
            i <= top,
            top <= to,
            top <= last_start + 1,
            last_start + pattern.len() == bytes.len(),
            last_match(bytes@, pattern@, from as int, to as int) == last_match(
                bytes@,
                pattern@,
                from as int,
                i as int,
            ),
        decreases i,
    {
        if matches_pattern(bytes, i - 1, pattern) {
            return Some(i - 1);
        }
        i -= 1;
    }
    None
}

/// Reads the number whose digits start at `from` and stay below `limit`, and
/// holds it against `bound`.
pub fn scan_number(bytes: &[u8], from: usize, limit: usize, bound: usize) -> (r: Number)
    ensures
        r == number_at(bytes@, from as int, limit as int, bound as int),
{
    let ghost hay = bytes@;
    let ghost end = run_end(hay, from as int, limit as int, ByteClass::Digit);
    if from >= bytes.len() {
        return Number::Missing;
    }
    let mut pos: usize = from;
    let mut value: usize = 0;
    proof {
        lemma_run_end(hay, from as int, limit as int, ByteClass::Digit);
        assert(hay.subrange(from as int, from as int) =~= Seq::<u8>::empty());
    }
    while pos < limit && pos < bytes.len() && byte_in_class(ByteClass::Digit, bytes[pos])
        invariant
            hay == bytes@,
            from <= pos,
            pos == from || (pos <= limit && pos <= hay.len()),
            end == run_end(hay, from as int, limit as int, ByteClass::Digit),
            end == run_end(hay, pos as int, limit as int, ByteClass::Digit),
            from <= end,
            end == from || end <= hay.len(),
            forall|k: int| from <= k < end ==> is_digit(#[trigger] hay[k]),
            value == decimal_value(hay.subrange(from as int, pos as int)),
            value <= bound,
        decreases bytes.len() - pos,
    {
        let digit: usize = (bytes[pos] - 0x30) as usize;
        proof {
            lemma_run_end(hay, pos as int + 1, limit as int, ByteClass::Digit);
            let longer = hay.subrange(from as int, pos as int + 1);
            assert(longer.drop_last() =~= hay.subrange(from as int, pos as int));
            assert(longer.last() == hay[pos as int]);
            assert(decimal_value(longer) == value * 10 + digit);
            let all = hay.subrange(from as int, end);
            assert(all.subrange(0, pos as int + 1 - from as int) =~= longer);
            lemma_decimal_prefix(all, pos as int + 1 - from as int);
        }
        if value > bound / 10 || digit > bound - value * 10 {
            return Number::TooLarge;
        }
        value = value * 10 + digit;
        pos += 1;
    }
    if pos == from {
        Number::Missing
    } else {
        Number::Value { value, end: pos }
    }
}

/// Parses the unsigned decimal number whose first digit stands at `from`,
/// stopping at the first byte that is no digit. Returns the number and the
/// offset behind it; `None` where no digit stands at `from` or the number
/// exceeds `bound`.
pub fn parse_unsigned(haystack: &[u8], from: usize, bound: usize) -> (r: Option<(usize, usize)>)
    ensures
        r == match number_at(haystack@, from as int, haystack@.len() as int, bound as int) {
            Number::Value { value, end } => Some((value, end)),
            _ => None,
        },
        match r {
            Some((value, end)) => {
                &&& from < end <= haystack@.len()
                &&& forall|k: int| from <= k < end ==> is_digit(#[trigger] haystack@[k])
                &&& end < haystack@.len() ==> !is_digit(haystack@[end as int])
                &&& value == decimal_value(haystack@.subrange(from as int, end as int))
                &&& value <= bound
            },
            None => {
                ||| from >= haystack@.len()
                ||| !is_digit(haystack@[from as int])
                ||| decimal_value(
                    haystack@.subrange(
                        from as int,
                        run_end(haystack@, from as int, haystack@.len() as int, ByteClass::Digit),
                    ),
                ) > bound
            },
        },
{
    proof {
        lemma_run_end(haystack@, from as int, haystack@.len() as int, ByteClass::Digit);
    }
    match scan_number(haystack, from, haystack.len(), bound) {
        Number::Value { value, end } => Some((value, end)),
        _ => None,
    }
}

/// Counts the positions at which `pattern` occurs in `bytes`.
pub fn count_occurrences(bytes: &[u8], pattern: &[u8]) -> (r: usize)
    ensures
        r == occurrences(bytes@, pattern@),
{
    let len: usize = bytes.len();
    let mut count: usize = 0;
    let mut i: usize = 0;
    while i < len
        invariant
            i <= len,
            len == bytes@.len(),
            count == occurrences_below(bytes@, pattern@, i as int),
            count <= i,
        decreases len - i,
    {
        if matches_pattern(bytes, i, pattern) {
            count += 1;
        }
        i += 1;
    }
    count
}

/// Appends the decimal digits of `n` to `out`.
pub fn push_decimal(out: &mut Vec<u8>, n: usize)
    ensures
        final(out)@ == old(out)@ + decimal_digits(n as nat),
    decreases n,
{
    if n >= 10 {
        push_decimal(out, n / 10);
    }
    out.push(0x30 + (n % 10) as u8);
    assert(final(out)@ =~= old(out)@ + decimal_digits(n as nat));
}

} // verus!
