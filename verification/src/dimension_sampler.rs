//! Page sizes: the pages of a document as the leaves of its page tree, found
//! by their type in the text of the file; the size of each from its
//! `MediaBox` or `CropBox`; and the sampling that spares a document of one
//! page size the reading of every page.

use vstd::prelude::*;
use vstd::slice::slice_subrange;
use crate::file_utils::{mm_from_pt, mm_of_pt};
use crate::keywords::{
    crop_box_bytes, crop_box_key, endobj_bytes, endobj_key, media_box_bytes, media_box_key,
    obj_bytes, obj_key, spaced_page_bytes, spaced_page_key, tight_page_bytes, tight_page_key,
};
use crate::page_box::{find_box, first_box, PagePoints};
use crate::scanner::{
    find_between, first_match, last_match, lesser, matches_at, matches_pattern, minus_or_zero,
    rfind_between,
};
use crate::schema::PageSizeMm;
use crate::ultra_fast_pdf::{BACK_WINDOW, BODY_WINDOW};

verus! {

/// A document of more pages than this is sampled at its first page alone.
pub const LARGE_DOCUMENT: usize = 100;

/// A document that is not large is sampled at this many pages, or at all its
/// pages where it has fewer.
pub const SAMPLE_PAGES: usize = 5;

/// Two lengths that differ by no more than this are taken as equal: a tenth
/// of a point, in thousandths.
pub const TOLERANCE: u64 = 100;

/// The size of a page that states none: A4, 595 by 842 points.
pub open spec fn default_page() -> PagePoints {
    PagePoints { width: 595_000, height: 842_000 }
}

/// A page stands at `p`: the type `/Page`, written with or without a space
/// behind `/Type`, and not continued by an `s`.
pub open spec fn is_page_leaf(doc: Seq<u8>, p: int) -> bool {
    ||| matches_at(doc, p, spaced_page_key()) && !(p + 11 < doc.len() && doc[p + 11] == 's' as u8)
    ||| matches_at(doc, p, tight_page_key()) && !(p + 10 < doc.len() && doc[p + 10] == 's' as u8)
}

/// The positions below `hi` at which a page stands, in ascending order.
pub open spec fn leaves_below(doc: Seq<u8>, hi: int) -> Seq<int>
    decreases hi,
{
    if hi <= 0 {
        Seq::<int>::empty()
    } else if is_page_leaf(doc, hi - 1) {
        leaves_below(doc, hi - 1).push(hi - 1)
    } else {
        leaves_below(doc, hi - 1)
    }
}

/// The positions of the pages of `doc`, in the order of the file.
pub open spec fn page_leaves(doc: Seq<u8>) -> Seq<int> {
    leaves_below(doc, doc.len() as int)
}

/// The text of the page that stands at `p`: from the nearest `obj` within the
/// back window before `p`, or from `p` where there is none, up to the nearest
/// `endobj` within the body window behind `p`, or to the end of that window.
/// A position behind the end of the document is taken as its end.
pub open spec fn page_region(doc: Seq<u8>, p: int) -> Seq<u8> {
    let at = lesser(p, doc.len() as int);
    let reach = lesser(at + BODY_WINDOW, doc.len() as int);
    let start = match last_match(doc, obj_key(), minus_or_zero(at, BACK_WINDOW as int), at) {
        Some(s) => s,
        None => at,
    };
    let end = match first_match(doc, endobj_key(), at, reach) {
        Some(e) => e,
        None => reach,
    };
    doc.subrange(start, end)
}

/// The size that the text of a page states: its `MediaBox`, else its
/// `CropBox`, else the default.
pub open spec fn region_size(region: Seq<u8>) -> PagePoints {
    match first_box(region, media_box_key(), 0, region.len() as int) {
        Some(size) => size,
        None => match first_box(region, crop_box_key(), 0, region.len() as int) {
            Some(size) => size,
            None => default_page(),
        },
    }
}

/// The size of page `k`, counted from zero; the default where the text of the
/// file shows fewer pages.
pub open spec fn page_size(doc: Seq<u8>, k: int) -> PagePoints {
    if 0 <= k < page_leaves(doc).len() {
        region_size(page_region(doc, page_leaves(doc)[k]))
    } else {
        default_page()
    }
}

/// How many pages are sampled of a document of `page_count` pages.
pub open spec fn sample_len(page_count: nat) -> nat {
    if page_count > LARGE_DOCUMENT {
        1
    } else if page_count < SAMPLE_PAGES {
        page_count
    } else {
        SAMPLE_PAGES as nat
    }
}

/// The absolute difference of two lengths.
pub open spec fn gap(a: u64, b: u64) -> int {
    if a >= b {
        a - b
    } else {
        b - a
    }
}

/// Two sizes are equal within the tolerance.
pub open spec fn close(a: PagePoints, b: PagePoints) -> bool {
    gap(a.width, b.width) <= TOLERANCE && gap(a.height, b.height) <= TOLERANCE
}

/// All sampled pages have the same size, within the tolerance: any two of
/// them are close.
pub open spec fn uniform(doc: Seq<u8>, page_count: nat) -> bool {
    forall|j: int, k: int|
        0 <= j < sample_len(page_count) && 0 <= k < sample_len(page_count) ==> close(
            #[trigger] page_size(doc, j),
            #[trigger] page_size(doc, k),
        )
}

/// A size in points, converted to millimetres.
pub open spec fn in_mm(size: PagePoints) -> PageSizeMm {
    PageSizeMm { width_um: mm_of_pt(size.width), height_um: mm_of_pt(size.height) }
}

/// The sizes of the pages of a document of `page_count` pages: the size of the
/// first page for every page where the samples are uniform, else each page's
/// own size.
pub open spec fn dimensions(doc: Seq<u8>, page_count: nat) -> Seq<PageSizeMm> {
    Seq::new(
        page_count,
        |k: int|
            if uniform(doc, page_count) {
                in_mm(page_size(doc, 0))
            } else {
                in_mm(page_size(doc, k))
            },
    )
}

/// The note on a large document of one page size.
pub open spec fn large_note() -> Seq<char> {
    "sampled first page only — large PDF"@
}

/// The note on a smaller document of one page size.
pub open spec fn uniform_note() -> Seq<char> {
    "uniform page size — sampled the first pages"@
}

/// The note on a document whose samples differ.
pub open spec fn mixed_note() -> Seq<char> {
    "mixed page sizes detected — sizes extracted per page"@
}

/// The note that tells how the page sizes were had; none for a document
/// without pages.
pub open spec fn sampling_note(doc: Seq<u8>, page_count: nat) -> Option<Seq<char>> {
    if page_count == 0 {
        None
    } else if !uniform(doc, page_count) {
        Some(mixed_note())
    } else if page_count > LARGE_DOCUMENT {
        Some(large_note())
    } else {
        Some(uniform_note())
    }
}

/// The leaves below `hi` are at most `hi`, lie below `hi`, and are the first
/// of the leaves below any greater bound.
pub proof fn lemma_leaves_below(doc: Seq<u8>, lo: int, hi: int)
    requires
        0 <= lo <= hi,
    ensures
        leaves_below(doc, lo).len() <= lo,
        leaves_below(doc, lo).len() <= leaves_below(doc, hi).len(),
        forall|k: int|
            0 <= k < leaves_below(doc, lo).len() ==> leaves_below(doc, hi)[k] == #[trigger] leaves_below(
                doc,
                lo,
            )[k],
        forall|k: int|
            0 <= k < leaves_below(doc, lo).len() ==> 0 <= #[trigger] leaves_below(doc, lo)[k] < lo,
    decreases hi,
{
    if lo > 0 {
        lemma_leaves_below(doc, lo - 1, lo - 1);
    }
    if lo < hi {
        lemma_leaves_below(doc, lo, hi - 1);
    }
}

/// Whether a page stands at `p`.
pub fn is_leaf_at(bytes: &[u8], p: usize) -> (r: bool)
    ensures
        r == is_page_leaf(bytes@, p as int),
{
    let spaced = spaced_page_bytes();
    let tight = tight_page_bytes();
    let len: usize = bytes.len();
    if matches_pattern(bytes, p, spaced.as_slice()) {
        !(p + 11 < len && bytes[p + 11] == 's' as u8)
    } else if matches_pattern(bytes, p, tight.as_slice()) {
        !(p + 10 < len && bytes[p + 10] == 's' as u8)
    } else {
        false
    }
}

/// The number of pages that the text of the file shows.
pub fn count_page_leaves(bytes: &[u8]) -> (r: usize)
    ensures
        r == page_leaves(bytes@).len(),
{
    let len: usize = bytes.len();
    let mut count: usize = 0;
    let mut i: usize = 0;
    while i < len
        invariant
            i <= len,
            len == bytes@.len(),
            count == leaves_below(bytes@, i as int).len(),
            count <= i,
        decreases len - i,
    {
        if is_leaf_at(bytes, i) {
            count += 1;
        }
        i += 1;
    }
    count
}

/// `found` holds the positions of the first `max` pages of `doc`, or of all
/// its pages where it has fewer.
pub open spec fn first_leaves(doc: Seq<u8>, found: Seq<usize>, max: nat) -> bool {
    &&& found.len() == lesser(max as int, page_leaves(doc).len() as int)
    &&& forall|k: int| 0 <= k < found.len() ==> #[trigger] found[k] == page_leaves(doc)[k]
    &&& forall|k: int| 0 <= k < found.len() ==> #[trigger] found[k] < doc.len()
}

/// The positions of the first `max` pages.
pub fn collect_leaves(bytes: &[u8], max: usize) -> (r: Vec<usize>)
    ensures
        first_leaves(bytes@, r@, max as nat),
{
    let len: usize = bytes.len();
    let mut found: Vec<usize> = Vec::new();
    let mut i: usize = 0;
    while i < len && found.len() < max
        invariant
            i <= len,
            len == bytes@.len(),
            found@.len() <= max,
            found@.len() == leaves_below(bytes@, i as int).len(),
            forall|k: int|
                0 <= k < found@.len() ==> #[trigger] found@[k] == leaves_below(bytes@, i as int)[k],
        decreases len - i,
    {
        if is_leaf_at(bytes, i) {
            found.push(i);
        }
        i += 1;
    }
    proof {
        lemma_leaves_below(bytes@, i as int, len as int);
    }
    found
}

/// The text of the page that stands at `p`.
pub fn page_region_at(bytes: &[u8], p: usize) -> (r: &[u8])
    ensures
        r@ == page_region(bytes@, p as int),
{
    let len: usize = bytes.len();
    let p: usize = if p < len {
        p
    } else {
        len
    };
    let obj = obj_bytes();
    let endobj = endobj_bytes();
    let back: usize = if p > BACK_WINDOW {
        p - BACK_WINDOW
    } else {
        0
    };
    let reach: usize = if len - p > BODY_WINDOW {
        p + BODY_WINDOW
    } else {
        len
    };
    let start: usize = match rfind_between(bytes, obj.as_slice(), back, p) {
        Some(s) => s,
        None => p,
    };
    let end: usize = match find_between(bytes, endobj.as_slice(), p, reach) {
        Some(e) => e,
        None => reach,
    };
    slice_subrange(bytes, start, end)
}

/// The size that the text of a page states.
pub fn size_in_region(region: &[u8]) -> (r: PagePoints)
    ensures
        r == region_size(region@),
{
    let media = media_box_bytes();
    let crop = crop_box_bytes();
    if let Some(size) = find_box(region, media.as_slice(), 0, region.len()) {
        return size;
    }
    if let Some(size) = find_box(region, crop.as_slice(), 0, region.len()) {
        return size;
    }
    PagePoints { width: 595_000, height: 842_000 }
}

/// The size of page `k`, given the positions of the first `max` pages.
fn size_of_page(bytes: &[u8], leaves: &Vec<usize>, max: usize, k: usize) -> (r: PagePoints)
    requires
        first_leaves(bytes@, leaves@, max as nat),
        k < max,
    ensures
        r == page_size(bytes@, k as int),
{
    if k < leaves.len() {
        size_in_region(page_region_at(bytes, leaves[k]))
    } else {
        PagePoints { width: 595_000, height: 842_000 }
    }
}

/// Whether any two of the sizes are equal within the tolerance: whether the
/// least and the greatest width are, and the least and the greatest height.
pub fn all_close(sizes: &Vec<PagePoints>) -> (r: bool)
    ensures
        r == forall|j: int, k: int|
            0 <= j < sizes@.len() && 0 <= k < sizes@.len() ==> close(
                #[trigger] sizes@[j],
                #[trigger] sizes@[k],
            ),
{
    if sizes.len() == 0 {
        return true;
    }
    let mut narrowest: u64 = sizes[0].width;
    let mut widest: u64 = sizes[0].width;
    let mut shortest: u64 = sizes[0].height;
    let mut tallest: u64 = sizes[0].height;
    let ghost mut a: int = 0;
    let ghost mut b: int = 0;
    let ghost mut c: int = 0;
    let ghost mut d: int = 0;
    let mut k: usize = 1;
    while k < sizes.len()
        invariant
            1 <= k <= sizes@.len(),
            0 <= a < k && sizes@[a].width == narrowest,
            0 <= b < k && sizes@[b].width == widest,
            0 <= c < k && sizes@[c].height == shortest,
            0 <= d < k && sizes@[d].height == tallest,
            forall|j: int| 0 <= j < k ==> narrowest <= (#[trigger] sizes@[j]).width <= widest,
            forall|j: int| 0 <= j < k ==> shortest <= (#[trigger] sizes@[j]).height <= tallest,
        decreases sizes@.len() - k,
    {
        let here: PagePoints = sizes[k];
        if here.width < narrowest {
            narrowest = here.width;
            proof {
                a = k as int;
            }
        }
        if here.width > widest {
            widest = here.width;
            proof {
                b = k as int;
            }
        }
        if here.height < shortest {
            shortest = here.height;
            proof {
                c = k as int;
            }
        }
        if here.height > tallest {
            tallest = here.height;
            proof {
                d = k as int;
            }
        }
        k += 1;
    }
    let r: bool = widest - narrowest <= TOLERANCE && tallest - shortest <= TOLERANCE;
    proof {
        if !r {
            assert(!close(sizes@[a], sizes@[b]) || !close(sizes@[c], sizes@[d]));
        }
    }
    r
}

/// Converts a size from points to millimetres.
pub fn size_in_mm(size: PagePoints) -> (r: PageSizeMm)
    ensures
        r == in_mm(size),
{
    PageSizeMm { width_um: mm_from_pt(size.width), height_um: mm_from_pt(size.height) }
}

/// The sizes of the pages of a document of `page_count` pages, one for each
/// page, and a note on how they were had. The first pages are sampled; where
/// they agree, the size of the first stands for every page, else each page is
/// read for its own.
pub fn sample_dimensions(bytes: &[u8], page_count: usize) -> (r: (Vec<PageSizeMm>, Option<String>))
    ensures
        r.0@ == dimensions(bytes@, page_count as nat),
        r.0@.len() == page_count,
        match r.1 {
            Some(note) => sampling_note(bytes@, page_count as nat) == Some(note@),
            None => sampling_note(bytes@, page_count as nat) is None,
        },
{
    let mut sizes: Vec<PageSizeMm> = Vec::new();
    if page_count == 0 {
        assert(sizes@ =~= dimensions(bytes@, 0));
        return (sizes, None);
    }
    let samples: usize = if page_count > LARGE_DOCUMENT {
        1
    } else if page_count < SAMPLE_PAGES {
        page_count
    } else {
        SAMPLE_PAGES
    };
    let sampled = collect_leaves(bytes, samples);
    let first: PagePoints = size_of_page(bytes, &sampled, samples, 0);
    let mut seen: Vec<PagePoints> = Vec::new();
    seen.push(first);
    let mut k: usize = 1;
    while k < samples
        invariant
            1 <= k <= samples,
            samples == sample_len(page_count as nat),
            first_leaves(bytes@, sampled@, samples as nat),
            seen@.len() == k,
            forall|j: int| 0 <= j < k ==> #[trigger] seen@[j] == page_size(bytes@, j),
        decreases samples - k,
    {
        let here: PagePoints = size_of_page(bytes, &sampled, samples, k);
        seen.push(here);
        k += 1;
    }
    let same: bool = all_close(&seen);
    proof {
        if same {
            assert forall|j: int, i: int|
                0 <= j < sample_len(page_count as nat) && 0 <= i < sample_len(
                    page_count as nat,
                ) implies close(#[trigger] page_size(bytes@, j), #[trigger] page_size(bytes@, i)) by {
                assert(close(seen@[j], seen@[i]));
            }
        } else {
            let (j, i) = choose|j: int, i: int|
                0 <= j < seen@.len() && 0 <= i < seen@.len() && !close(
                    #[trigger] seen@[j],
                    #[trigger] seen@[i],
                );
            assert(!close(page_size(bytes@, j), page_size(bytes@, i)));
        }
    }
    assert(same == uniform(bytes@, page_count as nat));
    if same {
        let each: PageSizeMm = size_in_mm(first);
        let mut n: usize = 0;
        while n < page_count
            invariant
                n <= page_count,
                sizes@.len() == n,
                forall|j: int| 0 <= j < n ==> #[trigger] sizes@[j] == each,
            decreases page_count - n,
        {
            sizes.push(each);
            n += 1;
        }
        assert(sizes@ =~= dimensions(bytes@, page_count as nat));
        let note: String = if page_count > LARGE_DOCUMENT {
            "sampled first page only — large PDF".to_owned()
        } else {
            "uniform page size — sampled the first pages".to_owned()
        };
        (sizes, Some(note))
    } else {
        let all = collect_leaves(bytes, page_count);
        let mut n: usize = 0;
        while n < page_count
            invariant
                n <= page_count,
                sizes@.len() == n,
                first_leaves(bytes@, all@, page_count as nat),
                forall|j: int| 0 <= j < n ==> #[trigger] sizes@[j] == in_mm(page_size(bytes@, j)),
            decreases page_count - n,
        {
            let here: PagePoints = size_of_page(bytes, &all, page_count, n);
            sizes.push(size_in_mm(here));
            n += 1;
        }
        assert(sizes@ =~= dimensions(bytes@, page_count as nat));
        (sizes, Some("mixed page sizes detected — sizes extracted per page".to_owned()))
    }
}

} // verus!
