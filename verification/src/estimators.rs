//! Estimates by format: a PDF by extraction, text and Markdown by their
//! characters, word-processor documents and presentations by their metadata
//! or their content, a workbook by the rows of its sheets.

use vstd::prelude::*;
use vstd::string::{StringExecFns, StringSliceAdditionalSpecFns};
use vstd::utf8::{decode_utf8, encode_utf8, valid_utf8};
use crate::archive::{
    archive_error, archive_len, archive_source, entry_by_name, entry_count, entry_error,
    entry_name_at, entry_name_by_index, entry_text, open_archive, read_text,
};
use crate::extraction::{extract, extraction};
use crate::ultra_fast_pdf::fast_resolution;
use crate::file_utils::{a4_mm, letter_mm};
use crate::keywords::{
    page_break_bytes, page_break_key, pages_tag_bytes, pages_tag_key, paragraph_bare_bytes,
    paragraph_bare_key, paragraph_open_bytes, paragraph_open_key, slide_prefix_bytes,
    slide_prefix_key, slides_tag_bytes, slides_tag_key, xml_ext_bytes, xml_ext_key,
};
use crate::scanner::{count_occurrences, matches_at, occurrences, occurrences_below};
use crate::schema::{
    sheet_views, workbook_view, ErrorView, EstimateOptions, EstimateResult, EstimateView,
    EstimatorError, OptionsView, PageSizeMm, SheetCells, SheetView,
};
use crate::text::{
    as_text, count_chars, decimal_text, ends_with, has_prefix, has_suffix, push_decimal_text,
    same_text, starts_with,
};
use crate::xml::{count_in_events, count_in_metadata, count_view, xml_events};

verus! {

/// A page of text holds this many characters where the options say nothing.
pub const CHARS_PER_PAGE: usize = 1800;

/// A page of a spreadsheet holds this many rows where the options say nothing.
pub const ROWS_PER_PAGE: usize = 40;

/// A page holds this many paragraphs of a word-processor document.
pub const PARAGRAPHS_PER_PAGE: usize = 25;

/// The A4 sheet.
pub open spec fn a4() -> PageSizeMm {
    PageSizeMm { width_um: 210_000, height_um: 297_000 }
}

/// The Letter sheet.
pub open spec fn letter() -> PageSizeMm {
    PageSizeMm { width_um: 215_900, height_um: 279_400 }
}

/// The slide of a presentation, ten inches by seven and a half.
pub open spec fn slide() -> PageSizeMm {
    PageSizeMm { width_um: 254_000, height_um: 190_500 }
}

/// The sheet that the options choose: the caller's own where one is given,
/// else Letter where the default paper is named `Letter` or `letter`, else A4.
pub open spec fn chosen_paper(options: OptionsView) -> PageSizeMm {
    match options.custom_paper_mm {
        Some((width, height)) => PageSizeMm { width_um: width, height_um: height },
        None => match options.default_paper {
            Some(name) => if name == "Letter"@ || name == "letter"@ {
                letter()
            } else {
                a4()
            },
            None => a4(),
        },
    }
}

/// `n / per`, rounded up.
pub open spec fn pages_for(n: nat, per: nat) -> nat {
    if n % per == 0 {
        n / per
    } else {
        n / per + 1
    }
}

/// The characters that fill a page, by the options.
pub open spec fn chars_per_page(options: OptionsView) -> nat {
    match options.chars_per_page {
        Some(n) => n as nat,
        None => CHARS_PER_PAGE as nat,
    }
}

/// The note on a text estimate.
pub open spec fn text_note(chars: nat, per_page: nat) -> Seq<char> {
    "chars: "@ + decimal_text(chars) + ", chars_per_page: "@ + decimal_text(per_page)
}

/// The estimate for a text: its characters, divided by the characters that
/// fill a page and rounded up; no pages and a note for bytes that are no text.
pub open spec fn text_estimate(bytes: Seq<u8>, options: OptionsView) -> EstimateView {
    if valid_utf8(bytes) {
        let chars = decode_utf8(bytes).len();
        let pages = pages_for(chars, chars_per_page(options));
        EstimateView {
            page_count: pages as usize,
            page_sizes: Seq::new(pages, |i: int| chosen_paper(options)),
            notes: seq![text_note(chars, chars_per_page(options))],
        }
    } else {
        EstimateView {
            page_count: 0,
            page_sizes: Seq::empty(),
            notes: seq!["Text not valid UTF-8"@],
        }
    }
}

/// The estimate for a Markdown file: that of its text, with a note more.
pub open spec fn markdown_estimate(bytes: Seq<u8>, options: OptionsView) -> EstimateView {
    let text = text_estimate(bytes, options);
    EstimateView {
        page_count: text.page_count,
        page_sizes: text.page_sizes,
        notes: text.notes.push(
            "Markdown parsed as text; images/embedded content not considered."@,
        ),
    }
}

/// The message of a PDF in which no strategy found a page count.
pub open spec fn no_pages_message() -> Seq<char> {
    "No pages found in PDF. File may be corrupted or use an unsupported format."@
}

/// The estimate for a PDF: the page count, the page sizes and the notes of
/// its extraction; an error where the extraction found no page count.
pub open spec fn pdf_core_estimate(bytes: Seq<u8>) -> Result<EstimateView, ErrorView> {
    match extraction(bytes).page_count {
        Some(pages) => Ok(
            EstimateView {
                page_count: pages,
                page_sizes: extraction(bytes).page_dimensions,
                notes: extraction(bytes).notes,
            },
        ),
        None => Err(ErrorView::PdfError(no_pages_message())),
    }
}

/// The view of an estimate, or of the error that came instead.
pub open spec fn outcome_view(outcome: Result<EstimateResult, EstimatorError>) -> Result<
    EstimateView,
    ErrorView,
> {
    match outcome {
        Ok(estimate) => Ok(estimate@),
        Err(error) => Err(error@),
    }
}

/// The sheet that the options choose.
pub fn choose_paper(options: &EstimateOptions) -> (r: PageSizeMm)
    ensures
        r == chosen_paper(options@),
{
    if let Some((width, height)) = options.custom_paper_mm {
        return PageSizeMm { width_um: width, height_um: height };
    }
    let (width, height) = match &options.default_paper {
        Some(name) => if same_text(name.as_str(), "Letter") || same_text(name.as_str(), "letter") {
            letter_mm()
        } else {
            a4_mm()
        },
        None => a4_mm(),
    };
    PageSizeMm { width_um: width, height_um: height }
}

/// `count` pages of one size.
pub fn repeat_size(size: PageSizeMm, count: usize) -> (r: Vec<PageSizeMm>)
    ensures
        r@ == Seq::new(count as nat, |i: int| size),
{
    let mut sizes: Vec<PageSizeMm> = Vec::new();
    let mut n: usize = 0;
    while n < count
        invariant
            n <= count,
            sizes@.len() == n,
            forall|j: int| 0 <= j < n ==> #[trigger] sizes@[j] == size,
        decreases count - n,
    {
        sizes.push(size);
        n += 1;
    }
    assert(sizes@ =~= Seq::new(count as nat, |i: int| size));
    sizes
}

/// `n / per`, rounded up.
pub fn divide_up(n: usize, per: usize) -> (r: usize)
    requires
        per > 0,
    ensures
        r == pages_for(n as nat, per as nat),
        r <= n,
{
    let whole: usize = n / per;
    assert(whole <= n) by (nonlinear_arith)
        requires
            whole == n / per,
            per > 0,
    ;
    if n % per == 0 {
        whole
    } else {
        assert(whole < n) by (nonlinear_arith)
            requires
                whole == n / per,
                per > 0,
                n % per != 0,
        ;
        whole + 1
    }
}

/// One note.
fn one_note(note: String) -> (r: Vec<String>)
    ensures
        r.deep_view() == seq![note@],
{
    let mut notes: Vec<String> = Vec::new();
    notes.push(note);
    assert(notes.deep_view() =~= seq![note@]);
    notes
}

/// Two notes.
fn two_notes(first: String, second: String) -> (r: Vec<String>)
    ensures
        r.deep_view() == seq![first@, second@],
{
    let mut notes: Vec<String> = Vec::new();
    notes.push(first);
    notes.push(second);
    assert(notes.deep_view() =~= seq![first@, second@]);
    notes
}

/// Estimates the pages of a plain text: its characters, divided by the
/// characters that fill a page and rounded up, each page on the sheet that
/// the options choose. Bytes that are not UTF-8 give no pages and a note.
pub fn estimate_text_pages(bytes: &[u8], options: &EstimateOptions) -> (r: EstimateResult)
    requires
        valid_utf8(bytes@) ==> options@.chars_per_page != Some(0usize),
    ensures
        r@ == text_estimate(bytes@, options@),
        r@.well_formed(),
{
    let text = match as_text(bytes) {
        Some(text) => text,
        None => {
            return EstimateResult {
                page_count: 0,
                page_sizes: Vec::new(),
                notes: one_note("Text not valid UTF-8".to_owned()),
            };
        },
    };
    let chars: usize = count_chars(text);
    let per_page: usize = match options.chars_per_page {
        Some(n) => n,
        None => CHARS_PER_PAGE,
    };
    let pages: usize = divide_up(chars, per_page);
    let mut note = "chars: ".to_owned();
    push_decimal_text(&mut note, chars);
    note.append(", chars_per_page: ");
    push_decimal_text(&mut note, per_page);
    assert(note@ =~= text_note(chars as nat, per_page as nat));
    EstimateResult {
        page_count: pages,
        page_sizes: repeat_size(choose_paper(options), pages),
        notes: one_note(note),
    }
}

/// Estimates the pages of a Markdown file as those of its text; what the
/// markup would add or take is not considered, and a note says so.
pub fn estimate_markdown_pages(bytes: &[u8], options: &EstimateOptions) -> (r: EstimateResult)
    requires
        valid_utf8(bytes@) ==> options@.chars_per_page != Some(0usize),
    ensures
        r@ == markdown_estimate(bytes@, options@),
        r@.well_formed(),
{
    let mut estimate = estimate_text_pages(bytes, options);
    let ghost before = estimate.notes.deep_view();
    estimate.notes.push("Markdown parsed as text; images/embedded content not considered.".to_owned());
    assert(estimate.notes.deep_view() =~= before.push(
        "Markdown parsed as text; images/embedded content not considered."@,
    ));
    estimate
}

/// Estimates the pages of a PDF by extraction: the page count of the first
/// strategy that finds one, a size for each page from its `MediaBox` or
/// `CropBox`, and the notes of the extraction. A file in which no strategy
/// finds a page count gives an error. The options are not read: a PDF states
/// its own page sizes.
pub fn estimate_pdf_pages(bytes: &[u8], _options: &EstimateOptions) -> (r: Result<
    EstimateResult,
    EstimatorError,
>)
    ensures
        outcome_view(r) == pdf_core_estimate(bytes@),
        r matches Ok(estimate) ==> estimate@.well_formed(),
        fast_resolution(bytes@) matches Some((strategy, n)) ==> (r matches Ok(estimate)
            && estimate.page_count == n),
{
    let found = extract(bytes);
    match found.page_count {
        Some(pages) => Ok(
            EstimateResult {
                page_count: pages,
                page_sizes: found.page_dimensions,
                notes: found.notes,
            },
        ),
        None => Err(
            EstimatorError::PdfError(
                "No pages found in PDF. File may be corrupted or use an unsupported format.".to_owned(),
            ),
        ),
    }
}

/// The page count in the metadata of a word-processor document: the number
/// in the `Pages` element of `docProps/app.xml`.
pub fn parse_pages_from_app_xml(xml_content: &str) -> (r: Result<usize, EstimatorError>)
    ensures
        count_view(r) == count_in_events(xml_events(xml_content@), pages_tag_key(), false, "page"@),
{
    let tag = pages_tag_bytes();
    count_in_metadata(xml_content, tag.as_slice(), "page")
}

/// The slide count in the metadata of a presentation: the number in the
/// `Slides` element of `docProps/app.xml`.
pub fn parse_slides_from_app_xml(xml_content: &str) -> (r: Result<usize, EstimatorError>)
    ensures
        count_view(r) == count_in_events(
            xml_events(xml_content@),
            slides_tag_key(),
            false,
            "slide"@,
        ),
{
    let tag = slides_tag_bytes();
    count_in_metadata(xml_content, tag.as_slice(), "slide")
}

/// The pages of a word-processor document by its content: one more than its
/// page breaks where it has any, else its paragraphs at twenty-five to the
/// page, and one page at least.
pub open spec fn content_pages(xml: Seq<u8>) -> nat {
    let breaks = occurrences(xml, page_break_key());
    let paragraphs = occurrences(xml, paragraph_open_key()) + occurrences(xml, paragraph_bare_key());
    if breaks > 0 {
        breaks + 1
    } else if pages_for(paragraphs, PARAGRAPHS_PER_PAGE as nat) > 1 {
        pages_for(paragraphs, PARAGRAPHS_PER_PAGE as nat)
    } else {
        1
    }
}

/// The estimate for a word-processor document whose metadata say `pages`.
pub open spec fn docx_metadata_estimate(pages: usize, options: OptionsView) -> EstimateView {
    EstimateView {
        page_count: pages,
        page_sizes: Seq::new(pages as nat, |i: int| chosen_paper(options)),
        notes: seq![
            "DOCX document has "@ + decimal_text(pages as nat) + " pages (from metadata)"@,
        ],
    }
}

/// The estimate for a word-processor document with the main part `xml`.
pub open spec fn docx_content_estimate(xml: Seq<u8>, options: OptionsView) -> EstimateView {
    let pages = content_pages(xml);
    EstimateView {
        page_count: pages as usize,
        page_sizes: Seq::new(pages, |i: int| chosen_paper(options)),
        notes: seq![
            "DOCX document estimated at "@ + decimal_text(pages)
                + " pages (from content analysis)"@,
            "Note: Page count estimated from content structure; may not be exact"@,
        ],
    }
}

/// The estimate for the word-processor document in the archive `bytes`, made
/// from its main part `word/document.xml`.
pub open spec fn docx_from_content(bytes: Seq<u8>, options: OptionsView) -> Result<
    EstimateView,
    ErrorView,
> {
    match entry_error(bytes, "word/document.xml"@) {
        Some(error) => Err(ErrorView::General("Failed to read DOCX content: "@ + error)),
        None => match entry_text(bytes, "word/document.xml"@) {
            Ok(text) => Ok(docx_content_estimate(encode_utf8(text), options)),
            Err(error) => Err(ErrorView::General("Failed to read document.xml: "@ + error)),
        },
    }
}

/// The estimate for the word-processor document in `bytes`: by the page
/// count in its metadata, and by its content where it has no metadata.
pub open spec fn docx_estimate(bytes: Seq<u8>, options: OptionsView) -> Result<
    EstimateView,
    ErrorView,
> {
    match archive_error(bytes) {
        Some(error) => Err(ErrorView::General("Failed to open DOCX as ZIP: "@ + error)),
        None => match entry_error(bytes, "docProps/app.xml"@) {
            Some(error) => docx_from_content(bytes, options),
            None => match entry_text(bytes, "docProps/app.xml"@) {
                Ok(text) => match count_in_events(
                    xml_events(text),
                    pages_tag_key(),
                    false,
                    "page"@,
                ) {
                    Ok(pages) => Ok(docx_metadata_estimate(pages, options)),
                    Err(error) => Err(error),
                },
                Err(error) => Err(ErrorView::General("Failed to read app.xml: "@ + error)),
            },
        },
    }
}

/// The name of a slide in a presentation: `ppt/slides/slide`, something, `.xml`.
pub open spec fn is_slide_name(name: Seq<char>) -> bool {
    has_prefix(encode_utf8(name), slide_prefix_key()) && has_suffix(
        encode_utf8(name),
        xml_ext_key(),
    )
}

/// The number of entries below `hi` of the archive in `bytes` that can be
/// opened and are named as slides are.
pub open spec fn slides_below(bytes: Seq<u8>, hi: int) -> nat
    decreases hi,
{
    if hi <= 0 {
        0
    } else {
        slides_below(bytes, hi - 1) + match entry_name_at(bytes, hi - 1) {
            Some(name) => if is_slide_name(name) {
                1nat
            } else {
                0nat
            },
            None => 0nat,
        }
    }
}

/// The estimate for a presentation of `slides` slides; `source` tells where
/// the count is from.
pub open spec fn pptx_estimate_of(slides: usize, source: Seq<char>) -> EstimateView {
    EstimateView {
        page_count: slides,
        page_sizes: Seq::new(slides as nat, |i: int| slide()),
        notes: seq![
            "PPTX presentation has "@ + decimal_text(slides as nat) + " slides ("@ + source + ")"@,
        ],
    }
}

/// The estimate for the presentation in the archive `bytes`, made by counting
/// the entries that are slides.
pub open spec fn pptx_from_content(bytes: Seq<u8>) -> Result<EstimateView, ErrorView> {
    let slides = slides_below(bytes, entry_count(bytes) as int);
    if slides == 0 {
        Err(ErrorView::General("No slides found in PPTX"@))
    } else {
        Ok(pptx_estimate_of(slides as usize, "counted from files"@))
    }
}

/// The estimate for the presentation in `bytes`: by the slide count in its
/// metadata, and by its entries where it has no metadata.
pub open spec fn pptx_estimate(bytes: Seq<u8>) -> Result<EstimateView, ErrorView> {
    match archive_error(bytes) {
        Some(error) => Err(ErrorView::General("Failed to open PPTX as ZIP: "@ + error)),
        None => match entry_error(bytes, "docProps/app.xml"@) {
            Some(error) => pptx_from_content(bytes),
            None => match entry_text(bytes, "docProps/app.xml"@) {
                Ok(text) => match count_in_events(
                    xml_events(text),
                    slides_tag_key(),
                    false,
                    "slide"@,
                ) {
                    Ok(slides) => Ok(pptx_estimate_of(slides, "from metadata"@)),
                    Err(error) => Err(error),
                },
                Err(error) => Err(ErrorView::General("Failed to read app.xml: "@ + error)),
            },
        },
    }
}

/// An error of the general kind, its message a prefix and a detail.
fn general_error(prefix: &str, detail: &str) -> (r: EstimatorError)
    ensures
        r@ == ErrorView::General(prefix@ + detail@),
{
    EstimatorError::General(prefix.to_owned().concat(detail))
}

/// Occurrences of two patterns that differ in their fifth byte are no more
/// than the positions looked at.
proof fn lemma_paragraphs_bounded(xml: Seq<u8>, hi: int)
    requires
        0 <= hi,
    ensures
        occurrences_below(xml, paragraph_open_key(), hi) + occurrences_below(
            xml,
            paragraph_bare_key(),
            hi,
        ) <= hi,
    decreases hi,
{
    if hi > 0 {
        lemma_paragraphs_bounded(xml, hi - 1);
        if matches_at(xml, hi - 1, paragraph_open_key()) && matches_at(
            xml,
            hi - 1,
            paragraph_bare_key(),
        ) {
            assert(xml[hi - 1 + 4] == paragraph_open_key()[4]);
            assert(xml[hi - 1 + 4] == paragraph_bare_key()[4]);
        }
    }
}

/// A pattern occurs at no more positions than were looked at, and at no more
/// than it fits.
proof fn lemma_occurrences_bounded(hay: Seq<u8>, pat: Seq<u8>, hi: int)
    requires
        0 <= hi,
    ensures
        occurrences_below(hay, pat, hi) <= hi,
        occurrences_below(hay, pat, hi) == 0 || occurrences_below(hay, pat, hi) + pat.len()
            <= hay.len() + 1,
    decreases hi,
{
    if hi > 0 {
        lemma_occurrences_bounded(hay, pat, hi - 1);
    }
}

/// The pages of a word-processor document by its content.
pub fn pages_in_content(xml: &[u8]) -> (r: usize)
    ensures
        r == content_pages(xml@),
{
    let page_break = page_break_bytes();
    let open = paragraph_open_bytes();
    let bare = paragraph_bare_bytes();
    let len: usize = xml.len();
    let breaks: usize = count_occurrences(xml, page_break.as_slice());
    proof {
        lemma_occurrences_bounded(xml@, page_break_key(), xml@.len() as int);
        lemma_paragraphs_bounded(xml@, xml@.len() as int);
    }
    if breaks > 0 {
        return breaks + 1;
    }
    let with_attributes: usize = count_occurrences(xml, open.as_slice());
    let without: usize = count_occurrences(xml, bare.as_slice());
    let pages: usize = divide_up(with_attributes + without, PARAGRAPHS_PER_PAGE);
    if pages > 1 {
        pages
    } else {
        1
    }
}

/// The estimate for a word-processor document with the main part `xml`: its
/// pages by its content, each on the sheet that the options choose.
pub fn docx_estimate_from_text(xml: &[u8], options: &EstimateOptions) -> (r: EstimateResult)
    ensures
        r@ == docx_content_estimate(xml@, options@),
        r@.well_formed(),
{
    let pages: usize = pages_in_content(xml);
    let mut note = "DOCX document estimated at ".to_owned();
    push_decimal_text(&mut note, pages);
    note.append(" pages (from content analysis)");
    EstimateResult {
        page_count: pages,
        page_sizes: repeat_size(choose_paper(options), pages),
        notes: two_notes(
            note,
            "Note: Page count estimated from content structure; may not be exact".to_owned(),
        ),
    }
}

/// The estimate for a word-processor document whose metadata say `pages`,
/// each page on the sheet that the options choose.
pub fn docx_estimate_from_count(pages: usize, options: &EstimateOptions) -> (r: EstimateResult)
    ensures
        r@ == docx_metadata_estimate(pages, options@),
        r@.well_formed(),
{
    let mut note = "DOCX document has ".to_owned();
    push_decimal_text(&mut note, pages);
    note.append(" pages (from metadata)");
    EstimateResult {
        page_count: pages,
        page_sizes: repeat_size(choose_paper(options), pages),
        notes: one_note(note),
    }
}

/// Estimates the pages of a word-processor document from its main part:
/// its page breaks, or else its paragraphs.
pub fn estimate_docx_from_content(
    archive: &mut zip::ZipArchive<std::io::Cursor<&[u8]>>,
    options: &EstimateOptions,
) -> (r: Result<EstimateResult, EstimatorError>)
    ensures
        outcome_view(r) == docx_from_content(archive_source(*old(archive)), options@),
        archive_source(*final(archive)) == archive_source(*old(archive)),
        r matches Ok(estimate) ==> estimate@.well_formed(),
{
    let read = match entry_by_name(archive, "word/document.xml") {
        Ok(mut file) => read_text(&mut file),
        Err(error) => {
            return Err(general_error("Failed to read DOCX content: ", error.as_str()));
        },
    };
    let text = match read {
        Ok(text) => text,
        Err(error) => {
            return Err(general_error("Failed to read document.xml: ", error.as_str()));
        },
    };
    Ok(docx_estimate_from_text(text.as_str().as_bytes(), options))
}

/// Estimates the pages of a word-processor document: the page count that its
/// metadata hold, each page on the sheet that the options choose; where it
/// has no metadata, an estimate from its content.
pub fn estimate_docx_pages(bytes: &[u8], options: &EstimateOptions) -> (r: Result<
    EstimateResult,
    EstimatorError,
>)
    ensures
        outcome_view(r) == docx_estimate(bytes@, options@),
        r matches Ok(estimate) ==> estimate@.well_formed(),
{
    let mut archive = match open_archive(bytes) {
        Ok(archive) => archive,
        Err(error) => {
            return Err(general_error("Failed to open DOCX as ZIP: ", error.as_str()));
        },
    };
    let metadata: Option<Result<String, String>> = match entry_by_name(
        &mut archive,
        "docProps/app.xml",
    ) {
        Ok(mut file) => Some(read_text(&mut file)),
        Err(_) => None,
    };
    let pages: usize = match metadata {
        Some(Ok(xml)) => match parse_pages_from_app_xml(xml.as_str()) {
            Ok(pages) => pages,
            Err(error) => { return Err(error); },
        },
        Some(Err(error)) => {
            return Err(general_error("Failed to read app.xml: ", error.as_str()));
        },
        None => { return estimate_docx_from_content(&mut archive, options); },
    };
    Ok(docx_estimate_from_count(pages, options))
}

/// Whether an entry is named as slides are.
pub fn slide_name(name: &str) -> (r: bool)
    ensures
        r == is_slide_name(name@),
{
    let prefix = slide_prefix_bytes();
    let suffix = xml_ext_bytes();
    starts_with(name.as_bytes(), prefix.as_slice()) && ends_with(name.as_bytes(), suffix.as_slice())
}

/// The estimate for a presentation of `slides` slides, each ten inches by
/// seven and a half; `source` tells in the note where the count is from.
pub fn slides_estimate(slides: usize, source: &str) -> (r: EstimateResult)
    ensures
        r@ == pptx_estimate_of(slides, source@),
        r@.well_formed(),
{
    let mut note = "PPTX presentation has ".to_owned();
    push_decimal_text(&mut note, slides);
    note.append(" slides (");
    note.append(source);
    note.append(")");
    let (width, height): (u64, u64) = (254_000, 190_500);
    EstimateResult {
        page_count: slides,
        page_sizes: repeat_size(PageSizeMm { width_um: width, height_um: height }, slides),
        notes: one_note(note),
    }
}

/// Estimates the slides of a presentation by counting the entries of the
/// archive that are slides.
pub fn estimate_pptx_from_content(archive: &mut zip::ZipArchive<std::io::Cursor<&[u8]>>) -> (r:
    Result<EstimateResult, EstimatorError>)
    ensures
        outcome_view(r) == pptx_from_content(archive_source(*old(archive))),
        archive_source(*final(archive)) == archive_source(*old(archive)),
        r matches Ok(estimate) ==> estimate@.well_formed(),
{
    let entries: usize = archive_len(archive);
    let mut slides: usize = 0;
    let mut i: usize = 0;
    while i < entries
        invariant
            i <= entries,
            archive_source(*archive) == archive_source(*old(archive)),
            slides == slides_below(archive_source(*old(archive)), i as int),
            slides <= i,
        decreases entries - i,
    {
        if let Some(name) = entry_name_by_index(archive, i) {
            if slide_name(name.as_str()) {
                slides += 1;
            }
        }
        i += 1;
    }
    if slides == 0 {
        return Err(EstimatorError::General("No slides found in PPTX".to_owned()));
    }
    Ok(slides_estimate(slides, "counted from files"))
}

/// Estimates the slides of a presentation: the slide count that its metadata
/// hold, each slide ten inches by seven and a half; where it has no metadata,
/// the number of its slide entries.
pub fn estimate_pptx_pages(bytes: &[u8], _options: &EstimateOptions) -> (r: Result<
    EstimateResult,
    EstimatorError,
>)
    ensures
        outcome_view(r) == pptx_estimate(bytes@),
        r matches Ok(estimate) ==> estimate@.well_formed(),
{
    let mut archive = match open_archive(bytes) {
        Ok(archive) => archive,
        Err(error) => {
            return Err(general_error("Failed to open PPTX as ZIP: ", error.as_str()));
        },
    };
    let metadata: Option<Result<String, String>> = match entry_by_name(
        &mut archive,
        "docProps/app.xml",
    ) {
        Ok(mut file) => Some(read_text(&mut file)),
        Err(_) => None,
    };
    let slides: usize = match metadata {
        Some(Ok(xml)) => match parse_slides_from_app_xml(xml.as_str()) {
            Ok(slides) => slides,
            Err(error) => { return Err(error); },
        },
        Some(Err(error)) => {
            return Err(general_error("Failed to read app.xml: ", error.as_str()));
        },
        None => { return estimate_pptx_from_content(&mut archive); },
    };
    Ok(slides_estimate(slides, "from metadata"))
}

/// The rows that fill a page, by the options.
pub open spec fn rows_per_page(options: OptionsView) -> nat {
    match options.rows_per_page {
        Some(n) => n as nat,
        None => ROWS_PER_PAGE as nat,
    }
}

/// The rows of a sheet up to the last one that holds anything.
pub open spec fn filled_rows(rows: Seq<Seq<bool>>) -> nat
    decreases rows.len(),
{
    if rows.len() == 0 {
        0
    } else if rows.last().contains(true) {
        rows.len()
    } else {
        filled_rows(rows.drop_last())
    }
}

/// The pages of a sheet: its filled rows, divided by the rows that fill a
/// page and rounded up; none for a sheet that cannot be read.
pub open spec fn sheet_pages(cells: Option<Seq<Seq<bool>>>, per_page: nat) -> nat {
    match cells {
        Some(rows) => pages_for(filled_rows(rows), per_page),
        None => 0,
    }
}

/// The note on a sheet.
pub open spec fn sheet_note(name: Seq<char>, cells: Option<Seq<Seq<bool>>>, per_page: nat) -> Seq<
    char,
> {
    match cells {
        Some(rows) => if pages_for(filled_rows(rows), per_page) > 0 {
            "Sheet '"@ + name + "' rows: "@ + decimal_text(filled_rows(rows)) + ", pages: "@
                + decimal_text(pages_for(filled_rows(rows), per_page))
        } else {
            "Sheet '"@ + name + "' empty; 0 pages"@
        },
        None => "Could not read sheet '"@ + name + "'"@,
    }
}

/// The pages of the sheets, added up.
pub open spec fn pages_of_sheets(sheets: Seq<SheetView>, per_page: nat) -> nat
    decreases sheets.len(),
{
    if sheets.len() == 0 {
        0
    } else {
        pages_of_sheets(sheets.drop_last(), per_page) + sheet_pages(sheets.last().cells, per_page)
    }
}

/// The notes on the sheets, one for each.
pub open spec fn notes_of_sheets(sheets: Seq<SheetView>, per_page: nat) -> Seq<Seq<char>>
    decreases sheets.len(),
{
    if sheets.len() == 0 {
        Seq::empty()
    } else {
        notes_of_sheets(sheets.drop_last(), per_page).push(
            sheet_note(sheets.last().name, sheets.last().cells, per_page),
        )
    }
}

/// Rows are divided into pages: the workbook was opened and a sheet of it
/// was read.
pub open spec fn divides_rows(workbook: Result<Seq<SheetView>, Seq<char>>) -> bool {
    workbook matches Ok(sheets) && exists|i: int|
        0 <= i < sheets.len() && (#[trigger] sheets[i]).cells is Some
}

/// The estimate for a workbook as it was read: the pages of its sheets added
/// up, each page on the sheet of paper that the options choose, a note on
/// each sheet, and a last note where there are no pages at all. A workbook
/// that could not be opened gives the error of opening it.
pub open spec fn xlsx_estimate(workbook: Result<Seq<SheetView>, Seq<char>>, options: OptionsView) -> Result<
    EstimateView,
    ErrorView,
> {
    match workbook {
        Err(error) => Err(ErrorView::XlsxError(error)),
        Ok(sheets) => {
            let per_page = rows_per_page(options);
            let pages = pages_of_sheets(sheets, per_page);
            let notes = notes_of_sheets(sheets, per_page);
            Ok(
                EstimateView {
                    page_count: pages as usize,
                    page_sizes: Seq::new(pages, |i: int| chosen_paper(options)),
                    notes: if pages == 0 {
                        notes.push("Workbook appears empty or unreadable; returning 0 pages."@)
                    } else {
                        notes
                    },
                },
            )
        },
    }
}

/// Whether a row holds anything.
fn row_is_filled(row: &Vec<bool>) -> (r: bool)
    ensures
        r == row@.contains(true),
{
    let mut i: usize = 0;
    while i < row.len()
        invariant
            i <= row@.len(),
            forall|j: int| 0 <= j < i ==> !row@[j],
        decreases row@.len() - i,
    {
        if row[i] {
            assert(row@[i as int] == true);
            return true;
        }
        i += 1;
    }
    false
}

/// The rows of a sheet up to the last one that holds anything.
pub fn count_filled_rows(rows: &Vec<Vec<bool>>) -> (r: usize)
    ensures
        r == filled_rows(rows.deep_view()),
{
    let ghost grid = rows.deep_view();
    let mut n: usize = rows.len();
    assert(grid.take(n as int) =~= grid);
    while n > 0
        invariant
            n <= rows@.len(),
            grid == rows.deep_view(),
            filled_rows(grid) == filled_rows(grid.take(n as int)),
        decreases n,
    {
        let ghost part = grid.take(n as int);
        assert(part.last() == rows@[n - 1]@);
        assert(part.drop_last() =~= grid.take(n - 1));
        if row_is_filled(&rows[n - 1]) {
            return n;
        }
        n -= 1;
    }
    assert(grid.take(0).len() == 0);
    0
}

/// The pages of a sheet and the note on it, from its cells: its rows up to
/// the last one that holds anything, divided by the rows that fill a page
/// and rounded up. A sheet that could not be read has no pages.
pub fn estimate_sheet(name: &str, cells: &Option<Vec<Vec<bool>>>, per_page: usize) -> (r: (
    usize,
    String,
))
    requires
        cells is Some ==> per_page > 0,
    ensures
        r.0 == sheet_pages(cells.deep_view(), per_page as nat),
        r.1@ == sheet_note(name@, cells.deep_view(), per_page as nat),
{
    match cells {
        Some(grid) => {
            let rows: usize = count_filled_rows(grid);
            let pages: usize = divide_up(rows, per_page);
            let mut note = "Sheet '".to_owned();
            note.append(name);
            if pages > 0 {
                note.append("' rows: ");
                push_decimal_text(&mut note, rows);
                note.append(", pages: ");
                push_decimal_text(&mut note, pages);
            } else {
                note.append("' empty; 0 pages");
            }
            (pages, note)
        },
        None => {
            let mut note = "Could not read sheet '".to_owned();
            note.append(name);
            note.append("'");
            (0, note)
        },
    }
}

/// Whether rows are divided into pages for this workbook.
pub fn workbook_divides_rows(workbook: &Result<Vec<SheetCells>, String>) -> (r: bool)
    ensures
        r == divides_rows(workbook_view(*workbook)),
{
    match workbook {
        Ok(sheets) => {
            let ghost all = sheet_views(sheets@);
            let mut i: usize = 0;
            while i < sheets.len()
                invariant
                    i <= sheets@.len(),
                    all == sheet_views(sheets@),
                    workbook_view(*workbook) == Ok::<Seq<SheetView>, Seq<char>>(all),
                    forall|j: int| 0 <= j < i ==> (#[trigger] all[j]).cells is None,
                decreases sheets@.len() - i,
            {
                if sheets[i].cells.is_some() {
                    assert(0 <= i < all.len() && all[i as int].cells is Some);
                    return true;
                }
                i += 1;
            }
            false
        },
        Err(_) => false,
    }
}

/// Estimates the pages of a workbook from what was read of it: for each
/// sheet its rows up to the last one that holds anything, divided by the rows
/// that fill a page and rounded up, and all of that added up. A sheet that
/// could not be read counts for nothing and gets a note; a workbook that
/// could not be opened gives an error with the reason.
pub fn estimate_xlsx_pages(workbook: &Result<Vec<SheetCells>, String>, options: &EstimateOptions) -> (r:
    Result<EstimateResult, EstimatorError>)
    requires
        divides_rows(workbook_view(*workbook)) ==> options@.rows_per_page != Some(0usize),
    ensures
        outcome_view(r) == xlsx_estimate(workbook_view(*workbook), options@),
        r matches Ok(estimate) ==> estimate@.well_formed(),
{
    let sheets = match workbook {
        Ok(sheets) => sheets,
        Err(error) => { return Err(EstimatorError::XlsxError(error.clone())); },
    };
    let per_page: usize = match options.rows_per_page {
        Some(n) => n,
        None => ROWS_PER_PAGE,
    };
    let paper = choose_paper(options);
    let ghost all = sheet_views(sheets@);
    let mut sizes: Vec<PageSizeMm> = Vec::new();
    let mut notes: Vec<String> = Vec::new();
    let mut i: usize = 0;
    assert(all.take(0) =~= Seq::<SheetView>::empty());
    assert(notes.deep_view() =~= Seq::<Seq<char>>::empty());
    while i < sheets.len()
        invariant
            i <= sheets@.len(),
            forall|j: int| 0 <= j < all.len() && (#[trigger] all[j]).cells is Some ==> per_page > 0,
            all == sheet_views(sheets@),
            sizes@.len() == pages_of_sheets(all.take(i as int), per_page as nat),
            forall|j: int| 0 <= j < sizes@.len() ==> #[trigger] sizes@[j] == paper,
            notes.deep_view() == notes_of_sheets(all.take(i as int), per_page as nat),
        decreases sheets@.len() - i,
    {
        let sheet = &sheets[i];
        let ghost upto = all.take(i as int + 1);
        assert(upto.last() == sheet@);
        assert(all[i as int] == sheet@);
        assert(upto.drop_last() =~= all.take(i as int));
        let (pages, note) = estimate_sheet(sheet.name.as_str(), &sheet.cells, per_page);
        let ghost before = notes.deep_view();
        notes.push(note);
        assert(notes.deep_view() =~= before.push(note@));
        let mut n: usize = 0;
        let ghost start = sizes@.len();
        while n < pages
            invariant
                n <= pages,
                sizes@.len() == start + n,
                forall|j: int| 0 <= j < sizes@.len() ==> #[trigger] sizes@[j] == paper,
            decreases pages - n,
        {
            sizes.push(paper);
            n += 1;
        }
        i += 1;
    }
    assert(all.take(i as int) =~= all);
    let total: usize = sizes.len();
    if total == 0 {
        let ghost before = notes.deep_view();
        notes.push("Workbook appears empty or unreadable; returning 0 pages.".to_owned());
        assert(notes.deep_view() =~= before.push(
            "Workbook appears empty or unreadable; returning 0 pages."@,
        ));
    }
    assert(sizes@ =~= Seq::new(total as nat, |i: int| paper));
    Ok(EstimateResult { page_count: total, page_sizes: sizes, notes })
}

} // verus!
