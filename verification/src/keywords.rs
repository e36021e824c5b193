//! The keywords that the scanners look for, each as a sequence of bytes for
//! contracts and as an array for the code.

use vstd::prelude::*;

verus! {

/// ` 0 obj`, which follows an object's number where the object is defined.
pub open spec fn obj_suffix() -> Seq<u8> {
    seq![' ' as u8, '0' as u8, ' ' as u8, 'o' as u8, 'b' as u8, 'j' as u8]
}

/// `startxref`, which precedes the offset of the cross-reference section.
pub open spec fn startxref_key() -> Seq<u8> {
    seq![
        's' as u8, 't' as u8, 'a' as u8, 'r' as u8, 't' as u8, 'x' as u8, 'r' as u8, 'e' as u8,
        'f' as u8,
    ]
}

/// `trailer`, which opens the trailer dictionary.
pub open spec fn trailer_key() -> Seq<u8> {
    seq!['t' as u8, 'r' as u8, 'a' as u8, 'i' as u8, 'l' as u8, 'e' as u8, 'r' as u8]
}

/// `/Root`, the trailer's reference to the catalog.
pub open spec fn root_key() -> Seq<u8> {
    seq!['/' as u8, 'R' as u8, 'o' as u8, 'o' as u8, 't' as u8]
}

/// `/Pages`, the catalog's reference to the page tree, and the type of its nodes.
pub open spec fn pages_key() -> Seq<u8> {
    seq!['/' as u8, 'P' as u8, 'a' as u8, 'g' as u8, 'e' as u8, 's' as u8]
}

/// `/Count`, the number of pages below a node of the page tree.
pub open spec fn count_key() -> Seq<u8> {
    seq!['/' as u8, 'C' as u8, 'o' as u8, 'u' as u8, 'n' as u8, 't' as u8]
}

/// `Count`, without the slash.
pub open spec fn bare_count_key() -> Seq<u8> {
    seq!['C' as u8, 'o' as u8, 'u' as u8, 'n' as u8, 't' as u8]
}

/// `/Type`, which precedes the type of a dictionary.
pub open spec fn type_key() -> Seq<u8> {
    seq!['/' as u8, 'T' as u8, 'y' as u8, 'p' as u8, 'e' as u8]
}

/// `endobj`, which closes the definition of an object.
pub open spec fn endobj_key() -> Seq<u8> {
    seq!['e' as u8, 'n' as u8, 'd' as u8, 'o' as u8, 'b' as u8, 'j' as u8]
}

/// `obj`, which opens the body of an object.
pub open spec fn obj_key() -> Seq<u8> {
    seq!['o' as u8, 'b' as u8, 'j' as u8]
}

/// `/Type /Page`, the type of a page, written with a space.
pub open spec fn spaced_page_key() -> Seq<u8> {
    seq![
        '/' as u8, 'T' as u8, 'y' as u8, 'p' as u8, 'e' as u8, ' ' as u8, '/' as u8, 'P' as u8,
        'a' as u8, 'g' as u8, 'e' as u8,
    ]
}

/// `/Type/Page`, the type of a page, written without a space.
pub open spec fn tight_page_key() -> Seq<u8> {
    seq![
        '/' as u8, 'T' as u8, 'y' as u8, 'p' as u8, 'e' as u8, '/' as u8, 'P' as u8, 'a' as u8,
        'g' as u8, 'e' as u8,
    ]
}

/// `/MediaBox`, the physical bounds of a page.
pub open spec fn media_box_key() -> Seq<u8> {
    seq![
        '/' as u8, 'M' as u8, 'e' as u8, 'd' as u8, 'i' as u8, 'a' as u8, 'B' as u8, 'o' as u8,
        'x' as u8,
    ]
}

/// `/CropBox`, the visible bounds of a page.
pub open spec fn crop_box_key() -> Seq<u8> {
    seq!['/' as u8, 'C' as u8, 'r' as u8, 'o' as u8, 'p' as u8, 'B' as u8, 'o' as u8, 'x' as u8]
}

/// `%PDF`, the first bytes of a PDF file.
pub open spec fn pdf_magic_key() -> Seq<u8> {
    seq!['%' as u8, 'P' as u8, 'D' as u8, 'F' as u8]
}

/// `PK`, the first bytes of a ZIP archive.
pub open spec fn zip_magic_key() -> Seq<u8> {
    seq!['P' as u8, 'K' as u8]
}

/// `.pdf`, the extension of a PDF file.
pub open spec fn pdf_ext_key() -> Seq<u8> {
    seq!['.' as u8, 'p' as u8, 'd' as u8, 'f' as u8]
}

/// `.xlsx`, the extension of a workbook.
pub open spec fn xlsx_ext_key() -> Seq<u8> {
    seq!['.' as u8, 'x' as u8, 'l' as u8, 's' as u8, 'x' as u8]
}

/// `.xlsm`, the extension of a workbook with macros.
pub open spec fn xlsm_ext_key() -> Seq<u8> {
    seq!['.' as u8, 'x' as u8, 'l' as u8, 's' as u8, 'm' as u8]
}

/// `.docx`, the extension of a word-processor document.
pub open spec fn docx_ext_key() -> Seq<u8> {
    seq!['.' as u8, 'd' as u8, 'o' as u8, 'c' as u8, 'x' as u8]
}

/// `.pptx`, the extension of a presentation.
pub open spec fn pptx_ext_key() -> Seq<u8> {
    seq!['.' as u8, 'p' as u8, 'p' as u8, 't' as u8, 'x' as u8]
}

/// `.md`, the short extension of a Markdown file.
pub open spec fn md_ext_key() -> Seq<u8> {
    seq!['.' as u8, 'm' as u8, 'd' as u8]
}

/// `.markdown`, the long extension of a Markdown file.
pub open spec fn markdown_ext_key() -> Seq<u8> {
    seq![
        '.' as u8, 'm' as u8, 'a' as u8, 'r' as u8, 'k' as u8, 'd' as u8, 'o' as u8, 'w' as u8,
        'n' as u8,
    ]
}

/// `.txt`, the extension of a text file.
pub open spec fn txt_ext_key() -> Seq<u8> {
    seq!['.' as u8, 't' as u8, 'x' as u8, 't' as u8]
}

/// `ppt/slides/slide`, with which the name of a slide in a presentation starts.
pub open spec fn slide_prefix_key() -> Seq<u8> {
    seq![
        'p' as u8, 'p' as u8, 't' as u8, '/' as u8, 's' as u8, 'l' as u8, 'i' as u8, 'd' as u8,
        'e' as u8, 's' as u8, '/' as u8, 's' as u8, 'l' as u8, 'i' as u8, 'd' as u8, 'e' as u8,
    ]
}

/// `.xml`, the extension of an XML file.
pub open spec fn xml_ext_key() -> Seq<u8> {
    seq!['.' as u8, 'x' as u8, 'm' as u8, 'l' as u8]
}

/// `<w:br w:type="page"`, a page break in a word-processor document.
pub open spec fn page_break_key() -> Seq<u8> {
    seq![
        '<' as u8, 'w' as u8, ':' as u8, 'b' as u8, 'r' as u8, ' ' as u8, 'w' as u8, ':' as u8,
        't' as u8, 'y' as u8, 'p' as u8, 'e' as u8, '=' as u8, '"' as u8, 'p' as u8, 'a' as u8,
        'g' as u8, 'e' as u8, '"' as u8,
    ]
}

/// `<w:p `, the start of a paragraph with attributes.
pub open spec fn paragraph_open_key() -> Seq<u8> {
    seq!['<' as u8, 'w' as u8, ':' as u8, 'p' as u8, ' ' as u8]
}

/// `<w:p>`, the start of a paragraph without attributes.
pub open spec fn paragraph_bare_key() -> Seq<u8> {
    seq!['<' as u8, 'w' as u8, ':' as u8, 'p' as u8, '>' as u8]
}

/// `Pages`, the element that holds the page count of a document.
pub open spec fn pages_tag_key() -> Seq<u8> {
    seq!['P' as u8, 'a' as u8, 'g' as u8, 'e' as u8, 's' as u8]
}

/// `Slides`, the element that holds the slide count of a presentation.
pub open spec fn slides_tag_key() -> Seq<u8> {
    seq!['S' as u8, 'l' as u8, 'i' as u8, 'd' as u8, 'e' as u8, 's' as u8]
}

/// The bytes of `startxref`.
pub fn startxref_bytes() -> (r: [u8; 9])
    ensures
        r@ == startxref_key(),
{
    let r: [u8; 9] = [
        's' as u8, 't' as u8, 'a' as u8, 'r' as u8, 't' as u8, 'x' as u8, 'r' as u8, 'e' as u8,
        'f' as u8,
    ];
    assert(r@ =~= startxref_key());
    r
}

/// The bytes of `trailer`.
pub fn trailer_bytes() -> (r: [u8; 7])
    ensures
        r@ == trailer_key(),
{
    let r: [u8; 7] = ['t' as u8, 'r' as u8, 'a' as u8, 'i' as u8, 'l' as u8, 'e' as u8, 'r' as u8];
    assert(r@ =~= trailer_key());
    r
}

/// The bytes of `/Root`.
pub fn root_bytes() -> (r: [u8; 5])
    ensures
        r@ == root_key(),
{
    let r: [u8; 5] = ['/' as u8, 'R' as u8, 'o' as u8, 'o' as u8, 't' as u8];
    assert(r@ =~= root_key());
    r
}

/// The bytes of `/Pages`.
pub fn pages_bytes() -> (r: [u8; 6])
    ensures
        r@ == pages_key(),
{
    let r: [u8; 6] = ['/' as u8, 'P' as u8, 'a' as u8, 'g' as u8, 'e' as u8, 's' as u8];
    assert(r@ =~= pages_key());
    r
}

/// The bytes of `/Count`.
pub fn count_bytes() -> (r: [u8; 6])
    ensures
        r@ == count_key(),
{
    let r: [u8; 6] = ['/' as u8, 'C' as u8, 'o' as u8, 'u' as u8, 'n' as u8, 't' as u8];
    assert(r@ =~= count_key());
    r
}

/// The bytes of `Count`.
pub fn bare_count_bytes() -> (r: [u8; 5])
    ensures
        r@ == bare_count_key(),
{
    let r: [u8; 5] = ['C' as u8, 'o' as u8, 'u' as u8, 'n' as u8, 't' as u8];
    assert(r@ =~= bare_count_key());
    r
}

/// The bytes of `/Type`.
pub fn type_bytes() -> (r: [u8; 5])
    ensures
        r@ == type_key(),
{
    let r: [u8; 5] = ['/' as u8, 'T' as u8, 'y' as u8, 'p' as u8, 'e' as u8];
    assert(r@ =~= type_key());
    r
}

/// The bytes of `endobj`.
pub fn endobj_bytes() -> (r: [u8; 6])
    ensures
        r@ == endobj_key(),
{
    let r: [u8; 6] = ['e' as u8, 'n' as u8, 'd' as u8, 'o' as u8, 'b' as u8, 'j' as u8];
    assert(r@ =~= endobj_key());
    r
}

/// The bytes of `obj`.
pub fn obj_bytes() -> (r: [u8; 3])
    ensures
        r@ == obj_key(),
{
    let r: [u8; 3] = ['o' as u8, 'b' as u8, 'j' as u8];
    assert(r@ =~= obj_key());
    r
}

/// The bytes of `/Type /Page`.
pub fn spaced_page_bytes() -> (r: [u8; 11])
    ensures
        r@ == spaced_page_key(),
{
    let r: [u8; 11] = [
        '/' as u8, 'T' as u8, 'y' as u8, 'p' as u8, 'e' as u8, ' ' as u8, '/' as u8, 'P' as u8,
        'a' as u8, 'g' as u8, 'e' as u8,
    ];
    assert(r@ =~= spaced_page_key());
    r
}

/// The bytes of `/Type/Page`.
pub fn tight_page_bytes() -> (r: [u8; 10])
    ensures
        r@ == tight_page_key(),
{
    let r: [u8; 10] = [
        '/' as u8, 'T' as u8, 'y' as u8, 'p' as u8, 'e' as u8, '/' as u8, 'P' as u8, 'a' as u8,
        'g' as u8, 'e' as u8,
    ];
    assert(r@ =~= tight_page_key());
    r
}

/// The bytes of `/MediaBox`.
pub fn media_box_bytes() -> (r: [u8; 9])
    ensures
        r@ == media_box_key(),
{
    let r: [u8; 9] = [
        '/' as u8, 'M' as u8, 'e' as u8, 'd' as u8, 'i' as u8, 'a' as u8, 'B' as u8, 'o' as u8,
        'x' as u8,
    ];
    assert(r@ =~= media_box_key());
    r
}

/// The bytes of `/CropBox`.
pub fn crop_box_bytes() -> (r: [u8; 8])
    ensures
        r@ == crop_box_key(),
{
    let r: [u8; 8] = [
        '/' as u8, 'C' as u8, 'r' as u8, 'o' as u8, 'p' as u8, 'B' as u8, 'o' as u8, 'x' as u8,
    ];
    assert(r@ =~= crop_box_key());
    r
}

/// The bytes of `%PDF`.
pub fn pdf_magic_bytes() -> (r: [u8; 4])
    ensures
        r@ == pdf_magic_key(),
{
    let r: [u8; 4] = ['%' as u8, 'P' as u8, 'D' as u8, 'F' as u8];
    assert(r@ =~= pdf_magic_key());
    r
}

/// The bytes of `PK`.
pub fn zip_magic_bytes() -> (r: [u8; 2])
    ensures
        r@ == zip_magic_key(),
{
    let r: [u8; 2] = ['P' as u8, 'K' as u8];
    assert(r@ =~= zip_magic_key());
    r
}

/// The bytes of `.pdf`.
pub fn pdf_ext_bytes() -> (r: [u8; 4])
    ensures
        r@ == pdf_ext_key(),
{
    let r: [u8; 4] = ['.' as u8, 'p' as u8, 'd' as u8, 'f' as u8];
    assert(r@ =~= pdf_ext_key());
    r
}

/// The bytes of `.xlsx`.
pub fn xlsx_ext_bytes() -> (r: [u8; 5])
    ensures
        r@ == xlsx_ext_key(),
{
    let r: [u8; 5] = ['.' as u8, 'x' as u8, 'l' as u8, 's' as u8, 'x' as u8];
    assert(r@ =~= xlsx_ext_key());
    r
}

/// The bytes of `.xlsm`.
pub fn xlsm_ext_bytes() -> (r: [u8; 5])
    ensures
        r@ == xlsm_ext_key(),
{
    let r: [u8; 5] = ['.' as u8, 'x' as u8, 'l' as u8, 's' as u8, 'm' as u8];
    assert(r@ =~= xlsm_ext_key());
    r
}

/// The bytes of `.docx`.
pub fn docx_ext_bytes() -> (r: [u8; 5])
    ensures
        r@ == docx_ext_key(),
{
    let r: [u8; 5] = ['.' as u8, 'd' as u8, 'o' as u8, 'c' as u8, 'x' as u8];
    assert(r@ =~= docx_ext_key());
    r
}

/// The bytes of `.pptx`.
pub fn pptx_ext_bytes() -> (r: [u8; 5])
    ensures
        r@ == pptx_ext_key(),
{
    let r: [u8; 5] = ['.' as u8, 'p' as u8, 'p' as u8, 't' as u8, 'x' as u8];
    assert(r@ =~= pptx_ext_key());
    r
}

/// The bytes of `.md`.
pub fn md_ext_bytes() -> (r: [u8; 3])
    ensures
        r@ == md_ext_key(),
{
    let r: [u8; 3] = ['.' as u8, 'm' as u8, 'd' as u8];
    assert(r@ =~= md_ext_key());
    r
}

/// The bytes of `.markdown`.
pub fn markdown_ext_bytes() -> (r: [u8; 9])
    ensures
        r@ == markdown_ext_key(),
{
    let r: [u8; 9] = [
        '.' as u8, 'm' as u8, 'a' as u8, 'r' as u8, 'k' as u8, 'd' as u8, 'o' as u8, 'w' as u8,
        'n' as u8,
    ];
    assert(r@ =~= markdown_ext_key());
    r
}

/// The bytes of `.txt`.
pub fn txt_ext_bytes() -> (r: [u8; 4])
    ensures
        r@ == txt_ext_key(),
{
    let r: [u8; 4] = ['.' as u8, 't' as u8, 'x' as u8, 't' as u8];
    assert(r@ =~= txt_ext_key());
    r
}

/// The bytes of `ppt/slides/slide`.
pub fn slide_prefix_bytes() -> (r: [u8; 16])
    ensures
        r@ == slide_prefix_key(),
{
    let r: [u8; 16] = [
        'p' as u8, 'p' as u8, 't' as u8, '/' as u8, 's' as u8, 'l' as u8, 'i' as u8, 'd' as u8,
        'e' as u8, 's' as u8, '/' as u8, 's' as u8, 'l' as u8, 'i' as u8, 'd' as u8, 'e' as u8,
    ];
    assert(r@ =~= slide_prefix_key());
    r
}

/// The bytes of `.xml`.
pub fn xml_ext_bytes() -> (r: [u8; 4])
    ensures
        r@ == xml_ext_key(),
{
    let r: [u8; 4] = ['.' as u8, 'x' as u8, 'm' as u8, 'l' as u8];
    assert(r@ =~= xml_ext_key());
    r
}

/// The bytes of `<w:br w:type="page"`.
pub fn page_break_bytes() -> (r: [u8; 19])
    ensures
        r@ == page_break_key(),
{
    let r: [u8; 19] = [
        '<' as u8, 'w' as u8, ':' as u8, 'b' as u8, 'r' as u8, ' ' as u8, 'w' as u8, ':' as u8,
        't' as u8, 'y' as u8, 'p' as u8, 'e' as u8, '=' as u8, '"' as u8, 'p' as u8, 'a' as u8,
        'g' as u8, 'e' as u8, '"' as u8,
    ];
    assert(r@ =~= page_break_key());
    r
}

/// The bytes of `<w:p `.
pub fn paragraph_open_bytes() -> (r: [u8; 5])
    ensures
        r@ == paragraph_open_key(),
{
    let r: [u8; 5] = ['<' as u8, 'w' as u8, ':' as u8, 'p' as u8, ' ' as u8];
    assert(r@ =~= paragraph_open_key());
    r
}

/// The bytes of `<w:p>`.
pub fn paragraph_bare_bytes() -> (r: [u8; 5])
    ensures
        r@ == paragraph_bare_key(),
{
    let r: [u8; 5] = ['<' as u8, 'w' as u8, ':' as u8, 'p' as u8, '>' as u8];
    assert(r@ =~= paragraph_bare_key());
    r
}

/// The bytes of `Pages`.
pub fn pages_tag_bytes() -> (r: [u8; 5])
    ensures
        r@ == pages_tag_key(),
{
    let r: [u8; 5] = ['P' as u8, 'a' as u8, 'g' as u8, 'e' as u8, 's' as u8];
    assert(r@ =~= pages_tag_key());
    r
}

/// The bytes of `Slides`.
pub fn slides_tag_bytes() -> (r: [u8; 6])
    ensures
        r@ == slides_tag_key(),
{
    let r: [u8; 6] = ['S' as u8, 'l' as u8, 'i' as u8, 'd' as u8, 'e' as u8, 's' as u8];
    assert(r@ =~= slides_tag_key());
    r
}

} // verus!
