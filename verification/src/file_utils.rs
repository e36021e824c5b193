//! Paper sizes, the conversion from points, and the detection of a file's
//! type from its name and its first bytes.

use vstd::prelude::*;
use vstd::string::StringSliceAdditionalSpecFns;
use vstd::utf8::encode_utf8;
use crate::archive::{archive_error, entry_by_name, entry_error, name_view, open_archive};
use crate::keywords::{
    docx_ext_bytes, docx_ext_key, markdown_ext_bytes, markdown_ext_key, md_ext_bytes, md_ext_key,
    pdf_ext_bytes, pdf_ext_key, pdf_magic_bytes, pdf_magic_key, pptx_ext_bytes, pptx_ext_key,
    txt_ext_bytes, txt_ext_key, xlsm_ext_bytes, xlsm_ext_key, xlsx_ext_bytes, xlsx_ext_key,
    zip_magic_bytes, zip_magic_key,
};
use crate::scanner::{matches_at, matches_pattern};
use crate::text::{ends_with, has_suffix};

verus! {

/// The thousandths of a millimetre in `pt` thousandths of a point, rounded
/// down: a point is 1/72 inch and an inch 25.4 mm, so `mm = pt / 72 * 25.4`,
/// which is `pt * 127 / 360`.
pub open spec fn mm_of_pt(pt: u64) -> u64 {
    (pt * 127 / 360) as u64
}

/// Converts a length from thousandths of a point to thousandths of a millimetre.
pub fn mm_from_pt(pt: u64) -> (r: u64)
    ensures
        r == mm_of_pt(pt),
        r <= pt,
{
    let wide: u128 = pt as u128 * 127 / 360;
    wide as u64
}

/// The A4 sheet, 210 mm by 297 mm, in thousandths of a millimetre.
pub fn a4_mm() -> (r: (u64, u64))
    ensures
        r == (210_000u64, 297_000u64),
{
    (210_000, 297_000)
}

/// The Letter sheet, 215.9 mm by 279.4 mm, in thousandths of a millimetre.
pub fn letter_mm() -> (r: (u64, u64))
    ensures
        r == (215_900u64, 279_400u64),
{
    (215_900, 279_400)
}

/// A name in lower case, as `str::to_lowercase` gives it.
pub uninterp spec fn lowercase(name: Seq<char>) -> Seq<char>;

/// The type that the extension of a name in lower case tells, the name given
/// by its bytes.
pub open spec fn extension_type(lower: Seq<u8>) -> Option<Seq<char>> {
    if has_suffix(lower, pdf_ext_key()) {
        Some("pdf"@)
    } else if has_suffix(lower, xlsx_ext_key()) || has_suffix(lower, xlsm_ext_key()) {
        Some("xlsx"@)
    } else if has_suffix(lower, docx_ext_key()) {
        Some("docx"@)
    } else if has_suffix(lower, pptx_ext_key()) {
        Some("pptx"@)
    } else if has_suffix(lower, md_ext_key()) || has_suffix(lower, markdown_ext_key()) {
        Some("markdown"@)
    } else if has_suffix(lower, txt_ext_key()) {
        Some("txt"@)
    } else {
        None
    }
}

/// The kind of office document that an archive is, told by the entries that
/// can be opened in it: a word-processor document, else a presentation, else
/// a workbook.
pub open spec fn archive_kind(has_document: bool, has_presentation: bool) -> Seq<char> {
    if has_document {
        "docx"@
    } else if has_presentation {
        "pptx"@
    } else {
        "xlsx"@
    }
}

/// The kind of office document in `bytes`; a workbook where they do not open
/// as an archive.
pub open spec fn office_type(bytes: Seq<u8>) -> Seq<char> {
    if archive_error(bytes) is None {
        archive_kind(
            entry_error(bytes, "word/document.xml"@) is None,
            entry_error(bytes, "ppt/presentation.xml"@) is None,
        )
    } else {
        "xlsx"@
    }
}

/// A byte of plain text: tab, line feed, carriage return, or from the space
/// up to 127.
pub open spec fn is_plain(b: u8) -> bool {
    b == 9 || b == 10 || b == 13 || (32 <= b <= 127)
}

/// The type that the content of a file tells: a PDF by its first bytes, an
/// office document by the first bytes of an archive, text where every byte is
/// plain, else unknown.
pub open spec fn content_type(bytes: Seq<u8>) -> Seq<char> {
    if bytes.len() >= 4 && matches_at(bytes, 0, pdf_magic_key()) {
        "pdf"@
    } else if bytes.len() >= 4 && matches_at(bytes, 0, zip_magic_key()) {
        office_type(bytes)
    } else if forall|i: int| 0 <= i < bytes.len() ==> is_plain(#[trigger] bytes[i]) {
        "txt"@
    } else {
        "unknown"@
    }
}

/// The type of a file: what the extension of its name tells, without regard
/// to case, else what its content tells.
pub open spec fn detected_type(filename: Option<Seq<char>>, bytes: Seq<u8>) -> Seq<char> {
    match filename {
        Some(name) => match extension_type(encode_utf8(lowercase(name))) {
            Some(kind) => kind,
            None => content_type(bytes),
        },
        None => content_type(bytes),
    }
}

/// Puts `name` in lower case with `str::to_lowercase`, which follows the
/// Unicode tables. The contract only names the result.
#[verifier::external_body]
fn to_lower(name: &str) -> (r: String)
    ensures
        r@ == lowercase(name@),
{
    name.to_lowercase()
}

/// The type that the extension of `lower`, a name in lower case, tells.
pub fn type_by_extension(lower: &str) -> (r: Option<String>)
    ensures
        name_view(r) == extension_type(lower.spec_bytes()),
{
    let name = lower.as_bytes();
    let pdf = pdf_ext_bytes();
    let xlsx = xlsx_ext_bytes();
    let xlsm = xlsm_ext_bytes();
    let docx = docx_ext_bytes();
    let pptx = pptx_ext_bytes();
    let md = md_ext_bytes();
    let markdown = markdown_ext_bytes();
    let txt = txt_ext_bytes();
    if ends_with(name, pdf.as_slice()) {
        Some("pdf".to_owned())
    } else if ends_with(name, xlsx.as_slice()) || ends_with(name, xlsm.as_slice()) {
        Some("xlsx".to_owned())
    } else if ends_with(name, docx.as_slice()) {
        Some("docx".to_owned())
    } else if ends_with(name, pptx.as_slice()) {
        Some("pptx".to_owned())
    } else if ends_with(name, md.as_slice()) || ends_with(name, markdown.as_slice()) {
        Some("markdown".to_owned())
    } else if ends_with(name, txt.as_slice()) {
        Some("txt".to_owned())
    } else {
        None
    }
}

/// The kind of office document, told by which of its entries can be opened.
pub fn classify_archive(has_document: bool, has_presentation: bool) -> (r: String)
    ensures
        r@ == archive_kind(has_document, has_presentation),
{
    if has_document {
        "docx".to_owned()
    } else if has_presentation {
        "pptx".to_owned()
    } else {
        "xlsx".to_owned()
    }
}

/// The kind of office document in an archive. A workbook is what is left
/// where neither the entry of a word-processor document nor that of a
/// presentation can be opened, or where the bytes are no archive at all.
pub fn detect_office_type(bytes: &[u8]) -> (r: String)
    ensures
        r@ == office_type(bytes@),
{
    match open_archive(bytes) {
        Ok(mut archive) => {
            let has_document: bool = entry_by_name(&mut archive, "word/document.xml").is_ok();
            let has_presentation: bool = entry_by_name(&mut archive, "ppt/presentation.xml").is_ok();
            classify_archive(has_document, has_presentation)
        },
        Err(_) => "xlsx".to_owned(),
    }
}

/// Whether every byte is a byte of plain text.
pub fn is_plain_text(bytes: &[u8]) -> (r: bool)
    ensures
        r == forall|i: int| 0 <= i < bytes@.len() ==> is_plain(#[trigger] bytes@[i]),
{
    let mut i: usize = 0;
    while i < bytes.len()
        invariant
            i <= bytes@.len(),
            forall|j: int| 0 <= j < i ==> is_plain(#[trigger] bytes@[j]),
        decreases bytes@.len() - i,
    {
        let b: u8 = bytes[i];
        if !(b == 9 || b == 10 || b == 13 || (32 <= b && b <= 127)) {
            assert(!is_plain(bytes@[i as int]));
            return false;
        }
        i += 1;
    }
    true
}

/// The type that the content of a file tells.
pub fn type_by_content(bytes: &[u8]) -> (r: String)
    ensures
        r@ == content_type(bytes@),
{
    let pdf = pdf_magic_bytes();
    let zip = zip_magic_bytes();
    if bytes.len() >= 4 && matches_pattern(bytes, 0, pdf.as_slice()) {
        "pdf".to_owned()
    } else if bytes.len() >= 4 && matches_pattern(bytes, 0, zip.as_slice()) {
        detect_office_type(bytes)
    } else if is_plain_text(bytes) {
        "txt".to_owned()
    } else {
        "unknown".to_owned()
    }
}

/// Detects the type of a file: `pdf`, `xlsx`, `docx`, `pptx`, `markdown`,
/// `txt` or `unknown`. The extension of the name decides where it is known,
/// in whatever case it is written; else the first bytes decide, and for an
/// archive the entries in it; else the file is text where all of it is plain.
pub fn detect_type(filename: Option<&str>, bytes: &[u8]) -> (r: String)
    ensures
        r@ == detected_type(
            match filename {
                Some(name) => Some(name@),
                None => None,
            },
            bytes@,
        ),
{
    if let Some(name) = filename {
        let lower = to_lower(name);
        if let Some(kind) = type_by_extension(lower.as_str()) {
            return kind;
        }
    }
    type_by_content(bytes)
}

} // verus!
