//! The way in: a document as bytes or as base64, its type detected, the
//! estimator for that type run, and the outcome as an estimate or a failure.
//!
//! A workbook is read by the caller, who hands in what was read of it; it is
//! looked at only where the type of the document is a workbook.

use vstd::prelude::*;
use vstd::string::StringExecFns;
use base64::Engine;
use vstd::utf8::valid_utf8;
use crate::estimators::{
    divides_rows, docx_estimate, estimate_docx_pages, estimate_markdown_pages,
    estimate_pdf_pages, estimate_pptx_pages, estimate_text_pages, estimate_xlsx_pages,
    markdown_estimate, pdf_core_estimate, pptx_estimate, text_estimate, workbook_divides_rows,
    xlsx_estimate,
};
use crate::file_utils::{detect_type, detected_type};
use crate::schema::{
    workbook_view, ErrorView, EstimateOptions, EstimateResult, EstimateView, EstimatorError,
    OptionsView, SheetCells, SheetView,
};
use crate::text::{as_text, same_text};

verus! {

/// Why no estimate was made: a message, and the type that was detected, where
/// the document got that far.
#[derive(Debug)]
pub struct Failure {
    pub error: String,
    pub detected: Option<String>,
}

/// A failure as a mathematical value.
pub struct FailureView {
    pub error: Seq<char>,
    pub detected: Option<Seq<char>>,
}

impl View for Failure {
    type V = FailureView;

    open spec fn view(&self) -> FailureView {
        FailureView { error: self.error@, detected: self.detected.deep_view() }
    }
}

/// The view of an estimate, or of the failure that came instead.
pub open spec fn answer_view(answer: Result<EstimateResult, Failure>) -> Result<
    EstimateView,
    FailureView,
> {
    match answer {
        Ok(estimate) => Ok(estimate@),
        Err(failure) => Err(failure@),
    }
}

/// The view of an answer that may not have been given.
pub open spec fn tried_view(answer: Option<Result<EstimateResult, Failure>>) -> Option<
    Result<EstimateView, FailureView>,
> {
    match answer {
        Some(given) => Some(answer_view(given)),
        None => None,
    }
}

/// The view of a workbook that may not have been read.
pub open spec fn handed_view(workbook: Option<&Result<Vec<SheetCells>, String>>) -> Option<
    Result<Seq<SheetView>, Seq<char>>,
> {
    match workbook {
        Some(read) => Some(workbook_view(*read)),
        None => None,
    }
}

/// The view of a name that may be absent.
pub open spec fn filename_view(filename: Option<&str>) -> Option<Seq<char>> {
    match filename {
        Some(name) => Some(name@),
        None => None,
    }
}

/// What `base64::engine::general_purpose::STANDARD.decode` makes of `text`:
/// the bytes, or the error in its `Debug` form.
pub uninterp spec fn base64_decoded(text: Seq<char>) -> Result<Seq<u8>, Seq<char>>;

/// The view of decoded bytes, or of the error that came instead.
pub open spec fn decoded_view(decoded: Result<Vec<u8>, String>) -> Result<Seq<u8>, Seq<char>> {
    match decoded {
        Ok(bytes) => Ok(bytes@),
        Err(error) => Err(error@),
    }
}

/// The estimator for the type `kind` can run on `bytes`. The estimators for
/// text divide the characters of a text by the characters that fill a page,
/// and the estimator for workbooks needs the workbook handed in and divides
/// the rows of a sheet that was read by the rows that fill a page: where one
/// of them divides, the divisor must not be zero.
pub open spec fn can_run(
    kind: Seq<char>,
    bytes: Seq<u8>,
    options: OptionsView,
    workbook: Option<Result<Seq<SheetView>, Seq<char>>>,
) -> bool {
    &&& (kind == "txt"@ || kind == "markdown"@) && valid_utf8(bytes) ==> options.chars_per_page
        != Some(0usize)
    &&& kind == "xlsx"@ ==> match workbook {
        Some(read) => divides_rows(read) ==> options.rows_per_page != Some(0usize),
        None => false,
    }
}

/// An outcome with its error turned into its message.
pub open spec fn message_of(outcome: Result<EstimateView, ErrorView>) -> Result<
    EstimateView,
    Seq<char>,
> {
    match outcome {
        Ok(estimate) => Ok(estimate),
        Err(error) => Err(error.message()),
    }
}

/// What the estimator for the type `kind` makes of `bytes`; the message of
/// its error where it fails, and of an unsupported type where there is no
/// estimator for it. `workbook` is what was read of the workbook; of a
/// workbook that was not handed in nothing is said.
pub open spec fn estimate_as(
    kind: Seq<char>,
    bytes: Seq<u8>,
    options: OptionsView,
    workbook: Option<Result<Seq<SheetView>, Seq<char>>>,
) -> Result<EstimateView, Seq<char>> {
    if kind == "pdf"@ {
        message_of(pdf_core_estimate(bytes))
    } else if kind == "xlsx"@ {
        match workbook {
            Some(read) => message_of(xlsx_estimate(read, options)),
            None => arbitrary(),
        }
    } else if kind == "docx"@ {
        message_of(docx_estimate(bytes, options))
    } else if kind == "pptx"@ {
        message_of(pptx_estimate(bytes))
    } else if kind == "txt"@ {
        Ok(text_estimate(bytes, options))
    } else if kind == "markdown"@ {
        Ok(markdown_estimate(bytes, options))
    } else {
        Err("Unsupported or unrecognized format: "@ + kind)
    }
}

/// The answer for a document: the estimate for its detected type, or the
/// failure with that type.
pub open spec fn document_estimate(
    bytes: Seq<u8>,
    filename: Option<Seq<char>>,
    options: OptionsView,
    workbook: Option<Result<Seq<SheetView>, Seq<char>>>,
) -> Result<EstimateView, FailureView> {
    let kind = detected_type(filename, bytes);
    match estimate_as(kind, bytes, options, workbook) {
        Ok(estimate) => Ok(estimate),
        Err(message) => Err(FailureView { error: message, detected: Some(kind) }),
    }
}

/// The answer for a document given as base64.
pub open spec fn base64_estimate(
    text: Seq<char>,
    filename: Option<Seq<char>>,
    options: OptionsView,
    workbook: Option<Result<Seq<SheetView>, Seq<char>>>,
) -> Result<EstimateView, FailureView> {
    match base64_decoded(text) {
        Ok(bytes) => document_estimate(bytes, filename, options, workbook),
        Err(error) => Err(
            FailureView { error: "base64 decode failed: "@ + error, detected: None },
        ),
    }
}

/// Decodes `text` with `base64::engine::general_purpose::STANDARD.decode`:
/// the standard alphabet, with padding. The contract only names the result.
#[verifier::external_body]
fn decode_base64(text: &str) -> (r: Result<Vec<u8>, String>)
    ensures
        decoded_view(r) == base64_decoded(text@),
{
    base64::engine::general_purpose::STANDARD.decode(text).map_err(|e| format!("{:?}", e))
}

/// An outcome with its error turned into its message.
fn with_message(outcome: Result<EstimateResult, EstimatorError>) -> (r: Result<
    EstimateResult,
    String,
>)
    ensures
        match r {
            Ok(estimate) => message_of(crate::estimators::outcome_view(outcome)) == Ok::<
                EstimateView,
                Seq<char>,
            >(estimate@),
            Err(message) => message_of(crate::estimators::outcome_view(outcome)) == Err::<
                EstimateView,
                Seq<char>,
            >(message@),
        },
{
    match outcome {
        Ok(estimate) => Ok(estimate),
        Err(error) => Err(error.message()),
    }
}

/// Whether the estimator for the type `kind` can run on `bytes` with these
/// options and this workbook.
pub fn estimator_can_run(
    kind: &str,
    bytes: &[u8],
    options: &EstimateOptions,
    workbook: Option<&Result<Vec<SheetCells>, String>>,
) -> (r: bool)
    ensures
        r == can_run(kind@, bytes@, options@, handed_view(workbook)),
{
    proof {
        reveal_strlit("txt");
        reveal_strlit("markdown");
        reveal_strlit("xlsx");
        assert("txt"@.len() == 3 && "markdown"@.len() == 8 && "xlsx"@.len() == 4);
    }
    if same_text(kind, "txt") || same_text(kind, "markdown") {
        match options.chars_per_page {
            Some(n) => n != 0 || as_text(bytes).is_none(),
            None => true,
        }
    } else if same_text(kind, "xlsx") {
        match workbook {
            Some(read) => match options.rows_per_page {
                Some(n) => n != 0 || !workbook_divides_rows(read),
                None => true,
            },
            None => false,
        }
    } else {
        true
    }
}

/// Runs the estimator for the type `kind`.
pub fn estimate_by_type(
    kind: &str,
    bytes: &[u8],
    options: &EstimateOptions,
    workbook: Option<&Result<Vec<SheetCells>, String>>,
) -> (r: Result<EstimateResult, String>)
    requires
        can_run(kind@, bytes@, options@, handed_view(workbook)),
    ensures
        match r {
            Ok(estimate) => estimate_as(kind@, bytes@, options@, handed_view(workbook)) == Ok::<
                EstimateView,
                Seq<char>,
            >(estimate@),
            Err(message) => estimate_as(kind@, bytes@, options@, handed_view(workbook)) == Err::<
                EstimateView,
                Seq<char>,
            >(message@),
        },
{
    if same_text(kind, "pdf") {
        with_message(estimate_pdf_pages(bytes, options))
    } else if same_text(kind, "xlsx") {
        match workbook {
            Some(read) => with_message(estimate_xlsx_pages(read, options)),
            None => unreached(),
        }
    } else if same_text(kind, "docx") {
        with_message(estimate_docx_pages(bytes, options))
    } else if same_text(kind, "pptx") {
        with_message(estimate_pptx_pages(bytes, options))
    } else if same_text(kind, "txt") {
        Ok(estimate_text_pages(bytes, options))
    } else if same_text(kind, "markdown") {
        Ok(estimate_markdown_pages(bytes, options))
    } else {
        Err("Unsupported or unrecognized format: ".to_owned().concat(kind))
    }
}

/// Estimates the pages of a document: detects its type from its name and its
/// bytes and runs the estimator for that type. A failure carries the message
/// of the error and the type that was detected. The estimator for the
/// detected type must be able to run.
pub fn estimate_document(
    bytes: &[u8],
    filename: Option<&str>,
    options: &EstimateOptions,
    workbook: Option<&Result<Vec<SheetCells>, String>>,
) -> (r: Result<EstimateResult, Failure>)
    requires
        can_run(
            detected_type(filename_view(filename), bytes@),
            bytes@,
            options@,
            handed_view(workbook),
        ),
    ensures
        answer_view(r) == document_estimate(
            bytes@,
            filename_view(filename),
            options@,
            handed_view(workbook),
        ),
{
    let detected = detect_type(filename, bytes);
    match estimate_by_type(detected.as_str(), bytes, options, workbook) {
        Ok(estimate) => Ok(estimate),
        Err(message) => Err(Failure { error: message, detected: Some(detected) }),
    }
}

/// Estimates the pages of a document where the estimator for its detected
/// type can run, and gives no answer where it cannot: where it would divide
/// by zero, or the document is a workbook and none was handed in.
pub fn try_estimate_document(
    bytes: &[u8],
    filename: Option<&str>,
    options: &EstimateOptions,
    workbook: Option<&Result<Vec<SheetCells>, String>>,
) -> (r: Option<Result<EstimateResult, Failure>>)
    ensures
        tried_view(r) == if can_run(
            detected_type(filename_view(filename), bytes@),
            bytes@,
            options@,
            handed_view(workbook),
        ) {
            Some(
                document_estimate(bytes@, filename_view(filename), options@, handed_view(workbook)),
            )
        } else {
            None
        },
{
    let detected = detect_type(filename, bytes);
    if estimator_can_run(detected.as_str(), bytes, options, workbook) {
        Some(estimate_document(bytes, filename, options, workbook))
    } else {
        None
    }
}

/// Estimates the pages of a document given as base64 in the standard
/// alphabet. Text that is no base64 gives a failure without a detected type.
/// The estimator for the detected type of the decoded document must be able
/// to run.
pub fn estimate_document_base64(
    base64_bytes: &str,
    filename: Option<&str>,
    options: &EstimateOptions,
    workbook: Option<&Result<Vec<SheetCells>, String>>,
) -> (r: Result<EstimateResult, Failure>)
    requires
        base64_decoded(base64_bytes@) matches Ok(bytes) ==> can_run(
            detected_type(filename_view(filename), bytes),
            bytes,
            options@,
            handed_view(workbook),
        ),
    ensures
        answer_view(r) == base64_estimate(
            base64_bytes@,
            filename_view(filename),
            options@,
            handed_view(workbook),
        ),
{
    match decode_base64(base64_bytes) {
        Ok(bytes) => estimate_document(bytes.as_slice(), filename, options, workbook),
        Err(error) => Err(
            Failure {
                error: "base64 decode failed: ".to_owned().concat(error.as_str()),
                detected: None,
            },
        ),
    }
}

/// Estimates the pages of a document given as base64 where that can be done,
/// and gives no answer where the estimator for the detected type of the
/// decoded document cannot run.
pub fn try_estimate_document_base64(
    base64_bytes: &str,
    filename: Option<&str>,
    options: &EstimateOptions,
    workbook: Option<&Result<Vec<SheetCells>, String>>,
) -> (r: Option<Result<EstimateResult, Failure>>)
    ensures
        tried_view(r) == if (base64_decoded(base64_bytes@) matches Ok(bytes) ==> can_run(
            detected_type(filename_view(filename), bytes),
            bytes,
            options@,
            handed_view(workbook),
        )) {
            Some(
                base64_estimate(
                    base64_bytes@,
                    filename_view(filename),
                    options@,
                    handed_view(workbook),
                ),
            )
        } else {
            None
        },
{
    let fits: bool = match decode_base64(base64_bytes) {
        Ok(bytes) => {
            let detected = detect_type(filename, bytes.as_slice());
            estimator_can_run(detected.as_str(), bytes.as_slice(), options, workbook)
        },
        Err(_) => true,
    };
    if fits {
        Some(estimate_document_base64(base64_bytes, filename, options, workbook))
    } else {
        None
    }
}

} // verus!
