//! The values that estimation takes and gives: options, results and errors.

use vstd::prelude::*;
use vstd::string::StringExecFns;

verus! {

/// The size of a page, each side in thousandths of a millimetre.
#[derive(Clone, Copy, PartialEq, Eq, Structural, Debug)]
pub struct PageSizeMm {
    pub width_um: u64,
    pub height_um: u64,
}

/// Why an estimate could not be made.
#[derive(Debug)]
pub enum EstimatorError {
    /// The format is not supported or was not recognised.
    UnsupportedFormat,
    /// A PDF could not be read.
    PdfError(String),
    /// A workbook could not be read.
    XlsxError(String),
    /// Anything else.
    General(String),
}

/// An error as a mathematical value.
pub enum ErrorView {
    UnsupportedFormat,
    PdfError(Seq<char>),
    XlsxError(Seq<char>),
    General(Seq<char>),
}

impl View for EstimatorError {
    type V = ErrorView;

    open spec fn view(&self) -> ErrorView {
        match self {
            EstimatorError::UnsupportedFormat => ErrorView::UnsupportedFormat,
            EstimatorError::PdfError(detail) => ErrorView::PdfError(detail@),
            EstimatorError::XlsxError(detail) => ErrorView::XlsxError(detail@),
            EstimatorError::General(detail) => ErrorView::General(detail@),
        }
    }
}

impl ErrorView {
    /// The message of an error, as shown to the user.
    pub open spec fn message(self) -> Seq<char> {
        match self {
            ErrorView::UnsupportedFormat => "Unsupported or unrecognized format"@,
            ErrorView::PdfError(detail) => "PDF parse error: "@ + detail,
            ErrorView::XlsxError(detail) => "XLSX parse error: "@ + detail,
            ErrorView::General(detail) => "General error: "@ + detail,
        }
    }
}

impl EstimatorError {
    /// The message of the error, as shown to the user.
    pub fn message(&self) -> (r: String)
        ensures
            r@ == self@.message(),
    {
        match self {
            EstimatorError::UnsupportedFormat => "Unsupported or unrecognized format".to_owned(),
            EstimatorError::PdfError(detail) => "PDF parse error: ".to_owned().concat(
                detail.as_str(),
            ),
            EstimatorError::XlsxError(detail) => "XLSX parse error: ".to_owned().concat(
                detail.as_str(),
            ),
            EstimatorError::General(detail) => "General error: ".to_owned().concat(detail.as_str()),
        }
    }
}

/// How a caller may steer an estimate. Every field may be left out.
#[derive(Debug)]
pub struct EstimateOptions {
    /// The sheet taken for documents that state no page size: `Letter` or
    /// `letter` for Letter, anything else for A4.
    pub default_paper: Option<String>,
    /// A sheet of the caller's own, width and height in thousandths of a
    /// millimetre; it goes before `default_paper`.
    pub custom_paper_mm: Option<(u64, u64)>,
    /// How many characters fill a page of text.
    pub chars_per_page: Option<usize>,
    /// How many rows fill a page of a spreadsheet.
    pub rows_per_page: Option<usize>,
}

/// Options as a mathematical value.
pub struct OptionsView {
    pub default_paper: Option<Seq<char>>,
    pub custom_paper_mm: Option<(u64, u64)>,
    pub chars_per_page: Option<usize>,
    pub rows_per_page: Option<usize>,
}

impl View for EstimateOptions {
    type V = OptionsView;

    open spec fn view(&self) -> OptionsView {
        OptionsView {
            default_paper: match self.default_paper {
                Some(name) => Some(name@),
                None => None,
            },
            custom_paper_mm: self.custom_paper_mm,
            chars_per_page: self.chars_per_page,
            rows_per_page: self.rows_per_page,
        }
    }
}

impl Default for EstimateOptions {
    /// A4, and nothing else set.
    fn default() -> (r: Self)
        ensures
            r@ == (OptionsView {
                default_paper: Some("A4"@),
                custom_paper_mm: None,
                chars_per_page: None,
                rows_per_page: None,
            }),
    {
        EstimateOptions {
            default_paper: Some("A4".to_owned()),
            custom_paper_mm: None,
            chars_per_page: None,
            rows_per_page: None,
        }
    }
}

/// An estimate: the number of pages, one size for each page, and notes on how
/// the estimate was made.
#[derive(Debug)]
pub struct EstimateResult {
    pub page_count: usize,
    pub page_sizes: Vec<PageSizeMm>,
    pub notes: Vec<String>,
}

/// An estimate as a mathematical value.
pub struct EstimateView {
    pub page_count: usize,
    pub page_sizes: Seq<PageSizeMm>,
    pub notes: Seq<Seq<char>>,
}

impl EstimateView {
    /// There is one size for each page.
    pub open spec fn well_formed(self) -> bool {
        self.page_sizes.len() == self.page_count
    }
}

impl View for EstimateResult {
    type V = EstimateView;

    open spec fn view(&self) -> EstimateView {
        EstimateView {
            page_count: self.page_count,
            page_sizes: self.page_sizes@,
            notes: self.notes.deep_view(),
        }
    }
}

/// What was read of one sheet of a workbook: its name, and its cells row by
/// row, each cell told by whether it holds anything; no cells where the sheet
/// could not be read.
#[derive(Debug)]
pub struct SheetCells {
    pub name: String,
    pub cells: Option<Vec<Vec<bool>>>,
}

/// A sheet as a mathematical value.
pub struct SheetView {
    pub name: Seq<char>,
    pub cells: Option<Seq<Seq<bool>>>,
}

impl View for SheetCells {
    type V = SheetView;

    open spec fn view(&self) -> SheetView {
        SheetView { name: self.name@, cells: self.cells.deep_view() }
    }
}

/// The sheets of a workbook as mathematical values, in workbook order.
pub open spec fn sheet_views(sheets: Seq<SheetCells>) -> Seq<SheetView> {
    Seq::new(sheets.len(), |i: int| sheets[i]@)
}

/// What was read of a workbook, as a mathematical value: its sheets, or the
/// reason why it could not be opened.
pub open spec fn workbook_view(workbook: Result<Vec<SheetCells>, String>) -> Result<
    Seq<SheetView>,
    Seq<char>,
> {
    match workbook {
        Ok(sheets) => Ok(sheet_views(sheets@)),
        Err(error) => Err(error@),
    }
}

} // verus!
