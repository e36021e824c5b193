//! Page counts for a print preview: how many pages a document will take,
//! and of what size, told from its bytes.
//!
//! The heart of the crate is the page count of a PDF. [`scanner`] reads bytes
//! without ever leaving the data; [`fast_path`] follows the chain that the
//! file format prescribes; [`ultra_fast_pdf`] adds the pattern searches that
//! stand in where the chain breaks; [`dimension_sampler`] reads page sizes;
//! [`extraction`] runs all of it in order and says how the result was had.
//! [`fast_pdf`] and [`simple_pdf`] are two readers of PDFs that are text.
//! The other formats are estimated in [`estimators`], and [`assembly`] picks
//! the estimator by the type that [`file_utils`] detects. A workbook is read
//! by the caller and handed in as plain values.
//!
//! Every function states over `Seq<u8>` what it returns. What another crate
//! computes is named in [`archive`], [`xml`] and [`assembly`],
//! and what an unspecified part of the standard library computes in [`text`],
//! [`xml`] and [`file_utils`]; those statements are believed, and everything
//! else is proved, the theorems in [`theorems`] and [`flat_document`] among it.

pub mod archive;
pub mod assembly;
pub mod dimension_sampler;
pub mod estimators;
pub mod extraction;
pub mod fast_path;
pub mod fast_pdf;
pub mod file_utils;
pub mod flat_document;
pub mod keywords;
pub mod page_box;
pub mod scanner;
pub mod schema;
pub mod simple_pdf;
pub mod strategy;
pub mod text;
pub mod theorems;
pub mod ultra_fast_pdf;
pub mod xml;
