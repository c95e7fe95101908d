//! A read-only view of spreadsheet documents as grids of typed cell values.
//!
//! A [`Workbook`] owns the reader of an open document and lists its sheets
//! in document order. A [`Worksheet`] is one sheet, materialised: a
//! rectangle of [`CellValue`]s addressed from the origin.
//!
//! The formats are decoded by `calamine`. Its decoders are not called from
//! here, as nothing can be promised of a call: the library says which
//! decoder a file is opened with ([`Format::for_path`]), what the decoder's
//! answer comes to ([`Workbook::opened`]), whether a sheet is there to be
//! read ([`Workbook::find_sheet`]) and what the reader's answer comes to
//! ([`Worksheet::from_read`]). What it believes of `calamine` and of std
//! without proof is stated on the items of [`store`] and [`reader`], and on
//! one item of [`format`].

pub mod cell;
pub mod error;
pub mod format;
pub mod range;
pub mod reader;
pub mod store;
pub mod text;
pub mod workbook;
pub mod worksheet;

pub use cell::{CellModel, CellValue, ErrorCode, RawCell, RawModel};
pub use format::Format;
pub use range::CellRange;
pub use error::WorkbookError;
pub use workbook::Workbook;
pub use worksheet::Worksheet;
