//! The faults of opening a document and of reading a sheet.

use vstd::prelude::*;

verus! {

/// Why a document could not be opened or a sheet could not be read.
#[derive(Debug, PartialEq)]
pub enum WorkbookError {
    /// The document cannot be read: its file cannot, or it is named as one
    /// of the known formats and is not of that format. The text is the
    /// cause.
    OpenError(String),
    /// No format matches the document.
    UnsupportedFormat,
    /// The document has no sheet of this name.
    SheetNotFound(String),
    /// The sheet is there and cannot be read. The text is the cause.
    ParseError(String),
}

impl Clone for WorkbookError {
    fn clone(&self) -> (copy: Self)
        ensures
            copy == *self,
    {
        match self {
            WorkbookError::OpenError(cause) => WorkbookError::OpenError(cause.clone()),
            WorkbookError::UnsupportedFormat => WorkbookError::UnsupportedFormat,
            WorkbookError::SheetNotFound(name) => WorkbookError::SheetNotFound(name.clone()),
            WorkbookError::ParseError(cause) => WorkbookError::ParseError(cause.clone()),
        }
    }
}

} // verus!
