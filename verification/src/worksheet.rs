//! One sheet of a workbook, materialised.

use crate::cell::{view_of, CellModel, CellValue};
use crate::error::WorkbookError;
use crate::range::{bound_of, CellRange};
use crate::store::stored_end;
use calamine::Data;
use vstd::prelude::*;

verus! {

/// A sheet: the owner of the one range that holds its used area.
pub struct Worksheet {
    range: CellRange,
}

/// What a sheet's reader answers: the cells by their store, a cause by its
/// characters.
pub open spec fn read_view(read: Result<calamine::Range<Data>, String>) -> Result<
    calamine::Range<Data>,
    Seq<char>,
> {
    match read {
        Ok(store) => Ok(store),
        Err(cause) => Err(cause@),
    }
}

/// What reading a sheet comes to, once its reader has answered.
///
/// Cells that were read make the sheet that holds exactly them. A sheet
/// that was not read fails with the reader's cause as a `ParseError`, and
/// so does one whose row or column count does not fit in 32 bits.
pub open spec fn reads_as(
    read: Result<calamine::Range<Data>, Seq<char>>,
    outcome: Result<Worksheet, WorkbookError>,
) -> bool {
    match read {
        Ok(store) => if bound_of(stored_end(store)) is Some {
            outcome matches Ok(sheet) && sheet.range().store() == store
        } else {
            outcome matches Err(WorkbookError::ParseError(text)) && text@
                == "the sheet is larger than a range can be"@
        },
        Err(cause) => outcome matches Err(WorkbookError::ParseError(text)) && text@ == cause,
    }
}

impl Worksheet {
    /// The range the sheet owns.
    pub closed spec fn range(self) -> CellRange {
        self.range
    }

    /// The number of rows of the used area.
    pub open spec fn height_spec(&self) -> u32 {
        self.range().bound().0
    }

    /// The number of columns of the used area.
    pub open spec fn width_spec(&self) -> u32 {
        self.range().bound().1
    }

    /// What [`Worksheet::get_value`] finds at `(row, col)`.
    pub open spec fn value_at(self, row: u32, col: u32) -> Option<CellModel> {
        self.range().lookup(row, col)
    }

    /// Wraps a range.
    pub fn new(range: CellRange) -> (sheet: Worksheet)
        ensures
            sheet.range() == range,
    {
        Worksheet { range }
    }

    /// The sheet that reading comes to. `read` is the answer of the
    /// document's reader for a sheet that the document lists. Nothing is kept
    /// from one reading to the next: every answer makes a sheet of its own.
    pub fn from_read(read: Result<calamine::Range<Data>, String>) -> (outcome: Result<
        Worksheet,
        WorkbookError,
    >)
        ensures
            reads_as(read_view(read), outcome),
    {
        match read {
            Ok(store) => match CellRange::from_store(store) {
                Some(range) => Ok(Worksheet::new(range)),
                None => Err(
                    WorkbookError::ParseError("the sheet is larger than a range can be".to_owned()),
                ),
            },
            Err(cause) => Err(WorkbookError::ParseError(cause)),
        }
    }

    /// The size of the used area, as `(height, width)`.
    pub fn size(&self) -> (size: (u32, u32))
        ensures
            size == (self.height(), self.width()),
    {
        (self.range.height(), self.range.width())
    }

    /// The number of columns of the used area.
    #[verifier::when_used_as_spec(width_spec)]
    pub fn width(&self) -> (cols: u32)
        ensures
            cols == self.width_spec(),
    {
        self.range.width()
    }

    /// The number of rows of the used area.
    #[verifier::when_used_as_spec(height_spec)]
    pub fn height(&self) -> (rows: u32)
        ensures
            rows == self.height_spec(),
    {
        self.range.height()
    }

    /// The value of the cell at `(row, col)`.
    ///
    /// A position outside the used area has no value, which is no fault. A
    /// position inside it always has one: `Empty` for a blank cell, and an
    /// `Error` for a cell that holds a formula error.
    pub fn get_value(&self, row: u32, col: u32) -> (value: Option<CellValue>)
        ensures
            view_of(value) == self.value_at(row, col),
            value is None <==> row >= self.height() || col >= self.width(),
    {
        self.range.get(row, col)
    }
}

/// A position outside the used area holds no value. A sheet without cells,
/// whose size is `(0, 0)`, thus holds none at any position.
pub proof fn lemma_outside_the_bound_is_absent(sheet: Worksheet, row: u32, col: u32)
    requires
        row >= sheet.height_spec() || col >= sheet.width_spec(),
    ensures
        sheet.value_at(row, col) is None,
{
}

/// Reading is determined by the reader's answer: two sheets made of the
/// same answer have the same size and hold the same value at every
/// position.
pub proof fn lemma_reading_is_determined(
    read: Result<calamine::Range<Data>, Seq<char>>,
    first: Worksheet,
    second: Worksheet,
    row: u32,
    col: u32,
)
    requires
        reads_as(read, Ok(first)),
        reads_as(read, Ok(second)),
    ensures
        first.height_spec() == second.height_spec(),
        first.width_spec() == second.width_spec(),
        first.value_at(row, col) == second.value_at(row, col),
{
}

} // verus!
