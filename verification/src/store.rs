//! The cell store of a sheet, as `calamine` materialises it.
//!
//! A `calamine::Range<calamine::Data>` is kept as it is and read through the
//! two functions below. Nothing in this file is proved: each contract states
//! what the source of `calamine` shows of the method it calls.

use crate::cell::{RawCell, RawModel};
use calamine::Data;
use vstd::prelude::*;

verus! {

/// `calamine::Range`: the cells of one sheet, opaque here.
#[verifier::external_type_specification]
#[verifier::external_body]
#[verifier::reject_recursive_types(T)]
pub struct ExRange<T>(calamine::Range<T>);

/// `calamine::Data`: one stored cell, opaque here.
#[verifier::external_type_specification]
#[verifier::external_body]
pub struct ExData(Data);

/// The cells that a store holds, by their position `(row, column)` counted
/// from the sheet's origin.
pub uninterp spec fn stored_cells(store: calamine::Range<Data>) -> Map<(u32, u32), RawModel>;

/// The position of the last row and the last column of a store, or `None`
/// for a store without cells.
pub uninterp spec fn stored_end(store: calamine::Range<Data>) -> Option<(u32, u32)>;

/// `calamine::Range::end`: the position of the store's last row and column.
#[verifier::external_body]
pub(crate) fn last_position(store: &calamine::Range<Data>) -> (end: Option<(u32, u32)>)
    ensures
        end == stored_end(*store),
{
    store.end()
}

/// `calamine::Range::get_value`: the cell stored at an absolute position,
/// handed out as a [`RawCell`].
///
/// The method answers `None` for a position outside the store's rectangle.
/// An error cell is handed out as the text that `calamine::CellErrorType`
/// displays, which is one of the eight error tokens; a number as the bits
/// of the float, a serial date as those of
/// `calamine::ExcelDateTime::as_f64`.
#[verifier::external_body]
pub(crate) fn cell_at(store: &calamine::Range<Data>, row: u32, col: u32) -> (cell: Option<RawCell>)
    ensures
        cell is Some <==> stored_cells(*store).contains_key((row, col)),
        cell is Some ==> cell.unwrap()@ == stored_cells(*store)[(row, col)],
        cell is Some ==> cell.unwrap()@.classifiable(),
{
    Some(match store.get_value((row, col))? {
        Data::Int(i) => RawCell::Integer(*i),
        Data::Float(x) => RawCell::Float(x.to_bits()),
        Data::String(s) => RawCell::Text(s.clone()),
        Data::Bool(b) => RawCell::Boolean(*b),
        Data::DateTime(d) => RawCell::DateTime(d.as_f64().to_bits()),
        Data::DateTimeIso(s) => RawCell::DateTimeIso(s.clone()),
        Data::DurationIso(s) => RawCell::DurationIso(s.clone()),
        Data::Error(e) => RawCell::Error(e.to_string()),
        Data::Empty => RawCell::Empty,
    })
}

} // verus!
