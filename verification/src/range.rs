//! The used area of one sheet: a rectangle of cells addressed from the origin.

use crate::cell::{view_of, CellModel, CellValue};
use crate::store::{cell_at, last_position, stored_cells, stored_end};
use calamine::Data;
use vstd::prelude::*;

verus! {

/// The exclusive bound `(rows, columns)` of an area whose last row and
/// column are at `last`: `(0, 0)` for an area without cells, and `None`
/// where a count does not fit in 32 bits.
pub open spec fn bound_of(last: Option<(u32, u32)>) -> Option<(u32, u32)> {
    match last {
        None => Some((0u32, 0u32)),
        Some((row, col)) => if row < u32::MAX && col < u32::MAX {
            Some(((row + 1) as u32, (col + 1) as u32))
        } else {
            None
        },
    }
}

/// Computes [`bound_of`].
pub fn exclusive_bound(last: Option<(u32, u32)>) -> (bound: Option<(u32, u32)>)
    ensures
        bound == bound_of(last),
{
    match last {
        None => Some((0, 0)),
        Some((row, col)) => if row < u32::MAX && col < u32::MAX {
            Some((row + 1, col + 1))
        } else {
            None
        },
    }
}

/// A rectangle of cells, `height` rows by `width` columns, whose first cell
/// is the sheet's origin `(0, 0)`.
///
/// Every position inside the bound holds a value, `Empty` where the sheet
/// stores nothing; a position outside it holds none. A range is not changed
/// once it is made.
pub struct CellRange {
    store: calamine::Range<Data>,
    end_row: u32,
    end_col: u32,
}

impl CellRange {
    /// The recorded bound is the one the store's last position gives.
    #[verifier::type_invariant]
    closed spec fn consistent(self) -> bool {
        bound_of(stored_end(self.store)) == Some((self.end_row, self.end_col))
    }

    /// The store the cells are read from.
    pub closed spec fn store(self) -> calamine::Range<Data> {
        self.store
    }

    /// The exclusive bound `(rows, columns)`, which the store's last
    /// position gives.
    pub open spec fn bound(self) -> (u32, u32) {
        match bound_of(stored_end(self.store())) {
            Some(bound) => bound,
            None => (0u32, 0u32),
        }
    }

    /// What is found at `(row, col)`: nothing outside the bound, `Empty`
    /// inside it where the store holds no cell, and else the stored cell,
    /// classified.
    pub open spec fn lookup(self, row: u32, col: u32) -> Option<CellModel> {
        if row >= self.bound().0 || col >= self.bound().1 {
            None
        } else if !stored_cells(self.store()).contains_key((row, col)) {
            Some(CellModel::Empty)
        } else {
            stored_cells(self.store())[(row, col)].classify()
        }
    }

    /// Wraps a store and records its bound. There is no range for a store
    /// whose row or column count does not fit in 32 bits.
    pub fn from_store(store: calamine::Range<Data>) -> (range: Option<CellRange>)
        ensures
            match bound_of(stored_end(store)) {
                Some(_) => range is Some && range.unwrap().store() == store,
                None => range is None,
            },
    {
        match exclusive_bound(last_position(&store)) {
            Some((end_row, end_col)) => Some(CellRange { store, end_row, end_col }),
            None => None,
        }
    }

    /// The number of rows.
    pub fn height(&self) -> (rows: u32)
        ensures
            rows == self.bound().0,
    {
        proof {
            use_type_invariant(self);
        }
        self.end_row
    }

    /// The number of columns.
    pub fn width(&self) -> (cols: u32)
        ensures
            cols == self.bound().1,
    {
        proof {
            use_type_invariant(self);
        }
        self.end_col
    }

    /// The value at `(row, col)`, or `None` outside the bound.
    pub fn get(&self, row: u32, col: u32) -> (value: Option<CellValue>)
        ensures
            view_of(value) == self.lookup(row, col),
            value is None <==> row >= self.bound().0 || col >= self.bound().1,
    {
        proof {
            use_type_invariant(self);
        }
        if row >= self.end_row || col >= self.end_col {
            return None;
        }
        match cell_at(&self.store, row, col) {
            None => Some(CellValue::Empty),
            Some(raw) => CellValue::from_raw(raw),
        }
    }
}

} // verus!
