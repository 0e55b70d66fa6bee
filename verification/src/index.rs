//! Value types naming a logical row, column, or (row, column) position.
//!
//! An index carries no reference to any matrix and may be negative; it is
//! normalized against a [`crate::Dimension`] (or by the view that holds one)
//! only at the point of use.

use vstd::prelude::*;

verus! {

/// A logical, possibly negative, row number.
#[derive(Clone, Copy, Debug, Default, PartialEq, Eq, PartialOrd, Ord, Hash, Structural)]
pub struct RowIndex {
    pub row: isize,
}

impl RowIndex {
    pub fn new(row: isize) -> (r: Self)
        ensures
            r.row == row,
    {
        Self { row }
    }

    pub fn val(&self) -> (v: isize)
        ensures
            v == self.row,
    {
        self.row
    }
}

/// A logical, possibly negative, column number.
#[derive(Clone, Copy, Debug, Default, PartialEq, Eq, PartialOrd, Ord, Hash, Structural)]
pub struct ColIndex {
    pub col: isize,
}

impl ColIndex {
    pub fn new(col: isize) -> (c: Self)
        ensures
            c.col == col,
    {
        Self { col }
    }

    pub fn val(&self) -> (v: isize)
        ensures
            v == self.col,
    {
        self.col
    }
}

/// A logical (row, column) pair, each component possibly negative.
///
/// Two values compare equal only when both fields agree literally; no
/// normalization is applied, so `-1` and `extent - 1` name the same element
/// yet compare unequal.
#[derive(Clone, Copy, Debug, Default, PartialEq, Eq, PartialOrd, Ord, Hash, Structural)]
pub struct MatIndex {
    pub row: isize,
    pub col: isize,
}

impl MatIndex {
    pub fn new(row: isize, col: isize) -> (i: Self)
        ensures
            i.row == row,
            i.col == col,
    {
        Self { row, col }
    }

    pub fn from(row: RowIndex, col: ColIndex) -> (i: Self)
        ensures
            i.row == row.row,
            i.col == col.col,
    {
        Self { row: row.val(), col: col.val() }
    }

    pub fn row(&self) -> (r: isize)
        ensures
            r == self.row,
    {
        self.row
    }

    pub fn col(&self) -> (c: isize)
        ensures
            c == self.col,
    {
        self.col
    }
}

} // verus!
