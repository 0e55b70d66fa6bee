//! The (rows, columns) extent pair and index normalization.

use vstd::prelude::*;
use crate::index::{ColIndex, MatIndex, RowIndex};

verus! {

/// The normalized form of a possibly negative logical index against an
/// extent: a non-negative index is unchanged, a negative one counts back
/// from the end (`-1` names the last position).  Wraparound is applied one
/// level only; an index below `-extent` stays negative.
pub open spec fn norm_index(extent: int, index: int) -> int {
    if index < 0 {
        extent + index
    } else {
        index
    }
}

/// Row and column extents of a matrix.  Immutable once constructed and
/// copied freely.
#[derive(Clone, Copy, Debug, PartialEq, Eq, PartialOrd, Ord, Hash, Structural)]
pub struct Dimension {
    pub rows: isize,
    pub columns: isize,
}

impl Dimension {
    /// Valid use keeps both extents non-negative and the element count
    /// within the signed machine range, so that flat offsets never
    /// overflow.
    pub open spec fn wf(&self) -> bool {
        &&& 0 <= self.rows
        &&& 0 <= self.columns
        &&& self.rows * self.columns <= isize::MAX
    }

    /// Total element count, `rows * columns`.
    pub open spec fn spec_len(&self) -> int {
        self.rows * self.columns
    }

    /// Construction itself accepts any pair; every operation that turns a
    /// dimension into buffer offsets requires [`Dimension::wf`] instead.
    pub fn new(rows: isize, columns: isize) -> (d: Self)
        ensures
            d.rows == rows,
            d.columns == columns,
    {
        Self { rows, columns }
    }

    pub fn len(&self) -> (n: usize)
        requires
            self.wf(),
        ensures
            n == self.spec_len(),
    {
        proof {
            assert(0 <= self.columns * self.rows && self.columns * self.rows == self.rows * self.columns)
                by (nonlinear_arith)
                requires 0 <= self.rows, 0 <= self.columns;
        }
        (self.columns * self.rows) as usize
    }

    /// Normalizes a row number against the row extent.
    pub fn positate_row(&self, index: RowIndex) -> (r: isize)
        requires
            self.wf(),
        ensures
            r == norm_index(self.rows as int, index.row as int),
    {
        if index.row < 0 {
            self.rows + index.row
        } else {
            index.row
        }
    }

    /// Normalizes a column number against the column extent.
    pub fn positate_col(&self, index: ColIndex) -> (c: isize)
        requires
            self.wf(),
        ensures
            c == norm_index(self.columns as int, index.col as int),
    {
        if index.col < 0 {
            self.columns + index.col
        } else {
            index.col
        }
    }

    /// Normalizes both components of a (row, column) pair, independently
    /// and symmetrically.
    pub fn positate(&self, index: MatIndex) -> (rc: (isize, isize))
        requires
            self.wf(),
        ensures
            rc.0 == norm_index(self.rows as int, index.row as int),
            rc.1 == norm_index(self.columns as int, index.col as int),
    {
        (
            if index.row < 0 {
                self.rows + index.row
            } else {
                index.row
            },
            if index.col < 0 {
                self.columns + index.col
            } else {
                index.col
            },
        )
    }
}

/// Normalization maps every index in `[-extent, extent)` into `[0, extent)`;
/// it is the identity on `[0, extent)`, and `-1` lands on the last position,
/// `extent - 1`.
pub proof fn lemma_norm_index_range(extent: int, index: int)
    requires
        0 <= extent,
        -extent <= index < extent,
    ensures
        0 <= norm_index(extent, index) < extent,
        0 <= index ==> norm_index(extent, index) == index,
        index == -1 ==> norm_index(extent, index) == extent - 1,
{
}

} // verus!
