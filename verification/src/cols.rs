//! Column views: borrowing handles fixing one column, and their iterators.

use vstd::prelude::*;
use crate::dimension::{norm_index, Dimension};
use crate::index::{MatIndex, RowIndex};
use crate::matrix::{flat_offset, Matrix};
use crate::strided::IterMut;

verus! {

/// A read-only view of one column: a borrow of the matrix plus the fixed,
/// normalized column number.  The row coordinate stays free and is
/// normalized against the row extent at each access.
pub struct MatrixColumn<'a, T> {
    pub(crate) mat: &'a Matrix<T>,
    pub(crate) col: isize,
}

impl<'a, T> MatrixColumn<'a, T> {
    /// The borrowed matrix.
    pub closed spec fn mat_spec(&self) -> Matrix<T> {
        *self.mat
    }

    /// The fixed column number.
    pub closed spec fn col_spec(&self) -> int {
        self.col as int
    }

    pub open spec fn wf(&self) -> bool {
        &&& self.mat_spec().wf()
        &&& 0 <= self.col_spec() < self.mat_spec().spec_cols()
    }

    pub(crate) fn from_parts(mat: &'a Matrix<T>, col: isize) -> (v: Self)
        ensures
            v.mat_spec() == *mat,
            v.col_spec() == col as int,
    {
        Self { mat, col }
    }

    /// Normalizes a row number against the view's free extent.
    pub fn positate(&self, index: isize) -> (r: isize)
        requires
            self.mat_spec().spec_dimension().wf(),
        ensures
            r as int == norm_index(self.mat_spec().spec_rows(), index as int),
    {
        if index < 0 {
            self.mat.height() + index
        } else {
            index
        }
    }

    /// Turns the view into an element walk over rows `0, 1, …`.
    /// Restartable: a fresh iterator can be built from the same matrix.
    pub fn into_iter(self) -> (it: MatrixColumnIter<'a, T>)
        requires
            self.wf(),
        ensures
            it.wf(),
            it.mat_spec() == self.mat_spec(),
            it.col_spec() == self.col_spec(),
            it.pos_spec() == 0,
    {
        MatrixColumnIter { mat: self.mat, col: self.col, pos: 0 }
    }
}

impl<'a, T: Copy> MatrixColumn<'a, T> {
    /// The element at the normalized row `index` of this column; equal to
    /// the matrix's own element at `(index, col)`.
    pub fn index(&self, index: isize) -> (r: T)
        requires
            self.wf(),
            0 <= norm_index(self.mat_spec().spec_rows(), index as int)
                < self.mat_spec().spec_rows(),
        ensures
            r == self.mat_spec().at(
                norm_index(self.mat_spec().spec_rows(), index as int),
                self.col_spec(),
            ),
    {
        self.mat.index(MatIndex::new(self.positate(index), self.col))
    }

    /// The element at a typed row index, normalized the same way.
    pub fn index_row(&self, index: RowIndex) -> (r: T)
        requires
            self.wf(),
            0 <= norm_index(self.mat_spec().spec_rows(), index.row as int)
                < self.mat_spec().spec_rows(),
        ensures
            r == self.mat_spec().at(
                norm_index(self.mat_spec().spec_rows(), index.row as int),
                self.col_spec(),
            ),
    {
        self.index(index.row)
    }
}

/// A read-only element walk along one column, in increasing row order.
/// Each step re-translates the advancing row through the matrix's
/// element-access formula.
pub struct MatrixColumnIter<'a, T> {
    pub(crate) mat: &'a Matrix<T>,
    pub(crate) col: isize,
    pub(crate) pos: isize,
}

impl<'a, T> MatrixColumnIter<'a, T> {
    pub closed spec fn mat_spec(&self) -> Matrix<T> {
        *self.mat
    }

    pub closed spec fn col_spec(&self) -> int {
        self.col as int
    }

    /// The row the next yield would read.
    pub closed spec fn pos_spec(&self) -> int {
        self.pos as int
    }

    pub open spec fn wf(&self) -> bool {
        &&& self.mat_spec().wf()
        &&& 0 <= self.col_spec() < self.mat_spec().spec_cols()
        &&& 0 <= self.pos_spec() <= self.mat_spec().spec_rows()
    }
}

impl<'a, T: Copy> MatrixColumnIter<'a, T> {
    /// Yields the element at the advancing row, or `None` once the row
    /// extent is reached.
    pub fn next(&mut self) -> (r: Option<T>)
        requires
            old(self).wf(),
        ensures
            final(self).wf(),
            final(self).mat_spec() == old(self).mat_spec(),
            final(self).col_spec() == old(self).col_spec(),
            match r {
                Some(v) => {
                    &&& old(self).pos_spec() < old(self).mat_spec().spec_rows()
                    &&& v == old(self).mat_spec().at(old(self).pos_spec(), old(self).col_spec())
                    &&& final(self).pos_spec() == old(self).pos_spec() + 1
                },
                None => {
                    &&& old(self).pos_spec() == old(self).mat_spec().spec_rows()
                    &&& final(self).pos_spec() == old(self).pos_spec()
                },
            },
    {
        if self.pos == self.mat.height() {
            None
        } else {
            let v = self.mat.index(MatIndex::new(self.pos, self.col));
            self.pos = self.pos + 1;
            Some(v)
        }
    }
}

/// An exclusive handle naming one column of a matrix of the given
/// dimension.  It carries no borrow itself: each accessor takes the matrix
/// it reads or writes, and requires the dimensions to agree.
pub struct MatrixColumnMut {
    pub(crate) col: isize,
    pub(crate) dim: Dimension,
}

impl MatrixColumnMut {
    /// The fixed column number.
    pub closed spec fn col_spec(&self) -> int {
        self.col as int
    }

    /// The dimension of the matrix the handle was made from.
    pub closed spec fn dim_spec(&self) -> Dimension {
        self.dim
    }

    pub open spec fn wf(&self) -> bool {
        &&& self.dim_spec().wf()
        &&& 0 <= self.col_spec() < self.dim_spec().columns
    }

    /// Whether this handle addresses into `mat`.
    pub open spec fn matches<T>(&self, mat: Matrix<T>) -> bool {
        mat.spec_dimension() == self.dim_spec()
    }

    pub(crate) fn from_parts(col: isize, dim: Dimension) -> (v: Self)
        ensures
            v.col_spec() == col as int,
            v.dim_spec() == dim,
    {
        Self { col, dim }
    }

    /// Normalizes a row number against the row extent.
    pub fn positate(&self, index: isize) -> (r: isize)
        requires
            self.dim_spec().wf(),
        ensures
            r as int == norm_index(self.dim_spec().rows as int, index as int),
    {
        if index < 0 {
            self.dim.rows + index
        } else {
            index
        }
    }

    /// The element at the normalized row `index` of this column.
    pub fn index<T: Copy>(&self, mat: &Matrix<T>, index: isize) -> (r: T)
        requires
            self.wf(),
            mat.wf(),
            self.matches(*mat),
            0 <= norm_index(self.dim_spec().rows as int, index as int) < self.dim_spec().rows,
        ensures
            r == mat.at(
                norm_index(self.dim_spec().rows as int, index as int),
                self.col_spec(),
            ),
    {
        mat.index(MatIndex::new(self.positate(index), self.col))
    }

    /// The element at a typed row index, normalized the same way.
    pub fn index_row<T: Copy>(&self, mat: &Matrix<T>, index: RowIndex) -> (r: T)
        requires
            self.wf(),
            mat.wf(),
            self.matches(*mat),
            0 <= norm_index(self.dim_spec().rows as int, index.row as int) < self.dim_spec().rows,
        ensures
            r == mat.at(
                norm_index(self.dim_spec().rows as int, index.row as int),
                self.col_spec(),
            ),
    {
        self.index(mat, index.row)
    }

    /// Writes `value` at the normalized row `index` of this column; no
    /// other element changes.
    pub fn set<T: Copy>(&self, mat: &mut Matrix<T>, index: isize, value: T)
        requires
            self.wf(),
            old(mat).wf(),
            self.matches(*old(mat)),
            0 <= norm_index(self.dim_spec().rows as int, index as int) < self.dim_spec().rows,
        ensures
            final(mat).wf(),
            final(mat).spec_dimension() == old(mat).spec_dimension(),
            final(mat)@ == old(mat)@.update(
                flat_offset(
                    norm_index(self.dim_spec().rows as int, index as int),
                    self.col_spec(),
                    self.dim_spec().columns as int,
                ),
                value,
            ),
    {
        mat.set(MatIndex::new(self.positate(index), self.col), value);
    }

    /// Writes `value` at a typed row index, normalized the same way.
    pub fn set_row<T: Copy>(&self, mat: &mut Matrix<T>, index: RowIndex, value: T)
        requires
            self.wf(),
            old(mat).wf(),
            self.matches(*old(mat)),
            0 <= norm_index(self.dim_spec().rows as int, index.row as int) < self.dim_spec().rows,
        ensures
            final(mat).wf(),
            final(mat).spec_dimension() == old(mat).spec_dimension(),
            final(mat)@ == old(mat)@.update(
                flat_offset(
                    norm_index(self.dim_spec().rows as int, index.row as int),
                    self.col_spec(),
                    self.dim_spec().columns as int,
                ),
                value,
            ),
    {
        self.set(mat, index.row, value);
    }

    /// Turns the handle into the strided offset walk of its column: start
    /// at the column's first flat offset, stop at its last, step equal to
    /// the column count.
    pub fn into_iter(self) -> (it: IterMut)
        requires
            self.wf(),
            1 <= self.dim_spec().rows,
        ensures
            it.wf(),
            it.spec_pos() == flat_offset(0, self.col_spec(), self.dim_spec().columns as int),
            it.spec_end() == flat_offset(
                self.dim_spec().rows as int - 1,
                self.col_spec(),
                self.dim_spec().columns as int,
            ),
            it.spec_step() == self.dim_spec().columns,
    {
        proof {
            assert(0 <= (self.dim_spec().columns as int) * ((self.dim_spec().rows as int) - 1)
                && (self.dim_spec().columns as int) * ((self.dim_spec().rows as int) - 1)
                    + (self.dim_spec().columns as int)
                    == (self.dim_spec().columns as int) * (self.dim_spec().rows as int)
                && (self.dim_spec().columns as int) * (self.dim_spec().rows as int)
                    == (self.dim_spec().rows as int) * (self.dim_spec().columns as int)
                && ((self.dim_spec().rows as int) - 1) * (self.dim_spec().columns as int)
                    == (self.dim_spec().columns as int) * ((self.dim_spec().rows as int) - 1))
                by (nonlinear_arith)
                requires
                    1 <= self.dim_spec().rows as int,
                    1 <= self.dim_spec().columns as int;
        }
        let start = self.col;
        let end = self.col + self.dim.columns * (self.dim.rows - 1);
        let step = self.dim.columns;
        IterMut::new(start as usize, end as usize, step as usize)
    }
}

/// Yields an exclusive column handle for each column in increasing order.
pub struct ColIterMut {
    pub(crate) dim: Dimension,
    pub(crate) pos: isize,
}

impl ColIterMut {
    pub closed spec fn dim_spec(&self) -> Dimension {
        self.dim
    }

    pub closed spec fn pos_spec(&self) -> int {
        self.pos as int
    }

    pub open spec fn wf(&self) -> bool {
        &&& self.dim_spec().wf()
        &&& 0 <= self.pos_spec() <= self.dim_spec().columns
    }

    pub(crate) fn from_parts(dim: Dimension) -> (it: Self)
        ensures
            it.dim_spec() == dim,
            it.pos_spec() == 0,
    {
        Self { dim, pos: 0 }
    }

    pub fn next(&mut self) -> (r: Option<MatrixColumnMut>)
        requires
            old(self).wf(),
        ensures
            final(self).wf(),
            final(self).dim_spec() == old(self).dim_spec(),
            match r {
                Some(v) => {
                    &&& old(self).pos_spec() < old(self).dim_spec().columns
                    &&& v.wf()
                    &&& v.dim_spec() == old(self).dim_spec()
                    &&& v.col_spec() == old(self).pos_spec()
                    &&& final(self).pos_spec() == old(self).pos_spec() + 1
                },
                None => {
                    &&& old(self).pos_spec() == old(self).dim_spec().columns
                    &&& final(self).pos_spec() == old(self).pos_spec()
                },
            },
    {
        if self.pos == self.dim.columns {
            None
        } else {
            let v = MatrixColumnMut { col: self.pos, dim: self.dim };
            self.pos = self.pos + 1;
            Some(v)
        }
    }
}

/// Yields a read-only column view for each column in increasing order.
pub struct ColIter<'a, T> {
    pub(crate) mat: &'a Matrix<T>,
    pub(crate) pos: isize,
}

impl<'a, T> ColIter<'a, T> {
    pub closed spec fn mat_spec(&self) -> Matrix<T> {
        *self.mat
    }

    pub closed spec fn pos_spec(&self) -> int {
        self.pos as int
    }

    pub open spec fn wf(&self) -> bool {
        &&& self.mat_spec().wf()
        &&& 0 <= self.pos_spec() <= self.mat_spec().spec_cols()
    }

    pub(crate) fn from_parts(mat: &'a Matrix<T>) -> (it: Self)
        ensures
            it.mat_spec() == *mat,
            it.pos_spec() == 0,
    {
        Self { mat, pos: 0 }
    }

    pub fn next(&mut self) -> (r: Option<MatrixColumn<'a, T>>)
        requires
            old(self).wf(),
        ensures
            final(self).wf(),
            final(self).mat_spec() == old(self).mat_spec(),
            match r {
                Some(v) => {
                    &&& old(self).pos_spec() < old(self).mat_spec().spec_cols()
                    &&& v.wf()
                    &&& v.mat_spec() == old(self).mat_spec()
                    &&& v.col_spec() == old(self).pos_spec()
                    &&& final(self).pos_spec() == old(self).pos_spec() + 1
                },
                None => {
                    &&& old(self).pos_spec() == old(self).mat_spec().spec_cols()
                    &&& final(self).pos_spec() == old(self).pos_spec()
                },
            },
    {
        if self.pos == self.mat.width() {
            None
        } else {
            let v = MatrixColumn { mat: self.mat, col: self.pos };
            self.pos = self.pos + 1;
            Some(v)
        }
    }
}

} // verus!
