//! Row views: borrowing handles fixing one row, and their iterators.

use vstd::prelude::*;
use crate::dimension::{norm_index, Dimension};
use crate::index::{ColIndex, MatIndex};
use crate::matrix::{flat_offset, Matrix};
use crate::strided::IterMut;

verus! {

/// A read-only view of one row: a borrow of the matrix plus the fixed,
/// normalized row number.  The column coordinate stays free and is
/// normalized against the column extent at each access.
pub struct MatrixRow<'a, T> {
    pub(crate) mat: &'a Matrix<T>,
    pub(crate) row: isize,
}

impl<'a, T> MatrixRow<'a, T> {
    /// The borrowed matrix.
    pub closed spec fn mat_spec(&self) -> Matrix<T> {
        *self.mat
    }

    /// The fixed row number.
    pub closed spec fn row_spec(&self) -> int {
        self.row as int
    }

    pub open spec fn wf(&self) -> bool {
        &&& self.mat_spec().wf()
        &&& 0 <= self.row_spec() < self.mat_spec().spec_rows()
    }

    pub(crate) fn from_parts(mat: &'a Matrix<T>, row: isize) -> (v: Self)
        ensures
            v.mat_spec() == *mat,
            v.row_spec() == row as int,
    {
        Self { mat, row }
    }

    /// Normalizes a column number against the view's free extent.
    pub fn positate(&self, index: isize) -> (c: isize)
        requires
            self.mat_spec().spec_dimension().wf(),
        ensures
            c as int == norm_index(self.mat_spec().spec_cols(), index as int),
    {
        if index < 0 {
            self.mat.width() + index
        } else {
            index
        }
    }

    /// Turns the view into an element walk over columns `0, 1, …`.
    /// Restartable: a fresh iterator can be built from the same matrix.
    pub fn into_iter(self) -> (it: MatrixRowIter<'a, T>)
        requires
            self.wf(),
        ensures
            it.wf(),
            it.mat_spec() == self.mat_spec(),
            it.row_spec() == self.row_spec(),
            it.pos_spec() == 0,
    {
        MatrixRowIter { mat: self.mat, row: self.row, pos: 0 }
    }
}

impl<'a, T: Copy> MatrixRow<'a, T> {
    /// The element at the normalized column `index` of this row; equal to
    /// the matrix's own element at `(row, index)`.
    pub fn index(&self, index: isize) -> (r: T)
        requires
            self.wf(),
            0 <= norm_index(self.mat_spec().spec_cols(), index as int)
                < self.mat_spec().spec_cols(),
        ensures
            r == self.mat_spec().at(
                self.row_spec(),
                norm_index(self.mat_spec().spec_cols(), index as int),
            ),
    {
        self.mat.index(MatIndex::new(self.row, self.positate(index)))
    }

    /// The element at a typed column index, normalized the same way.
    pub fn index_col(&self, index: ColIndex) -> (r: T)
        requires
            self.wf(),
            0 <= norm_index(self.mat_spec().spec_cols(), index.col as int)
                < self.mat_spec().spec_cols(),
        ensures
            r == self.mat_spec().at(
                self.row_spec(),
                norm_index(self.mat_spec().spec_cols(), index.col as int),
            ),
    {
        self.index(index.col)
    }
}

/// A read-only element walk along one row, in increasing column order.
/// Each step re-translates the advancing column through the matrix's
/// element-access formula.
pub struct MatrixRowIter<'a, T> {
    pub(crate) mat: &'a Matrix<T>,
    pub(crate) row: isize,
    pub(crate) pos: isize,
}

impl<'a, T> MatrixRowIter<'a, T> {
    pub closed spec fn mat_spec(&self) -> Matrix<T> {
        *self.mat
    }

    pub closed spec fn row_spec(&self) -> int {
        self.row as int
    }

    /// The column the next yield would read.
    pub closed spec fn pos_spec(&self) -> int {
        self.pos as int
    }

    pub open spec fn wf(&self) -> bool {
        &&& self.mat_spec().wf()
        &&& 0 <= self.row_spec() < self.mat_spec().spec_rows()
        &&& 0 <= self.pos_spec() <= self.mat_spec().spec_cols()
    }
}

impl<'a, T: Copy> MatrixRowIter<'a, T> {
    /// Yields the element at the advancing column, or `None` once the
    /// column extent is reached.
    pub fn next(&mut self) -> (r: Option<T>)
        requires
            old(self).wf(),
        ensures
            final(self).wf(),
            final(self).mat_spec() == old(self).mat_spec(),
            final(self).row_spec() == old(self).row_spec(),
            match r {
                Some(v) => {
                    &&& old(self).pos_spec() < old(self).mat_spec().spec_cols()
                    &&& v == old(self).mat_spec().at(old(self).row_spec(), old(self).pos_spec())
                    &&& final(self).pos_spec() == old(self).pos_spec() + 1
                },
                None => {
                    &&& old(self).pos_spec() == old(self).mat_spec().spec_cols()
                    &&& final(self).pos_spec() == old(self).pos_spec()
                },
            },
    {
        if self.pos == self.mat.width() {
            None
        } else {
            let v = self.mat.index(MatIndex::new(self.row, self.pos));
            self.pos = self.pos + 1;
            Some(v)
        }
    }
}

/// An exclusive handle naming one row of a matrix of the given dimension.
/// It carries no borrow itself: each accessor takes the matrix it reads or
/// writes, and requires the dimensions to agree.
pub struct MatrixRowMut {
    pub(crate) row: isize,
    pub(crate) dim: Dimension,
}

impl MatrixRowMut {
    /// The fixed row number.
    pub closed spec fn row_spec(&self) -> int {
        self.row as int
    }

    /// The dimension of the matrix the handle was made from.
    pub closed spec fn dim_spec(&self) -> Dimension {
        self.dim
    }

    pub open spec fn wf(&self) -> bool {
        &&& self.dim_spec().wf()
        &&& 0 <= self.row_spec() < self.dim_spec().rows
    }

    /// Whether this handle addresses into `mat`.
    pub open spec fn matches<T>(&self, mat: Matrix<T>) -> bool {
        mat.spec_dimension() == self.dim_spec()
    }

    pub(crate) fn from_parts(row: isize, dim: Dimension) -> (v: Self)
        ensures
            v.row_spec() == row as int,
            v.dim_spec() == dim,
    {
        Self { row, dim }
    }

    /// Normalizes a column number against the column extent.
    pub fn positate(&self, index: isize) -> (c: isize)
        requires
            self.dim_spec().wf(),
        ensures
            c as int == norm_index(self.dim_spec().columns as int, index as int),
    {
        if index < 0 {
            self.dim.columns + index
        } else {
            index
        }
    }

    /// The element at the normalized column `index` of this row.
    pub fn index<T: Copy>(&self, mat: &Matrix<T>, index: isize) -> (r: T)
        requires
            self.wf(),
            mat.wf(),
            self.matches(*mat),
            0 <= norm_index(self.dim_spec().columns as int, index as int)
                < self.dim_spec().columns,
        ensures
            r == mat.at(
                self.row_spec(),
                norm_index(self.dim_spec().columns as int, index as int),
            ),
    {
        mat.index(MatIndex::new(self.row, self.positate(index)))
    }

    /// The element at a typed column index, normalized the same way.
    pub fn index_col<T: Copy>(&self, mat: &Matrix<T>, index: ColIndex) -> (r: T)
        requires
            self.wf(),
            mat.wf(),
            self.matches(*mat),
            0 <= norm_index(self.dim_spec().columns as int, index.col as int)
                < self.dim_spec().columns,
        ensures
            r == mat.at(
                self.row_spec(),
                norm_index(self.dim_spec().columns as int, index.col as int),
            ),
    {
        self.index(mat, index.col)
    }

    /// Writes `value` at the normalized column `index` of this row; no
    /// other element changes.
    pub fn set<T: Copy>(&self, mat: &mut Matrix<T>, index: isize, value: T)
        requires
            self.wf(),
            old(mat).wf(),
            self.matches(*old(mat)),
            0 <= norm_index(self.dim_spec().columns as int, index as int)
                < self.dim_spec().columns,
        ensures
            final(mat).wf(),
            final(mat).spec_dimension() == old(mat).spec_dimension(),
            final(mat)@ == old(mat)@.update(
                flat_offset(
                    self.row_spec(),
                    norm_index(self.dim_spec().columns as int, index as int),
                    self.dim_spec().columns as int,
                ),
                value,
            ),
    {
        mat.set(MatIndex::new(self.row, self.positate(index)), value);
    }

    /// Writes `value` at a typed column index, normalized the same way.
    pub fn set_col<T: Copy>(&self, mat: &mut Matrix<T>, index: ColIndex, value: T)
        requires
            self.wf(),
            old(mat).wf(),
            self.matches(*old(mat)),
            0 <= norm_index(self.dim_spec().columns as int, index.col as int)
                < self.dim_spec().columns,
        ensures
            final(mat).wf(),
            final(mat).spec_dimension() == old(mat).spec_dimension(),
            final(mat)@ == old(mat)@.update(
                flat_offset(
                    self.row_spec(),
                    norm_index(self.dim_spec().columns as int, index.col as int),
                    self.dim_spec().columns as int,
                ),
                value,
            ),
    {
        self.set(mat, index.col, value);
    }

    /// Turns the handle into the strided offset walk of its row: start at
    /// the row's first flat offset, stop at its last, step 1.
    pub fn into_iter(self) -> (it: IterMut)
        requires
            self.wf(),
            1 <= self.dim_spec().columns,
        ensures
            it.wf(),
            it.spec_pos() == flat_offset(self.row_spec(), 0, self.dim_spec().columns as int),
            it.spec_end() == flat_offset(
                self.row_spec(),
                self.dim_spec().columns as int - 1,
                self.dim_spec().columns as int,
            ),
            it.spec_step() == 1,
    {
        proof {
            assert(0 <= self.row_spec() * (self.dim_spec().columns as int)
                && self.row_spec() * (self.dim_spec().columns as int)
                    + (self.dim_spec().columns as int)
                    == (self.row_spec() + 1) * (self.dim_spec().columns as int)
                && (self.row_spec() + 1) * (self.dim_spec().columns as int)
                    <= (self.dim_spec().rows as int) * (self.dim_spec().columns as int))
                by (nonlinear_arith)
                requires
                    0 <= self.row_spec() < self.dim_spec().rows as int,
                    1 <= self.dim_spec().columns as int;
        }
        let start = self.row * self.dim.columns;
        let end = start + self.dim.columns - 1;
        IterMut::new(start as usize, end as usize, 1)
    }
}

/// Yields an exclusive row handle for each row in increasing order.
pub struct RowIterMut {
    pub(crate) dim: Dimension,
    pub(crate) pos: isize,
}

impl RowIterMut {
    pub closed spec fn dim_spec(&self) -> Dimension {
        self.dim
    }

    pub closed spec fn pos_spec(&self) -> int {
        self.pos as int
    }

    pub open spec fn wf(&self) -> bool {
        &&& self.dim_spec().wf()
        &&& 0 <= self.pos_spec() <= self.dim_spec().rows
    }

    pub(crate) fn from_parts(dim: Dimension) -> (it: Self)
        ensures
            it.dim_spec() == dim,
            it.pos_spec() == 0,
    {
        Self { dim, pos: 0 }
    }

    pub fn next(&mut self) -> (r: Option<MatrixRowMut>)
        requires
            old(self).wf(),
        ensures
            final(self).wf(),
            final(self).dim_spec() == old(self).dim_spec(),
            match r {
                Some(v) => {
                    &&& old(self).pos_spec() < old(self).dim_spec().rows
                    &&& v.wf()
                    &&& v.dim_spec() == old(self).dim_spec()
                    &&& v.row_spec() == old(self).pos_spec()
                    &&& final(self).pos_spec() == old(self).pos_spec() + 1
                },
                None => {
                    &&& old(self).pos_spec() == old(self).dim_spec().rows
                    &&& final(self).pos_spec() == old(self).pos_spec()
                },
            },
    {
        if self.pos == self.dim.rows {
            None
        } else {
            let v = MatrixRowMut { row: self.pos, dim: self.dim };
            self.pos = self.pos + 1;
            Some(v)
        }
    }
}

/// Yields a read-only row view for each row in increasing order.
pub struct RowIter<'a, T> {
    pub(crate) mat: &'a Matrix<T>,
    pub(crate) pos: isize,
}

impl<'a, T> RowIter<'a, T> {
    pub closed spec fn mat_spec(&self) -> Matrix<T> {
        *self.mat
    }

    pub closed spec fn pos_spec(&self) -> int {
        self.pos as int
    }

    pub open spec fn wf(&self) -> bool {
        &&& self.mat_spec().wf()
        &&& 0 <= self.pos_spec() <= self.mat_spec().spec_rows()
    }

    pub(crate) fn from_parts(mat: &'a Matrix<T>) -> (it: Self)
        ensures
            it.mat_spec() == *mat,
            it.pos_spec() == 0,
    {
        Self { mat, pos: 0 }
    }

    pub fn next(&mut self) -> (r: Option<MatrixRow<'a, T>>)
        requires
            old(self).wf(),
        ensures
            final(self).wf(),
            final(self).mat_spec() == old(self).mat_spec(),
            match r {
                Some(v) => {
                    &&& old(self).pos_spec() < old(self).mat_spec().spec_rows()
                    &&& v.wf()
                    &&& v.mat_spec() == old(self).mat_spec()
                    &&& v.row_spec() == old(self).pos_spec()
                    &&& final(self).pos_spec() == old(self).pos_spec() + 1
                },
                None => {
                    &&& old(self).pos_spec() == old(self).mat_spec().spec_rows()
                    &&& final(self).pos_spec() == old(self).pos_spec()
                },
            },
    {
        if self.pos == self.mat.height() {
            None
        } else {
            let v = MatrixRow { mat: self.mat, row: self.pos };
            self.pos = self.pos + 1;
            Some(v)
        }
    }
}

} // verus!
