//! The matrix type: a flat row-major buffer owned together with its
//! dimension, and the single addressing formula every access reduces to.

use vstd::prelude::*;
use crate::cols::{ColIter, ColIterMut, MatrixColumn, MatrixColumnMut};
use crate::dimension::{norm_index, Dimension};
use crate::index::{ColIndex, MatIndex, RowIndex};
use crate::rows::{MatrixRow, MatrixRowMut, RowIter, RowIterMut};

verus! {

/// Flat offset of logical position `(r, c)` in a row-major buffer whose rows
/// are `cols` elements wide: `c + r * cols`.
pub open spec fn flat_offset(r: int, c: int, cols: int) -> int {
    c + r * cols
}

/// Within a `rows × cols` extent, every in-range position has its flat
/// offset inside the buffer.
pub proof fn lemma_flat_offset_in_range(r: int, c: int, rows: int, cols: int)
    by (nonlinear_arith)
    requires
        0 <= r < rows,
        0 <= c < cols,
    ensures
        0 <= flat_offset(r, c, cols) < rows * cols,
{
}

/// Distinct in-range positions have distinct flat offsets: the addressing
/// formula never aliases two elements.
pub proof fn lemma_flat_offset_injective(r1: int, c1: int, r2: int, c2: int, cols: int)
    by (nonlinear_arith)
    requires
        0 <= r1,
        0 <= r2,
        0 <= c1 < cols,
        0 <= c2 < cols,
        flat_offset(r1, c1, cols) == flat_offset(r2, c2, cols),
    ensures
        r1 == r2,
        c1 == c2,
{
}

/// The fixed-length, owned, contiguous store of elements.  It never grows
/// or shrinks after construction; only the matrix that owns it addresses
/// into it.
#[derive(Debug, Clone, PartialEq, Eq)]
pub struct MatrixContent<T> {
    values: Vec<T>,
}

impl<T> View for MatrixContent<T> {
    type V = Seq<T>;

    closed spec fn view(&self) -> Seq<T> {
        self.values@
    }
}

impl<T> MatrixContent<T> {
    /// A buffer of `size` copies of `T`'s default value.
    pub fn new(size: usize) -> (c: Self)
        where T: Default + Copy
        ensures
            c@.len() == size,
            forall|i: int| 0 <= i < size ==> #[trigger] c@[i] == c@[0],
    {
        let fill = T::default();
        Self::new_with_init(size, fill)
    }

    /// A buffer that adopts a caller-supplied flat value sequence as it is.
    pub fn new_unchecked(values: Vec<T>) -> (c: Self)
        ensures
            c@ == values@,
    {
        Self { values }
    }

    /// A buffer of `size` copies of `init`.
    pub fn new_with_init(size: usize, init: T) -> (c: Self)
        where T: Copy
        ensures
            c@.len() == size,
            forall|i: int| 0 <= i < size ==> c@[i] == init,
    {
        let mut values: Vec<T> = Vec::new();
        let mut i: usize = 0;
        while i < size
            invariant
                i <= size,
                values@.len() == i,
                forall|k: int| 0 <= k < i ==> values@[k] == init,
            decreases size - i,
        {
            values.push(init);
            i = i + 1;
        }
        Self { values }
    }
}

/// A dense two-dimensional matrix: one [`Dimension`] and one flat row-major
/// buffer whose length always equals `rows * columns`.
#[derive(Clone, PartialEq, Eq)]
pub struct Matrix<T> {
    dimension: Dimension,
    content: MatrixContent<T>,
}

impl<T> View for Matrix<T> {
    type V = Seq<T>;

    closed spec fn view(&self) -> Seq<T> {
        self.content@
    }
}

impl<T> Matrix<T> {
    pub closed spec fn spec_dimension(&self) -> Dimension {
        self.dimension
    }

    pub open spec fn spec_rows(&self) -> int {
        self.spec_dimension().rows as int
    }

    pub open spec fn spec_cols(&self) -> int {
        self.spec_dimension().columns as int
    }

    /// The container invariant: a well-formed dimension, and a buffer of
    /// exactly `rows * columns` elements.  Every constructor establishes it
    /// and no operation resizes the buffer.
    pub open spec fn wf(&self) -> bool {
        &&& self.spec_dimension().wf()
        &&& self@.len() == self.spec_dimension().spec_len()
    }

    /// Whether `(r, c)` is an in-range normalized position.
    pub open spec fn in_bounds(&self, r: int, c: int) -> bool {
        &&& 0 <= r < self.spec_rows()
        &&& 0 <= c < self.spec_cols()
    }

    /// The element at normalized position `(r, c)`.
    pub open spec fn at(&self, r: int, c: int) -> T {
        self@[flat_offset(r, c, self.spec_cols())]
    }

    /// The normalized form of a logical row number.
    pub open spec fn norm_row(&self, i: int) -> int {
        norm_index(self.spec_rows(), i)
    }

    /// The normalized form of a logical column number.
    pub open spec fn norm_col(&self, i: int) -> int {
        norm_index(self.spec_cols(), i)
    }

    /// A matrix that adopts a pre-built flat buffer.  The caller proves
    /// that the buffer length matches the dimension; there is no silent
    /// length mismatch.
    pub fn with_content(dimension: Dimension, content: MatrixContent<T>) -> (m: Self)
        requires
            dimension.wf(),
            content@.len() == dimension.spec_len(),
        ensures
            m.wf(),
            m.spec_dimension() == dimension,
            m@ == content@,
    {
        Self { dimension, content }
    }

    pub fn size(&self) -> (n: usize)
        requires
            self.wf(),
        ensures
            n == self.spec_dimension().spec_len(),
            n == self@.len(),
    {
        self.dimension.len()
    }

    pub fn dimension(&self) -> (d: Dimension)
        ensures
            d == self.spec_dimension(),
    {
        self.dimension
    }

    pub fn width(&self) -> (w: isize)
        ensures
            w as int == self.spec_cols(),
    {
        self.dimension.columns
    }

    pub fn height(&self) -> (h: isize)
        ensures
            h as int == self.spec_rows(),
    {
        self.dimension.rows
    }

    /// A read-only view of one logical row, its number normalized first.
    pub fn row(&self, index: RowIndex) -> (v: MatrixRow<'_, T>)
        requires
            self.wf(),
            0 <= self.norm_row(index.row as int) < self.spec_rows(),
        ensures
            v.wf(),
            v.mat_spec() == *self,
            v.row_spec() == self.norm_row(index.row as int),
    {
        let row = self.dimension.positate_row(index);
        MatrixRow::from_parts(self, row)
    }

    /// A read-only view of one logical column, its number normalized first.
    pub fn column(&self, index: ColIndex) -> (v: MatrixColumn<'_, T>)
        requires
            self.wf(),
            0 <= self.norm_col(index.col as int) < self.spec_cols(),
        ensures
            v.wf(),
            v.mat_spec() == *self,
            v.col_spec() == self.norm_col(index.col as int),
    {
        let col = self.dimension.positate_col(index);
        MatrixColumn::from_parts(self, col)
    }

    /// An exclusive handle for one logical row, its number normalized
    /// first.  The handle holds no borrow; its accessors take the matrix
    /// and require this dimension.
    pub fn row_mut(&self, index: RowIndex) -> (v: MatrixRowMut)
        requires
            self.wf(),
            0 <= self.norm_row(index.row as int) < self.spec_rows(),
        ensures
            v.wf(),
            v.dim_spec() == self.spec_dimension(),
            v.matches(*self),
            v.row_spec() == self.norm_row(index.row as int),
    {
        let row = self.dimension.positate_row(index);
        MatrixRowMut::from_parts(row, self.dimension)
    }

    /// An exclusive handle for one logical column, its number normalized
    /// first.
    pub fn column_mut(&self, index: ColIndex) -> (v: MatrixColumnMut)
        requires
            self.wf(),
            0 <= self.norm_col(index.col as int) < self.spec_cols(),
        ensures
            v.wf(),
            v.dim_spec() == self.spec_dimension(),
            v.matches(*self),
            v.col_spec() == self.norm_col(index.col as int),
    {
        let col = self.dimension.positate_col(index);
        MatrixColumnMut::from_parts(col, self.dimension)
    }

    /// Iterates the rows as read-only views, first to last.
    pub fn rows(&self) -> (it: RowIter<'_, T>)
        requires
            self.wf(),
        ensures
            it.wf(),
            it.mat_spec() == *self,
            it.pos_spec() == 0,
    {
        RowIter::from_parts(self)
    }

    /// Iterates the columns as read-only views, first to last.
    pub fn columns(&self) -> (it: ColIter<'_, T>)
        requires
            self.wf(),
        ensures
            it.wf(),
            it.mat_spec() == *self,
            it.pos_spec() == 0,
    {
        ColIter::from_parts(self)
    }

    /// Iterates exclusive row handles, first to last.
    pub fn rows_mut(&mut self) -> (it: RowIterMut)
        requires
            old(self).wf(),
        ensures
            *final(self) == *old(self),
            it.wf(),
            it.dim_spec() == old(self).spec_dimension(),
            it.pos_spec() == 0,
    {
        RowIterMut::from_parts(self.dimension)
    }

    /// Iterates exclusive column handles, first to last.
    pub fn columns_mut(&mut self) -> (it: ColIterMut)
        requires
            old(self).wf(),
        ensures
            *final(self) == *old(self),
            it.wf(),
            it.dim_spec() == old(self).spec_dimension(),
            it.pos_spec() == 0,
    {
        ColIterMut::from_parts(self.dimension)
    }

    /// An exclusive reference to the element named by `index`, both
    /// components normalized first.  Writing through it changes that slot
    /// and nothing else.
    pub fn index_mut(&mut self, index: MatIndex) -> (element: &mut T)
        requires
            old(self).wf(),
            old(self).in_bounds(
                old(self).norm_row(index.row as int),
                old(self).norm_col(index.col as int),
            ),
        ensures
            *element == old(self).at(
                old(self).norm_row(index.row as int),
                old(self).norm_col(index.col as int),
            ),
            final(self)@ == old(self)@.update(
                flat_offset(
                    old(self).norm_row(index.row as int),
                    old(self).norm_col(index.col as int),
                    old(self).spec_cols(),
                ),
                *final(element),
            ),
            final(self).spec_dimension() == old(self).spec_dimension(),
    {
        let (row, col) = self.dimension.positate(index);
        proof {
            lemma_flat_offset_in_range(row as int, col as int, self.spec_rows(), self.spec_cols());
        }
        let off = (col + row * self.dimension.columns) as usize;
        &mut self.content.values[off]
    }

}

impl<T: Copy> Matrix<T> {
    /// A matrix whose every slot holds `T`'s default value.
    pub fn new(dimension: Dimension) -> (m: Self)
        where T: Default
        requires
            dimension.wf(),
        ensures
            m.wf(),
            m.spec_dimension() == dimension,
            forall|k: int| 0 <= k < m@.len() ==> #[trigger] m@[k] == m@[0],
    {
        let size = dimension.len();
        Self { dimension, content: MatrixContent::new(size) }
    }

    /// A matrix whose every slot holds a copy of `init`.
    pub fn with_init(dimension: Dimension, init: T) -> (m: Self)
        requires
            dimension.wf(),
        ensures
            m.wf(),
            m.spec_dimension() == dimension,
            forall|k: int| 0 <= k < m@.len() ==> m@[k] == init,
    {
        Self { dimension, content: MatrixContent::new_with_init(dimension.len(), init) }
    }

    /// The element named by `index`, both components normalized first.
    pub fn index(&self, index: MatIndex) -> (r: T)
        requires
            self.wf(),
            self.in_bounds(self.norm_row(index.row as int), self.norm_col(index.col as int)),
        ensures
            r == self.at(self.norm_row(index.row as int), self.norm_col(index.col as int)),
    {
        let (row, col) = self.dimension.positate(index);
        proof {
            lemma_flat_offset_in_range(row as int, col as int, self.spec_rows(), self.spec_cols());
        }
        let off = (col + row * self.dimension.columns) as usize;
        self.content.values[off]
    }

    /// Bounds-checked element access: the normalized position is tested
    /// against the extents, and an out-of-range index yields `None` rather
    /// than a wrong value.
    pub fn try_index(&self, index: MatIndex) -> (r: Option<T>)
        requires
            self.wf(),
        ensures
            match r {
                Some(v) => self.in_bounds(
                    self.norm_row(index.row as int),
                    self.norm_col(index.col as int),
                ) && v == self.at(self.norm_row(index.row as int), self.norm_col(index.col as int)),
                None => !self.in_bounds(
                    self.norm_row(index.row as int),
                    self.norm_col(index.col as int),
                ),
            },
    {
        let (row, col) = self.dimension.positate(index);
        if 0 <= row && row < self.dimension.rows && 0 <= col && col < self.dimension.columns {
            Some(self.index(index))
        } else {
            None
        }
    }

    /// Writes `value` at the position named by `index`, both components
    /// normalized first; no other element changes.
    pub fn set(&mut self, index: MatIndex, value: T)
        requires
            old(self).wf(),
            old(self).in_bounds(
                old(self).norm_row(index.row as int),
                old(self).norm_col(index.col as int),
            ),
        ensures
            final(self).wf(),
            final(self).spec_dimension() == old(self).spec_dimension(),
            final(self)@ == old(self)@.update(
                flat_offset(
                    old(self).norm_row(index.row as int),
                    old(self).norm_col(index.col as int),
                    old(self).spec_cols(),
                ),
                value,
            ),
    {
        let (row, col) = self.dimension.positate(index);
        proof {
            lemma_flat_offset_in_range(row as int, col as int, self.spec_rows(), self.spec_cols());
        }
        let off = (col + row * self.dimension.columns) as usize;
        self.content.values[off] = value;
    }

    /// The element at the given flat buffer offset.
    pub fn at_flat(&self, offset: usize) -> (r: T)
        requires
            self.wf(),
            offset < self@.len(),
        ensures
            r == self@[offset as int],
    {
        self.content.values[offset]
    }

    /// Writes `value` at the given flat buffer offset.
    pub fn set_flat(&mut self, offset: usize, value: T)
        requires
            old(self).wf(),
            offset < old(self)@.len(),
        ensures
            final(self).wf(),
            final(self).spec_dimension() == old(self).spec_dimension(),
            final(self)@ == old(self)@.update(offset as int, value),
    {
        self.content.values[offset] = value;
    }
}

impl<'a, T: 'a> crate::Get<'a, RowIndex> for Matrix<T> {
    type Output = MatrixRow<'a, T>;

    open spec fn get_req(&'a self, index: RowIndex) -> bool {
        &&& self.wf()
        &&& 0 <= self.norm_row(index.row as int) < self.spec_rows()
    }

    open spec fn get_post(&'a self, index: RowIndex, r: MatrixRow<'a, T>) -> bool {
        &&& r.wf()
        &&& r.mat_spec() == *self
        &&& r.row_spec() == self.norm_row(index.row as int)
    }

    fn get(&'a self, index: RowIndex) -> (r: MatrixRow<'a, T>) {
        self.row(index)
    }
}

impl<'a, T: 'a> crate::Get<'a, ColIndex> for Matrix<T> {
    type Output = MatrixColumn<'a, T>;

    open spec fn get_req(&'a self, index: ColIndex) -> bool {
        &&& self.wf()
        &&& 0 <= self.norm_col(index.col as int) < self.spec_cols()
    }

    open spec fn get_post(&'a self, index: ColIndex, r: MatrixColumn<'a, T>) -> bool {
        &&& r.wf()
        &&& r.mat_spec() == *self
        &&& r.col_spec() == self.norm_col(index.col as int)
    }

    fn get(&'a self, index: ColIndex) -> (r: MatrixColumn<'a, T>) {
        self.column(index)
    }
}

impl<'a, T> crate::GetMut<'a, RowIndex> for Matrix<T> {
    type Output = MatrixRowMut;

    open spec fn get_mut_req(pre: Matrix<T>, index: RowIndex) -> bool {
        &&& pre.wf()
        &&& 0 <= pre.norm_row(index.row as int) < pre.spec_rows()
    }

    open spec fn get_mut_post(pre: Matrix<T>, index: RowIndex, r: MatrixRowMut) -> bool {
        &&& r.wf()
        &&& r.matches(pre)
        &&& r.row_spec() == pre.norm_row(index.row as int)
    }

    fn get_mut(&'a mut self, index: RowIndex) -> (r: MatrixRowMut) {
        self.row_mut(index)
    }
}

impl<'a, T> crate::GetMut<'a, ColIndex> for Matrix<T> {
    type Output = MatrixColumnMut;

    open spec fn get_mut_req(pre: Matrix<T>, index: ColIndex) -> bool {
        &&& pre.wf()
        &&& 0 <= pre.norm_col(index.col as int) < pre.spec_cols()
    }

    open spec fn get_mut_post(pre: Matrix<T>, index: ColIndex, r: MatrixColumnMut) -> bool {
        &&& r.wf()
        &&& r.matches(pre)
        &&& r.col_spec() == pre.norm_col(index.col as int)
    }

    fn get_mut(&'a mut self, index: ColIndex) -> (r: MatrixColumnMut) {
        self.column_mut(index)
    }
}

/// Round trip: after writing `x` at in-range position `(r, c)` — which is
/// exactly what [`Matrix::set`] leaves behind — reading `(r, c)` back
/// yields `x`, and so does reading through the negative equivalents
/// `r - rows` and `c - cols`, which normalize to the same position.
pub proof fn lemma_write_read_round_trip<T>(before: Matrix<T>, after: Matrix<T>, r: int, c: int, x: T)
    requires
        before.wf(),
        after.wf(),
        after.spec_dimension() == before.spec_dimension(),
        before.in_bounds(r, c),
        after@ == before@.update(flat_offset(r, c, before.spec_cols()), x),
    ensures
        after.at(r, c) == x,
        after.norm_row(r - before.spec_rows()) == r,
        after.norm_col(c - before.spec_cols()) == c,
        after.at(after.norm_row(r - before.spec_rows()), after.norm_col(c - before.spec_cols()))
            == x,
{
    lemma_flat_offset_in_range(r, c, before.spec_rows(), before.spec_cols());
}

impl Matrix<i32> {
    /// Element-wise sum.  Defined exactly when the two dimensions are
    /// equal; a mismatch yields `None`, a normal outcome for callers to
    /// branch on, never a failure.
    pub fn add(&self, rhs: &Matrix<i32>) -> (res: Option<Matrix<i32>>)
        requires
            self.wf(),
            rhs.wf(),
            self.spec_dimension() == rhs.spec_dimension() ==> forall|k: int|
                0 <= k < self@.len() ==> i32::MIN <= #[trigger] self@[k] + rhs@[k] <= i32::MAX,
        ensures
            match res {
                Some(s) => {
                    &&& self.spec_dimension() == rhs.spec_dimension()
                    &&& s.wf()
                    &&& s.spec_dimension() == self.spec_dimension()
                    &&& s@.len() == self@.len()
                    &&& forall|k: int| 0 <= k < self@.len()
                        ==> #[trigger] s@[k] == self@[k] + rhs@[k]
                },
                None => self.spec_dimension() != rhs.spec_dimension(),
            },
    {
        if self.dimension() != rhs.dimension() {
            return None;
        }
        let dim = self.dimension();
        let mut res = Matrix::<i32>::with_init(dim, 0i32);
        let mut r: isize = 0;
        while r < dim.rows
            invariant
                self.wf(),
                rhs.wf(),
                res.wf(),
                dim == self.spec_dimension(),
                dim == rhs.spec_dimension(),
                res.spec_dimension() == dim,
                0 <= r <= dim.rows,
                res@.len() == self@.len(),
                rhs@.len() == self@.len(),
                forall|k: int| 0 <= k < self@.len() ==> i32::MIN <= #[trigger] self@[k] + rhs@[k]
                    <= i32::MAX,
                forall|k: int| 0 <= k < r * dim.columns
                    ==> #[trigger] res@[k] == self@[k] + rhs@[k],
            decreases dim.rows - r,
        {
            let mut c: isize = 0;
            while c < dim.columns
                invariant
                    self.wf(),
                    rhs.wf(),
                    res.wf(),
                    dim == self.spec_dimension(),
                    dim == rhs.spec_dimension(),
                    res.spec_dimension() == dim,
                    0 <= r < dim.rows,
                    0 <= c <= dim.columns,
                    res@.len() == self@.len(),
                    rhs@.len() == self@.len(),
                    forall|k: int| 0 <= k < self@.len() ==> i32::MIN <= #[trigger] self@[k]
                        + rhs@[k] <= i32::MAX,
                    forall|k: int| 0 <= k < r * dim.columns + c
                        ==> #[trigger] res@[k] == self@[k] + rhs@[k],
                decreases dim.columns - c,
            {
                let index = MatIndex::new(r, c);
                proof {
                    lemma_flat_offset_in_range(r as int, c as int, dim.rows as int, dim.columns as int);
                }
                let a = self.index(index);
                let b = rhs.index(index);
                res.set(index, a + b);
                c = c + 1;
            }
            proof {
                assert((r as int) * (dim.columns as int) + (dim.columns as int)
                    == ((r as int) + 1) * (dim.columns as int)) by (nonlinear_arith);
            }
            r = r + 1;
        }
        proof {
            assert((dim.rows as int) * (dim.columns as int) == dim.spec_len());
        }
        Some(res)
    }

    /// Scalar multiply: every element is replaced by itself times `rhs`,
    /// row by row through the strided offset walk.
    pub fn mul(self, rhs: i32) -> (res: Matrix<i32>)
        requires
            self.wf(),
            forall|k: int| 0 <= k < self@.len() ==> i32::MIN <= #[trigger] (self@[k] * rhs)
                <= i32::MAX,
        ensures
            res.wf(),
            res.spec_dimension() == self.spec_dimension(),
            res@.len() == self@.len(),
            forall|k: int| 0 <= k < self@.len() ==> #[trigger] res@[k] == self@[k] * rhs,
    {
        let mut m = self;
        let ghost orig = m@;
        let dim = m.dimension();
        if dim.rows == 0 || dim.columns == 0 {
            proof {
                assert(dim.spec_len() == 0) by (nonlinear_arith)
                    requires dim.rows as int == 0 || dim.columns as int == 0;
            }
            return m;
        }
        let mut rows_it = m.rows_mut();
        let mut r: isize = 0;
        while r < dim.rows
            invariant
                m.wf(),
                m.spec_dimension() == dim,
                dim.wf(),
                1 <= dim.columns,
                0 <= r <= dim.rows,
                rows_it.wf(),
                rows_it.dim_spec() == dim,
                rows_it.pos_spec() == r,
                m@.len() == orig.len(),
                orig.len() == dim.spec_len(),
                forall|k: int| 0 <= k < orig.len() ==> i32::MIN <= #[trigger] (orig[k] * rhs)
                    <= i32::MAX,
                forall|k: int| 0 <= k < r * dim.columns ==> #[trigger] m@[k] == orig[k] * rhs,
                forall|k: int| r * dim.columns <= k < orig.len() ==> #[trigger] m@[k] == orig[k],
            decreases dim.rows - r,
        {
            let rv_opt = rows_it.next();
            let rv = rv_opt.unwrap();
            let mut it = rv.into_iter();
            let mut c: isize = 0;
            while c < dim.columns
                invariant
                    m.wf(),
                    m.spec_dimension() == dim,
                    dim.wf(),
                    1 <= dim.columns,
                    0 <= r < dim.rows,
                    0 <= c <= dim.columns,
                    it.wf(),
                    it.spec_step() == 1,
                    it.spec_pos() == flat_offset(r as int, c as int, dim.columns as int),
                    it.spec_end() == flat_offset(
                        r as int,
                        dim.columns as int - 1,
                        dim.columns as int,
                    ),
                    m@.len() == orig.len(),
                    orig.len() == dim.spec_len(),
                    forall|k: int| 0 <= k < orig.len() ==> i32::MIN <= #[trigger] (orig[k] * rhs)
                        <= i32::MAX,
                    forall|k: int| 0 <= k < r * dim.columns + c
                        ==> #[trigger] m@[k] == orig[k] * rhs,
                    forall|k: int| r * dim.columns + c <= k < orig.len()
                        ==> #[trigger] m@[k] == orig[k],
                decreases dim.columns - c,
            {
                let off_opt = it.next();
                let off = off_opt.unwrap();
                proof {
                    lemma_flat_offset_in_range(
                        r as int,
                        c as int,
                        dim.rows as int,
                        dim.columns as int,
                    );
                }
                let v = m.at_flat(off);
                m.set_flat(off, v * rhs);
                c = c + 1;
            }
            proof {
                assert((r as int) * (dim.columns as int) + (dim.columns as int)
                    == ((r as int) + 1) * (dim.columns as int)) by (nonlinear_arith);
            }
            r = r + 1;
        }
        proof {
            assert((dim.rows as int) * (dim.columns as int) == dim.spec_len());
        }
        m
    }
}

} // verus!
