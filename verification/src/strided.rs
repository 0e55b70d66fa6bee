//! The strided offset walker: the one mutable-iteration primitive.
//!
//! A row or a column of the flat buffer is an arithmetic progression of
//! offsets, computed once as a start, an inclusive end, and a fixed positive
//! step (1 for a row, the column count for a column).  The walker advances
//! the offset by the step and is bounds-checked against the end before every
//! yield; both the row case and the column case share this implementation,
//! parameterized by the step alone.

use vstd::prelude::*;

verus! {

/// The offsets a walk from `start` to `end` (inclusive) in increments of
/// `step` yields, in order: `start, start + step, …`.
pub open spec fn stride_offsets(start: int, end: int, step: int) -> Seq<int>
    recommends
        start <= end,
        0 < step,
{
    Seq::new(stride_count(start, end, step), |k: int| start + k * step)
}

/// How many stops that walk makes: one for each offset of the progression
/// that has not yet passed the end.
pub open spec fn stride_count(start: int, end: int, step: int) -> nat
    decreases end + step - start,
{
    if start > end || step <= 0 {
        0
    } else {
        1 + stride_count(start + step, end, step)
    }
}

/// Walks flat offsets from `start` to `end` inclusive in increments of
/// `step`, yielding each stop exactly once and in increasing order.
#[derive(Debug, Clone)]
pub struct IterMut {
    pos: usize,
    end: usize,
    step: usize,
}

impl IterMut {
    /// The offset the next yield would produce.
    pub closed spec fn spec_pos(&self) -> int {
        self.pos as int
    }

    /// The last offset of the walk, inclusive.
    pub closed spec fn spec_end(&self) -> int {
        self.end as int
    }

    /// The fixed offset increment between stops.
    pub closed spec fn spec_step(&self) -> int {
        self.step as int
    }

    /// The step is positive, and advancing past the end cannot overflow.
    pub open spec fn wf(&self) -> bool {
        &&& 0 < self.spec_step()
        &&& self.spec_end() + self.spec_step() <= usize::MAX
    }

    /// How many yields remain.
    pub open spec fn remaining(&self) -> nat {
        if self.spec_pos() <= self.spec_end() {
            stride_count(self.spec_pos(), self.spec_end(), self.spec_step())
        } else {
            0
        }
    }

    /// A walk over `start, start + step, …, end`.  A start past the end or
    /// a zero step is a programming error, excluded up front rather than
    /// discovered mid-walk.
    pub fn new(start: usize, end: usize, step: usize) -> (it: Self)
        requires
            start <= end,
            0 < step,
            end + step <= usize::MAX,
        ensures
            it.wf(),
            it.spec_pos() == start,
            it.spec_end() == end,
            it.spec_step() == step,
    {
        Self { pos: start, end, step }
    }

    /// The next offset of the progression, or `None` once the end has been
    /// passed.  Each yielded offset is at most `end`.
    pub fn next(&mut self) -> (r: Option<usize>)
        requires
            old(self).wf(),
        ensures
            final(self).wf(),
            final(self).spec_end() == old(self).spec_end(),
            final(self).spec_step() == old(self).spec_step(),
            match r {
                Some(off) => {
                    &&& old(self).spec_pos() <= old(self).spec_end()
                    &&& off as int == old(self).spec_pos()
                    &&& final(self).spec_pos() == old(self).spec_pos() + old(self).spec_step()
                    &&& final(self).remaining() == old(self).remaining() - 1
                },
                None => {
                    &&& old(self).spec_pos() > old(self).spec_end()
                    &&& *final(self) == *old(self)
                    &&& old(self).remaining() == 0
                },
            },
    {
        if self.pos <= self.end {
            let r = self.pos;
            proof {
                lemma_stride_count_step(self.spec_pos(), self.spec_end(), self.spec_step());
            }
            self.pos = self.pos + self.step;
            Some(r)
        } else {
            None
        }
    }
}

/// One step shortens the walk by exactly one stop.
proof fn lemma_stride_count_step(pos: int, end: int, step: int)
    requires
        pos <= end,
        0 < step,
    ensures
        stride_count(pos, end, step) == 1 + stride_count(pos + step, end, step),
{
}

/// A walk of `n` stops whose end is exactly `n - 1` steps past its start
/// makes exactly `n` stops.
proof fn lemma_stride_count_exact(a: int, n: int, s: int)
    requires
        0 < s,
        1 <= n,
    ensures
        stride_count(a, a + (n - 1) * s, s) == n,
    decreases n,
{
    if n == 1 {
        assert((n - 1) * s == 0);
        assert(stride_count(a + s, a, s) == 0);
        assert(stride_count(a, a, s) == 1);
    } else {
        lemma_stride_count_exact(a + s, n - 1, s);
        assert(a + (n - 1) * s == a + s + (n - 2) * s) by (nonlinear_arith);
        assert(0 <= (n - 1) * s) by (nonlinear_arith)
            requires 0 < s, 1 <= n;
        assert(stride_count(a, a + (n - 1) * s, s) == 1 + stride_count(
            a + s,
            a + (n - 1) * s,
            s,
        ));
    }
}

/// The mutable walk of row `r` — start at the row's first flat offset, end
/// at its last, step 1 — makes exactly `cols` stops, and its `k`th stop is
/// the flat offset of `(r, k)`: every element of the row exactly once, in
/// increasing column order, and nothing outside the row.
pub proof fn lemma_row_walk_offsets(r: int, rows: int, cols: int, k: int)
    requires
        0 <= r < rows,
        1 <= cols,
        0 <= k < cols,
    ensures
        stride_count(
            crate::matrix::flat_offset(r, 0, cols),
            crate::matrix::flat_offset(r, cols - 1, cols),
            1,
        ) == cols,
        stride_offsets(
            crate::matrix::flat_offset(r, 0, cols),
            crate::matrix::flat_offset(r, cols - 1, cols),
            1,
        )[k] == crate::matrix::flat_offset(r, k, cols),
{
    lemma_stride_count_exact(crate::matrix::flat_offset(r, 0, cols), cols, 1);
    lemma_stride_offsets_index(
        crate::matrix::flat_offset(r, 0, cols),
        crate::matrix::flat_offset(r, cols - 1, cols),
        1,
        k,
    );
}

/// The mutable walk of column `c` — start at the column's first flat
/// offset, end at its last, step equal to the column count — makes exactly
/// `rows` stops, and its `k`th stop is the flat offset of `(k, c)`: every
/// element of the column exactly once, in increasing row order, and
/// nothing outside the column.
pub proof fn lemma_column_walk_offsets(c: int, rows: int, cols: int, k: int)
    requires
        0 <= c < cols,
        1 <= rows,
        0 <= k < rows,
    ensures
        stride_count(
            crate::matrix::flat_offset(0, c, cols),
            crate::matrix::flat_offset(rows - 1, c, cols),
            cols,
        ) == rows,
        stride_offsets(
            crate::matrix::flat_offset(0, c, cols),
            crate::matrix::flat_offset(rows - 1, c, cols),
            cols,
        )[k] == crate::matrix::flat_offset(k, c, cols),
{
    lemma_stride_count_exact(c, rows, cols);
    lemma_stride_offsets_index(
        crate::matrix::flat_offset(0, c, cols),
        crate::matrix::flat_offset(rows - 1, c, cols),
        cols,
        k,
    );
}

/// The `k`th stop of the walk is `start + k * step`; the stops are strictly
/// increasing and never pass the end.
pub proof fn lemma_stride_offsets_index(start: int, end: int, step: int, k: int)
    requires
        start <= end,
        0 < step,
        0 <= k < stride_count(start, end, step),
    ensures
        stride_offsets(start, end, step)[k] == start + k * step,
        start <= start + k * step <= end,
    decreases k,
{
    if k > 0 {
        assert(stride_count(start, end, step) == 1 + stride_count(start + step, end, step));
        if start + step > end {
            assert(stride_count(start + step, end, step) == 0);
        }
        lemma_stride_offsets_index(start + step, end, step, k - 1);
        assert(start + step + (k - 1) * step == start + k * step) by (nonlinear_arith);
    }
}

} // verus!
