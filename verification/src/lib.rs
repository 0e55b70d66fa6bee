//! A dense two-dimensional matrix container.
//!
//! A matrix owns a flat, row-major buffer of elements together with a
//! [`Dimension`] giving its row and column extents.  Element addressing
//! supports Python-style negative indices (`-1` is the last row or column),
//! and every access path reduces to the single flat-offset formula
//! `col + row * columns`.  Row and column views, their iterators, and the
//! strided offset walker used for in-place mutation are all built on that
//! formula, and their contracts are stated against it.

use vstd::prelude::*;

pub mod cols;
pub mod dimension;
pub mod gen;
pub mod index;
pub mod matrix;
pub mod rows;
pub mod strided;

pub use cols::ColIter;
pub use cols::ColIterMut;
pub use cols::MatrixColumn;
pub use cols::MatrixColumnIter;
pub use cols::MatrixColumnMut;
pub use dimension::Dimension;
pub use gen::GenericMatrix;
pub use index::ColIndex;
pub use index::MatIndex;
pub use index::RowIndex;
pub use matrix::Matrix;
pub use matrix::MatrixContent;
pub use rows::MatrixRow;
pub use rows::MatrixRowIter;
pub use rows::MatrixRowMut;
pub use rows::RowIter;
pub use rows::RowIterMut;
pub use strided::IterMut;

verus! {

/// Typed lookup of a read-only sub-view, one impl per index kind.
pub trait Get<'a, Idx> {
    type Output;

    /// What a lookup requires of the receiver.
    spec fn get_req(&'a self, index: Idx) -> bool;

    /// What the returned view satisfies.
    spec fn get_post(&'a self, index: Idx, r: Self::Output) -> bool;

    fn get(&'a self, index: Idx) -> (r: Self::Output)
        requires
            self.get_req(index),
        ensures
            self.get_post(index, r),
    ;
}

/// Typed lookup of an exclusive sub-view handle, one impl per index kind.
/// The receiver itself is left unchanged; the handle addresses into it.
pub trait GetMut<'a, Idx>: Sized {
    type Output;

    /// What a lookup requires of the receiver.
    spec fn get_mut_req(pre: Self, index: Idx) -> bool;

    /// What the returned handle satisfies of the receiver it was made from.
    spec fn get_mut_post(pre: Self, index: Idx, r: Self::Output) -> bool;

    fn get_mut(&'a mut self, index: Idx) -> (r: Self::Output)
        requires
            Self::get_mut_req(*old(self), index),
        ensures
            *final(self) == *old(self),
            Self::get_mut_post(*old(self), index, r),
    ;
}

} // verus!
