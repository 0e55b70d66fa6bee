//! A named integer-matrix variant that reuses the generic container
//! through explicit delegation.

use vstd::prelude::*;
use crate::dimension::Dimension;
use crate::matrix::Matrix;

verus! {

/// A matrix of machine integers.  Everything it does is forwarded to the
/// generic [`Matrix`] it wraps; the wrapped matrix is reachable for every
/// inherited operation.
#[derive(Clone)]
pub struct GenericMatrix(pub(crate) Matrix<i32>);

impl GenericMatrix {
    /// The wrapped matrix.
    pub closed spec fn mat_spec(&self) -> Matrix<i32> {
        self.0
    }

    pub open spec fn wf(&self) -> bool {
        self.mat_spec().wf()
    }

    /// A zero-filled matrix with the given extents.
    pub fn new(rows: isize, columns: isize) -> (m: Self)
        requires
            (Dimension { rows, columns }).wf(),
        ensures
            m.wf(),
            m.mat_spec().spec_dimension() == (Dimension { rows, columns }),
            forall|k: int| 0 <= k < m.mat_spec()@.len() ==> #[trigger] m.mat_spec()@[k] == 0,
    {
        Self::with(Dimension::new(rows, columns))
    }

    /// A zero-filled matrix with the given dimension.
    pub fn with(dimension: Dimension) -> (m: Self)
        requires
            dimension.wf(),
        ensures
            m.wf(),
            m.mat_spec().spec_dimension() == dimension,
            forall|k: int| 0 <= k < m.mat_spec()@.len() ==> #[trigger] m.mat_spec()@[k] == 0,
    {
        Self(Matrix::with_init(dimension, 0i32))
    }

    /// A matrix whose every slot holds `init`.
    pub fn with_init(dimension: Dimension, init: i32) -> (m: Self)
        requires
            dimension.wf(),
        ensures
            m.wf(),
            m.mat_spec().spec_dimension() == dimension,
            forall|k: int| 0 <= k < m.mat_spec()@.len() ==> #[trigger] m.mat_spec()@[k] == init,
    {
        Self(Matrix::with_init(dimension, init))
    }

    /// The wrapped matrix, for every operation the generic container
    /// offers; explicit delegation in place of transparent inheritance.
    pub fn matrix(&self) -> (m: &Matrix<i32>)
        ensures
            *m == self.mat_spec(),
    {
        &self.0
    }

    /// Element-wise sum, forwarded to the wrapped matrices; `None` exactly
    /// on a dimension mismatch.
    pub fn add(&self, rhs: &GenericMatrix) -> (res: Option<GenericMatrix>)
        requires
            self.wf(),
            rhs.wf(),
            self.mat_spec().spec_dimension() == rhs.mat_spec().spec_dimension()
                ==> forall|k: int| 0 <= k < self.mat_spec()@.len()
                    ==> i32::MIN <= #[trigger] (self.mat_spec()@[k] + rhs.mat_spec()@[k])
                        <= i32::MAX,
        ensures
            match res {
                Some(s) => {
                    &&& self.mat_spec().spec_dimension() == rhs.mat_spec().spec_dimension()
                    &&& s.wf()
                    &&& s.mat_spec().spec_dimension() == self.mat_spec().spec_dimension()
                    &&& s.mat_spec()@.len() == self.mat_spec()@.len()
                    &&& forall|k: int| 0 <= k < self.mat_spec()@.len()
                        ==> #[trigger] s.mat_spec()@[k]
                            == self.mat_spec()@[k] + rhs.mat_spec()@[k]
                },
                None => self.mat_spec().spec_dimension() != rhs.mat_spec().spec_dimension(),
            },
    {
        match self.0.add(&rhs.0) {
            Some(v) => Some(GenericMatrix(v)),
            None => None,
        }
    }
}

} // verus!
