//! The dense matrix: row-major storage addressed through a row stride.
use vstd::prelude::*;

use crate::grid::{Access, Dimension, Grid, MatrixError};
use crate::render::{matrix_text, render_matrix};

verus! {

/// A `rows` by `cols` matrix whose cell `(r, c)` is stored at
/// `r * stride + c`.
pub struct Matrix<T> {
    rows: usize,
    cols: usize,
    data: Vec<T>,
    stride: usize,
}

impl<T> View for Matrix<T> {
    type V = Grid<T>;

    /// With `stride == cols` the storage order is the row-major order.
    closed spec fn view(&self) -> Grid<T> {
        Grid { rows: self.rows as nat, cols: self.cols as nat, cells: self.data@ }
    }
}

impl<T> Matrix<T> {
    /// Storage is one contiguous block: a row advances by `stride`, which
    /// equals the column count since no matrix is a view into another.
    #[verifier::type_invariant]
    spec fn inv(self) -> bool {
        &&& self.stride == self.cols
        &&& self.data@.len() == self.rows * self.cols
    }

    /// A `rows` by `cols` matrix holding `data` row by row.
    pub fn new(rows: usize, cols: usize, data: Vec<T>) -> (r: Self)
        requires
            data@.len() == rows * cols,
        ensures
            r@ == Grid::from_rows(rows as nat, cols as nat, data@),
            r@.wf(),
    {
        Matrix { rows, cols, data, stride: cols }
    }

    /// The pair `(rows, cols)`.
    pub fn get_dim(&self) -> (r: (usize, usize))
        ensures
            r.0 as nat == self@.rows,
            r.1 as nat == self@.cols,
    {
        (self.rows, self.cols)
    }

    /// The matrix as text, `texts` giving the text of each cell row by row:
    /// a `Matrix (RxC):` header, then one line `[ a, b, c ]` per row.
    pub fn render_with(&self, texts: &Vec<String>) -> (r: String)
        requires
            texts@.len() == self@.rows * self@.cols,
        ensures
            r@ == matrix_text(self@.rows, self@.cols, texts.deep_view()),
    {
        render_matrix(self.rows, self.cols, texts)
    }
}

/// A cell inside an `n` by `m` extent has a row-major position below `n * m`.
proof fn lemma_offset_below(r: int, c: int, n: int, m: int)
    requires
        0 <= r < n,
        0 <= c < m,
    ensures
        0 <= r * m + c < n * m,
{
    assert(0 <= r * m + c < n * m) by (nonlinear_arith)
        requires
            0 <= r < n,
            0 <= c < m,
    ;
}

impl<T> Dimension for Matrix<T> {
    open spec fn shape(&self) -> (nat, nat) {
        (self@.rows, self@.cols)
    }

    fn get_dim(&self) -> (r: (usize, usize)) {
        (self.rows, self.cols)
    }
}

impl<T: core::marker::Copy> crate::grid::Copy for Matrix<T> {
    /// Duplicates the cells one by one into a buffer of the copy's own.
    fn copy(&self) -> (r: Self) {
        proof {
            use_type_invariant(self);
        }
        let mut data: Vec<T> = Vec::with_capacity(self.data.len());
        let mut i: usize = 0;
        while i < self.data.len()
            invariant
                i <= self.data@.len(),
                data@ == self.data@.subrange(0, i as int),
            decreases self.data@.len() - i,
        {
            data.push(self.data[i]);
            i = i + 1;
        }
        assert(data@ == self.data@);
        Matrix { rows: self.rows, cols: self.cols, data, stride: self.stride }
    }
}

impl<T: core::marker::Copy> Access<T> for Matrix<T> {
    fn get(&self, row: usize, col: usize) -> (r: Result<T, MatrixError>) {
        if row < self.rows && col < self.cols {
            proof {
                use_type_invariant(&*self);
                lemma_offset_below(row as int, col as int, self.rows as int, self.cols as int);
                assert(row * self.stride + col < self.data.len());
            }
            let index = row * self.stride + col;
            Ok(self.data[index])
        } else {
            Err(MatrixError::IndexOutOfBounds)
        }
    }

    fn set(&mut self, row: usize, col: usize, value: T) {
        if row < self.rows && col < self.cols {
            proof {
                use_type_invariant(&*self);
                lemma_offset_below(row as int, col as int, self.rows as int, self.cols as int);
                assert(row * self.stride + col < self.data.len());
            }
            let index = row * self.stride + col;
            // The storage leaves `self` whole, so no step breaks the invariant.
            let mut taken = Matrix { rows: 0, cols: 0, data: Vec::new(), stride: 0 };
            std::mem::swap(self, &mut taken);
            let Matrix { rows, cols, mut data, stride } = taken;
            data.set(index, value);
            *self = Matrix { rows, cols, data, stride };
        }
    }
}

} // verus!
