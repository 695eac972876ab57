//! Row and column vectors: a matrix held with one of its extents fixed at one.
use vstd::prelude::*;

use crate::grid::{Access, Dimension, Grid, MatrixError};
use crate::matrix::Matrix;
use crate::render::matrix_text;
use vstd::string::StringExecFns;

verus! {

/// A matrix of exactly one row.
pub struct RowVector<T> {
    vector: Matrix<T>,
}

impl<T> View for RowVector<T> {
    type V = Grid<T>;

    closed spec fn view(&self) -> Grid<T> {
        self.vector@
    }
}

impl<T> RowVector<T> {
    #[verifier::type_invariant]
    spec fn inv(self) -> bool {
        self.vector@.rows == 1
    }

    /// A row of `size` cells holding `data`.
    pub fn new(size: usize, data: Vec<T>) -> (r: Self)
        requires
            data@.len() == size,
        ensures
            r@ == Grid::from_rows(1, size as nat, data@),
            r@.wf(),
    {
        RowVector { vector: Matrix::new(1, size, data) }
    }

    /// The pair `(1, size)`.
    pub fn get_dim(&self) -> (r: (usize, usize))
        ensures
            r.0 == 1,
            r.0 as nat == self@.rows,
            r.1 as nat == self@.cols,
    {
        proof {
            use_type_invariant(self);
        }
        self.vector.get_dim()
    }

    /// The text of the underlying matrix, `texts` giving the text of each
    /// cell in order, after the prefix `RowVector: `.
    pub fn render_with(&self, texts: &Vec<String>) -> (r: String)
        requires
            texts@.len() == self@.rows * self@.cols,
        ensures
            r@ == "RowVector: "@ + matrix_text(self@.rows, self@.cols, texts.deep_view()),
    {
        let mut out = String::from_str("RowVector: ");
        out.append(self.vector.render_with(texts).as_str());
        out
    }
}

impl<T> Dimension for RowVector<T> {
    open spec fn shape(&self) -> (nat, nat) {
        (self@.rows, self@.cols)
    }

    fn get_dim(&self) -> (r: (usize, usize)) {
        self.vector.get_dim()
    }
}

impl<T: core::marker::Copy> crate::grid::Copy for RowVector<T> {
    fn copy(&self) -> (r: Self) {
        proof {
            use_type_invariant(self);
        }
        RowVector { vector: crate::grid::Copy::copy(&self.vector) }
    }
}

impl<T: core::marker::Copy> Access<T> for RowVector<T> {
    /// In bounds exactly when `row == 0` and `col` is below the length.
    fn get(&self, row: usize, col: usize) -> (r: Result<T, MatrixError>) {
        proof {
            use_type_invariant(self);
        }
        self.vector.get(row, col)
    }

    fn set(&mut self, row: usize, col: usize, value: T) {
        proof {
            use_type_invariant(&*self);
        }
        let mut vector = Matrix::new(1, 0, Vec::new());
        std::mem::swap(&mut vector, &mut self.vector);
        vector.set(row, col, value);
        std::mem::swap(&mut vector, &mut self.vector);
    }
}

/// A matrix of exactly one column.
pub struct ColVector<T> {
    vector: Matrix<T>,
}

impl<T> View for ColVector<T> {
    type V = Grid<T>;

    closed spec fn view(&self) -> Grid<T> {
        self.vector@
    }
}

impl<T> ColVector<T> {
    #[verifier::type_invariant]
    spec fn inv(self) -> bool {
        self.vector@.cols == 1
    }

    /// A column of `size` cells holding `data`.
    pub fn new(size: usize, data: Vec<T>) -> (r: Self)
        requires
            data@.len() == size,
        ensures
            r@ == Grid::from_rows(size as nat, 1, data@),
            r@.wf(),
    {
        ColVector { vector: Matrix::new(size, 1, data) }
    }

    /// The pair `(size, 1)`.
    pub fn get_dim(&self) -> (r: (usize, usize))
        ensures
            r.1 == 1,
            r.0 as nat == self@.rows,
            r.1 as nat == self@.cols,
    {
        proof {
            use_type_invariant(self);
        }
        self.vector.get_dim()
    }

    /// The text of the underlying matrix, `texts` giving the text of each
    /// cell in order, after the prefix `ColVector: `.
    pub fn render_with(&self, texts: &Vec<String>) -> (r: String)
        requires
            texts@.len() == self@.rows * self@.cols,
        ensures
            r@ == "ColVector: "@ + matrix_text(self@.rows, self@.cols, texts.deep_view()),
    {
        let mut out = String::from_str("ColVector: ");
        out.append(self.vector.render_with(texts).as_str());
        out
    }
}

impl<T> Dimension for ColVector<T> {
    open spec fn shape(&self) -> (nat, nat) {
        (self@.rows, self@.cols)
    }

    fn get_dim(&self) -> (r: (usize, usize)) {
        self.vector.get_dim()
    }
}

impl<T: core::marker::Copy> crate::grid::Copy for ColVector<T> {
    fn copy(&self) -> (r: Self) {
        proof {
            use_type_invariant(self);
        }
        ColVector { vector: crate::grid::Copy::copy(&self.vector) }
    }
}

impl<T: core::marker::Copy> Access<T> for ColVector<T> {
    /// In bounds exactly when `col == 0` and `row` is below the length.
    fn get(&self, row: usize, col: usize) -> (r: Result<T, MatrixError>) {
        proof {
            use_type_invariant(self);
        }
        self.vector.get(row, col)
    }

    fn set(&mut self, row: usize, col: usize, value: T) {
        proof {
            use_type_invariant(&*self);
        }
        let mut vector = Matrix::new(0, 1, Vec::new());
        std::mem::swap(&mut vector, &mut self.vector);
        vector.set(row, col, value);
        std::mem::swap(&mut vector, &mut self.vector);
    }
}

} // verus!
