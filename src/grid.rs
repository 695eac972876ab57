//! The mathematical model shared by every container of this crate, and the
//! three capabilities (dimensions, deep copy, indexed access) stated over it.
use vstd::prelude::*;

verus! {

/// The only failure of an access: there is no element at the coordinate.
#[derive(Debug, Clone, Copy, PartialEq, Eq, Structural)]
pub enum MatrixError {
    IndexOutOfBounds,
}

/// A matrix as a mathematical object: its extent and its cells in
/// row-major order, cell `(r, c)` standing at `r * cols + c`.
pub ghost struct Grid<T> {
    pub rows: nat,
    pub cols: nat,
    pub cells: Seq<T>,
}

impl<T> Grid<T> {
    /// The grid that holds `data`, read row by row.
    pub open spec fn from_rows(rows: nat, cols: nat, data: Seq<T>) -> Grid<T> {
        Grid { rows, cols, cells: data }
    }

    /// The cell count matches the extent.
    pub open spec fn wf(self) -> bool {
        self.cells.len() == self.rows * self.cols
    }

    pub open spec fn in_bounds(self, r: int, c: int) -> bool {
        0 <= r < self.rows && 0 <= c < self.cols
    }

    /// The row-major position of cell `(r, c)`.
    pub open spec fn offset(self, r: int, c: int) -> int {
        r * self.cols + c
    }

    pub open spec fn at(self, r: int, c: int) -> T {
        self.cells[self.offset(r, c)]
    }

    /// What a read at `(r, c)` yields: the cell, or `IndexOutOfBounds`.
    pub open spec fn lookup(self, r: int, c: int) -> Result<T, MatrixError> {
        if self.in_bounds(r, c) {
            Ok(self.at(r, c))
        } else {
            Err(MatrixError::IndexOutOfBounds)
        }
    }

    /// The grid after a write of `v` at `(r, c)`: one cell replaced when the
    /// coordinate is in bounds, the grid unchanged when it is not.
    pub open spec fn store(self, r: int, c: int, v: T) -> Grid<T> {
        if self.in_bounds(r, c) {
            Grid { cells: self.cells.update(self.offset(r, c), v), ..self }
        } else {
            self
        }
    }
}

/// A container with a number of rows and of columns.
pub trait Dimension {
    spec fn shape(&self) -> (nat, nat);

    /// The pair `(rows, cols)`.
    fn get_dim(&self) -> (r: (usize, usize))
        ensures
            r.0 as nat == self.shape().0,
            r.1 as nat == self.shape().1,
    ;
}

/// A container that can be duplicated into storage of its own.
pub trait Copy: Sized + View {
    /// A new value with the same contents and no storage shared with `self`.
    fn copy(&self) -> (r: Self)
        ensures
            r@ == self@,
    ;
}

/// A container whose cells are read and written by coordinate.
pub trait Access<T>: View<V = Grid<T>> {
    /// The cell at `(row, col)`, or `IndexOutOfBounds` outside the extent.
    fn get(&self, row: usize, col: usize) -> (r: Result<T, MatrixError>)
        ensures
            r == self@.lookup(row as int, col as int),
    ;

    /// Overwrites the cell at `(row, col)`; outside the extent nothing changes.
    fn set(&mut self, row: usize, col: usize, value: T)
        ensures
            final(self)@ == old(self)@.store(row as int, col as int, value),
    ;
}

} // verus!
