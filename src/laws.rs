//! Laws of construction, reads and writes, stated over the model that the
//! contracts of `Matrix`, `RowVector` and `ColVector` use.
use vstd::prelude::*;

use crate::grid::{Grid, MatrixError};

verus! {

/// A container built from `rows`, `cols` and matching data reports exactly
/// `(rows, cols)` as its dimensions.
pub proof fn lemma_new_then_dimensions<T>(rows: nat, cols: nat, data: Seq<T>)
    requires
        data.len() == rows * cols,
    ensures
        Grid::from_rows(rows, cols, data).rows == rows,
        Grid::from_rows(rows, cols, data).cols == cols,
        Grid::from_rows(rows, cols, data).wf(),
{
}

/// Right after construction, the cell at an in-bounds `(r, c)` reads
/// `data[r * cols + c]`.
pub proof fn lemma_new_then_get<T>(rows: nat, cols: nat, data: Seq<T>, r: int, c: int)
    requires
        data.len() == rows * cols,
        0 <= r < rows,
        0 <= c < cols,
    ensures
        Grid::from_rows(rows, cols, data).lookup(r, c) == Ok::<T, MatrixError>(data[r * cols + c]),
{
}

/// A write at an in-bounds `(r, c)` followed by a read there yields the
/// value written; the extent is kept and the grid stays well formed.
pub proof fn lemma_set_then_get<T>(g: Grid<T>, r: int, c: int, v: T)
    requires
        g.wf(),
        g.in_bounds(r, c),
    ensures
        g.store(r, c, v).lookup(r, c) == Ok::<T, MatrixError>(v),
        g.store(r, c, v).rows == g.rows,
        g.store(r, c, v).cols == g.cols,
        g.store(r, c, v).wf(),
{
    assert(0 <= r * g.cols + c < g.rows * g.cols) by (nonlinear_arith)
        requires
            0 <= r < g.rows,
            0 <= c < g.cols,
    ;
}

/// A write at an in-bounds `(r, c)` leaves every other cell as it was.
pub proof fn lemma_set_keeps_other_cells<T>(g: Grid<T>, r: int, c: int, v: T, i: int, j: int)
    requires
        g.wf(),
        g.in_bounds(r, c),
        (i, j) != (r, c),
    ensures
        g.store(r, c, v).lookup(i, j) == g.lookup(i, j),
{
    if g.in_bounds(i, j) {
        let m = g.cols as int;
        assert(0 <= r * m + c < g.rows * m) by (nonlinear_arith)
            requires
                0 <= r < g.rows,
                0 <= c < m,
        ;
        assert(0 <= i * m + j < g.rows * m) by (nonlinear_arith)
            requires
                0 <= i < g.rows,
                0 <= j < m,
        ;
        assert(i * m + j != r * m + c) by (nonlinear_arith)
            requires
                0 <= i,
                0 <= r,
                0 <= j < m,
                0 <= c < m,
                i != r || j != c,
        ;
    }
}

/// A read outside the extent (`r >= rows` or `c >= cols`) yields
/// `IndexOutOfBounds` and never a value.
pub proof fn lemma_get_out_of_bounds<T>(g: Grid<T>, r: int, c: int)
    requires
        r >= 0,
        c >= 0,
        r >= g.rows || c >= g.cols,
    ensures
        g.lookup(r, c) == Err::<T, MatrixError>(MatrixError::IndexOutOfBounds),
{
}

/// A write outside the extent changes no cell and not the extent.
pub proof fn lemma_set_out_of_bounds<T>(g: Grid<T>, r: int, c: int, v: T)
    requires
        r >= 0,
        c >= 0,
        r >= g.rows || c >= g.cols,
    ensures
        g.store(r, c, v) == g,
        forall|i: int, j: int| #[trigger] g.store(r, c, v).lookup(i, j) == g.lookup(i, j),
{
}

} // verus!
