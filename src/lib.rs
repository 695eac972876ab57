//! A dense, row-major matrix container with row- and column-vector
//! specialisations, element access by coordinate, deep copy and a
//! textual rendering.
pub mod grid;
pub mod laws;
pub mod matrix;
pub mod render;
pub mod vector;

pub use grid::{Access, Dimension, Grid, MatrixError};
pub use matrix::Matrix;
pub use vector::{ColVector, RowVector};
