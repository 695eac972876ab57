use dense_matrix::render::decimal_text;
use dense_matrix::{Access, ColVector, Dimension, Matrix, MatrixError, RowVector};

fn cell_texts(values: &[f64]) -> Vec<String> {
    values.iter().map(|v| format!("{}", v)).collect()
}

fn two_by_three() -> Matrix<f64> {
    Matrix::new(2, 3, vec![1.0, 2.0, 3.0, 4.0, 5.0, 6.0])
}

#[test]
fn construct_then_dimensions() {
    let m = two_by_three();
    assert_eq!(m.get_dim(), (2, 3));
    assert_eq!(Dimension::get_dim(&m), (2, 3));
    let tall: Matrix<f64> = Matrix::new(4, 1, vec![0.5; 4]);
    assert_eq!(tall.get_dim(), (4, 1));
    let empty: Matrix<f64> = Matrix::new(0, 0, Vec::new());
    assert_eq!(empty.get_dim(), (0, 0));
}

#[test]
fn get_after_construct_reads_row_major() {
    let data = vec![1.0, 2.0, 3.0, 4.0, 5.0, 6.0];
    let m = Matrix::new(2, 3, data.clone());
    for r in 0..2 {
        for c in 0..3 {
            assert_eq!(m.get(r, c), Ok(data[r * 3 + c]));
        }
    }
}

#[test]
fn set_then_get_returns_value() {
    let mut m = two_by_three();
    m.set(1, 2, 42.5);
    assert_eq!(m.get(1, 2), Ok(42.5));
    m.set(0, 0, -1.0);
    assert_eq!(m.get(0, 0), Ok(-1.0));
    assert_eq!(m.get(0, 1), Ok(2.0));
    assert_eq!(m.get(1, 1), Ok(5.0));
}

#[test]
fn get_out_of_bounds_is_an_error() {
    let m = two_by_three();
    assert_eq!(m.get(2, 0), Err(MatrixError::IndexOutOfBounds));
    assert_eq!(m.get(0, 3), Err(MatrixError::IndexOutOfBounds));
    assert_eq!(m.get(5, 7), Err(MatrixError::IndexOutOfBounds));
    let empty: Matrix<f64> = Matrix::new(0, 0, Vec::new());
    assert_eq!(empty.get(0, 0), Err(MatrixError::IndexOutOfBounds));
}

#[test]
fn set_out_of_bounds_changes_nothing() {
    let mut m = two_by_three();
    m.set(2, 0, 9.0);
    m.set(0, 3, 9.0);
    m.set(usize::MAX, usize::MAX, 9.0);
    assert_eq!(m.get_dim(), (2, 3));
    let expected = [1.0, 2.0, 3.0, 4.0, 5.0, 6.0];
    for r in 0..2 {
        for c in 0..3 {
            assert_eq!(m.get(r, c), Ok(expected[r * 3 + c]));
        }
    }
}

#[test]
fn copy_is_independent() {
    let a = two_by_three();
    let mut b = dense_matrix::grid::Copy::copy(&a);
    assert_eq!(b.get_dim(), (2, 3));
    for r in 0..2 {
        for c in 0..3 {
            assert_eq!(b.get(r, c), a.get(r, c));
        }
    }
    b.set(0, 0, 999.0);
    assert_eq!(b.get(0, 0), Ok(999.0));
    assert_eq!(a.get(0, 0), Ok(1.0));
}

#[test]
fn row_vector_of_three() {
    let v = RowVector::new(3, vec![1.0, 2.0, 3.0]);
    assert_eq!(v.get_dim(), (1, 3));
    assert_eq!(v.get(0, 0), Ok(1.0));
    assert_eq!(v.get(0, 2), Ok(3.0));
    assert_eq!(v.get(1, 0), Err(MatrixError::IndexOutOfBounds));
    assert_eq!(v.get(0, 3), Err(MatrixError::IndexOutOfBounds));
}

#[test]
fn col_vector_of_three() {
    let v = ColVector::new(3, vec![4.0, 5.0, 6.0]);
    assert_eq!(v.get_dim(), (3, 1));
    assert_eq!(v.get(0, 0), Ok(4.0));
    assert_eq!(v.get(2, 0), Ok(6.0));
    assert_eq!(v.get(0, 1), Err(MatrixError::IndexOutOfBounds));
    assert_eq!(v.get(3, 0), Err(MatrixError::IndexOutOfBounds));
}

#[test]
fn vector_set_and_copy() {
    let mut row = RowVector::new(3, vec![1.0, 2.0, 3.0]);
    row.set(0, 1, 20.0);
    row.set(1, 1, 99.0);
    assert_eq!(row.get(0, 1), Ok(20.0));
    assert_eq!(row.get_dim(), (1, 3));
    let row_copy = dense_matrix::grid::Copy::copy(&row);
    row.set(0, 0, 10.0);
    assert_eq!(row_copy.get(0, 0), Ok(1.0));

    let mut col = ColVector::new(3, vec![4.0, 5.0, 6.0]);
    col.set(1, 0, 50.0);
    col.set(1, 1, 99.0);
    assert_eq!(col.get(1, 0), Ok(50.0));
    assert_eq!(Dimension::get_dim(&col), (3, 1));
    let col_copy = dense_matrix::grid::Copy::copy(&col);
    col.set(2, 0, 60.0);
    assert_eq!(col_copy.get(2, 0), Ok(6.0));
}

#[test]
fn render_two_by_three() {
    let m = two_by_three();
    let texts = cell_texts(&[1.0, 2.0, 3.0, 4.0, 5.0, 6.0]);
    let text = m.render_with(&texts);
    assert_eq!(text, "Matrix (2x3):\n[ 1, 2, 3 ]\n[ 4, 5, 6 ]\n");
    assert_eq!(m.render_with(&texts), text);
}

#[test]
fn render_vectors_with_prefix() {
    let row = RowVector::new(3, vec![1.0, 2.0, 3.0]);
    let texts = cell_texts(&[1.0, 2.0, 3.0]);
    assert_eq!(row.render_with(&texts), "RowVector: Matrix (1x3):\n[ 1, 2, 3 ]\n");
    let col = ColVector::new(3, vec![4.0, 5.0, 6.5]);
    let texts = cell_texts(&[4.0, 5.0, 6.5]);
    assert_eq!(
        col.render_with(&texts),
        "ColVector: Matrix (3x1):\n[ 4 ]\n[ 5 ]\n[ 6.5 ]\n"
    );
}

#[test]
fn render_empty_extents() {
    let empty: Matrix<f64> = Matrix::new(0, 0, Vec::new());
    assert_eq!(empty.render_with(&Vec::new()), "Matrix (0x0):\n");
    let no_cols: Matrix<f64> = Matrix::new(2, 0, Vec::new());
    assert_eq!(no_cols.render_with(&Vec::new()), "Matrix (2x0):\n[ ]\n[ ]\n");
}

#[test]
fn render_large_extent_header() {
    let n = 12;
    let m: Matrix<f64> = Matrix::new(1, n, vec![0.0; n]);
    let texts = cell_texts(&vec![0.0; n]);
    let text = m.render_with(&texts);
    assert!(text.starts_with("Matrix (1x12):\n[ 0, 0, "));
    assert!(text.ends_with(", 0 ]\n"));
}

#[test]
fn decimal_text_values() {
    assert_eq!(decimal_text(0), "0");
    assert_eq!(decimal_text(7), "7");
    assert_eq!(decimal_text(10), "10");
    assert_eq!(decimal_text(12345), "12345");
    assert_eq!(decimal_text(usize::MAX), usize::MAX.to_string());
}
