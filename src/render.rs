//! The textual form of a matrix: a header giving its extent, then one
//! bracketed, comma-separated line per row. The text of each cell is handed
//! in by the caller, in row-major order, so that the layout does not depend
//! on how an element is written.
use vstd::prelude::*;
use vstd::string::StringExecFns;

verus! {

/// The decimal digit `d`, for `d < 10`.
pub open spec fn digit_text(d: nat) -> Seq<char> {
    "0123456789"@.subrange(d as int, d + 1 as int)
}

/// `n` written in decimal, without leading zeros.
pub open spec fn decimal(n: nat) -> Seq<char>
    decreases n,
{
    if n < 10 {
        digit_text(n)
    } else {
        decimal(n / 10) + digit_text(n % 10)
    }
}

/// The cells of one row, each preceded by a space and separated by commas.
pub open spec fn row_items(cells: Seq<Seq<char>>) -> Seq<char>
    decreases cells.len(),
{
    if cells.len() == 0 {
        Seq::empty()
    } else if cells.len() == 1 {
        " "@ + cells[0]
    } else {
        row_items(cells.drop_last()) + ", "@ + cells.last()
    }
}

/// One row as a line: `[ a, b, c ]`.
pub open spec fn row_line(cells: Seq<Seq<char>>) -> Seq<char> {
    "["@ + row_items(cells) + " ]\n"@
}

/// The lines of the first `rows` rows, each `cols` cells wide.
pub open spec fn row_lines(texts: Seq<Seq<char>>, cols: nat, rows: nat) -> Seq<char>
    decreases rows,
{
    if rows == 0 {
        Seq::empty()
    } else {
        row_lines(texts, cols, (rows - 1) as nat) + row_line(
            texts.subrange((rows - 1) * cols as int, rows * cols as int),
        )
    }
}

/// The whole text of a `rows` by `cols` matrix whose cells read `texts`.
pub open spec fn matrix_text(rows: nat, cols: nat, texts: Seq<Seq<char>>) -> Seq<char> {
    "Matrix ("@ + decimal(rows) + "x"@ + decimal(cols) + "):\n"@ + row_lines(texts, cols, rows)
}

/// The decimal digit `d`.
fn digit(d: usize) -> (r: &'static str)
    requires
        d < 10,
    ensures
        r@ == digit_text(d as nat),
{
    proof {
        reveal_strlit("0123456789");
    }
    "0123456789".substring_char(d, d + 1)
}

/// `n` written in decimal.
pub fn decimal_text(n: usize) -> (r: String)
    ensures
        r@ == decimal(n as nat),
    decreases n,
{
    if n < 10 {
        String::from_str(digit(n))
    } else {
        let mut r = decimal_text(n / 10);
        r.append(digit(n % 10));
        r
    }
}

/// Appends the line of the row that starts at `start` and is `cols` cells wide.
fn push_row(out: &mut String, texts: &Vec<String>, start: usize, cols: usize)
    requires
        start + cols <= texts@.len(),
    ensures
        final(out)@ == old(out)@ + row_line(texts.deep_view().subrange(start as int, start + cols)),
{
    let ghost row = texts.deep_view().subrange(start as int, start + cols);
    out.append("[");
    let ghost head = out@;
    let mut c: usize = 0;
    while c < cols
        invariant
            c <= cols,
            start + cols <= texts.len(),
            row == texts.deep_view().subrange(start as int, start + cols),
            out@ == head + row_items(row.subrange(0, c as int)),
        decreases cols - c,
    {
        if c == 0 {
            out.append(" ");
        } else {
            out.append(", ");
        }
        out.append(texts[start + c].as_str());
        proof {
            let done = row.subrange(0, c + 1);
            assert(done.drop_last() == row.subrange(0, c as int));
            assert(done.last() == texts@[start + c]@);
        }
        c = c + 1;
    }
    assert(row.subrange(0, cols as int) == row);
    out.append(" ]\n");
}

/// The text of a `rows` by `cols` matrix whose cells, row by row, read
/// `texts`.
pub fn render_matrix(rows: usize, cols: usize, texts: &Vec<String>) -> (r: String)
    requires
        texts@.len() == rows * cols,
    ensures
        r@ == matrix_text(rows as nat, cols as nat, texts.deep_view()),
{
    let mut out = String::from_str("Matrix (");
    out.append(decimal_text(rows).as_str());
    out.append("x");
    out.append(decimal_text(cols).as_str());
    out.append("):\n");
    let ghost head = out@;
    let mut r: usize = 0;
    while r < rows
        invariant
            r <= rows,
            texts@.len() == rows * cols,
            out@ == head + row_lines(texts.deep_view(), cols as nat, r as nat),
        decreases rows - r,
    {
        proof {
            assert((r + 1) * cols <= rows * cols) by (nonlinear_arith)
                requires
                    r < rows,
            ;
            assert((r + 1) * cols == r * cols + cols) by (nonlinear_arith);
            assert(r * cols + cols <= texts.len());
        }
        push_row(&mut out, texts, r * cols, cols);
        r = r + 1;
    }
    out
}

} // verus!
