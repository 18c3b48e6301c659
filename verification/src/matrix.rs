//! Flattening of fixed-size square grids for uniform upload.
//!
//! The square matrix uniform setters reinterpret a numeric grid as a flat
//! sequence of the same length before handing it to the backend.  The
//! reinterpretation is pure bookkeeping: every component survives, in
//! row-after-row order, so a value uploaded this way and read back flat is
//! the same sequence of components.  The functions are generic in the
//! component type; the shells instantiate them with the backend's scalar.

use vstd::prelude::*;

verus! {

/// Flatten a 2-by-2 grid into its 4 components, row after row.
pub fn flatten_2x2<T: Copy>(m: &[[T; 2]; 2]) -> (r: Vec<T>)
    ensures
        r@.len() == 4,
        forall|row: int, col: int|
            0 <= row < 2 && 0 <= col < 2 ==> r@[row * 2 + col] == m@[row]@[col],
{
    let mut out: Vec<T> = Vec::new();
    let mut row: usize = 0;
    while row < 2
        invariant
            row <= 2,
            out@.len() == 2 * row,
            forall|i: int, j: int|
                0 <= i < row as int && 0 <= j < 2 ==> out@[i * 2 + j] == m@[i]@[j],
        decreases 2 - row,
    {
        out.push(m[row][0]);
        out.push(m[row][1]);
        row = row + 1;
    }
    out
}

/// Flatten a 3-by-3 grid into its 9 components, row after row.
pub fn flatten_3x3<T: Copy>(m: &[[T; 3]; 3]) -> (r: Vec<T>)
    ensures
        r@.len() == 9,
        forall|row: int, col: int|
            0 <= row < 3 && 0 <= col < 3 ==> r@[row * 3 + col] == m@[row]@[col],
{
    let mut out: Vec<T> = Vec::new();
    let mut row: usize = 0;
    while row < 3
        invariant
            row <= 3,
            out@.len() == 3 * row,
            forall|i: int, j: int|
                0 <= i < row as int && 0 <= j < 3 ==> out@[i * 3 + j] == m@[i]@[j],
        decreases 3 - row,
    {
        out.push(m[row][0]);
        out.push(m[row][1]);
        out.push(m[row][2]);
        row = row + 1;
    }
    out
}

/// Flatten a 4-by-4 grid into its 16 components, row after row.
pub fn flatten_4x4<T: Copy>(m: &[[T; 4]; 4]) -> (r: Vec<T>)
    ensures
        r@.len() == 16,
        forall|row: int, col: int|
            0 <= row < 4 && 0 <= col < 4 ==> r@[row * 4 + col] == m@[row]@[col],
{
    let mut out: Vec<T> = Vec::new();
    let mut row: usize = 0;
    while row < 4
        invariant
            row <= 4,
            out@.len() == 4 * row,
            forall|i: int, j: int|
                0 <= i < row as int && 0 <= j < 4 ==> out@[i * 4 + j] == m@[i]@[j],
        decreases 4 - row,
    {
        out.push(m[row][0]);
        out.push(m[row][1]);
        out.push(m[row][2]);
        out.push(m[row][3]);
        row = row + 1;
    }
    out
}

} // verus!
