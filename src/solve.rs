//! Shape checks and layout handling around the dense LU factorization,
//! inverse and solve.
use vstd::prelude::*;
use crate::error::Error;
use crate::layout::{MatrixLayout, Transpose};

verus! {

/// The smaller of two integers.
pub open spec fn min(a: int, b: int) -> int {
    if a < b { a } else { b }
}

/// Length of the pivot that LU factorization of the matrix described by `l`
/// and a buffer of `a_len` entries produces: the smaller dimension. Zero
/// means an empty matrix, for which no factorization is run and the pivot is
/// empty. A buffer whose length is not `rows * cols` is refused.
pub fn lu_pivot_len(l: MatrixLayout, a_len: usize) -> (r: Result<usize, Error>)
    ensures
        r is Ok <==> (l.valid() && a_len == l.num_elems()),
        r is Err ==> r->Err_0 == Error::InvalidShape,
        r is Ok ==> r->Ok_0 == min(l.rows(), l.cols()),
        l.valid() && a_len == 0 && (l.rows() == 0 || l.cols() == 0) ==> r == Ok::<usize, Error>(0),
{
    if !l.fits(a_len) {
        return Err(Error::InvalidShape);
    }
    let (row, col) = l.size();
    proof {
        if l.rows() == 0 || l.cols() == 0 {
            assert(l.num_elems() == 0);
        }
    }
    if row < col {
        Ok(row as usize)
    } else {
        Ok(col as usize)
    }
}

/// Whether the matrix of layout `l`, stored in `a_len` entries, is square
/// with a pivot of `ipiv_len` entries.
pub open spec fn square_with_pivot(l: MatrixLayout, a_len: int, ipiv_len: int) -> bool {
    &&& l.valid()
    &&& l.rows() == l.cols()
    &&& a_len == l.num_elems()
    &&& ipiv_len == l.rows()
}

/// Whether the matrix of layout `l` has no entry, with an empty buffer and
/// an empty pivot, as the LU factorization of such a matrix leaves them.
pub open spec fn empty_with_pivot(l: MatrixLayout, a_len: int, ipiv_len: int) -> bool {
    &&& l.valid()
    &&& (l.rows() == 0 || l.cols() == 0)
    &&& a_len == 0
    &&& ipiv_len == 0
}

/// Order `n` of the square matrix whose inverse is asked for, from its
/// layout, its buffer length and its pivot length. Zero means a matrix
/// without entries, of any shape: the inverse is then a no-op.
pub fn inv_order(l: MatrixLayout, a_len: usize, ipiv_len: usize) -> (r: Result<i32, Error>)
    ensures
        r is Ok <==> (square_with_pivot(l, a_len as int, ipiv_len as int) || empty_with_pivot(
            l,
            a_len as int,
            ipiv_len as int,
        )),
        r is Err ==> r->Err_0 == Error::InvalidShape,
        empty_with_pivot(l, a_len as int, ipiv_len as int) ==> r == Ok::<i32, Error>(0),
        r is Ok && !empty_with_pivot(l, a_len as int, ipiv_len as int) ==> r->Ok_0 == l.rows(),
{
    let (n, col) = l.size();
    if n >= 0 && col >= 0 && (n == 0 || col == 0) && a_len == 0 && ipiv_len == 0 {
        return Ok(0);
    }
    if n != col || !l.fits(a_len) || ipiv_len as u64 != n as u64 {
        return Err(Error::InvalidShape);
    }
    Ok(n)
}

/// Order `n` of the system that `solve` works on: a square factored matrix
/// of `a_len` entries, a pivot of `n` entries and one right-hand side of
/// `n` entries. Zero means a matrix without entries, whose right-hand side
/// has one entry per row: the solve is then a no-op.
pub fn solve_order(l: MatrixLayout, a_len: usize, ipiv_len: usize, b_len: usize) -> (r: Result<i32, Error>)
    ensures
        r is Ok <==> ((square_with_pivot(l, a_len as int, ipiv_len as int) || empty_with_pivot(
            l,
            a_len as int,
            ipiv_len as int,
        )) && b_len == l.rows()),
        r is Err ==> r->Err_0 == Error::InvalidShape,
        empty_with_pivot(l, a_len as int, ipiv_len as int) && b_len == l.rows() ==> r == Ok::<
            i32,
            Error,
        >(0),
        r is Ok && !empty_with_pivot(l, a_len as int, ipiv_len as int) ==> r->Ok_0 == l.rows(),
{
    let (row, _) = l.size();
    if b_len as u64 != row as u64 || row < 0 {
        return Err(Error::InvalidShape);
    }
    inv_order(l, a_len, ipiv_len)
}

/// The mode to hand the column-major solver, and whether the right-hand
/// side is to be conjugated before and after the call, when the caller asks
/// for mode `t` on a matrix of layout `l`.
pub open spec fn solve_mode_spec(l: MatrixLayout, t: Transpose) -> (Transpose, bool) {
    if l.is_row_major() {
        match t {
            Transpose::No => (Transpose::Transpose, false),
            Transpose::Transpose => (Transpose::No, false),
            Transpose::Hermite => (Transpose::No, true),
        }
    } else {
        (t, false)
    }
}

/// A row-major buffer read as column-major holds the transpose. So "no
/// transpose" becomes "transpose" and the other way round. For `Aᴴ x = b`
/// the solver runs `Aᵗ conj(x) = conj(b)`, which on the reinterpreted
/// buffer is "no transpose" with the right-hand side conjugated on the way
/// in and the solution on the way out.
pub fn solve_mode(l: MatrixLayout, t: Transpose) -> (r: (Transpose, bool))
    ensures
        r == solve_mode_spec(l, t),
{
    match l {
        MatrixLayout::C { .. } => match t {
            Transpose::No => (Transpose::Transpose, false),
            Transpose::Transpose => (Transpose::No, false),
            Transpose::Hermite => (Transpose::No, true),
        },
        MatrixLayout::F { .. } => (t, false),
    }
}

} // verus!
