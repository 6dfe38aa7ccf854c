//! Compact tridiagonal matrices and the bookkeeping around their LU
//! factorization.
use vstd::prelude::*;
use crate::error::{as_lapack_result, status_result, Error};
use crate::layout::{lemma_entries_determine_buffer, transpose, MatrixLayout};

verus! {

/// A tridiagonal `n x n` matrix held as three vectors.
///
/// Entry `(i, i)` is `d[i]`, entry `(i + 1, i)` is `dl[i]` and entry
/// `(i, i + 1)` is `du[i]`; all others are zero.
#[derive(Clone, PartialEq, Eq)]
pub struct Tridiagonal<A> {
    /// layout of the full matrix
    pub l: MatrixLayout,
    /// (n-1) sub-diagonal entries
    pub dl: Vec<A>,
    /// (n) diagonal entries
    pub d: Vec<A>,
    /// (n-1) super-diagonal entries
    pub du: Vec<A>,
}

/// Number of off-diagonal entries on each side of an `n x n` band.
pub open spec fn off_len(n: int) -> int {
    if n > 0 { n - 1 } else { 0 }
}

/// Whether `(row, col)` lies on one of the three bands of an `n x n` matrix.
pub open spec fn in_band(n: int, row: int, col: int) -> bool {
    0 <= row < n && 0 <= col < n && row <= col + 1 && col <= row + 1
}

impl<A> Tridiagonal<A> {
    /// Dimension of the matrix.
    pub open spec fn n(&self) -> int {
        self.l.rows()
    }

    /// Square, with bands of `n`, `n - 1` and `n - 1` entries.
    pub open spec fn wf(&self) -> bool {
        &&& self.l.valid()
        &&& self.l.rows() == self.l.cols()
        &&& self.d@.len() == self.n()
        &&& self.dl@.len() == off_len(self.n())
        &&& self.du@.len() == off_len(self.n())
    }

    /// The entry at `(row, col)`, for a position on the band.
    pub open spec fn entry(&self, row: int, col: int) -> A {
        if row == col {
            self.d@[row]
        } else if row == col + 1 {
            self.dl@[col]
        } else {
            self.du@[row]
        }
    }

    /// Checks the shape: square, with bands of `n`, `n - 1` and `n - 1`
    /// entries.
    pub fn is_well_formed(&self) -> (r: bool)
        ensures
            r == self.wf(),
    {
        let (n, col) = self.l.size();
        if n < 0 || n != col || self.d.len() != n as usize {
            return false;
        }
        let off: usize = if n > 0 {
            (n - 1) as usize
        } else {
            0
        };
        self.dl.len() == off && self.du.len() == off
    }

    /// Reads the band entry at `(row, col)`.
    pub fn index(&self, row: i32, col: i32) -> (r: &A)
        requires
            self.wf(),
            in_band(self.n(), row as int, col as int),
        ensures
            *r == self.entry(row as int, col as int),
    {
        if row == col {
            &self.d[row as usize]
        } else if row == col + 1 {
            &self.dl[col as usize]
        } else {
            &self.du[row as usize]
        }
    }

    /// Gives mutable access to the band entry at `(row, col)`; the other
    /// entries are left as they are.
    pub fn index_mut(&mut self, row: i32, col: i32) -> (r: &mut A)
        requires
            old(self).wf(),
            in_band(old(self).n(), row as int, col as int),
        ensures
            *r == old(self).entry(row as int, col as int),
            final(self).l == old(self).l,
            final(self).wf(),
            final(self).entry(row as int, col as int) == *final(r),
            forall|i: int, j: int|
                in_band(old(self).n(), i, j) && (i != row || j != col) ==> #[trigger] final(self).entry(i, j)
                    == old(self).entry(i, j),
    {
        if row == col {
            &mut self.d[row as usize]
        } else if row == col + 1 {
            &mut self.dl[col as usize]
        } else {
            &mut self.du[row as usize]
        }
    }

    /// Reads the entry at `(row, col)`, or says why there is none: the
    /// position lies outside the matrix, or off its three bands.
    pub fn get(&self, row: i32, col: i32) -> (r: Result<&A, Error>)
        requires
            self.wf(),
        ensures
            !(0 <= row < self.n() && 0 <= col < self.n()) ==> r is Err && r->Err_0 == (
            Error::OutOfBounds { row, col }),
            (0 <= row < self.n() && 0 <= col < self.n() && !in_band(self.n(), row as int, col as int))
                ==> r is Err && r->Err_0 == (Error::NotTridiagonalElement { row, col }),
            in_band(self.n(), row as int, col as int) ==> r is Ok && *r->Ok_0 == self.entry(
                row as int,
                col as int,
            ),
    {
        let (n, _) = self.l.size();
        if row < 0 || col < 0 || row >= n || col >= n {
            Err(Error::OutOfBounds { row, col })
        } else if row - col > 1 || col - row > 1 {
            Err(Error::NotTridiagonalElement { row, col })
        } else {
            Ok(self.index(row, col))
        }
    }

    /// Gives mutable access to the entry at `(row, col)`, or says why there
    /// is none, leaving the matrix as it is: the position lies outside the
    /// matrix, or off its three bands.
    pub fn get_mut(&mut self, row: i32, col: i32) -> (r: Result<&mut A, Error>)
        requires
            old(self).wf(),
        ensures
            !(0 <= row < old(self).n() && 0 <= col < old(self).n()) ==> r is Err && r->Err_0 == (
            Error::OutOfBounds { row, col }),
            (0 <= row < old(self).n() && 0 <= col < old(self).n() && !in_band(
                old(self).n(),
                row as int,
                col as int,
            )) ==> r is Err && r->Err_0 == (Error::NotTridiagonalElement { row, col }),
            r is Err ==> *final(self) == *old(self),
            in_band(old(self).n(), row as int, col as int) ==> r is Ok,
            r is Ok ==> *r->Ok_0 == old(self).entry(row as int, col as int),
            r is Ok ==> final(self).wf() && final(self).l == old(self).l && final(self).entry(
                row as int,
                col as int,
            ) == *final(r->Ok_0),
            r is Ok ==> forall|i: int, j: int|
                in_band(old(self).n(), i, j) && (i != row || j != col) ==> #[trigger] final(self).entry(i, j)
                    == old(self).entry(i, j),
    {
        let (n, _) = self.l.size();
        if row < 0 || col < 0 || row >= n || col >= n {
            Err(Error::OutOfBounds { row, col })
        } else if row - col > 1 || col - row > 1 {
            Err(Error::NotTridiagonalElement { row, col })
        } else {
            Ok(self.index_mut(row, col))
        }
    }

    /// The band entries of column `col`, in the order diagonal, below,
    /// above; the first and last columns have a single off-diagonal
    /// neighbour. The absolute sum of a column, and so the one-norm, is taken
    /// over these.
    pub fn column_entries(&self, col: i32) -> (r: Vec<A>)
        where
            A: Copy,
        requires
            self.wf(),
            0 <= col < self.n(),
        ensures
            r@ == seq![self.entry(col as int, col as int)] + (if col + 1 < self.n() {
                seq![self.entry(col + 1, col as int)]
            } else {
                Seq::empty()
            }) + (if col > 0 {
                seq![self.entry(col - 1, col as int)]
            } else {
                Seq::empty()
            }),
    {
        let (n, _) = self.l.size();
        let mut r: Vec<A> = Vec::new();
        r.push(self.d[col as usize]);
        if col + 1 < n {
            r.push(self.dl[col as usize]);
        }
        if col > 0 {
            r.push(self.du[(col - 1) as usize]);
        }
        proof {
            let tail1: Seq<A> = if col + 1 < self.n() {
                seq![self.entry(col + 1, col as int)]
            } else {
                Seq::empty()
            };
            let tail2: Seq<A> = if col > 0 {
                seq![self.entry(col - 1, col as int)]
            } else {
                Seq::empty()
            };
            assert(r@ =~= seq![self.entry(col as int, col as int)] + tail1 + tail2);
        }
        r
    }
}

/// Length of the second super-diagonal that factorization creates.
pub open spec fn second_off_len(n: int) -> int {
    if n > 1 { n - 2 } else { 0 }
}

impl<A> Tridiagonal<A> {
    /// Lengths of the second super-diagonal and of the pivot that the
    /// factorization fills.
    pub fn factor_sizes(&self) -> (r: (usize, usize))
        requires
            self.wf(),
        ensures
            r.0 == second_off_len(self.n()),
            r.1 == self.n(),
    {
        let (n, _) = self.l.size();
        let du2_len: usize = if n > 1 {
            (n - 2) as usize
        } else {
            0
        };
        (du2_len, n as usize)
    }
}

/// The LU factorization `A = P*L*U` of a tridiagonal matrix `A`.
#[derive(Clone, PartialEq)]
pub struct LUFactorizedTridiagonal<A, R> {
    /// A tridiagonal matrix which consists of
    /// - l : layout of the full matrix
    /// - dl: (n-1) multipliers that define the matrix L.
    /// - d : (n) diagonal entries of the upper triangular matrix U.
    /// - du: (n-1) entries of the first super-diagonal of U.
    pub a: Tridiagonal<A>,
    /// (n-2) entries of the second super-diagonal of U.
    pub du2: Vec<A>,
    /// The pivot indices that define the permutation matrix `P`.
    pub ipiv: Vec<i32>,
    /// One-norm of the matrix as it was before factorization overwrote its
    /// bands; the condition estimate needs it. It is set once, when the
    /// factorization is assembled, and read through `a_opnorm_one()`.
    a_opnorm_one: R,
}

impl<A, R> LUFactorizedTridiagonal<A, R> {
    /// The factored bands, the second super-diagonal, the pivot and the
    /// one-norm taken before factorization.
    pub closed spec fn parts(&self) -> (Tridiagonal<A>, Vec<A>, Vec<i32>, R) {
        (self.a, self.du2, self.ipiv, self.a_opnorm_one)
    }

    /// Bands, second super-diagonal and pivot of matching lengths.
    pub closed spec fn wf(&self) -> bool {
        &&& self.a.wf()
        &&& self.du2@.len() == second_off_len(self.a.n())
        &&& self.ipiv@.len() == self.a.n()
    }

    /// Checks that bands, second super-diagonal and pivot have matching
    /// lengths.
    pub fn is_well_formed(&self) -> (r: bool)
        ensures
            r == self.wf(),
    {
        if !self.a.is_well_formed() {
            return false;
        }
        let (du2_len, n) = self.a.factor_sizes();
        self.du2.len() == du2_len && self.ipiv.len() == n
    }

    /// Assembles a factorization from the factored bands `a`, the second
    /// super-diagonal `du2`, the pivot `ipiv`, the one-norm `a_opnorm_one`
    /// taken before factorization, and the native status `info`. A
    /// non-zero status is reported as its error; otherwise the lengths must
    /// fit `a`.
    pub fn from_factorization(
        a: Tridiagonal<A>,
        du2: Vec<A>,
        ipiv: Vec<i32>,
        a_opnorm_one: R,
        info: i32,
    ) -> (r: Result<Self, Error>)
        requires
            a.wf(),
        ensures
            info != 0 ==> r is Err && Err::<(), Error>(r->Err_0) == status_result(info),
            info == 0 && (du2@.len() != second_off_len(a.n()) || ipiv@.len() != a.n()) ==> r
                == Err::<Self, Error>(Error::InvalidShape),
            r is Ok <==> (info == 0 && du2@.len() == second_off_len(a.n()) && ipiv@.len() == a.n()),
            r is Ok ==> {
                let f = r->Ok_0;
                &&& f.wf()
                &&& f.parts() == (a, du2, ipiv, a_opnorm_one)
            },
    {
        match as_lapack_result(info) {
            Err(e) => Err(e),
            Ok(()) => {
                let (du2_len, n) = a.factor_sizes();
                if du2.len() != du2_len || ipiv.len() != n {
                    Err(Error::InvalidShape)
                } else {
                    Ok(LUFactorizedTridiagonal { a, du2, ipiv, a_opnorm_one })
                }
            },
        }
    }

    /// One-norm of the matrix as it was before factorization overwrote its
    /// bands.
    pub fn a_opnorm_one(&self) -> (r: R)
        where
            R: Copy,
        ensures
            r == self.parts().3,
    {
        self.a_opnorm_one
    }
}

/// Brings a right-hand side into the column-major order that the native
/// solver reads. A row-major `b` is copied into a new column-major buffer,
/// which is returned; a column-major one is used as it stands, and `None`
/// is returned. The returned layout describes the buffer to hand over.
pub fn rhs_column_major<T: Copy>(b_layout: MatrixLayout, b: &[T]) -> (r: (MatrixLayout, Option<Vec<T>>))
    requires
        b_layout.valid(),
        b@.len() == b_layout.num_elems(),
    ensures
        !r.0.is_row_major(),
        r.0.rows() == b_layout.rows(),
        r.0.cols() == b_layout.cols(),
        r.1 is Some <==> b_layout.is_row_major(),
        r.1 is None ==> r.0 == b_layout,
        r.1 is Some ==> {
            let v = r.1->Some_0;
            &&& v@.len() == b@.len()
            &&& forall|i: int, j: int|
                0 <= i < b_layout.rows() && 0 <= j < b_layout.cols() ==> #[trigger] r.0.elem(v@, i, j)
                    == b_layout.elem(b@, i, j)
        },
{
    match b_layout {
        MatrixLayout::C { .. } => {
            let (l, v) = transpose(b_layout, b);
            (l, Some(v))
        },
        MatrixLayout::F { .. } => (b_layout, None),
    }
}

/// The solver gets the same column-major buffer whichever order the caller
/// holds the right-hand side in: the copy made of a row-major `bc` equals a
/// column-major `bf` that holds the same matrix, and `bf` is handed over as
/// it stands.
pub proof fn lemma_rhs_order_irrelevant<T>(
    lc: MatrixLayout,
    bc: Seq<T>,
    lf: MatrixLayout,
    bf: Seq<T>,
    copy_l: MatrixLayout,
    copy: Seq<T>,
)
    requires
        lc.valid(),
        lc.is_row_major(),
        !lf.is_row_major(),
        lf.rows() == lc.rows(),
        lf.cols() == lc.cols(),
        bc.len() == lc.num_elems(),
        bf.len() == lf.num_elems(),
        forall|i: int, j: int|
            0 <= i < lc.rows() && 0 <= j < lc.cols() ==> #[trigger] lf.elem(bf, i, j) == lc.elem(bc, i, j),
        !copy_l.is_row_major(),
        copy_l.rows() == lc.rows(),
        copy_l.cols() == lc.cols(),
        copy.len() == bc.len(),
        forall|i: int, j: int|
            0 <= i < lc.rows() && 0 <= j < lc.cols() ==> #[trigger] copy_l.elem(copy, i, j) == lc.elem(bc, i, j),
    ensures
        copy_l == lf,
        copy == bf,
{
    assert(bf.len() == bc.len());
    assert forall|i: int, j: int| 0 <= i < lf.rows() && 0 <= j < lf.cols() implies #[trigger] lf.elem(copy, i, j)
        == lf.elem(bf, i, j) by {
        assert(copy_l.elem(copy, i, j) == lc.elem(bc, i, j));
        assert(lf.elem(bf, i, j) == lc.elem(bc, i, j));
    }
    lemma_entries_determine_buffer(lf, copy, bf);
}

} // verus!
