use vstd::prelude::*;

verus! {

/// Failure conditions reported by the factorization routines.
#[derive(Clone, Copy, Debug, PartialEq, Eq, Structural)]
pub enum Error {
    /// The native routine rejected its `-return_code`-th argument.
    LapackInvalidValue { return_code: i32 },
    /// The computation broke down at the 1-based position `return_code`
    /// (for LU: that diagonal entry of `U` is exactly zero).
    LapackComputationalFailure { return_code: i32 },
    /// The length of a buffer disagrees with the layout that describes it.
    InvalidShape,
    /// A partial singular-vector request, which is not supported.
    Unimplemented,
    /// An access outside the three bands of a tridiagonal matrix.
    NotTridiagonalElement { row: i32, col: i32 },
    /// An index past the dimension of the matrix.
    OutOfBounds { row: i32, col: i32 },
}

/// Reading of a native status code: zero is success, a negative code names a
/// rejected argument, a positive one the place where the computation failed.
pub open spec fn status_result(info: i32) -> Result<(), Error> {
    if info == 0 {
        Ok(())
    } else if info < 0 {
        Err(Error::LapackInvalidValue { return_code: info })
    } else {
        Err(Error::LapackComputationalFailure { return_code: info })
    }
}

/// Turns a native status code into a result.
pub fn as_lapack_result(info: i32) -> (r: Result<(), Error>)
    ensures
        r == status_result(info),
{
    if info == 0 {
        Ok(())
    } else if info < 0 {
        Err(Error::LapackInvalidValue { return_code: info })
    } else {
        Err(Error::LapackComputationalFailure { return_code: info })
    }
}

} // verus!
