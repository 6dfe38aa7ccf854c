//! Layout handling, shape checks and the tridiagonal matrix type for the
//! dense LU, SVD and tridiagonal LU routines of a column-major linear
//! algebra backend.
use vstd::prelude::*;

pub mod error;
pub mod layout;
pub mod solve;
pub mod svd;
pub mod tridiagonal;

verus! {

/// Row interchanges of an LU factorization, as 1-based indices.
pub type Pivot = Vec<i32>;

} // verus!
