//! Job selection, workspace sizes and result assembly around the singular
//! value decomposition.
use vstd::prelude::*;
use crate::error::Error;
use crate::layout::{lemma_dims_product_fits, MatrixLayout};

verus! {

/// Which singular vectors the native routine computes for one side.
#[derive(Clone, Copy, Debug, PartialEq, Eq, Structural)]
pub enum JobSvd {
    /// All of them, as a full square matrix.
    All,
    /// The leading `min(m, n)` of them.
    Partial,
    /// The leading `min(m, n)` of them, written over the input.
    OverWrite,
    /// No vectors at all.
    Nothing,
}

impl JobSvd {
    pub open spec fn from_bool_spec(calc: bool) -> JobSvd {
        if calc { JobSvd::All } else { JobSvd::Nothing }
    }

    /// `All` when the vectors are wanted, `Nothing` otherwise.
    pub fn from_bool(calc: bool) -> (r: JobSvd)
        ensures
            r == Self::from_bool_spec(calc),
    {
        if calc {
            JobSvd::All
        } else {
            JobSvd::Nothing
        }
    }

    /// Character code of the job as the native routine reads it: `A`, `S`,
    /// `O` or `N` in ASCII.
    pub fn code(&self) -> (r: u8)
        ensures
            r == match *self {
                JobSvd::All => 65u8,
                JobSvd::Partial => 83u8,
                JobSvd::OverWrite => 79u8,
                JobSvd::Nothing => 78u8,
            },
    {
        match *self {
            JobSvd::All => 65,
            JobSvd::Partial => 83,
            JobSvd::OverWrite => 79,
            JobSvd::Nothing => 78,
        }
    }
}

/// Result of the singular value decomposition.
pub struct SVDOutput<A, R> {
    /// singular values
    pub s: Vec<R>,
    /// Unitary matrix for destination space
    pub u: Option<Vec<A>>,
    /// Unitary matrix for departure space
    pub vt: Option<Vec<A>>,
}

/// The jobs for the left and right side that the column-major routine gets.
/// A row-major buffer read as column-major holds the transpose, whose left
/// and right singular vectors trade places.
pub open spec fn svd_jobs_spec(l: MatrixLayout, calc_u: bool, calc_vt: bool) -> (JobSvd, JobSvd) {
    if l.is_row_major() {
        (JobSvd::from_bool_spec(calc_vt), JobSvd::from_bool_spec(calc_u))
    } else {
        (JobSvd::from_bool_spec(calc_u), JobSvd::from_bool_spec(calc_vt))
    }
}

/// Jobs for the native routine when the caller asks for the left vectors
/// (`calc_u`) and the right ones (`calc_vt`) of a matrix of layout `l`.
pub fn svd_jobs(l: MatrixLayout, calc_u: bool, calc_vt: bool) -> (r: (JobSvd, JobSvd))
    ensures
        r == svd_jobs_spec(l, calc_u, calc_vt),
{
    match l {
        MatrixLayout::F { .. } => (JobSvd::from_bool(calc_u), JobSvd::from_bool(calc_vt)),
        MatrixLayout::C { .. } => (JobSvd::from_bool(calc_vt), JobSvd::from_bool(calc_u)),
    }
}

/// Arguments and buffer sizes of one native decomposition.
#[derive(Clone, Copy, Debug, PartialEq, Eq, Structural)]
pub struct SvdWorkspace {
    /// rows of the matrix as the column-major routine reads it
    pub m: i32,
    /// columns of the matrix as the column-major routine reads it
    pub n: i32,
    /// entries of the left singular vectors, when computed (`m * m`)
    pub u_len: Option<u64>,
    /// entries of the right singular vectors, when computed (`n * n`)
    pub vt_len: Option<u64>,
    /// number of singular values, `min(m, n)`
    pub k: u64,
    /// real scratch that the complex routines take, `5 * k`
    pub rwork_len: u64,
}

/// Whether a job is one that is supported: all vectors or none.
pub open spec fn supported(j: JobSvd) -> bool {
    j == JobSvd::All || j == JobSvd::Nothing
}

/// Entries of the square matrix of singular vectors of order `d` that a
/// job computes, if any.
pub open spec fn job_len(j: JobSvd, d: int) -> Option<u64> {
    if j == JobSvd::All { Option::Some((d * d) as u64) } else { Option::None }
}

/// Plans the decomposition of the matrix of layout `l` held in `a_len`
/// entries with jobs `ju` and `jvt`. A partial job is refused as
/// unimplemented, before anything is computed; a buffer whose length is not
/// `rows * cols` is refused as a bad shape. An empty matrix gets the
/// plan `None`: there is nothing to compute.
pub fn svd_workspace(l: MatrixLayout, ju: JobSvd, jvt: JobSvd, a_len: usize) -> (r: Result<
    Option<SvdWorkspace>,
    Error,
>)
    ensures
        !(supported(ju) && supported(jvt)) ==> r == Err::<Option<SvdWorkspace>, Error>(
            Error::Unimplemented,
        ),
        supported(ju) && supported(jvt) && !(l.valid() && a_len == l.num_elems()) ==> r == Err::<
            Option<SvdWorkspace>,
            Error,
        >(Error::InvalidShape),
        r is Ok <==> (supported(ju) && supported(jvt) && l.valid() && a_len == l.num_elems()),
        r is Ok ==> (r->Ok_0 is None <==> (l.rows() == 0 || l.cols() == 0)),
        r matches Ok(Option::Some(w)) ==> {
            &&& w.m == l.stride()
            &&& w.n == l.lines()
            &&& w.u_len == job_len(ju, w.m as int)
            &&& w.vt_len == job_len(jvt, w.n as int)
            &&& w.k == if w.m < w.n { w.m as int } else { w.n as int }
            &&& w.rwork_len == 5 * w.k
        },
{
    let supported_u = match ju {
        JobSvd::All => true,
        JobSvd::Nothing => true,
        _ => false,
    };
    let supported_vt = match jvt {
        JobSvd::All => true,
        JobSvd::Nothing => true,
        _ => false,
    };
    if !supported_u || !supported_vt {
        return Err(Error::Unimplemented);
    }
    if !l.fits(a_len) {
        return Err(Error::InvalidShape);
    }
    let (row, col) = l.size();
    if row == 0 || col == 0 {
        return Ok(Option::None);
    }
    let (m, n): (i32, i32) = match l {
        MatrixLayout::C { row, lda } => (lda, row),
        MatrixLayout::F { col, lda } => (lda, col),
    };
    proof {
        lemma_dims_product_fits(m as int, m as int);
        lemma_dims_product_fits(n as int, n as int);
    }
    let u_len = match ju {
        JobSvd::All => Option::Some((m as u64) * (m as u64)),
        _ => Option::None,
    };
    let vt_len = match jvt {
        JobSvd::All => Option::Some((n as u64) * (n as u64)),
        _ => Option::None,
    };
    let k: u64 = if m < n {
        m as u64
    } else {
        n as u64
    };
    Ok(Option::Some(SvdWorkspace { m, n, u_len, vt_len, k, rwork_len: 5 * k }))
}

/// Puts the native results in the caller's terms: for a row-major input the
/// routine decomposed the transpose, so its left and right singular vectors
/// trade places.
pub fn svd_output<A, R>(l: MatrixLayout, s: Vec<R>, u: Option<Vec<A>>, vt: Option<Vec<A>>) -> (r:
    SVDOutput<A, R>)
    ensures
        r.s == s,
        l.is_row_major() ==> r.u == vt && r.vt == u,
        !l.is_row_major() ==> r.u == u && r.vt == vt,
{
    match l {
        MatrixLayout::F { .. } => SVDOutput { s, u, vt },
        MatrixLayout::C { .. } => SVDOutput { s, u: vt, vt: u },
    }
}

} // verus!
