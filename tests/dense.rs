use lax::error::Error;
use lax::layout::{MatrixLayout, Transpose};
use lax::solve::{inv_order, lu_pivot_len, solve_mode, solve_order};
use lax::svd::{svd_jobs, svd_output, svd_workspace, JobSvd, SvdWorkspace};

#[test]
fn lu_pivot_is_smaller_dimension() {
    assert_eq!(lu_pivot_len(MatrixLayout::C { row: 2, lda: 5 }, 10), Ok(2));
    assert_eq!(lu_pivot_len(MatrixLayout::F { col: 3, lda: 4 }, 12), Ok(3));
}

#[test]
fn lu_of_empty_matrix_has_empty_pivot() {
    assert_eq!(lu_pivot_len(MatrixLayout::C { row: 0, lda: 3 }, 0), Ok(0));
    assert_eq!(lu_pivot_len(MatrixLayout::F { col: 0, lda: 7 }, 0), Ok(0));
}

#[test]
fn lu_refuses_wrong_buffer_length() {
    assert_eq!(
        lu_pivot_len(MatrixLayout::C { row: 2, lda: 2 }, 3),
        Err(Error::InvalidShape)
    );
    assert_eq!(
        lu_pivot_len(MatrixLayout::C { row: -1, lda: 2 }, 0),
        Err(Error::InvalidShape)
    );
}

#[test]
fn inv_of_empty_matrix_is_no_op() {
    assert_eq!(inv_order(MatrixLayout::F { col: 0, lda: 0 }, 0, 0), Ok(0));
}

#[test]
fn inv_of_empty_non_square_matrix_is_no_op() {
    assert_eq!(inv_order(MatrixLayout::F { col: 0, lda: 3 }, 0, 0), Ok(0));
    assert_eq!(inv_order(MatrixLayout::F { col: 3, lda: 0 }, 0, 0), Ok(0));
    assert_eq!(inv_order(MatrixLayout::C { row: 3, lda: 0 }, 0, 0), Ok(0));
    assert_eq!(inv_order(MatrixLayout::C { row: 0, lda: 3 }, 0, 0), Ok(0));
}

#[test]
fn solve_of_empty_non_square_system_is_no_op() {
    assert_eq!(solve_order(MatrixLayout::C { row: 0, lda: 3 }, 0, 0, 0), Ok(0));
    assert_eq!(solve_order(MatrixLayout::C { row: 3, lda: 0 }, 0, 0, 3), Ok(0));
    assert_eq!(
        solve_order(MatrixLayout::C { row: 3, lda: 0 }, 0, 0, 2),
        Err(Error::InvalidShape)
    );
}

#[test]
fn inv_order_square() {
    assert_eq!(inv_order(MatrixLayout::C { row: 3, lda: 3 }, 9, 3), Ok(3));
    assert_eq!(
        inv_order(MatrixLayout::C { row: 2, lda: 3 }, 6, 2),
        Err(Error::InvalidShape)
    );
    assert_eq!(
        inv_order(MatrixLayout::C { row: 3, lda: 3 }, 9, 2),
        Err(Error::InvalidShape)
    );
}

#[test]
fn solve_order_checks_rhs() {
    assert_eq!(solve_order(MatrixLayout::F { col: 2, lda: 2 }, 4, 2, 2), Ok(2));
    assert_eq!(
        solve_order(MatrixLayout::F { col: 2, lda: 2 }, 4, 2, 3),
        Err(Error::InvalidShape)
    );
}

#[test]
fn solve_mode_column_major_unchanged() {
    let f = MatrixLayout::F { col: 2, lda: 2 };
    assert_eq!(solve_mode(f, Transpose::No), (Transpose::No, false));
    assert_eq!(solve_mode(f, Transpose::Transpose), (Transpose::Transpose, false));
    assert_eq!(solve_mode(f, Transpose::Hermite), (Transpose::Hermite, false));
}

#[test]
fn solve_mode_row_major_swapped() {
    let c = MatrixLayout::C { row: 2, lda: 2 };
    assert_eq!(solve_mode(c, Transpose::No), (Transpose::Transpose, false));
    assert_eq!(solve_mode(c, Transpose::Transpose), (Transpose::No, false));
    assert_eq!(solve_mode(c, Transpose::Hermite), (Transpose::No, true));
}

#[test]
fn job_codes() {
    assert_eq!(JobSvd::from_bool(true), JobSvd::All);
    assert_eq!(JobSvd::from_bool(false), JobSvd::Nothing);
    assert_eq!(JobSvd::All.code(), b'A');
    assert_eq!(JobSvd::Partial.code(), b'S');
    assert_eq!(JobSvd::OverWrite.code(), b'O');
    assert_eq!(JobSvd::Nothing.code(), b'N');
}

#[test]
fn svd_jobs_swap_for_row_major() {
    let c = MatrixLayout::C { row: 2, lda: 3 };
    let f = MatrixLayout::F { col: 3, lda: 2 };
    assert_eq!(svd_jobs(f, true, false), (JobSvd::All, JobSvd::Nothing));
    assert_eq!(svd_jobs(c, true, false), (JobSvd::Nothing, JobSvd::All));
}

#[test]
fn svd_partial_job_is_unimplemented() {
    let f = MatrixLayout::F { col: 3, lda: 2 };
    assert_eq!(svd_workspace(f, JobSvd::Partial, JobSvd::All, 6), Err(Error::Unimplemented));
    assert_eq!(svd_workspace(f, JobSvd::All, JobSvd::OverWrite, 6), Err(Error::Unimplemented));
    // refused before the shape is even looked at
    assert_eq!(svd_workspace(f, JobSvd::Partial, JobSvd::Nothing, 99), Err(Error::Unimplemented));
}

#[test]
fn svd_workspace_sizes() {
    let c = MatrixLayout::C { row: 2, lda: 3 };
    assert_eq!(
        svd_workspace(c, JobSvd::All, JobSvd::Nothing, 6),
        Ok(Some(SvdWorkspace {
            m: 3,
            n: 2,
            u_len: Some(9),
            vt_len: None,
            k: 2,
            rwork_len: 10,
        }))
    );
}

#[test]
fn svd_workspace_empty_and_bad_shape() {
    let f = MatrixLayout::F { col: 0, lda: 4 };
    assert_eq!(svd_workspace(f, JobSvd::All, JobSvd::All, 0), Ok(None));
    assert_eq!(
        svd_workspace(MatrixLayout::F { col: 2, lda: 2 }, JobSvd::All, JobSvd::All, 3),
        Err(Error::InvalidShape)
    );
}

#[test]
fn svd_output_swaps_for_row_major() {
    let c = MatrixLayout::C { row: 1, lda: 2 };
    let out = svd_output(c, vec![2.0f64], Some(vec![1.0f64]), Some(vec![5.0, 6.0, 7.0, 8.0]));
    assert_eq!(out.s, vec![2.0]);
    assert_eq!(out.u, Some(vec![5.0, 6.0, 7.0, 8.0]));
    assert_eq!(out.vt, Some(vec![1.0]));
    let f = MatrixLayout::F { col: 2, lda: 1 };
    let out = svd_output(f, vec![2.0f64], Some(vec![1.0f64]), None);
    assert_eq!(out.u, Some(vec![1.0]));
    assert_eq!(out.vt, None);
}
