use lax::error::Error;
use lax::layout::MatrixLayout;
use lax::tridiagonal::{rhs_column_major, LUFactorizedTridiagonal, Tridiagonal};

fn sample() -> Tridiagonal<f64> {
    // [[1, 4, 0],
    //  [6, 2, 5],
    //  [0, 7, 3]]
    Tridiagonal {
        l: MatrixLayout::F { col: 3, lda: 3 },
        dl: vec![6.0, 7.0],
        d: vec![1.0, 2.0, 3.0],
        du: vec![4.0, 5.0],
    }
}

#[test]
fn index_reads_bands() {
    let a = sample();
    assert_eq!(*a.index(0, 0), 1.0);
    assert_eq!(*a.index(2, 2), 3.0);
    assert_eq!(*a.index(1, 0), 6.0);
    assert_eq!(*a.index(2, 1), 7.0);
    assert_eq!(*a.index(0, 1), 4.0);
    assert_eq!(*a.index(1, 2), 5.0);
}

#[test]
fn index_mut_writes_one_entry() {
    let mut a = sample();
    *a.index_mut(2, 1) = -7.5;
    assert_eq!(a.dl, vec![6.0, -7.5]);
    assert_eq!(a.d, vec![1.0, 2.0, 3.0]);
    assert_eq!(a.du, vec![4.0, 5.0]);
    *a.index_mut(1, 1) = 9.0;
    assert_eq!(a.d, vec![1.0, 9.0, 3.0]);
}

#[test]
fn get_off_band_is_structural_error() {
    let a = sample();
    assert_eq!(a.get(0, 2), Err(Error::NotTridiagonalElement { row: 0, col: 2 }));
    assert_eq!(a.get(2, 0), Err(Error::NotTridiagonalElement { row: 2, col: 0 }));
}

#[test]
fn get_outside_matrix_is_bounds_error() {
    let a = sample();
    assert_eq!(a.get(3, 3), Err(Error::OutOfBounds { row: 3, col: 3 }));
    assert_eq!(a.get(-1, 0), Err(Error::OutOfBounds { row: -1, col: 0 }));
}

#[test]
fn get_on_band() {
    let a = sample();
    assert_eq!(a.get(1, 2), Ok(&5.0));
    assert_eq!(a.get(1, 0), Ok(&6.0));
}

#[test]
fn column_entries_of_each_column() {
    let a = sample();
    assert_eq!(a.column_entries(0), vec![1.0, 6.0]);
    assert_eq!(a.column_entries(1), vec![2.0, 7.0, 4.0]);
    assert_eq!(a.column_entries(2), vec![3.0, 5.0]);
}

#[test]
fn one_norm_from_column_entries() {
    let a = sample();
    let norm = (0..3)
        .map(|j| a.column_entries(j).iter().map(|v: &f64| v.abs()).sum::<f64>())
        .fold(0.0, f64::max);
    assert_eq!(norm, 13.0);
}

#[test]
fn factor_sizes_by_dimension() {
    assert_eq!(sample().factor_sizes(), (1, 3));
    let one = Tridiagonal {
        l: MatrixLayout::F { col: 1, lda: 1 },
        dl: Vec::<f64>::new(),
        d: vec![2.0],
        du: vec![],
    };
    assert_eq!(one.factor_sizes(), (0, 1));
}

#[test]
fn from_factorization_keeps_norm_taken_before() {
    let a = sample();
    let f = LUFactorizedTridiagonal::from_factorization(a.clone(), vec![0.5], vec![1, 2, 3], 13.0, 0)
        .ok()
        .unwrap();
    assert_eq!(f.a_opnorm_one(), 13.0);
    assert_eq!(f.ipiv, vec![1, 2, 3]);
    assert_eq!(f.du2, vec![0.5]);
    assert!(f.a == a);
}

#[test]
fn from_factorization_reports_singular() {
    let r = LUFactorizedTridiagonal::from_factorization(sample(), vec![0.0], vec![1, 2, 3], 13.0, 2);
    assert_eq!(r.err(), Some(Error::LapackComputationalFailure { return_code: 2 }));
}

#[test]
fn from_factorization_refuses_wrong_lengths() {
    let r = LUFactorizedTridiagonal::from_factorization(sample(), vec![], vec![1, 2, 3], 13.0, 0);
    assert_eq!(r.err(), Some(Error::InvalidShape));
}

#[test]
fn rhs_row_major_is_copied_column_major() {
    let c = MatrixLayout::C { row: 3, lda: 2 };
    let (l, v) = rhs_column_major(c, &[1, 2, 3, 4, 5, 6]);
    assert_eq!(l, MatrixLayout::F { col: 2, lda: 3 });
    assert_eq!(v, Some(vec![1, 3, 5, 2, 4, 6]));
}

#[test]
fn rhs_column_major_is_used_as_is() {
    let f = MatrixLayout::F { col: 2, lda: 3 };
    let (l, v) = rhs_column_major(f, &[1, 3, 5, 2, 4, 6]);
    assert_eq!(l, f);
    assert_eq!(v, None);
}

#[test]
fn get_mut_off_band_leaves_matrix_unchanged() {
    let mut a = sample();
    assert_eq!(
        a.get_mut(0, 2).err(),
        Some(Error::NotTridiagonalElement { row: 0, col: 2 })
    );
    assert_eq!(a.get_mut(3, 0).err(), Some(Error::OutOfBounds { row: 3, col: 0 }));
    assert!(a == sample());
}

#[test]
fn get_mut_on_band_writes_one_entry() {
    let mut a = sample();
    *a.get_mut(0, 1).ok().unwrap() = 8.0;
    assert_eq!(a.du, vec![8.0, 5.0]);
    assert_eq!(a.dl, vec![6.0, 7.0]);
    assert_eq!(a.d, vec![1.0, 2.0, 3.0]);
}
