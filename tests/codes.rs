use lapacke::{Error, Layout};

const STATUSES: [i32; 10] = [0, -1, -2, 1, 7, -1010, -1011, -1009, i32::MIN, i32::MAX];

#[test]
fn layout_codes_are_lapacke_constants() {
    assert_eq!(i32::from(Layout::RowMajor), 101);
    assert_eq!(i32::from(Layout::ColumnMajor), 102);
    assert_eq!(i32::from(Layout::RowMajor), lapacke_sys::LAPACK_ROW_MAJOR);
    assert_eq!(i32::from(Layout::ColumnMajor), lapacke_sys::LAPACK_COL_MAJOR);
    let via_into: i32 = Layout::ColumnMajor.into();
    assert_eq!(via_into, 102);
}

#[test]
fn layout_round_trip() {
    for l in [Layout::RowMajor, Layout::ColumnMajor] {
        assert_eq!(Layout::from_code(i32::from(l)), Some(l));
    }
    assert_eq!(Layout::from_code(101), Some(Layout::RowMajor));
    assert_eq!(Layout::from_code(102), Some(Layout::ColumnMajor));
}

#[test]
fn layout_rejects_other_codes() {
    for code in [0, 1, 100, 103, -101, -102, i32::MIN, i32::MAX] {
        assert_eq!(Layout::from_code(code), None);
    }
}

#[test]
fn error_codes_are_lapacke_constants() {
    assert_eq!(i32::from(Error::NoError), 0);
    assert_eq!(i32::from(Error::WorkMemory), -1010);
    assert_eq!(i32::from(Error::TransposeMemory), -1011);
    assert_eq!(i32::from(Error::WorkMemory), lapacke_sys::LAPACK_WORK_MEMORY_ERROR);
    assert_eq!(
        i32::from(Error::TransposeMemory),
        lapacke_sys::LAPACK_TRANSPOSE_MEMORY_ERROR
    );
}

#[test]
fn status_equality_is_symmetric() {
    for e in [Error::NoError, Error::WorkMemory, Error::TransposeMemory] {
        for s in STATUSES {
            assert_eq!(e == s, s == e);
            assert_eq!(e == s, s == i32::from(e));
            assert_eq!(e != s, s != e);
        }
        assert!(e == i32::from(e));
        assert!(i32::from(e) == e);
    }
}

#[test]
fn status_equality_examples() {
    let info: i32 = 0;
    assert!(info == Error::NoError);
    assert!(Error::NoError == info);
    assert!(-1010 == Error::WorkMemory);
    assert!(Error::TransposeMemory == -1011);
    assert!(Error::WorkMemory != -1011);
    assert!(-1 != Error::NoError);
    assert!(3 != Error::TransposeMemory);
}

#[test]
fn error_round_trip() {
    for e in [Error::NoError, Error::WorkMemory, Error::TransposeMemory] {
        assert_eq!(Error::from_code(i32::from(e)), Some(e));
    }
}

#[test]
fn routine_diagnostics_are_not_reserved() {
    for s in [-1, -2, -14, 1, 3, -1009, -1012, 101, 102, i32::MIN, i32::MAX] {
        assert_eq!(Error::from_code(s), None);
    }
    assert_eq!(Error::from_code(0), Some(Error::NoError));
    assert_eq!(Error::from_code(-1010), Some(Error::WorkMemory));
    assert_eq!(Error::from_code(-1011), Some(Error::TransposeMemory));
}
