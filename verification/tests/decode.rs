use pyslots::err::{ExcType, PyErr};
use pyslots::ffi::{Py_EQ, Py_GE, Py_GT, Py_LE, Py_LT, Py_NE};
use pyslots::py_class::slots::{extract_op, type_error_to_false};
use pyslots::py_class::CompareOp;
use pyslots::python::Python;

#[test]
fn operator_codes_have_their_abi_values() {
    assert_eq!(Py_LT, 0);
    assert_eq!(Py_LE, 1);
    assert_eq!(Py_EQ, 2);
    assert_eq!(Py_NE, 3);
    assert_eq!(Py_GT, 4);
    assert_eq!(Py_GE, 5);
}

#[test]
fn extract_op_decodes_all_six_codes() {
    let py = Python::new(1);
    assert_eq!(extract_op(&py, Py_LT), Ok(CompareOp::Lt));
    assert_eq!(extract_op(&py, Py_LE), Ok(CompareOp::Le));
    assert_eq!(extract_op(&py, Py_EQ), Ok(CompareOp::Eq));
    assert_eq!(extract_op(&py, Py_NE), Ok(CompareOp::Ne));
    assert_eq!(extract_op(&py, Py_GT), Ok(CompareOp::Gt));
    assert_eq!(extract_op(&py, Py_GE), Ok(CompareOp::Ge));
}

#[test]
fn extract_op_rejects_every_other_code() {
    let py = Python::new(1);
    for op in [-1, 6, 7, 100, i32::MIN, i32::MAX] {
        let err = extract_op(&py, op).unwrap_err();
        assert_eq!(err.ptype, ExcType::ValueError);
        assert_eq!(
            err.pvalue.as_deref(),
            Some("tp_richcompare called with invalid comparison operator")
        );
    }
}

#[test]
fn extract_op_raises_nothing_itself() {
    let py = Python::new(1);
    let _ = extract_op(&py, 42);
    assert!(!py.err_occurred());
}

#[test]
fn type_error_becomes_false() {
    let py = Python::new(1);
    let e = PyErr::new_lazy_init(ExcType::TypeError, Some("expected int".to_string()));
    assert_eq!(type_error_to_false(&py, e), Ok(false));
    let bare = PyErr::new_lazy_init(ExcType::TypeError, None);
    assert_eq!(type_error_to_false(&py, bare), Ok(false));
}

#[test]
fn other_errors_pass_through_unchanged() {
    let py = Python::new(1);
    for ptype in [
        ExcType::ValueError,
        ExcType::OverflowError,
        ExcType::StopIteration,
        ExcType::Other(0),
        ExcType::Other(17),
    ] {
        let e = PyErr::new_lazy_init(ptype, Some("out of memory".to_string()));
        let expected = e.clone();
        assert_eq!(type_error_to_false(&py, e), Err(expected));
    }
}

#[test]
fn matches_compares_categories_by_identity() {
    let py = Python::new(1);
    let e = PyErr::new_lazy_init(ExcType::Other(3), None);
    assert!(e.matches(&py, ExcType::Other(3)));
    assert!(!e.matches(&py, ExcType::Other(4)));
    assert!(!e.matches(&py, ExcType::TypeError));
}

#[test]
fn restore_replaces_the_pending_error() {
    let mut py = Python::new(1);
    PyErr::new_lazy_init(ExcType::ValueError, None).restore(&mut py);
    PyErr::new_lazy_init(ExcType::TypeError, Some("second".to_string())).restore(&mut py);
    assert!(py.err_occurred());
    assert_eq!(
        py.fetch(),
        Some(PyErr::new_lazy_init(ExcType::TypeError, Some("second".to_string())))
    );
    assert!(!py.err_occurred());
    assert_eq!(py.fetch(), None);
}
