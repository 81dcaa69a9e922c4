use pyslots::err::{ExcType, PyErr, PyResult};
use pyslots::function::PyObjectCallbackConverter;
use pyslots::ffi::{Py_EQ, Py_LT};
use pyslots::py_class::slots::{
    BoolConverter, HashConverter, LenResultConverter, SuccessConverter, UnitCallbackConverter,
};
use pyslots::py_class::wrap::{
    location, py_class_binary_internal, py_class_binary_numeric_slot, py_class_binary_slot,
    py_class_call_slot, py_class_contains_slot, py_class_richcompare_slot,
    py_class_ternary_internal, py_class_ternary_slot, py_class_unary_slot, py_class_wrap_newfunc,
};
use pyslots::py_class::CompareOp;
use pyslots::python::{PyObject, Python};
use std::cell::Cell;

const NOT_IMPLEMENTED: usize = 0xAAAA;
const SLF: usize = 0x10;
const ARG: usize = 0x20;
const ARG2: usize = 0x30;

fn type_error() -> PyErr {
    PyErr::new_lazy_init(ExcType::TypeError, Some("expected an integer".to_string()))
}

fn memory_error() -> PyErr {
    PyErr::new_lazy_init(ExcType::Other(1), Some("out of memory".to_string()))
}

fn extract_ok(_py: &Python, o: &PyObject) -> PyResult<usize> {
    Ok(o.as_ptr() + 1)
}

fn extract_type_error(_py: &Python, _o: &PyObject) -> PyResult<usize> {
    Err(type_error())
}

fn extract_memory_error(_py: &Python, _o: &PyObject) -> PyResult<usize> {
    Err(memory_error())
}

#[test]
fn location_has_the_fixed_format() {
    assert_eq!(location("Point", "__len__"), "Point.__len__()");
    assert_eq!(location("", ""), ".()");
}

#[test]
fn unary_slot_calls_releases_and_encodes() {
    let mut py = Python::new(NOT_IMPLEMENTED);
    let ret = py_class_unary_slot::<usize, LenResultConverter, _>(
        &mut py,
        "Point",
        "__len__",
        SLF,
        |py: &Python, slf: &PyObject| {
            assert_eq!(slf.as_ptr(), SLF);
            assert_eq!(py.location().map(|s| s.as_str()), Some("Point.__len__()"));
            assert!(py.released().is_empty());
            Ok(3)
        },
    );
    assert_eq!(ret, 3);
    assert_eq!(py.released(), &vec![SLF]);
    assert_eq!(py.location().map(|s| s.as_str()), Some("Point.__len__()"));
    assert!(!py.err_occurred());
}

#[test]
fn unary_slot_raises_the_error_of_the_method() {
    let mut py = Python::new(NOT_IMPLEMENTED);
    let ret = py_class_unary_slot::<u64, HashConverter, _>(
        &mut py,
        "Point",
        "__hash__",
        SLF,
        |_py: &Python, _slf: &PyObject| Err(memory_error()),
    );
    assert_eq!(ret, -1);
    assert_eq!(py.released(), &vec![SLF]);
    assert_eq!(py.fetch(), Some(memory_error()));
}

#[test]
fn unary_hash_slot_remaps_minus_one() {
    let mut py = Python::new(NOT_IMPLEMENTED);
    let ret = py_class_unary_slot::<i64, HashConverter, _>(
        &mut py,
        "Point",
        "__hash__",
        SLF,
        |_py: &Python, _slf: &PyObject| Ok(-1i64),
    );
    assert_eq!(ret, -2);
    assert!(!py.err_occurred());
}

#[test]
fn unary_length_slot_overflow() {
    let mut py = Python::new(NOT_IMPLEMENTED);
    let ret = py_class_unary_slot::<usize, LenResultConverter, _>(
        &mut py,
        "Big",
        "__len__",
        SLF,
        |_py: &Python, _slf: &PyObject| Ok(usize::MAX),
    );
    assert_eq!(ret, -1);
    assert_eq!(py.fetch(), Some(PyErr::new_lazy_init(ExcType::OverflowError, None)));
}

#[test]
fn binary_slot_extracts_then_calls() {
    let mut py = Python::new(NOT_IMPLEMENTED);
    let ret = py_class_binary_slot::<usize, usize, LenResultConverter, _, _>(
        &mut py,
        "Point",
        "count",
        SLF,
        ARG,
        extract_ok,
        |_py: &Python, slf: &PyObject, a: usize| Ok(slf.as_ptr() + a),
    );
    assert_eq!(ret, (SLF + ARG + 1) as isize);
    assert_eq!(py.released(), &vec![ARG, SLF]);
    assert!(!py.err_occurred());
}

#[test]
fn binary_slot_propagates_extraction_failure() {
    let called = Cell::new(false);
    let mut py = Python::new(NOT_IMPLEMENTED);
    let ret = py_class_binary_slot::<usize, (), UnitCallbackConverter, _, _>(
        &mut py,
        "Point",
        "set",
        SLF,
        ARG,
        extract_type_error,
        |_py: &Python, _slf: &PyObject, _a: usize| {
            called.set(true);
            Ok(())
        },
    );
    assert_eq!(ret, -1);
    assert!(!called.get());
    assert_eq!(py.released(), &vec![ARG, SLF]);
    assert_eq!(py.fetch(), Some(type_error()));
}

#[test]
fn ternary_slot_extracts_left_to_right() {
    let mut py = Python::new(NOT_IMPLEMENTED);
    let ret = py_class_ternary_slot::<usize, usize, bool, SuccessConverter, _, _, _>(
        &mut py,
        "Point",
        "__setitem__",
        SLF,
        ARG,
        ARG2,
        extract_ok,
        extract_ok,
        |_py: &Python, _slf: &PyObject, a: usize, b: usize| Ok(a == ARG + 1 && b == ARG2 + 1),
    );
    assert_eq!(ret, 0);
    assert_eq!(py.released(), &vec![ARG, ARG2, SLF]);
    assert!(!py.err_occurred());
}

#[test]
fn ternary_slot_first_failure_wins() {
    let second = Cell::new(false);
    let called = Cell::new(false);
    let mut py = Python::new(NOT_IMPLEMENTED);
    let ret = py_class_ternary_slot::<usize, usize, (), UnitCallbackConverter, _, _, _>(
        &mut py,
        "Point",
        "__setitem__",
        SLF,
        ARG,
        ARG2,
        extract_memory_error,
        |_py: &Python, _o: &PyObject| {
            second.set(true);
            Err(type_error())
        },
        |_py: &Python, _slf: &PyObject, _a: usize, _b: usize| {
            called.set(true);
            Ok(())
        },
    );
    assert_eq!(ret, -1);
    assert!(!second.get());
    assert!(!called.get());
    assert_eq!(py.released(), &vec![ARG, ARG2, SLF]);
    assert_eq!(py.fetch(), Some(memory_error()));
}

#[test]
fn ternary_slot_second_failure() {
    let called = Cell::new(false);
    let mut py = Python::new(NOT_IMPLEMENTED);
    let ret = py_class_ternary_slot::<usize, usize, (), UnitCallbackConverter, _, _, _>(
        &mut py,
        "Point",
        "__setitem__",
        SLF,
        ARG,
        ARG2,
        extract_ok,
        extract_type_error,
        |_py: &Python, _slf: &PyObject, _a: usize, _b: usize| {
            called.set(true);
            Ok(())
        },
    );
    assert_eq!(ret, -1);
    assert!(!called.get());
    assert_eq!(py.released(), &vec![ARG, ARG2, SLF]);
    assert_eq!(py.fetch(), Some(type_error()));
}

#[test]
fn binary_internal_takes_a_native_argument() {
    let mut py = Python::new(NOT_IMPLEMENTED);
    let ret = py_class_binary_internal::<isize, usize, LenResultConverter, _>(
        &mut py,
        "Point",
        "repeat",
        SLF,
        4,
        |_py: &Python, slf: &PyObject, n: isize| slf.as_ptr() * (n as usize),
    );
    assert_eq!(ret, 0x40);
    assert_eq!(py.released(), &vec![SLF]);
    assert!(!py.err_occurred());
}

#[test]
fn ternary_internal_takes_two_native_arguments() {
    let mut py = Python::new(NOT_IMPLEMENTED);
    let ret = py_class_ternary_internal::<isize, isize, bool, BoolConverter, _>(
        &mut py,
        "Point",
        "between",
        SLF,
        1,
        2,
        |_py: &Python, _slf: &PyObject, a: isize, b: isize| a < b,
    );
    assert_eq!(ret, 1);
    assert_eq!(py.released(), &vec![SLF]);
}

#[test]
fn richcompare_defers_when_extraction_fails() {
    let called = Cell::new(false);
    let mut py = Python::new(NOT_IMPLEMENTED);
    let ret = py_class_richcompare_slot::<usize, PyObjectCallbackConverter, _, _>(
        &mut py,
        "Point",
        "__richcmp__",
        SLF,
        ARG,
        Py_EQ,
        extract_type_error,
        |py: &Python, _slf: &PyObject, _a: usize, _op: CompareOp| {
            called.set(true);
            Ok(PyObject::from_borrowed_ptr(py, 0x99))
        },
    );
    assert_eq!(ret, NOT_IMPLEMENTED);
    assert!(!called.get());
    assert!(!py.err_occurred());
    assert_eq!(py.released(), &vec![ARG, SLF]);
}

#[test]
fn richcompare_defers_on_any_extraction_error() {
    let mut py = Python::new(NOT_IMPLEMENTED);
    let ret = py_class_richcompare_slot::<usize, PyObjectCallbackConverter, _, _>(
        &mut py,
        "Point",
        "__richcmp__",
        SLF,
        ARG,
        Py_LT,
        extract_memory_error,
        |py: &Python, _slf: &PyObject, _a: usize, _op: CompareOp| {
            Ok(PyObject::from_borrowed_ptr(py, 0x99))
        },
    );
    assert_eq!(ret, NOT_IMPLEMENTED);
    assert!(!py.err_occurred());
}

#[test]
fn richcompare_defers_on_invalid_operator_without_extracting() {
    let extracted = Cell::new(false);
    let called = Cell::new(false);
    let mut py = Python::new(NOT_IMPLEMENTED);
    let ret = py_class_richcompare_slot::<usize, PyObjectCallbackConverter, _, _>(
        &mut py,
        "Point",
        "__richcmp__",
        SLF,
        ARG,
        6,
        |_py: &Python, _o: &PyObject| {
            extracted.set(true);
            Ok(1usize)
        },
        |py: &Python, _slf: &PyObject, _a: usize, _op: CompareOp| {
            called.set(true);
            Ok(PyObject::from_borrowed_ptr(py, 0x99))
        },
    );
    assert_eq!(ret, NOT_IMPLEMENTED);
    assert!(!extracted.get());
    assert!(!called.get());
    assert!(!py.err_occurred());
    assert_eq!(py.released(), &vec![ARG, SLF]);
}

#[test]
fn richcompare_calls_the_method_with_the_decoded_operator() {
    let seen = Cell::new(None);
    let mut py = Python::new(NOT_IMPLEMENTED);
    let ret = py_class_richcompare_slot::<usize, PyObjectCallbackConverter, _, _>(
        &mut py,
        "Point",
        "__richcmp__",
        SLF,
        ARG,
        Py_LT,
        extract_ok,
        |py: &Python, _slf: &PyObject, a: usize, op: CompareOp| {
            seen.set(Some((a, op)));
            Ok(PyObject::from_borrowed_ptr(py, 0x99))
        },
    );
    assert_eq!(ret, 0x99);
    assert_eq!(seen.get(), Some((ARG + 1, CompareOp::Lt)));
    assert_eq!(py.released(), &vec![ARG, SLF]);
    assert!(!py.err_occurred());
}

#[test]
fn richcompare_raises_the_error_of_the_method() {
    let mut py = Python::new(NOT_IMPLEMENTED);
    let ret = py_class_richcompare_slot::<usize, PyObjectCallbackConverter, _, _>(
        &mut py,
        "Point",
        "__richcmp__",
        SLF,
        ARG,
        Py_EQ,
        extract_ok,
        |_py: &Python, _slf: &PyObject, _a: usize, _op: CompareOp| Err(memory_error()),
    );
    assert_eq!(ret, 0);
    assert_eq!(py.fetch(), Some(memory_error()));
}

#[test]
fn contains_answers_false_on_type_mismatch() {
    let called = Cell::new(false);
    let mut py = Python::new(NOT_IMPLEMENTED);
    let ret = py_class_contains_slot(
        &mut py,
        "Bag",
        "__contains__",
        SLF,
        ARG,
        extract_type_error,
        |_py: &Python, _slf: &PyObject, _a: usize| {
            called.set(true);
            Ok(true)
        },
    );
    assert_eq!(ret, 0);
    assert!(!called.get());
    assert!(!py.err_occurred());
    assert_eq!(py.released(), &vec![ARG, SLF]);
}

#[test]
fn contains_fails_on_any_other_extraction_error() {
    let mut py = Python::new(NOT_IMPLEMENTED);
    let ret = py_class_contains_slot(
        &mut py,
        "Bag",
        "__contains__",
        SLF,
        ARG,
        extract_memory_error,
        |_py: &Python, _slf: &PyObject, _a: usize| Ok(true),
    );
    assert_eq!(ret, -1);
    assert_eq!(py.released(), &vec![ARG, SLF]);
    assert_eq!(py.fetch(), Some(memory_error()));
}

#[test]
fn contains_encodes_the_answer_of_the_method() {
    let mut py = Python::new(NOT_IMPLEMENTED);
    let yes = py_class_contains_slot(
        &mut py,
        "Bag",
        "__contains__",
        SLF,
        ARG,
        extract_ok,
        |_py: &Python, _slf: &PyObject, a: usize| Ok(a == ARG + 1),
    );
    assert_eq!(yes, 1);
    let no = py_class_contains_slot(
        &mut py,
        "Bag",
        "__contains__",
        SLF,
        ARG,
        extract_ok,
        |_py: &Python, _slf: &PyObject, a: usize| Ok(a == 0),
    );
    assert_eq!(no, 0);
    assert_eq!(py.released(), &vec![ARG, SLF, ARG, SLF]);
}

#[test]
fn binary_numeric_passes_both_operands() {
    let mut py = Python::new(NOT_IMPLEMENTED);
    let ret = py_class_binary_numeric_slot(
        &mut py,
        "Num",
        "__add__",
        0x1,
        0x2,
        |py: &Python, lhs: &PyObject, rhs: &PyObject| {
            Ok(PyObject::from_borrowed_ptr(py, lhs.as_ptr() * 16 + rhs.as_ptr()))
        },
    );
    assert_eq!(ret, 0x12);
    assert_eq!(py.released(), &vec![0x1, 0x2]);
    assert!(!py.err_occurred());
}

#[test]
fn binary_numeric_failure_returns_null() {
    let mut py = Python::new(NOT_IMPLEMENTED);
    let ret = py_class_binary_numeric_slot(
        &mut py,
        "Num",
        "__add__",
        0x1,
        0x2,
        |_py: &Python, _lhs: &PyObject, _rhs: &PyObject| Err(type_error()),
    );
    assert_eq!(ret, 0);
    assert_eq!(py.released(), &vec![0x1, 0x2]);
    assert_eq!(py.fetch(), Some(type_error()));
}

#[test]
fn call_slot_parses_then_calls() {
    let mut py = Python::new(NOT_IMPLEMENTED);
    let ret = py_class_call_slot(
        &mut py,
        "Fn",
        "__call__",
        SLF,
        0x100,
        0,
        |_py: &Python, at: &str, args: usize, kwargs: usize| {
            assert_eq!(at, "Fn.__call__()");
            Ok((args, kwargs))
        },
        |py: &Python, slf: &PyObject, parsed: (usize, usize)| {
            assert_eq!(parsed, (0x100, 0));
            Ok(PyObject::from_borrowed_ptr(py, slf.as_ptr() + 1))
        },
    );
    assert_eq!(ret, SLF + 1);
    assert_eq!(py.released(), &vec![SLF]);
    assert_eq!(py.location().map(|s| s.as_str()), Some("Fn.__call__()"));
}

#[test]
fn call_slot_parse_failure_adopts_nothing() {
    let called = Cell::new(false);
    let mut py = Python::new(NOT_IMPLEMENTED);
    let ret = py_class_call_slot(
        &mut py,
        "Fn",
        "__call__",
        SLF,
        0x100,
        0x200,
        |_py: &Python, _at: &str, _args: usize, _kwargs: usize| -> PyResult<()> {
            Err(type_error())
        },
        |py: &Python, _slf: &PyObject, _parsed: ()| {
            called.set(true);
            Ok(PyObject::from_borrowed_ptr(py, 1))
        },
    );
    assert_eq!(ret, 0);
    assert!(!called.get());
    assert!(py.released().is_empty());
    assert_eq!(py.fetch(), Some(type_error()));
}

#[test]
fn newfunc_hands_the_type_object_to_the_constructor() {
    let mut py = Python::new(NOT_IMPLEMENTED);
    let ret = py_class_wrap_newfunc(
        &mut py,
        "Point",
        "__new__",
        0x700,
        0x100,
        0x200,
        |_py: &Python, at: &str, args: usize, kwargs: usize| {
            assert_eq!(at, "Point.__new__()");
            Ok(args + kwargs)
        },
        |py: &Python, cls: &PyObject, parsed: usize| {
            assert_eq!(cls.as_ptr(), 0x700);
            Ok(PyObject::from_borrowed_ptr(py, parsed))
        },
    );
    assert_eq!(ret, 0x300);
    assert_eq!(py.released(), &vec![0x700]);
    assert!(!py.err_occurred());
}

#[test]
fn newfunc_parse_failure_returns_null() {
    let mut py = Python::new(NOT_IMPLEMENTED);
    let ret = py_class_wrap_newfunc(
        &mut py,
        "Point",
        "__new__",
        0x700,
        0x100,
        0,
        |_py: &Python, _at: &str, _args: usize, _kwargs: usize| -> PyResult<usize> {
            Err(memory_error())
        },
        |py: &Python, _cls: &PyObject, parsed: usize| Ok(PyObject::from_borrowed_ptr(py, parsed)),
    );
    assert_eq!(ret, 0);
    assert!(py.released().is_empty());
    assert_eq!(py.fetch(), Some(memory_error()));
}

#[test]
fn not_implemented_is_the_address_the_token_was_made_with() {
    let py = Python::new(NOT_IMPLEMENTED);
    assert_eq!(py.NotImplemented().as_ptr(), NOT_IMPLEMENTED);
    assert!(py.released().is_empty());
    assert_eq!(py.location(), None);
}

#[test]
fn release_ref_logs_in_order() {
    let mut py = Python::new(NOT_IMPLEMENTED);
    let a = PyObject::from_borrowed_ptr(&py, 1);
    let b = PyObject::from_borrowed_ptr(&py, 2);
    b.release_ref(&mut py);
    a.release_ref(&mut py);
    assert_eq!(py.released(), &vec![2, 1]);
}
