//! The calling shapes of the slots.  Every shape enters its location, adopts
//! the raw objects it is handed, extracts typed arguments where the native
//! method wants them, calls the method, releases every handle it adopted
//! (arguments first, the receiver last) and encodes the outcome.

use vstd::prelude::*;
use vstd::string::StringExecFns;
use crate::err::{ExcType, PyErr, PyResult};
use crate::ffi::c_int;
use crate::function::{callback_result, handle_callback, CallbackConverter, PyObjectCallbackConverter};
use crate::py_class::slots::{compare_op_of, extract_op, type_error_to_false, type_error_to_false_spec, BoolConverter};
use crate::py_class::CompareOp;
use crate::python::{Interp, PyObject, Python};

verus! {

/// The location string of the method `method` of the class `class`.
pub open spec fn location_text(class: Seq<char>, method: Seq<char>) -> Seq<char> {
    class + "."@ + method + "()"@
}

/// The location string under which failures of a slot are reported:
/// `"<class>.<method>()"`.
pub fn location(class: &str, method: &str) -> (r: String)
    ensures
        r@ == location_text(class@, method@),
{
    let mut r = String::from_str(class);
    r.append(".");
    r.append(method);
    r.append("()");
    r
}

/// The state in which the native method of `class.method` runs.
pub open spec fn entered(before: Interp, class: Seq<char>, method: Seq<char>) -> Interp {
    before.enter(location_text(class, method))
}

/// Whether `after` is a state that the slot of `class.method` may leave when
/// it was entered in `before`: the location is recorded, exactly the handles
/// at `handles` were released, in that order, and nothing else changed but
/// the pending error.
pub open spec fn slot_left(
    before: Interp,
    class: Seq<char>,
    method: Seq<char>,
    handles: Seq<usize>,
    after: Interp,
) -> bool {
    &&& after.location == Some(location_text(class, method))
    &&& after.released =~= before.released + handles
    &&& after.not_implemented == before.not_implemented
}

/// The slot of a method that takes the receiver alone.
pub fn py_class_unary_slot<S, C, F>(
    py: &mut Python,
    class: &str,
    f: &str,
    slf: usize,
    method: F,
) -> (ret: C::R) where C: CallbackConverter<S>, F: FnOnce(&Python, &PyObject) -> PyResult<S>
    requires
        forall|p: Python, o: PyObject|
            p@ == entered(old(py)@, class@, f@) && o@ == slf ==> #[trigger] method.requires(
                (&p, &o),
            ),
    ensures
        exists|p: Python, o: PyObject, out: PyResult<S>|
            {
                &&& p@ == entered(old(py)@, class@, f@)
                &&& o@ == slf
                &&& #[trigger] method.ensures((&p, &o), out)
                &&& (ret, final(py)@) == callback_result::<S, C>(out, p@.release(slf))
            },
        slot_left(old(py)@, class@, f@, seq![slf], final(py)@),
{
    py.enter(location(class, f));
    let slf = PyObject::from_borrowed_ptr(py, slf);
    let ghost p = *py;
    let ghost o = slf;
    let out = method(py, &slf);
    slf.release_ref(py);
    let ret = handle_callback::<S, C>(py, out);
    assert(method.ensures((&p, &o), out));
    ret
}

/// The slot of a method that takes the receiver and one argument, which is
/// extracted from an object.  If the extraction fails, its error is the
/// outcome and the method is not called.
pub fn py_class_binary_slot<A, S, C, E, F>(
    py: &mut Python,
    class: &str,
    f: &str,
    slf: usize,
    arg: usize,
    extract: E,
    method: F,
) -> (ret: C::R) where
    C: CallbackConverter<S>,
    E: FnOnce(&Python, &PyObject) -> PyResult<A>,
    F: FnOnce(&Python, &PyObject, A) -> PyResult<S>,

    requires
        forall|p: Python, o: PyObject|
            p@ == entered(old(py)@, class@, f@) && o@ == arg ==> #[trigger] extract.requires(
                (&p, &o),
            ),
        forall|p: Python, o: PyObject, a: A|
            p@ == entered(old(py)@, class@, f@) && o@ == arg && #[trigger] extract.ensures(
                (&p, &o),
                Ok(a),
            ) ==> forall|r: PyObject| r@ == slf ==> #[trigger] method.requires((&p, &r, a)),
    ensures
        exists|p: Python, o: PyObject, extracted: PyResult<A>|
            {
                &&& p@ == entered(old(py)@, class@, f@)
                &&& o@ == arg
                &&& #[trigger] extract.ensures((&p, &o), extracted)
                &&& match extracted {
                    Ok(a) => exists|r: PyObject, out: PyResult<S>|
                        {
                            &&& r@ == slf
                            &&& #[trigger] method.ensures((&p, &r, a), out)
                            &&& (ret, final(py)@) == callback_result::<S, C>(
                                out,
                                p@.release(arg).release(slf),
                            )
                        },
                    Err(e) => (ret, final(py)@) == callback_result::<S, C>(
                        Err(e),
                        p@.release(arg).release(slf),
                    ),
                }
            },
        slot_left(old(py)@, class@, f@, seq![arg, slf], final(py)@),
{
    py.enter(location(class, f));
    let slf = PyObject::from_borrowed_ptr(py, slf);
    let arg = PyObject::from_borrowed_ptr(py, arg);
    let ghost p = *py;
    let ghost o = arg;
    let ghost r = slf;
    let extracted = extract(py, &arg);
    let ghost seen = extracted;
    let out = match extracted {
        Ok(a) => {
            let out = method(py, &slf, a);
            assert(method.ensures((&p, &r, a), out));
            out
        },
        Err(e) => Err(e),
    };
    arg.release_ref(py);
    slf.release_ref(py);
    let ret = handle_callback::<S, C>(py, out);
    assert(extract.ensures((&p, &o), seen));
    ret
}

/// The slot of a method that takes the receiver and two arguments, which are
/// extracted from objects, the first before the second.  The first extraction
/// that fails gives the outcome; what would follow it is not called.
pub fn py_class_ternary_slot<A1, A2, S, C, E1, E2, F>(
    py: &mut Python,
    class: &str,
    f: &str,
    slf: usize,
    arg1: usize,
    arg2: usize,
    extract1: E1,
    extract2: E2,
    method: F,
) -> (ret: C::R) where
    C: CallbackConverter<S>,
    E1: FnOnce(&Python, &PyObject) -> PyResult<A1>,
    E2: FnOnce(&Python, &PyObject) -> PyResult<A2>,
    F: FnOnce(&Python, &PyObject, A1, A2) -> PyResult<S>,

    requires
        forall|p: Python, o: PyObject|
            p@ == entered(old(py)@, class@, f@) && o@ == arg1 ==> #[trigger] extract1.requires(
                (&p, &o),
            ),
        forall|p: Python, o: PyObject|
            p@ == entered(old(py)@, class@, f@) && o@ == arg2 ==> #[trigger] extract2.requires(
                (&p, &o),
            ),
        forall|p: Python, o1: PyObject, a1: A1|
            p@ == entered(old(py)@, class@, f@) && o1@ == arg1 && #[trigger] extract1.ensures(
                (&p, &o1),
                Ok(a1),
            ) ==> forall|o2: PyObject, a2: A2|
                o2@ == arg2 && #[trigger] extract2.ensures((&p, &o2), Ok(a2)) ==> forall|
                    r: PyObject,
                |
                    r@ == slf ==> #[trigger] method.requires((&p, &r, a1, a2)),
    ensures
        exists|p: Python, o1: PyObject, first: PyResult<A1>|
            {
                &&& p@ == entered(old(py)@, class@, f@)
                &&& o1@ == arg1
                &&& #[trigger] extract1.ensures((&p, &o1), first)
                &&& match first {
                    Ok(a1) => exists|o2: PyObject, second: PyResult<A2>|
                        {
                            &&& o2@ == arg2
                            &&& #[trigger] extract2.ensures((&p, &o2), second)
                            &&& match second {
                                Ok(a2) => exists|r: PyObject, out: PyResult<S>|
                                    {
                                        &&& r@ == slf
                                        &&& #[trigger] method.ensures((&p, &r, a1, a2), out)
                                        &&& (ret, final(py)@) == callback_result::<S, C>(
                                            out,
                                            p@.release(arg1).release(arg2).release(slf),
                                        )
                                    },
                                Err(e) => (ret, final(py)@) == callback_result::<S, C>(
                                    Err(e),
                                    p@.release(arg1).release(arg2).release(slf),
                                ),
                            }
                        },
                    Err(e) => (ret, final(py)@) == callback_result::<S, C>(
                        Err(e),
                        p@.release(arg1).release(arg2).release(slf),
                    ),
                }
            },
        slot_left(old(py)@, class@, f@, seq![arg1, arg2, slf], final(py)@),
{
    py.enter(location(class, f));
    let slf = PyObject::from_borrowed_ptr(py, slf);
    let arg1 = PyObject::from_borrowed_ptr(py, arg1);
    let arg2 = PyObject::from_borrowed_ptr(py, arg2);
    let ghost p = *py;
    let ghost o1 = arg1;
    let ghost o2 = arg2;
    let ghost r = slf;
    let first = extract1(py, &arg1);
    let ghost seen1 = first;
    let out = match first {
        Ok(a1) => {
            let second = extract2(py, &arg2);
            let ghost seen2 = second;
            let out = match second {
                Ok(a2) => {
                    let out = method(py, &slf, a1, a2);
                    assert(method.ensures((&p, &r, a1, a2), out));
                    out
                },
                Err(e) => Err(e),
            };
            assert(extract2.ensures((&p, &o2), seen2));
            out
        },
        Err(e) => Err(e),
    };
    arg1.release_ref(py);
    arg2.release_ref(py);
    slf.release_ref(py);
    let ret = handle_callback::<S, C>(py, out);
    assert(extract1.ensures((&p, &o1), seen1));
    ret
}

/// The slot of a method that takes the receiver and one argument which
/// arrives in native form: nothing is extracted, and the method cannot fail.
pub fn py_class_binary_internal<A1, S, C, F>(
    py: &mut Python,
    class: &str,
    f: &str,
    slf: usize,
    arg1: A1,
    method: F,
) -> (ret: C::R) where C: CallbackConverter<S>, F: FnOnce(&Python, &PyObject, A1) -> S
    requires
        forall|p: Python, r: PyObject|
            p@ == entered(old(py)@, class@, f@) && r@ == slf ==> #[trigger] method.requires(
                (&p, &r, arg1),
            ),
    ensures
        exists|p: Python, r: PyObject, val: S|
            {
                &&& p@ == entered(old(py)@, class@, f@)
                &&& r@ == slf
                &&& #[trigger] method.ensures((&p, &r, arg1), val)
                &&& (ret, final(py)@) == callback_result::<S, C>(Ok(val), p@.release(slf))
            },
        slot_left(old(py)@, class@, f@, seq![slf], final(py)@),
{
    py.enter(location(class, f));
    let slf = PyObject::from_borrowed_ptr(py, slf);
    let ghost p = *py;
    let ghost r = slf;
    let val = method(py, &slf, arg1);
    assert(method.ensures((&p, &r, arg1), val));
    slf.release_ref(py);
    handle_callback::<S, C>(py, Ok(val))
}

/// The slot of a method that takes the receiver and two arguments which
/// arrive in native form.
pub fn py_class_ternary_internal<A1, A2, S, C, F>(
    py: &mut Python,
    class: &str,
    f: &str,
    slf: usize,
    arg1: A1,
    arg2: A2,
    method: F,
) -> (ret: C::R) where C: CallbackConverter<S>, F: FnOnce(&Python, &PyObject, A1, A2) -> S
    requires
        forall|p: Python, r: PyObject|
            p@ == entered(old(py)@, class@, f@) && r@ == slf ==> #[trigger] method.requires(
                (&p, &r, arg1, arg2),
            ),
    ensures
        exists|p: Python, r: PyObject, val: S|
            {
                &&& p@ == entered(old(py)@, class@, f@)
                &&& r@ == slf
                &&& #[trigger] method.ensures((&p, &r, arg1, arg2), val)
                &&& (ret, final(py)@) == callback_result::<S, C>(Ok(val), p@.release(slf))
            },
        slot_left(old(py)@, class@, f@, seq![slf], final(py)@),
{
    py.enter(location(class, f));
    let slf = PyObject::from_borrowed_ptr(py, slf);
    let ghost p = *py;
    let ghost r = slf;
    let val = method(py, &slf, arg1, arg2);
    assert(method.ensures((&p, &r, arg1, arg2), val));
    slf.release_ref(py);
    handle_callback::<S, C>(py, Ok(val))
}

/// A slot defers a comparison to the other operand: it returns the
/// runtime's "not implemented" object, encoded by `C`, from the state
/// `released`.
pub open spec fn defers<C: CallbackConverter<PyObject>>(
    released: Interp,
    ret: C::R,
    after: Interp,
) -> bool {
    exists|deferred: PyObject| #[trigger]
        deferred@ == released.not_implemented && (ret, after) == callback_result::<PyObject, C>(
            Ok(deferred),
            released,
        )
}

/// A comparison that is deferred through the object converter returns the
/// address of the "not implemented" object and raises nothing: the runtime
/// is left as it was when the handles had been released.
pub proof fn lemma_deferred_comparison(released: Interp, ret: usize, after: Interp)
    requires
        defers::<PyObjectCallbackConverter>(released, ret, after),
    ensures
        ret == released.not_implemented,
        after == released,
{
}

/// The slot of rich comparison: the receiver, one argument that is extracted
/// from an object, and a raw operator code.  The code is decoded first, then
/// the argument is extracted.  If either fails, nothing is raised and the
/// method is not called: the slot returns the runtime's "not implemented"
/// object, so that the runtime may ask the other operand.
pub fn py_class_richcompare_slot<A, C, E, F>(
    py: &mut Python,
    class: &str,
    f: &str,
    slf: usize,
    arg: usize,
    op: c_int,
    extract: E,
    method: F,
) -> (ret: C::R) where
    C: CallbackConverter<PyObject>,
    E: FnOnce(&Python, &PyObject) -> PyResult<A>,
    F: FnOnce(&Python, &PyObject, A, CompareOp) -> PyResult<PyObject>,

    requires
        compare_op_of(op as int) is Some ==> forall|p: Python, o: PyObject|
            p@ == entered(old(py)@, class@, f@) && o@ == arg ==> #[trigger] extract.requires(
                (&p, &o),
            ),
        compare_op_of(op as int) is Some ==> forall|p: Python, o: PyObject, a: A|
            p@ == entered(old(py)@, class@, f@) && o@ == arg && #[trigger] extract.ensures(
                (&p, &o),
                Ok(a),
            ) ==> forall|r: PyObject|
                r@ == slf ==> #[trigger] method.requires(
                    (&p, &r, a, compare_op_of(op as int).unwrap()),
                ),
    ensures
        match compare_op_of(op as int) {
            Some(decoded) => exists|p: Python, o: PyObject, extracted: PyResult<A>|
                {
                    &&& p@ == entered(old(py)@, class@, f@)
                    &&& o@ == arg
                    &&& #[trigger] extract.ensures((&p, &o), extracted)
                    &&& match extracted {
                        Ok(a) => exists|r: PyObject, out: PyResult<PyObject>|
                            {
                                &&& r@ == slf
                                &&& #[trigger] method.ensures((&p, &r, a, decoded), out)
                                &&& (ret, final(py)@) == callback_result::<PyObject, C>(
                                    out,
                                    p@.release(arg).release(slf),
                                )
                            },
                        Err(_) => defers::<C>(p@.release(arg).release(slf), ret, final(py)@),
                    }
                },
            None => defers::<C>(
                entered(old(py)@, class@, f@).release(arg).release(slf),
                ret,
                final(py)@,
            ),
        },
        slot_left(old(py)@, class@, f@, seq![arg, slf], final(py)@),
{
    py.enter(location(class, f));
    let slf = PyObject::from_borrowed_ptr(py, slf);
    let arg = PyObject::from_borrowed_ptr(py, arg);
    let ghost p = *py;
    let ghost o = arg;
    let ghost r = slf;
    match extract_op(py, op) {
        Ok(decoded) => {
            let extracted = extract(py, &arg);
            let ghost seen = extracted;
            match extracted {
                Ok(a) => {
                    let out = method(py, &slf, a, decoded);
                    assert(method.ensures((&p, &r, a, decoded), out));
                    arg.release_ref(py);
                    slf.release_ref(py);
                    let ret = handle_callback::<PyObject, C>(py, out);
                    assert(extract.ensures((&p, &o), seen));
                    ret
                },
                Err(_) => {
                    let deferred = py.NotImplemented();
                    let ghost d = deferred;
                    arg.release_ref(py);
                    slf.release_ref(py);
                    let ret = handle_callback::<PyObject, C>(py, Ok(deferred));
                    assert(d@ == p@.release(arg@).release(slf@).not_implemented);
                    assert(extract.ensures((&p, &o), seen));
                    ret
                },
            }
        },
        Err(_) => {
            let deferred = py.NotImplemented();
            let ghost d = deferred;
            arg.release_ref(py);
            slf.release_ref(py);
            let ret = handle_callback::<PyObject, C>(py, Ok(deferred));
            assert(d@ == p@.release(arg@).release(slf@).not_implemented);
            ret
        },
    }
}

/// What a containment test returns when the extraction of its argument
/// failed with `e`: a type error answers "no" and raises nothing, every other
/// error is raised and answered by the sentinel.
pub proof fn lemma_contains_extraction_failure(e: PyErr, before: Interp)
    ensures
        callback_result::<bool, BoolConverter>(type_error_to_false_spec(e), before) == (
            if e.ptype == ExcType::TypeError {
                (0i32, before)
            } else {
                (-1i32, before.raise(e@))
            }
        ),
{
}

/// The slot of the containment test: the receiver and one argument that is
/// extracted from an object.  An extraction that fails with a type error
/// answers `false`; one that fails with any other error fails the test with
/// that error.
pub fn py_class_contains_slot<A, E, F>(
    py: &mut Python,
    class: &str,
    f: &str,
    slf: usize,
    arg: usize,
    extract: E,
    method: F,
) -> (ret: c_int) where
    E: FnOnce(&Python, &PyObject) -> PyResult<A>,
    F: FnOnce(&Python, &PyObject, A) -> PyResult<bool>,

    requires
        forall|p: Python, o: PyObject|
            p@ == entered(old(py)@, class@, f@) && o@ == arg ==> #[trigger] extract.requires(
                (&p, &o),
            ),
        forall|p: Python, o: PyObject, a: A|
            p@ == entered(old(py)@, class@, f@) && o@ == arg && #[trigger] extract.ensures(
                (&p, &o),
                Ok(a),
            ) ==> forall|r: PyObject| r@ == slf ==> #[trigger] method.requires((&p, &r, a)),
    ensures
        exists|p: Python, o: PyObject, extracted: PyResult<A>|
            {
                &&& p@ == entered(old(py)@, class@, f@)
                &&& o@ == arg
                &&& #[trigger] extract.ensures((&p, &o), extracted)
                &&& match extracted {
                    Ok(a) => exists|r: PyObject, out: PyResult<bool>|
                        {
                            &&& r@ == slf
                            &&& #[trigger] method.ensures((&p, &r, a), out)
                            &&& (ret, final(py)@) == callback_result::<bool, BoolConverter>(
                                out,
                                p@.release(arg).release(slf),
                            )
                        },
                    Err(e) => (ret, final(py)@) == callback_result::<bool, BoolConverter>(
                        type_error_to_false_spec(e),
                        p@.release(arg).release(slf),
                    ),
                }
            },
        slot_left(old(py)@, class@, f@, seq![arg, slf], final(py)@),
{
    py.enter(location(class, f));
    let slf = PyObject::from_borrowed_ptr(py, slf);
    let arg = PyObject::from_borrowed_ptr(py, arg);
    let ghost p = *py;
    let ghost o = arg;
    let ghost r = slf;
    let extracted = extract(py, &arg);
    let ghost seen = extracted;
    let out = match extracted {
        Ok(a) => {
            let out = method(py, &slf, a);
            assert(method.ensures((&p, &r, a), out));
            out
        },
        Err(e) => type_error_to_false(py, e),
    };
    arg.release_ref(py);
    slf.release_ref(py);
    let ret = handle_callback::<bool, BoolConverter>(py, out);
    assert(extract.ensures((&p, &o), seen));
    ret
}

/// The slot of a binary operator of the number protocol.  Neither operand is
/// taken to be an instance of the class: both are adopted as plain objects
/// and handed to the method as a pair, and both are released, the left one
/// first.
pub fn py_class_binary_numeric_slot<F>(
    py: &mut Python,
    class: &str,
    f: &str,
    lhs: usize,
    rhs: usize,
    method: F,
) -> (ret: usize) where F: FnOnce(&Python, &PyObject, &PyObject) -> PyResult<PyObject>
    requires
        forall|p: Python, l: PyObject, r: PyObject|
            p@ == entered(old(py)@, class@, f@) && l@ == lhs && r@ == rhs
                ==> #[trigger] method.requires((&p, &l, &r)),
    ensures
        exists|p: Python, l: PyObject, r: PyObject, out: PyResult<PyObject>|
            {
                &&& p@ == entered(old(py)@, class@, f@)
                &&& l@ == lhs
                &&& r@ == rhs
                &&& #[trigger] method.ensures((&p, &l, &r), out)
                &&& (ret, final(py)@) == callback_result::<PyObject, PyObjectCallbackConverter>(
                    out,
                    p@.release(lhs).release(rhs),
                )
            },
        slot_left(old(py)@, class@, f@, seq![lhs, rhs], final(py)@),
{
    py.enter(location(class, f));
    let lhs = PyObject::from_borrowed_ptr(py, lhs);
    let rhs = PyObject::from_borrowed_ptr(py, rhs);
    let ghost p = *py;
    let ghost l = lhs;
    let ghost r = rhs;
    let out = method(py, &lhs, &rhs);
    assert(method.ensures((&p, &l, &r), out));
    lhs.release_ref(py);
    rhs.release_ref(py);
    handle_callback::<PyObject, PyObjectCallbackConverter>(py, out)
}

/// What a slot with a parameter list returns, and the state it leaves, when
/// its parser gave `parsed` under the token `p`: on a parse error the error
/// is the outcome and nothing is adopted; otherwise the receiver is adopted,
/// the method is called with the parsed arguments, and the receiver is
/// released.
pub open spec fn parsed_call_returns<A, F: FnOnce(&Python, &PyObject, A) -> PyResult<PyObject>>(
    p: Python,
    slf: usize,
    parsed: PyResult<A>,
    method: F,
    ret: usize,
    after: Interp,
) -> bool {
    match parsed {
        Ok(a) => exists|r: PyObject, out: PyResult<PyObject>|
            {
                &&& r@ == slf
                &&& #[trigger] method.ensures((&p, &r, a), out)
                &&& (ret, after) == callback_result::<PyObject, PyObjectCallbackConverter>(
                    out,
                    p@.release(slf),
                )
            },
        Err(e) => (ret, after) == callback_result::<PyObject, PyObjectCallbackConverter>(
            Err(e),
            p@,
        ),
    }
}

/// The slot that calls an instance: positional and keyword arguments are
/// parsed against the parameter list of the method, which is then called
/// with the receiver and the parsed arguments.
pub fn py_class_call_slot<A, P, F>(
    py: &mut Python,
    class: &str,
    f: &str,
    slf: usize,
    args: usize,
    kwargs: usize,
    parse: P,
    method: F,
) -> (ret: usize) where
    P: FnOnce(&Python, &str, usize, usize) -> PyResult<A>,
    F: FnOnce(&Python, &PyObject, A) -> PyResult<PyObject>,

    requires
        forall|p: Python, at: &str|
            p@ == entered(old(py)@, class@, f@) && at@ == location_text(class@, f@)
                ==> #[trigger] parse.requires((&p, at, args, kwargs)),
        forall|p: Python, at: &str, a: A|
            p@ == entered(old(py)@, class@, f@) && at@ == location_text(class@, f@)
                && #[trigger] parse.ensures((&p, at, args, kwargs), Ok(a)) ==> forall|r: PyObject|
                r@ == slf ==> #[trigger] method.requires((&p, &r, a)),
    ensures
        exists|p: Python, at: &str, parsed: PyResult<A>|
            {
                &&& p@ == entered(old(py)@, class@, f@)
                &&& at@ == location_text(class@, f@)
                &&& #[trigger] parse.ensures((&p, at, args, kwargs), parsed)
                &&& parsed_call_returns(p, slf, parsed, method, ret, final(py)@)
            },
        slot_left(old(py)@, class@, f@, seq![slf], final(py)@) || slot_left(
            old(py)@,
            class@,
            f@,
            seq![],
            final(py)@,
        ),
{
    let at = location(class, f);
    py.enter(at.clone());
    let ghost p = *py;
    let at_text = at.as_str();
    let parsed = parse(py, at_text, args, kwargs);
    let ghost seen = parsed;
    let out = match parsed {
        Ok(a) => {
            let slf = PyObject::from_borrowed_ptr(py, slf);
            let ghost r = slf;
            let out = method(py, &slf, a);
            assert(method.ensures((&p, &r, a), out));
            slf.release_ref(py);
            out
        },
        Err(e) => Err(e),
    };
    let ret = handle_callback::<PyObject, PyObjectCallbackConverter>(py, out);
    assert(parse.ensures((&p, at_text, args, kwargs), seen));
    ret
}

/// The slot that makes a new instance: positional and keyword arguments are
/// parsed against the parameter list of the constructor, which is then called
/// with the type object `cls` and the parsed arguments.
pub fn py_class_wrap_newfunc<A, P, F>(
    py: &mut Python,
    class: &str,
    f: &str,
    cls: usize,
    args: usize,
    kwargs: usize,
    parse: P,
    method: F,
) -> (ret: usize) where
    P: FnOnce(&Python, &str, usize, usize) -> PyResult<A>,
    F: FnOnce(&Python, &PyObject, A) -> PyResult<PyObject>,

    requires
        forall|p: Python, at: &str|
            p@ == entered(old(py)@, class@, f@) && at@ == location_text(class@, f@)
                ==> #[trigger] parse.requires((&p, at, args, kwargs)),
        forall|p: Python, at: &str, a: A|
            p@ == entered(old(py)@, class@, f@) && at@ == location_text(class@, f@)
                && #[trigger] parse.ensures((&p, at, args, kwargs), Ok(a)) ==> forall|r: PyObject|
                r@ == cls ==> #[trigger] method.requires((&p, &r, a)),
    ensures
        exists|p: Python, at: &str, parsed: PyResult<A>|
            {
                &&& p@ == entered(old(py)@, class@, f@)
                &&& at@ == location_text(class@, f@)
                &&& #[trigger] parse.ensures((&p, at, args, kwargs), parsed)
                &&& parsed_call_returns(p, cls, parsed, method, ret, final(py)@)
            },
        slot_left(old(py)@, class@, f@, seq![cls], final(py)@) || slot_left(
            old(py)@,
            class@,
            f@,
            seq![],
            final(py)@,
        ),
{
    let at = location(class, f);
    py.enter(at.clone());
    let ghost p = *py;
    let at_text = at.as_str();
    let parsed = parse(py, at_text, args, kwargs);
    let ghost seen = parsed;
    let out = match parsed {
        Ok(a) => {
            let cls = PyObject::from_borrowed_ptr(py, cls);
            let ghost r = cls;
            let ret = method(py, &cls, a);
            assert(method.ensures((&p, &r, a), ret));
            cls.release_ref(py);
            ret
        },
        Err(e) => Err(e),
    };
    let ret = handle_callback::<PyObject, PyObjectCallbackConverter>(py, out);
    assert(parse.ensures((&p, at_text, args, kwargs), seen));
    ret
}

} // verus!
