//! How the outcome of a native method becomes the value a slot returns.

use vstd::prelude::*;
use crate::err::PyResult;
use crate::python::{Interp, PyObject, Python};

verus! {

/// A strategy that encodes the success value of a native method into the
/// return type of one slot, and names the one value of that type which tells
/// the runtime that an error is already raised.
pub trait CallbackConverter<S> {
    /// The type the slot returns.
    type R;

    /// The value that `val` is encoded as, and the state of the runtime after
    /// the encoding, which may itself raise an error.
    spec fn convert_spec(val: S, before: Interp) -> (Self::R, Interp);

    /// The value that signals an error that is already raised.
    spec fn error_value_spec() -> Self::R;

    /// Encodes a success value.
    fn convert(val: S, py: &mut Python) -> (r: Self::R)
        ensures
            (r, final(py)@) == Self::convert_spec(val, old(py)@),
    ;

    /// The error sentinel.
    fn error_value() -> (r: Self::R)
        ensures
            r == Self::error_value_spec(),
    ;

    /// Encoding touches nothing of the runtime but the pending error.
    proof fn lemma_convert_raises_only(val: S, before: Interp)
        ensures
            before.differs_in_raised_only(Self::convert_spec(val, before).1),
    ;
}

/// What a slot returns for the outcome `out` of its native method, and the
/// state of the runtime afterwards: a success is encoded by the converter, an
/// error is raised and answered by the converter's sentinel.
pub open spec fn callback_result<S, C: CallbackConverter<S>>(out: PyResult<S>, before: Interp) -> (
    C::R,
    Interp,
) {
    match out {
        Ok(val) => C::convert_spec(val, before),
        Err(e) => (C::error_value_spec(), before.raise(e@)),
    }
}

/// Threads the outcome of a native method through the converter `C`.
pub fn handle_callback<S, C: CallbackConverter<S>>(py: &mut Python, out: PyResult<S>) -> (ret:
    C::R)
    ensures
        (ret, final(py)@) == callback_result::<S, C>(out, old(py)@),
        old(py)@.differs_in_raised_only(final(py)@),
{
    match out {
        Ok(val) => {
            proof {
                C::lemma_convert_raises_only(val, py@);
            }
            C::convert(val, py)
        },
        Err(e) => {
            e.restore(py);
            C::error_value()
        },
    }
}

/// Returns an object to the runtime: the slot hands over the object's address
/// together with the reference; a null address signals an error.
pub struct PyObjectCallbackConverter;

impl CallbackConverter<PyObject> for PyObjectCallbackConverter {
    type R = usize;

    open spec fn convert_spec(val: PyObject, before: Interp) -> (usize, Interp) {
        (val@, before)
    }

    open spec fn error_value_spec() -> usize {
        0
    }

    fn convert(val: PyObject, py: &mut Python) -> (r: usize) {
        val.steal_ptr()
    }

    fn error_value() -> (r: usize) {
        0
    }

    proof fn lemma_convert_raises_only(val: PyObject, before: Interp) {
    }
}

} // verus!
