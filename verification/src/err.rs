//! Errors of the runtime, as values.

use vstd::prelude::*;
use crate::python::Python;

verus! {

/// The category of an error: the runtime's handle of an exception type.
/// Categories are told apart by identity, never by message text.
#[derive(Clone, Copy, Debug, PartialEq, Eq, Structural)]
pub enum ExcType {
    /// An argument has the right type and a value that is not acceptable.
    ValueError,
    /// An argument has the wrong type.
    TypeError,
    /// A result does not fit the width it must be returned in.
    OverflowError,
    /// An iterator has no further value.
    StopIteration,
    /// Any category that this library does not name, by the number the
    /// embedding program gives it.
    Other(u32),
}

/// What contracts say of an error: its category and the text it carries.
pub struct PyErrView {
    pub ptype: ExcType,
    pub pvalue: Option<Seq<char>>,
}

/// An error of the runtime, held by value until it is either raised
/// (see [`PyErr::restore`]) or consumed by a recovery check.
#[derive(Debug, PartialEq, Eq)]
pub struct PyErr {
    /// The category.
    pub ptype: ExcType,
    /// The message, if the error carries one.
    pub pvalue: Option<String>,
}

/// The outcome of a native method.
pub type PyResult<T> = Result<T, PyErr>;

/// The text of an optional message.
pub open spec fn text_of(s: Option<String>) -> Option<Seq<char>> {
    match s {
        Some(t) => Some(t@),
        None => None,
    }
}

impl View for PyErr {
    type V = PyErrView;

    open spec fn view(&self) -> PyErrView {
        PyErrView { ptype: self.ptype, pvalue: text_of(self.pvalue) }
    }
}

impl Clone for PyErr {
    fn clone(&self) -> (e: PyErr)
        ensures
            e == *self,
    {
        let pvalue = match &self.pvalue {
            Some(text) => Some(text.clone()),
            None => None,
        };
        PyErr { ptype: self.ptype, pvalue }
    }
}

impl PyErr {
    /// An error of category `ptype` with the payload `pvalue`.
    pub fn new_lazy_init(ptype: ExcType, pvalue: Option<String>) -> (e: PyErr)
        ensures
            e.ptype == ptype,
            e.pvalue == pvalue,
            e@ == (PyErrView { ptype, pvalue: text_of(pvalue) }),
    {
        PyErr { ptype, pvalue }
    }

    /// Whether the error's category is exactly `exc`.
    pub fn matches(&self, _py: &Python, exc: ExcType) -> (r: bool)
        ensures
            r == (self.ptype == exc),
    {
        self.ptype == exc
    }

    /// Raises the error: it becomes the runtime's pending error, in place of
    /// whatever was pending before.
    pub fn restore(self, py: &mut Python)
        ensures
            final(py)@ == old(py)@.raise(self@),
    {
        py.set_raised(self);
    }
}

} // verus!
