//! The execution-context token and the object handles adopted under it.

use vstd::prelude::*;
use crate::err::{PyErr, PyErrView, text_of};

verus! {

/// The state of the runtime as far as slot wiring touches it.
pub struct Interp {
    /// The pending error, if one is raised.
    pub raised: Option<PyErrView>,
    /// The addresses of the handles released so far, oldest first.
    pub released: Seq<usize>,
    /// The location string of the slot that was entered last.
    pub location: Option<Seq<char>>,
    /// The address of the runtime's "not implemented" object.
    pub not_implemented: usize,
}

impl Interp {
    /// The state after `e` was raised.
    pub open spec fn raise(self, e: PyErrView) -> Interp {
        Interp { raised: Some(e), ..self }
    }

    /// The state after the pending error was taken away.
    pub open spec fn clear(self) -> Interp {
        Interp { raised: None, ..self }
    }

    /// The state after the handle at `ptr` was released.
    pub open spec fn release(self, ptr: usize) -> Interp {
        Interp { released: self.released.push(ptr), ..self }
    }

    /// The state after the slot named `location` was entered.
    pub open spec fn enter(self, location: Seq<char>) -> Interp {
        Interp { location: Some(location), ..self }
    }

    /// Whether `after` differs from this state in nothing but the pending
    /// error.
    pub open spec fn differs_in_raised_only(self, after: Interp) -> bool {
        after == (Interp { raised: after.raised, ..self })
    }
}

/// The view of an optional error.
pub open spec fn raised_view(e: Option<PyErr>) -> Option<PyErrView> {
    match e {
        Some(e) => Some(e@),
        None => None,
    }
}

/// The execution-context token.  Holding it certifies that the caller runs
/// under the runtime's global serialization guarantee; it carries what the
/// slot wiring does to the runtime.
pub struct Python {
    raised: Option<PyErr>,
    released: Vec<usize>,
    location: Option<String>,
    not_implemented: usize,
}

impl View for Python {
    type V = Interp;

    closed spec fn view(&self) -> Interp {
        Interp {
            raised: raised_view(self.raised),
            released: self.released@,
            location: text_of(self.location),
            not_implemented: self.not_implemented,
        }
    }
}

impl Python {
    /// A token for a runtime whose "not implemented" object lives at
    /// `not_implemented`: nothing raised, nothing released, no slot entered.
    pub fn new(not_implemented: usize) -> (py: Python)
        ensures
            py@ == (Interp {
                raised: None,
                released: Seq::empty(),
                location: None,
                not_implemented,
            }),
    {
        Python { raised: None, released: Vec::new(), location: None, not_implemented }
    }

    /// A new handle to the runtime's "not implemented" object.
    #[allow(non_snake_case)]
    pub fn NotImplemented(&self) -> (obj: PyObject)
        ensures
            obj@ == self@.not_implemented,
    {
        PyObject { ptr: self.not_implemented }
    }

    /// Whether an error is pending.
    pub fn err_occurred(&self) -> (r: bool)
        ensures
            r == self@.raised.is_some(),
    {
        self.raised.is_some()
    }

    /// Takes the pending error away from the runtime.
    pub fn fetch(&mut self) -> (e: Option<PyErr>)
        ensures
            raised_view(e) == old(self)@.raised,
            final(self)@ == old(self)@.clear(),
    {
        self.raised.take()
    }

    /// The addresses of the handles released so far, oldest first.
    pub fn released(&self) -> (r: &Vec<usize>)
        ensures
            r@ == self@.released,
    {
        &self.released
    }

    /// The location string of the slot that was entered last.
    pub fn location(&self) -> (r: Option<&String>)
        ensures
            r.is_some() == self@.location.is_some(),
            r.is_some() ==> Some(r.unwrap()@) == self@.location,
    {
        self.location.as_ref()
    }

    /// Records that the slot named `location` is entered.
    pub fn enter(&mut self, location: String)
        ensures
            final(self)@ == old(self)@.enter(location@),
    {
        self.location = Some(location);
    }

    /// Makes `e` the pending error.
    pub fn set_raised(&mut self, e: PyErr)
        ensures
            final(self)@ == old(self)@.raise(e@),
    {
        self.raised = Some(e);
    }

    /// Records the release of the handle at `ptr`.
    pub fn release(&mut self, ptr: usize)
        ensures
            final(self)@ == old(self)@.release(ptr),
    {
        self.released.push(ptr);
    }
}

/// A handle to an object of the runtime.  A handle is adopted once and
/// released once; its view is the object's address.
pub struct PyObject {
    ptr: usize,
}

impl View for PyObject {
    type V = usize;

    closed spec fn view(&self) -> usize {
        self.ptr
    }
}

impl PyObject {
    /// Adopts the raw object at `ptr` under the token.  Adoption changes
    /// nothing in the runtime.
    pub fn from_borrowed_ptr(_py: &Python, ptr: usize) -> (obj: PyObject)
        ensures
            obj@ == ptr,
    {
        PyObject { ptr }
    }

    /// The object's address.
    pub fn as_ptr(&self) -> (ptr: usize)
        ensures
            ptr == self@,
    {
        self.ptr
    }

    /// Gives the handle up for the object's address, without a release: the
    /// receiver of the address owns the reference from then on.
    pub fn steal_ptr(self) -> (ptr: usize)
        ensures
            ptr == self@,
    {
        self.ptr
    }

    /// Releases the handle.
    pub fn release_ref(self, py: &mut Python)
        ensures
            final(py)@ == old(py)@.release(self@),
    {
        py.release(self.ptr);
    }
}

} // verus!
