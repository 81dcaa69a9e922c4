//! Names and constants of the host runtime's slot interface.

use vstd::prelude::*;

verus! {

/// The C `int` of the slot interface.
#[allow(non_camel_case_types)]
pub type c_int = i32;

/// The signed size word of the runtime.
#[allow(non_camel_case_types)]
pub type Py_ssize_t = isize;

/// The hash word of the runtime.
#[allow(non_camel_case_types)]
pub type Py_hash_t = isize;

/// Raw operator code of `<`.
#[allow(non_upper_case_globals)]
pub const Py_LT: c_int = 0;

/// Raw operator code of `<=`.
#[allow(non_upper_case_globals)]
pub const Py_LE: c_int = 1;

/// Raw operator code of `==`.
#[allow(non_upper_case_globals)]
pub const Py_EQ: c_int = 2;

/// Raw operator code of `!=`.
#[allow(non_upper_case_globals)]
pub const Py_NE: c_int = 3;

/// Raw operator code of `>`.
#[allow(non_upper_case_globals)]
pub const Py_GT: c_int = 4;

/// Raw operator code of `>=`.
#[allow(non_upper_case_globals)]
pub const Py_GE: c_int = 5;

} // verus!
