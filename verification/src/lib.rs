//! Slot wiring for extension types of a dynamic object runtime.
//!
//! The host runtime dispatches built-in operations (comparison, hashing,
//! arithmetic, item access, containment, calling, iteration, construction)
//! through the slots of a per-type record.  This library holds the rules of
//! that boundary: how a raw operator code is decoded, how the outcome of a
//! native method is encoded into the value a slot must return, in which order
//! object handles are released, and how a sparse list of named slots becomes a
//! complete record.  The state of the runtime that these rules touch is
//! carried by the [`python::Python`] token, and every rule is stated over its
//! view.

pub mod err;
pub mod ffi;
pub mod function;
pub mod py_class;
pub mod python;
