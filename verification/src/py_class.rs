//! Wiring of native methods into the protocol slots of a type.

use vstd::prelude::*;

pub mod slots;
pub mod type_object;
pub mod wrap;

verus! {

/// The six comparisons that the rich-comparison slot is asked for.
#[derive(Clone, Copy, Debug, PartialEq, Eq, Structural)]
pub enum CompareOp {
    /// `<`
    Lt,
    /// `<=`
    Le,
    /// `==`
    Eq,
    /// `!=`
    Ne,
    /// `>`
    Gt,
    /// `>=`
    Ge,
}

} // verus!
