//! Compile-time records of whether a mandatory builder slot has been filled.
use vstd::prelude::*;

verus! {

/// A type-level flag attached to one mandatory slot of a builder.
pub trait ToAssign {
    /// Whether the slot this flag belongs to holds a value.
    spec fn is_set() -> bool;
}

/// The slot has been filled.
#[derive(Debug, Clone, Copy)]
pub struct Yes;

/// The slot is still empty.
#[derive(Debug, Clone, Copy)]
pub struct No;

impl ToAssign for Yes {
    open spec fn is_set() -> bool {
        true
    }
}

impl ToAssign for No {
    open spec fn is_set() -> bool {
        false
    }
}

} // verus!
