//! The error kinds an operation can raise. Every error is terminal for the
//! operation that raised it: the operation either fully succeeds or makes no
//! observable change to the store.

use vstd::prelude::*;

verus! {

/// Why an operation on the record store failed.
#[derive(Clone, Copy, Debug, PartialEq, Eq, Structural)]
pub enum ChainError {
    /// The identity does not resolve to an existing record of the expected
    /// type.
    NotFound,
    /// A creation collided with an already occupied identity slot.
    DuplicateIdentity,
    /// A raw status / organization / payment-method code from the host
    /// boundary is outside its defined set.
    InvalidEnumValue,
}

} // verus!
