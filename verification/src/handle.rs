//! Opaque ciphertext references.
//!
//! The Encrypted Compute Service keeps every amount as a ciphertext and
//! hands this side a fixed-width reference to it.  The vault never sees a
//! plaintext: it stores handles, compares them, and replaces them with
//! the handles the service returns.  The type deliberately carries no
//! arithmetic, so no flow can slip into plaintext-style math on an
//! encrypted field.

use vstd::prelude::*;

verus! {

/// An opaque 128-bit reference to a ciphertext held by the Encrypted
/// Compute Service.  Equality-comparable and nothing more; the zero
/// handle means "no value recorded yet".
#[derive(Clone, Copy, Debug, PartialEq, Eq, Structural)]
pub struct Handle(pub u128);

impl Handle {
    /// The zero handle: no value recorded yet.
    pub fn none() -> (r: Handle)
        ensures
            r == Handle(0u128),
    {
        Handle(0)
    }
}

} // verus!
