//! Handles by which constraints name the bodies they bind.

use vstd::prelude::*;

verus! {

/// Opaque handle of a body in the host's store.
///
/// A constraint never owns a body; it only names it. The handle carries the
/// host's identifier as 64 raw bits and gives them no meaning.
#[derive(Clone, Copy, Debug, PartialEq, Eq, Structural, Hash)]
pub struct BodyId(pub u64);

impl BodyId {
    /// The handle made of the given bits.
    pub fn from_bits(bits: u64) -> (id: Self)
        ensures
            id == BodyId(bits),
    {
        BodyId(bits)
    }

    /// The bits of the handle.
    pub fn to_bits(self) -> (bits: u64)
        ensures
            bits == self.0,
    {
        self.0
    }
}

} // verus!
