use vstd::prelude::*;

verus! {

/// Stable identifier of a host entity, held as the fixed-width integer that
/// physics objects carry in their user-data slot.
#[derive(Clone, Copy, Debug, PartialEq, Eq, Structural, Hash)]
pub struct EntityId {
    pub bits: u64,
}

impl EntityId {
    /// Rebuilds an entity identifier from its integer encoding.
    pub fn from_bits(bits: u64) -> (r: EntityId)
        ensures
            r.bits == bits,
    {
        EntityId { bits }
    }

    /// The integer encoding of this identifier; `from_bits` inverts it.
    pub fn to_bits(&self) -> (r: u64)
        ensures
            r == self.bits,
    {
        self.bits
    }
}

/// Opaque identifier minted by the physics engine for a body or collider.
#[derive(Clone, Copy, Debug, PartialEq, Eq, Structural, Hash)]
pub struct ObjectHandle {
    pub raw: u64,
}

impl ObjectHandle {
    pub fn from_raw(raw: u64) -> (r: ObjectHandle)
        ensures
            r.raw == raw,
    {
        ObjectHandle { raw }
    }
}

} // verus!
