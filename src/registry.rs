use std::collections::HashMap;
use vstd::prelude::*;
use vstd::std_specs::hash::group_hash_axioms;

use crate::ids::{EntityId, ObjectHandle};

verus! {

broadcast use group_hash_axioms;

/// Why a handle/entity pair could not be recorded.
#[derive(Clone, Copy, Debug, PartialEq, Eq, Structural)]
pub enum RegistryError {
    /// The handle already names a live physics object.
    HandleInUse,
    /// The entity already owns a live physics object.
    EntityInUse,
}

/// Bidirectional mapping between live physics handles and host entities.
///
/// Its view maps the raw handle to the entity bits; the mapping is one to one.
pub struct Registry {
    to_entity: HashMap<u64, u64>,
    to_handle: HashMap<u64, u64>,
}

/// Whether some live handle maps to the entity `e`.
pub open spec fn has_entity(m: Map<u64, u64>, e: u64) -> bool {
    exists|h: u64| m.contains_key(h) && m[h] == e
}

impl View for Registry {
    type V = Map<u64, u64>;

    closed spec fn view(&self) -> Map<u64, u64> {
        self.to_entity@
    }
}

impl Registry {
    /// The two directions agree: each is the inverse of the other.
    pub closed spec fn wf(&self) -> bool {
        &&& forall|h: u64| #[trigger]
            self.to_entity@.contains_key(h) ==> self.to_handle@.contains_key(self.to_entity@[h])
                && self.to_handle@[self.to_entity@[h]] == h
        &&& forall|e: u64| #[trigger]
            self.to_handle@.contains_key(e) ==> self.to_entity@.contains_key(self.to_handle@[e])
                && self.to_entity@[self.to_handle@[e]] == e
    }

    /// No two live handles belong to the same entity.
    pub proof fn lemma_one_handle_per_entity(&self, h1: u64, h2: u64)
        requires
            self.wf(),
            self@.contains_key(h1),
            self@.contains_key(h2),
            self@[h1] == self@[h2],
        ensures
            h1 == h2,
    {
        assert(self.to_handle@[self.to_entity@[h1]] == h1);
        assert(self.to_handle@[self.to_entity@[h2]] == h2);
    }

    pub fn new() -> (r: Registry)
        ensures
            r.wf(),
            r@ == Map::<u64, u64>::empty(),
    {
        Registry { to_entity: HashMap::new(), to_handle: HashMap::new() }
    }

    /// Records the entity that owns a newly created physics object. A live
    /// mapping is never overwritten.
    pub fn register(&mut self, handle: ObjectHandle, entity: EntityId) -> (r: Result<
        (),
        RegistryError,
    >)
        requires
            old(self).wf(),
        ensures
            final(self).wf(),
            r == Ok::<(), RegistryError>(()) <==> !old(self)@.contains_key(handle.raw) && !has_entity(
                old(self)@,
                entity.bits,
            ),
            r == Err::<(), RegistryError>(RegistryError::HandleInUse) <==> old(self)@.contains_key(
                handle.raw,
            ),
            r == Err::<(), RegistryError>(RegistryError::EntityInUse) <==> !old(self)@.contains_key(
                handle.raw,
            ) && has_entity(old(self)@, entity.bits),
            r is Ok ==> final(self)@ == old(self)@.insert(handle.raw, entity.bits),
            r is Err ==> final(self)@ == old(self)@,
    {
        if self.to_entity.contains_key(&handle.raw) {
            return Err(RegistryError::HandleInUse);
        }
        if self.to_handle.contains_key(&entity.bits) {
            assert(self@.contains_key(self.to_handle@[entity.bits]));
            return Err(RegistryError::EntityInUse);
        }
        assert(!has_entity(self@, entity.bits));
        self.to_entity.insert(handle.raw, entity.bits);
        self.to_handle.insert(entity.bits, handle.raw);
        Ok(())
    }

    /// Forgets a physics object that was destroyed, returning its entity.
    pub fn unregister(&mut self, handle: ObjectHandle) -> (r: Option<EntityId>)
        requires
            old(self).wf(),
        ensures
            final(self).wf(),
            final(self)@ == old(self)@.remove(handle.raw),
            r == (if old(self)@.contains_key(handle.raw) {
                Some(EntityId { bits: old(self)@[handle.raw] })
            } else {
                None
            }),
    {
        match self.to_entity.remove(&handle.raw) {
            Some(bits) => {
                self.to_handle.remove(&bits);
                Some(EntityId { bits })
            },
            None => None,
        }
    }

    /// The entity that owns the live object `handle`, if any.
    pub fn entity_of(&self, handle: ObjectHandle) -> (r: Option<EntityId>)
        requires
            self.wf(),
        ensures
            r == (if self@.contains_key(handle.raw) {
                Some(EntityId { bits: self@[handle.raw] })
            } else {
                None
            }),
    {
        match self.to_entity.get(&handle.raw) {
            Some(bits) => Some(EntityId { bits: *bits }),
            None => None,
        }
    }

    /// The live object owned by `entity`, if any.
    pub fn handle_of(&self, entity: EntityId) -> (r: Option<ObjectHandle>)
        requires
            self.wf(),
        ensures
            r is None <==> !has_entity(self@, entity.bits),
            r matches Some(h) ==> self@.contains_key(h.raw) && self@[h.raw] == entity.bits,
    {
        match self.to_handle.get(&entity.bits) {
            Some(raw) => Some(ObjectHandle { raw: *raw }),
            None => {
                assert(!has_entity(self@, entity.bits));
                None
            },
        }
    }
}

} // verus!
