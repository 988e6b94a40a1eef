//! The record store: durable key-addressed storage holding one record per
//! identity. It supports insert-once, in-place field update and read, but
//! never physical removal — termination of a record is a field mutation,
//! not a deletion.
//!
//! The store also owns the fresh-identity allocator for its record type's
//! namespace: identities are handed out in increasing order, and the store
//! maintains the invariant that every occupied identity lies below the next
//! one to be issued. That invariant is what makes freshly created records
//! provably collision-free.

use std::collections::HashMap;

use vstd::prelude::*;

use crate::errors::ChainError;
use crate::records::Identity;

verus! {

broadcast use vstd::std_specs::hash::group_hash_axioms;

/// A keyed store of records of one type, together with the fresh-identity
/// allocator for that type's namespace.
pub struct Store<V> {
    slots: HashMap<Identity, V>,
    next_identity: Identity,
}

impl<V> View for Store<V> {
    type V = Map<Identity, V>;

    /// A store is abstractly the map from occupied identities to the
    /// records stored under them.
    closed spec fn view(&self) -> Map<Identity, V> {
        self.slots@
    }
}

impl<V> Store<V> {
    /// The next identity the allocator will issue.
    pub closed spec fn next_id(self) -> Identity {
        self.next_identity
    }

    /// Allocator soundness: every occupied identity lies strictly below the
    /// next identity to be issued, so a fresh identity never collides with
    /// an occupied slot.
    pub closed spec fn inv(self) -> bool {
        forall|k: Identity| self@.contains_key(k) ==> k < self.next_identity
    }

    /// An empty store.
    pub fn new() -> (s: Self)
        ensures
            s@ == Map::<Identity, V>::empty(),
            s.inv(),
            s.next_id() == 0,
    {
        Store { slots: HashMap::new(), next_identity: 0 }
    }

    /// Whether an identity resolves to a record.
    pub fn contains(&self, identity: Identity) -> (r: bool)
        ensures
            r == self@.contains_key(identity),
    {
        self.slots.contains_key(&identity)
    }

    /// Reads the record stored under an identity, if any.
    pub fn get(&self, identity: Identity) -> (r: Option<&V>)
        ensures
            match r {
                Some(v) => self@.contains_key(identity) && *v == self@[identity],
                None => !self@.contains_key(identity),
            },
    {
        self.slots.get(&identity)
    }

    /// Inserts a record under a caller-chosen identity. Fails with
    /// `DuplicateIdentity`, leaving the store unchanged, exactly when the
    /// identity is already occupied.
    pub fn insert(&mut self, identity: Identity, record: V) -> (r: Result<(), ChainError>)
        requires
            old(self).inv(),
            identity < Identity::MAX,
        ensures
            final(self).inv(),
            old(self)@.contains_key(identity) ==> r == Err::<(), ChainError>(
                ChainError::DuplicateIdentity,
            ) && final(self)@ == old(self)@,
            !old(self)@.contains_key(identity) ==> r == Ok::<(), ChainError>(()) && final(self)@
                == old(self)@.insert(identity, record),
    {
        if self.slots.contains_key(&identity) {
            Err(ChainError::DuplicateIdentity)
        } else {
            self.slots.insert(identity, record);
            if identity >= self.next_identity {
                self.next_identity = identity + 1;
            }
            proof {
                assert forall|k: Identity| self@.contains_key(k) implies k < self.next_identity by {
                    if k != identity {
                        assert(old(self)@.contains_key(k));
                    }
                }
            }
            Ok(())
        }
    }

    /// The identity the next freshly created record will be stored under.
    /// Creation reads it first so the record can carry its own identity.
    pub fn next_fresh_identity(&self) -> (r: Identity)
        ensures
            r == self.next_id(),
    {
        self.next_identity
    }

    /// Inserts a record under a freshly allocated identity and returns that
    /// identity. The allocator invariant guarantees the identity was not
    /// occupied, so this cannot collide.
    pub fn insert_fresh(&mut self, record: V) -> (identity: Identity)
        requires
            old(self).inv(),
            old(self).next_id() < Identity::MAX,
        ensures
            final(self).inv(),
            identity == old(self).next_id(),
            !old(self)@.contains_key(identity),
            final(self)@ == old(self)@.insert(identity, record),
            final(self).next_id() == old(self).next_id() + 1,
    {
        let identity = self.next_identity;
        self.next_identity = identity + 1;
        self.slots.insert(identity, record);
        proof {
            assert forall|k: Identity| self@.contains_key(k) implies k < self.next_identity by {
                if k != identity {
                    assert(old(self)@.contains_key(k));
                }
            }
        }
        identity
    }

    /// Takes the record stored under an identity out of its slot, so that a
    /// mutation can be applied to it before `restore` puts it back. The two
    /// calls together make up one atomic in-place update; no public
    /// operation removes a record.
    pub(crate) fn extract(&mut self, identity: Identity) -> (r: Option<V>)
        requires
            old(self).inv(),
        ensures
            final(self).inv(),
            final(self).next_id() == old(self).next_id(),
            match r {
                Some(v) => old(self)@.contains_key(identity) && v == old(self)@[identity]
                    && final(self)@ == old(self)@.remove(identity) && identity < old(
                    self,
                ).next_id(),
                None => !old(self)@.contains_key(identity) && final(self)@ == old(self)@,
            },
    {
        let r = self.slots.remove(&identity);
        proof {
            if r is None {
                assert(self@ =~= old(self)@);
            }
            assert forall|k: Identity| self@.contains_key(k) implies k < self.next_identity by {
                assert(old(self)@.contains_key(k));
            }
        }
        r
    }

    /// Puts a record back into the slot `extract` emptied.
    pub(crate) fn restore(&mut self, identity: Identity, record: V)
        requires
            old(self).inv(),
            identity < old(self).next_id(),
        ensures
            final(self).inv(),
            final(self).next_id() == old(self).next_id(),
            final(self)@ == old(self)@.insert(identity, record),
    {
        self.slots.insert(identity, record);
        proof {
            assert forall|k: Identity| self@.contains_key(k) implies k < self.next_identity by {
                if k != identity {
                    assert(old(self)@.contains_key(k));
                }
            }
        }
    }
}

/// Identity-uniqueness law: a creation yields an identity absent from the
/// store it grows, so two successive creations — the first yielding `i1`
/// over the store `m0`, the second yielding `i2` over the grown store —
/// never yield the same identity within one record type's namespace.
pub proof fn lemma_fresh_identities_distinct<V>(m0: Map<Identity, V>, i1: Identity, v1: V, i2: Identity)
    requires
        !m0.contains_key(i1),
        !m0.insert(i1, v1).contains_key(i2),
    ensures
        i1 != i2,
{
    assert(m0.insert(i1, v1).contains_key(i1));
}

} // verus!
