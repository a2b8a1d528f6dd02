//! Stable names for one lease of one slot.

use super::meta::LeaseIncarnation;
use vstd::prelude::*;

verus! {

/// Stable identity for one leased backend slot incarnation.
///
/// A `slot_id` may be reused by a different backend after release, so state
/// that outlives a lease is keyed by this, not by `slot_id` alone.
#[derive(Clone, Copy, Debug, PartialEq, Eq, Hash, Structural)]
pub struct BackendLeaseId {
    pub generation: u64,
    pub lease_epoch: u64,
}

impl BackendLeaseId {
    pub fn new(generation: u64, lease_epoch: u64) -> (r: Self)
        ensures
            r == (BackendLeaseId { generation, lease_epoch }),
    {
        BackendLeaseId { generation, lease_epoch }
    }

    pub fn generation(self) -> (r: u64)
        ensures
            r == self.generation,
    {
        self.generation
    }

    pub fn lease_epoch(self) -> (r: u64)
        ensures
            r == self.lease_epoch,
    {
        self.lease_epoch
    }
}

/// The identity of an incarnation.
pub open spec fn lease_id_of(incarnation: LeaseIncarnation) -> BackendLeaseId {
    BackendLeaseId {
        generation: incarnation.generation,
        lease_epoch: incarnation.lease_epoch,
    }
}

/// The identity of an incarnation.
pub fn lease_id(incarnation: LeaseIncarnation) -> (r: BackendLeaseId)
    ensures
        r == lease_id_of(incarnation),
{
    BackendLeaseId::new(incarnation.generation, incarnation.lease_epoch)
}

/// Stable peer key for one backend slot lease incarnation: the slot together
/// with the lease that owns it.
#[derive(Clone, Copy, Debug, PartialEq, Eq, Hash, Structural)]
pub struct BackendLeaseSlot {
    pub slot_id: u32,
    pub lease_id: BackendLeaseId,
}

impl BackendLeaseSlot {
    pub fn new(slot_id: u32, lease_id: BackendLeaseId) -> (r: Self)
        ensures
            r == (BackendLeaseSlot { slot_id, lease_id }),
    {
        BackendLeaseSlot { slot_id, lease_id }
    }

    pub fn slot_id(self) -> (r: u32)
        ensures
            r == self.slot_id,
    {
        self.slot_id
    }

    pub fn lease_id(self) -> (r: BackendLeaseId)
        ensures
            r == self.lease_id,
    {
        self.lease_id
    }
}

} // verus!
