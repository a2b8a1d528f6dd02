//! Plan and scan descriptors, and sets of them.

use vstd::prelude::*;

verus! {

/// Number of elements in an encoded producer descriptor.
pub const PRODUCER_DESCRIPTOR_LEN: u32 = 2;

/// Number of elements in an encoded scan-channel descriptor.
pub const SCAN_CHANNEL_DESCRIPTOR_LEN: u32 = 6;

/// Transport-agnostic wire identity of one backend lease slot.
#[derive(Clone, Copy, Debug, PartialEq, Eq, Hash, Structural)]
pub struct BackendLeaseSlotWire {
    pub slot_id: u32,
    pub generation: u64,
    pub lease_epoch: u64,
}

impl BackendLeaseSlotWire {
    /// Construct one transport-agnostic backend lease slot identity.
    pub fn new(slot_id: u32, generation: u64, lease_epoch: u64) -> (r: Self)
        ensures
            r == (BackendLeaseSlotWire { slot_id, generation, lease_epoch }),
    {
        BackendLeaseSlotWire { slot_id, generation, lease_epoch }
    }

    /// Return the physical slot index.
    pub fn slot_id(self) -> (r: u32)
        ensures
            r == self.slot_id,
    {
        self.slot_id
    }

    /// Return the owning transport generation.
    pub fn generation(self) -> (r: u64)
        ensures
            r == self.generation,
    {
        self.generation
    }

    /// Return the per-generation lease epoch.
    pub fn lease_epoch(self) -> (r: u64)
        ensures
            r == self.lease_epoch,
    {
        self.lease_epoch
    }
}

/// One scan producer role inside a logical scan.
#[derive(Clone, Copy, Debug, PartialEq, Eq, Structural)]
pub enum ProducerRole {
    /// The leader producer owns the coordination role for the scan.
    Leader,
    /// A worker producer contributes pages under the same scan.
    Worker,
}

/// The byte that stands for a role.
pub open spec fn role_byte(role: ProducerRole) -> u8 {
    match role {
        ProducerRole::Leader => 1,
        ProducerRole::Worker => 2,
    }
}

impl ProducerRole {
    /// The byte that stands for this role.
    pub fn code(self) -> (r: u8)
        ensures
            r == role_byte(self),
    {
        match self {
            ProducerRole::Leader => 1,
            ProducerRole::Worker => 2,
        }
    }

    /// The role that a byte stands for.
    pub fn from_code(code: u8) -> (r: Option<Self>)
        ensures
            r == role_of(code),
    {
        match code {
            1 => Some(ProducerRole::Leader),
            2 => Some(ProducerRole::Worker),
            _ => None,
        }
    }
}

/// The role that a byte stands for.
pub open spec fn role_of(code: u8) -> Option<ProducerRole> {
    if code == 1 {
        Some(ProducerRole::Leader)
    } else if code == 2 {
        Some(ProducerRole::Worker)
    } else {
        None
    }
}

/// One execution scan producer channel published up front in `StartExecution`.
#[derive(Clone, Copy, Debug, PartialEq, Eq, Structural)]
pub struct ScanChannelDescriptorWire {
    /// Logical scan identifier inside one execution.
    pub scan_id: u64,
    /// Producer identifier scoped to `scan_id`.
    pub producer_id: u16,
    /// Producer role inside this logical scan.
    pub role: ProducerRole,
    /// Dedicated backend peer reserved for this producer.
    pub peer: BackendLeaseSlotWire,
}

/// Producer descriptor for one scan.
#[derive(Clone, Copy, Debug, PartialEq, Eq, Structural)]
pub struct ProducerDescriptorWire {
    /// Producer identifier scoped to one logical scan.
    pub producer_id: u16,
    /// Producer role inside that logical scan.
    pub role: ProducerRole,
}

/// Why a list of scan channels is not a set.
#[derive(Clone, Copy, Debug, PartialEq, Eq, Structural)]
pub enum ScanChannelSetError {
    DuplicateProducer { scan_id: u64, producer_id: u16 },
    ChannelOutOfOrder {
        previous_scan_id: u64,
        previous_producer_id: u16,
        current_scan_id: u64,
        current_producer_id: u16,
    },
    MultipleLeaders { scan_id: u64 },
    MissingLeader { scan_id: u64 },
}

/// Why a list of producers is not a set.
#[derive(Clone, Copy, Debug, PartialEq, Eq, Structural)]
pub enum ProducerSetError {
    EmptyProducerSet,
    DuplicateProducerId { producer_id: u16 },
    MultipleLeaders,
}

/// Descriptor sufficient to open the plan stream of one execution.
#[derive(Clone, Copy, Debug, PartialEq, Eq, Structural)]
pub struct PlanFlowDescriptor {
    /// Plan transfer identifier.
    pub plan_id: u64,
    /// Transfer page kind.
    pub page_kind: u16,
    /// Transfer page flags.
    pub page_flags: u16,
}

} // verus!
