//! Errors of the control transport.

use super::layout::TransportRegionLayout;
use vstd::prelude::*;

verus! {

/// A transport layout cannot be computed.
#[derive(Clone, Copy, Debug, PartialEq, Eq, Structural)]
pub enum ConfigError {
    ZeroSlotCount,
    RingTooSmall { minimum: usize, actual: usize },
    RingTooLarge { maximum: usize, actual: usize },
    LayoutOverflow,
}

/// A fresh region cannot be set up.
#[derive(Clone, Copy, Debug, PartialEq, Eq, Structural)]
pub enum InitError {
    InvalidConfig(ConfigError),
    RegionTooSmall { expected: usize, actual: usize },
    BadAlignment { expected: usize, actual: usize },
    AlreadyInitialized,
}

/// Why the operating system did not answer a liveness probe.
#[derive(Clone, Copy, Debug, PartialEq, Eq, Structural)]
pub enum ProbeErrorKind {
    NotFound,
    PermissionDenied,
    Interrupted,
    InvalidInput,
    Unsupported,
    /// What has no name of its own.
    Uncategorized,
}

/// A liveness probe that failed for an unexpected reason.
#[derive(Clone, Copy, Debug, PartialEq, Eq, Structural)]
pub struct ProbeFailure {
    pub error_kind: ProbeErrorKind,
    pub raw_os_error: Option<i32>,
}

/// A region cannot be reset.
#[derive(Clone, Copy, Debug, PartialEq, Eq, Structural)]
pub enum ReinitError {
    InvalidExistingRegion(AttachError),
    LayoutMismatch { existing: TransportRegionLayout, requested: TransportRegionLayout },
    BackendProbeFailed { slot_id: u32, error_kind: ProbeErrorKind, raw_os_error: Option<i32> },
}

/// A region's header is not one that this library can attach to.
#[allow(inconsistent_fields)]
#[derive(Clone, Copy, Debug, PartialEq, Eq, Structural)]
pub enum AttachError {
    RegionTooSmall { expected: usize, actual: usize },
    BadAlignment { expected: usize, actual: usize },
    BadMagic { expected: u64, actual: u64 },
    UnsupportedVersion { expected: u32, actual: u32 },
    InvalidConfig(ConfigError),
    LayoutMismatch { expected: usize, actual: usize },
}

/// No slot can be leased.
#[derive(Clone, Copy, Debug, PartialEq, Eq, Structural)]
pub enum AcquireError {
    WorkerOffline,
    BackendProbeFailed { slot_id: u32, error_kind: ProbeErrorKind, raw_os_error: Option<i32> },
    Empty,
}

/// The worker generation cannot be switched.
#[derive(Clone, Copy, Debug, PartialEq, Eq, Structural)]
pub enum WorkerLifecycleError {
    HandlesAlive { live_slots: usize },
}

/// A worker cannot attach to the region.
#[derive(Clone, Copy, Debug, PartialEq, Eq, Structural)]
pub enum WorkerAttachError {
    RegionAlreadyAttached { existing_region_key: usize, requested_region_key: usize },
}

/// A backend lease is no longer good.
#[derive(Clone, Copy, Debug, PartialEq, Eq, Structural)]
pub enum LeaseError {
    StaleGeneration { slot_id: u32, claimed_generation: u64, current_generation: u64 },
    StaleLeaseEpoch {
        slot_id: u32,
        claimed_generation: u64,
        claimed_lease_epoch: u64,
        current_lease_epoch: u64,
    },
    Released { slot_id: u32, claimed_generation: u64 },
}

/// A worker cannot claim a slot, or its claim is no longer good.
#[derive(Clone, Copy, Debug, PartialEq, Eq, Structural)]
pub enum SlotAccessError {
    BadSlotId { slot_id: u32, slot_count: u32 },
    Busy { slot_id: u32, claimed_generation: u64 },
    WorkerOffline,
    StaleGeneration { slot_id: u32, claimed_generation: u64, current_generation: u64 },
    StaleLeaseEpoch {
        slot_id: u32,
        claimed_generation: u64,
        claimed_lease_epoch: u64,
        current_lease_epoch: u64,
    },
    BackendProbeFailed {
        slot_id: u32,
        claimed_generation: u64,
        error_kind: ProbeErrorKind,
        raw_os_error: Option<i32>,
    },
    Released { slot_id: u32, claimed_generation: u64 },
}

/// A frame cannot be put on a ring.
#[derive(Clone, Copy, Debug, PartialEq, Eq, Structural)]
pub enum TxError {
    PayloadTooLarge { actual: usize, maximum: usize },
    Full { required: usize, available: usize },
    CorruptState { head: u32, tail: u32, capacity: u32 },
}

/// A frame cannot be taken off a ring.
#[derive(Clone, Copy, Debug, PartialEq, Eq, Structural)]
pub enum RxError {
    BufferTooSmall { required: usize, available: usize },
    CorruptState { head: u32, tail: u32, capacity: u32 },
    CorruptFrameLen { len: u32, available: usize, capacity: u32 },
}

/// The peer could not be signalled.
#[derive(Clone, Copy, Debug, PartialEq, Eq, Structural)]
pub enum NotifyError {
    Signal(ProbeFailure),
}

/// A backend's send failed.
#[derive(Clone, Copy, Debug, PartialEq, Eq, Structural)]
pub enum BackendTxError {
    Lease(LeaseError),
    Ring(TxError),
}

/// A backend's receive failed.
#[derive(Clone, Copy, Debug, PartialEq, Eq, Structural)]
pub enum BackendRxError {
    Lease(LeaseError),
    Ring(RxError),
}

/// A worker's send failed.
#[derive(Clone, Copy, Debug, PartialEq, Eq, Structural)]
pub enum WorkerTxError {
    Slot(SlotAccessError),
    Ring(TxError),
}

/// A worker's receive failed.
#[derive(Clone, Copy, Debug, PartialEq, Eq, Structural)]
pub enum WorkerRxError {
    Slot(SlotAccessError),
    Ring(RxError),
}

} // verus!
