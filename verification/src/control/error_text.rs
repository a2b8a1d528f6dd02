//! Errors of the control transport, in words.

use super::error::{
    AcquireError, AttachError, BackendRxError, BackendTxError, ConfigError, InitError, LeaseError,
    NotifyError, ProbeErrorKind, ReinitError, RxError, SlotAccessError, TxError,
    WorkerAttachError, WorkerLifecycleError, WorkerRxError, WorkerTxError,
};
use super::layout::TransportRegionLayout;
use crate::text::{
    append_decimal, append_hex, append_signed, decimal, hex, owned, signed_decimal,
};
use vstd::prelude::*;
use vstd::string::StringExecFns;

verus! {

impl ProbeErrorKind {
    /// The kind in words.
    pub open spec fn text(self) -> Seq<char> {
        match self {
            ProbeErrorKind::NotFound => "entity not found"@,
            ProbeErrorKind::PermissionDenied => "permission denied"@,
            ProbeErrorKind::Interrupted => "operation interrupted"@,
            ProbeErrorKind::InvalidInput => "invalid input parameter"@,
            ProbeErrorKind::Unsupported => "unsupported"@,
            ProbeErrorKind::Uncategorized => "uncategorized error"@,
        }
    }

    /// The name of the kind.
    pub open spec fn name(self) -> Seq<char> {
        match self {
            ProbeErrorKind::NotFound => "NotFound"@,
            ProbeErrorKind::PermissionDenied => "PermissionDenied"@,
            ProbeErrorKind::Interrupted => "Interrupted"@,
            ProbeErrorKind::InvalidInput => "InvalidInput"@,
            ProbeErrorKind::Unsupported => "Unsupported"@,
            ProbeErrorKind::Uncategorized => "Uncategorized"@,
        }
    }

    /// The kind in words.
    pub fn as_str(self) -> (r: &'static str)
        ensures
            r@ == self.text(),
    {
        match self {
            ProbeErrorKind::NotFound => "entity not found",
            ProbeErrorKind::PermissionDenied => "permission denied",
            ProbeErrorKind::Interrupted => "operation interrupted",
            ProbeErrorKind::InvalidInput => "invalid input parameter",
            ProbeErrorKind::Unsupported => "unsupported",
            ProbeErrorKind::Uncategorized => "uncategorized error",
        }
    }

    /// The name of the kind.
    pub fn as_name(self) -> (r: &'static str)
        ensures
            r@ == self.name(),
    {
        match self {
            ProbeErrorKind::NotFound => "NotFound",
            ProbeErrorKind::PermissionDenied => "PermissionDenied",
            ProbeErrorKind::Interrupted => "Interrupted",
            ProbeErrorKind::InvalidInput => "InvalidInput",
            ProbeErrorKind::Unsupported => "Unsupported",
            ProbeErrorKind::Uncategorized => "Uncategorized",
        }
    }
}

/// An error number of the operating system, or none.
pub open spec fn code_text(code: Option<i32>) -> Seq<char> {
    match code {
        Some(number) => "Some("@ + signed_decimal(number as int) + ")"@,
        None => "None"@,
    }
}

fn append_code(out: &mut String, code: Option<i32>)
    ensures
        final(out)@ == old(out)@ + code_text(code),
{
    match code {
        Some(number) => {
            out.append("Some(");
            append_signed(out, number);
            out.append(")");
            assert(out@ =~= old(out)@ + code_text(code));
        },
        None => {
            out.append("None");
        },
    }
}

impl ConfigError {
    /// The error in words.
    pub open spec fn text(self) -> Seq<char> {
        match self {
            ConfigError::ZeroSlotCount => "slot count must be non-zero"@,
            ConfigError::RingTooSmall { minimum, actual } => {
                "ring capacity "@ + decimal(actual as nat) + " is smaller than minimum "@
                    + decimal(minimum as nat)
            },
            ConfigError::RingTooLarge { maximum, actual } => {
                "ring capacity "@ + decimal(actual as nat) + " exceeds maximum encodable size "@
                    + decimal(maximum as nat)
            },
            ConfigError::LayoutOverflow => "control_transport layout overflowed usize"@,
        }
    }

    /// The error in words.
    pub fn message(&self) -> (r: String)
        ensures
            r@ == self.text(),
    {
        match self {
            ConfigError::ZeroSlotCount => owned("slot count must be non-zero"),
            ConfigError::RingTooSmall { minimum, actual } => {
                let mut r: String = owned("ring capacity ");
                append_decimal(&mut r, *actual as u64);
                r.append(" is smaller than minimum ");
                append_decimal(&mut r, *minimum as u64);
                r
            },
            ConfigError::RingTooLarge { maximum, actual } => {
                let mut r: String = owned("ring capacity ");
                append_decimal(&mut r, *actual as u64);
                r.append(" exceeds maximum encodable size ");
                append_decimal(&mut r, *maximum as u64);
                r
            },
            ConfigError::LayoutOverflow => owned("control_transport layout overflowed usize"),
        }
    }
}

impl InitError {
    /// The error in words.
    pub open spec fn text(self) -> Seq<char> {
        match self {
            InitError::InvalidConfig(e) => "invalid control_transport config: "@ + e.text(),
            InitError::RegionTooSmall { expected, actual } => {
                "control_transport region too small: expected at least "@ + decimal(expected as nat)
                    + " bytes, got "@ + decimal(actual as nat)
            },
            InitError::BadAlignment { expected, actual } => {
                "control_transport region base 0x"@ + hex(actual as nat) + " is not aligned to "@
                    + decimal(expected as nat) + " bytes"@
            },
            InitError::AlreadyInitialized => {
                "control_transport region is already initialized; use reinit_in_place() for same-layout reset"@
            },
        }
    }

    /// The error in words.
    pub fn message(&self) -> (r: String)
        ensures
            r@ == self.text(),
    {
        match self {
            InitError::InvalidConfig(e) => {
                let mut r: String = owned("invalid control_transport config: ");
                r.append(e.message().as_str());
                r
            },
            InitError::RegionTooSmall { expected, actual } => {
                let mut r: String = owned("control_transport region too small: expected at least ");
                append_decimal(&mut r, *expected as u64);
                r.append(" bytes, got ");
                append_decimal(&mut r, *actual as u64);
                r
            },
            InitError::BadAlignment { expected, actual } => {
                let mut r: String = owned("control_transport region base 0x");
                append_hex(&mut r, *actual as u64);
                r.append(" is not aligned to ");
                append_decimal(&mut r, *expected as u64);
                r.append(" bytes");
                r
            },
            InitError::AlreadyInitialized => {
                owned("control_transport region is already initialized; use reinit_in_place() for same-layout reset")
            },
        }
    }
}

impl AttachError {
    /// The error in words.
    pub open spec fn text(self) -> Seq<char> {
        match self {
            AttachError::RegionTooSmall { expected, actual } => {
                "control_transport region too small: expected at least "@ + decimal(expected as nat)
                    + " bytes, got "@ + decimal(actual as nat)
            },
            AttachError::BadAlignment { expected, actual } => {
                "control_transport region base 0x"@ + hex(actual as nat) + " is not aligned to "@
                    + decimal(expected as nat) + " bytes"@
            },
            AttachError::BadMagic { expected, actual } => {
                "unexpected control_transport magic 0x"@ + hex(actual as nat) + ", expected 0x"@
                    + hex(expected as nat)
            },
            AttachError::UnsupportedVersion { expected, actual } => {
                "unsupported control_transport version "@ + decimal(actual as nat) + ", expected "@
                    + decimal(expected as nat)
            },
            AttachError::InvalidConfig(e) => {
                "invalid control_transport header config: "@ + e.text()
            },
            AttachError::LayoutMismatch { expected, actual } => {
                "control_transport region layout mismatch: expected "@ + decimal(expected as nat)
                    + " bytes, got "@ + decimal(actual as nat)
            },
        }
    }

    /// The error in words.
    pub fn message(&self) -> (r: String)
        ensures
            r@ == self.text(),
    {
        match self {
            AttachError::RegionTooSmall { expected, actual } => {
                let mut r: String = owned("control_transport region too small: expected at least ");
                append_decimal(&mut r, *expected as u64);
                r.append(" bytes, got ");
                append_decimal(&mut r, *actual as u64);
                r
            },
            AttachError::BadAlignment { expected, actual } => {
                let mut r: String = owned("control_transport region base 0x");
                append_hex(&mut r, *actual as u64);
                r.append(" is not aligned to ");
                append_decimal(&mut r, *expected as u64);
                r.append(" bytes");
                r
            },
            AttachError::BadMagic { expected, actual } => {
                let mut r: String = owned("unexpected control_transport magic 0x");
                append_hex(&mut r, *actual);
                r.append(", expected 0x");
                append_hex(&mut r, *expected);
                r
            },
            AttachError::UnsupportedVersion { expected, actual } => {
                let mut r: String = owned("unsupported control_transport version ");
                append_decimal(&mut r, *actual as u64);
                r.append(", expected ");
                append_decimal(&mut r, *expected as u64);
                r
            },
            AttachError::InvalidConfig(e) => {
                let mut r: String = owned("invalid control_transport header config: ");
                r.append(e.message().as_str());
                r
            },
            AttachError::LayoutMismatch { expected, actual } => {
                let mut r: String = owned("control_transport region layout mismatch: expected ");
                append_decimal(&mut r, *expected as u64);
                r.append(" bytes, got ");
                append_decimal(&mut r, *actual as u64);
                r
            },
        }
    }
}

impl AcquireError {
    /// The error in words.
    pub open spec fn text(self) -> Seq<char> {
        match self {
            AcquireError::WorkerOffline => "control worker generation is not active"@,
            AcquireError::BackendProbeFailed { slot_id, error_kind, raw_os_error } => {
                "backend liveness probe failed while reaping slot "@ + decimal(slot_id as nat)
                    + ": kind="@ + error_kind.text() + ", raw_os_error="@ + code_text(raw_os_error)
            },
            AcquireError::Empty => "no backend transport slots are currently available"@,
        }
    }

    /// The error in words.
    pub fn message(&self) -> (r: String)
        ensures
            r@ == self.text(),
    {
        match self {
            AcquireError::WorkerOffline => owned("control worker generation is not active"),
            AcquireError::BackendProbeFailed { slot_id, error_kind, raw_os_error } => {
                let mut r: String = owned("backend liveness probe failed while reaping slot ");
                append_decimal(&mut r, *slot_id as u64);
                r.append(": kind=");
                r.append(error_kind.as_str());
                r.append(", raw_os_error=");
                append_code(&mut r, *raw_os_error);
                r
            },
            AcquireError::Empty => owned("no backend transport slots are currently available"),
        }
    }
}

impl WorkerAttachError {
    /// The error in words.
    pub open spec fn text(self) -> Seq<char> {
        match self {
            WorkerAttachError::RegionAlreadyAttached {
                existing_region_key,
                requested_region_key,
            } => {
                "worker process already attached control_transport region 0x"@
                    + hex(existing_region_key as nat) + ", cannot attach region 0x"@
                    + hex(requested_region_key as nat)
            },
        }
    }

    /// The error in words.
    pub fn message(&self) -> (r: String)
        ensures
            r@ == self.text(),
    {
        match self {
            WorkerAttachError::RegionAlreadyAttached {
                existing_region_key,
                requested_region_key,
            } => {
                let mut r: String = owned(
                    "worker process already attached control_transport region 0x",
                );
                append_hex(&mut r, *existing_region_key as u64);
                r.append(", cannot attach region 0x");
                append_hex(&mut r, *requested_region_key as u64);
                r
            },
        }
    }
}

impl WorkerLifecycleError {
    /// The error in words.
    pub open spec fn text(self) -> Seq<char> {
        match self {
            WorkerLifecycleError::HandlesAlive { live_slots } => {
                "worker generation switch requires all local worker slots to be detached, but "@
                    + decimal(live_slots as nat) + " are still alive"@
            },
        }
    }

    /// The error in words.
    pub fn message(&self) -> (r: String)
        ensures
            r@ == self.text(),
    {
        match self {
            WorkerLifecycleError::HandlesAlive { live_slots } => {
                let mut r: String = owned(
                    "worker generation switch requires all local worker slots to be detached, but ",
                );
                append_decimal(&mut r, *live_slots as u64);
                r.append(" are still alive");
                r
            },
        }
    }
}

impl LeaseError {
    /// The error in words.
    pub open spec fn text(self) -> Seq<char> {
        match self {
            LeaseError::StaleGeneration { slot_id, claimed_generation, current_generation } => {
                "slot "@ + decimal(slot_id as nat) + " belongs to generation "@
                    + decimal(claimed_generation as nat) + ", but current generation is "@
                    + decimal(current_generation as nat)
            },
            LeaseError::StaleLeaseEpoch {
                slot_id,
                claimed_generation,
                claimed_lease_epoch,
                current_lease_epoch,
            } => {
                "slot "@ + decimal(slot_id as nat) + " from generation "@
                    + decimal(claimed_generation as nat) + " belongs to lease epoch "@
                    + decimal(claimed_lease_epoch as nat) + ", but current lease epoch is "@
                    + decimal(current_lease_epoch as nat)
            },
            LeaseError::Released { slot_id, claimed_generation } => {
                "slot "@ + decimal(slot_id as nat) + " from generation "@
                    + decimal(claimed_generation as nat) + " is no longer leased"@
            },
        }
    }

    /// The error in words.
    pub fn message(&self) -> (r: String)
        ensures
            r@ == self.text(),
    {
        match self {
            LeaseError::StaleGeneration { slot_id, claimed_generation, current_generation } => {
                let mut r: String = owned("slot ");
                append_decimal(&mut r, *slot_id as u64);
                r.append(" belongs to generation ");
                append_decimal(&mut r, *claimed_generation);
                r.append(", but current generation is ");
                append_decimal(&mut r, *current_generation);
                r
            },
            LeaseError::StaleLeaseEpoch {
                slot_id,
                claimed_generation,
                claimed_lease_epoch,
                current_lease_epoch,
            } => {
                let mut r: String = owned("slot ");
                append_decimal(&mut r, *slot_id as u64);
                r.append(" from generation ");
                append_decimal(&mut r, *claimed_generation);
                r.append(" belongs to lease epoch ");
                append_decimal(&mut r, *claimed_lease_epoch);
                r.append(", but current lease epoch is ");
                append_decimal(&mut r, *current_lease_epoch);
                r
            },
            LeaseError::Released { slot_id, claimed_generation } => {
                let mut r: String = owned("slot ");
                append_decimal(&mut r, *slot_id as u64);
                r.append(" from generation ");
                append_decimal(&mut r, *claimed_generation);
                r.append(" is no longer leased");
                r
            },
        }
    }
}

impl SlotAccessError {
    /// The error in words.
    pub open spec fn text(self) -> Seq<char> {
        match self {
            SlotAccessError::BadSlotId { slot_id, slot_count } => {
                "slot id "@ + decimal(slot_id as nat) + " is out of range for slot_count "@
                    + decimal(slot_count as nat)
            },
            SlotAccessError::Busy { slot_id, claimed_generation } => {
                "slot "@ + decimal(slot_id as nat) + " from generation "@
                    + decimal(claimed_generation as nat) + " is already claimed by a worker"@
            },
            SlotAccessError::WorkerOffline => "control worker generation is not active"@,
            SlotAccessError::StaleGeneration {
                slot_id,
                claimed_generation,
                current_generation,
            } => {
                "slot "@ + decimal(slot_id as nat) + " handle claimed generation "@
                    + decimal(claimed_generation as nat) + ", but current generation is "@
                    + decimal(current_generation as nat)
            },
            SlotAccessError::StaleLeaseEpoch {
                slot_id,
                claimed_generation,
                claimed_lease_epoch,
                current_lease_epoch,
            } => {
                "slot "@ + decimal(slot_id as nat) + " handle from generation "@
                    + decimal(claimed_generation as nat) + " claimed lease epoch "@
                    + decimal(claimed_lease_epoch as nat) + ", but current lease epoch is "@
                    + decimal(current_lease_epoch as nat)
            },
            SlotAccessError::BackendProbeFailed {
                slot_id,
                claimed_generation,
                error_kind,
                raw_os_error,
            } => {
                "slot "@ + decimal(slot_id as nat) + " from generation "@
                    + decimal(claimed_generation as nat)
                    + " could not probe backend liveness: kind="@ + error_kind.name()
                    + " raw_os_error="@ + code_text(raw_os_error)
            },
            SlotAccessError::Released { slot_id, claimed_generation } => {
                "slot "@ + decimal(slot_id as nat) + " from generation "@
                    + decimal(claimed_generation as nat) + " is no longer leased"@
            },
        }
    }

    /// The error in words.
    pub fn message(&self) -> (r: String)
        ensures
            r@ == self.text(),
    {
        match self {
            SlotAccessError::BadSlotId { slot_id, slot_count } => {
                let mut r: String = owned("slot id ");
                append_decimal(&mut r, *slot_id as u64);
                r.append(" is out of range for slot_count ");
                append_decimal(&mut r, *slot_count as u64);
                r
            },
            SlotAccessError::Busy { slot_id, claimed_generation } => {
                let mut r: String = owned("slot ");
                append_decimal(&mut r, *slot_id as u64);
                r.append(" from generation ");
                append_decimal(&mut r, *claimed_generation);
                r.append(" is already claimed by a worker");
                r
            },
            SlotAccessError::WorkerOffline => owned("control worker generation is not active"),
            SlotAccessError::StaleGeneration {
                slot_id,
                claimed_generation,
                current_generation,
            } => {
                let mut r: String = owned("slot ");
                append_decimal(&mut r, *slot_id as u64);
                r.append(" handle claimed generation ");
                append_decimal(&mut r, *claimed_generation);
                r.append(", but current generation is ");
                append_decimal(&mut r, *current_generation);
                r
            },
            SlotAccessError::StaleLeaseEpoch {
                slot_id,
                claimed_generation,
                claimed_lease_epoch,
                current_lease_epoch,
            } => {
                let mut r: String = owned("slot ");
                append_decimal(&mut r, *slot_id as u64);
                r.append(" handle from generation ");
                append_decimal(&mut r, *claimed_generation);
                r.append(" claimed lease epoch ");
                append_decimal(&mut r, *claimed_lease_epoch);
                r.append(", but current lease epoch is ");
                append_decimal(&mut r, *current_lease_epoch);
                r
            },
            SlotAccessError::BackendProbeFailed {
                slot_id,
                claimed_generation,
                error_kind,
                raw_os_error,
            } => {
                let mut r: String = owned("slot ");
                append_decimal(&mut r, *slot_id as u64);
                r.append(" from generation ");
                append_decimal(&mut r, *claimed_generation);
                r.append(" could not probe backend liveness: kind=");
                r.append(error_kind.as_name());
                r.append(" raw_os_error=");
                append_code(&mut r, *raw_os_error);
                r
            },
            SlotAccessError::Released { slot_id, claimed_generation } => {
                let mut r: String = owned("slot ");
                append_decimal(&mut r, *slot_id as u64);
                r.append(" from generation ");
                append_decimal(&mut r, *claimed_generation);
                r.append(" is no longer leased");
                r
            },
        }
    }
}

impl TxError {
    /// The error in words.
    pub open spec fn text(self) -> Seq<char> {
        match self {
            TxError::PayloadTooLarge { actual, maximum } => {
                "frame payload length "@ + decimal(actual as nat)
                    + " exceeds maximum encodable size "@ + decimal(maximum as nat)
            },
            TxError::Full { required, available } => {
                "control ring is full: need "@ + decimal(required as nat) + " bytes, only "@
                    + decimal(available as nat) + " available"@
            },
            TxError::CorruptState { head, tail, capacity } => {
                "control ring has corrupt state head="@ + decimal(head as nat) + " tail="@
                    + decimal(tail as nat) + " capacity="@ + decimal(capacity as nat)
            },
        }
    }

    /// The error in words.
    pub fn message(&self) -> (r: String)
        ensures
            r@ == self.text(),
    {
        match self {
            TxError::PayloadTooLarge { actual, maximum } => {
                let mut r: String = owned("frame payload length ");
                append_decimal(&mut r, *actual as u64);
                r.append(" exceeds maximum encodable size ");
                append_decimal(&mut r, *maximum as u64);
                r
            },
            TxError::Full { required, available } => {
                let mut r: String = owned("control ring is full: need ");
                append_decimal(&mut r, *required as u64);
                r.append(" bytes, only ");
                append_decimal(&mut r, *available as u64);
                r.append(" available");
                r
            },
            TxError::CorruptState { head, tail, capacity } => {
                let mut r: String = owned("control ring has corrupt state head=");
                append_decimal(&mut r, *head as u64);
                r.append(" tail=");
                append_decimal(&mut r, *tail as u64);
                r.append(" capacity=");
                append_decimal(&mut r, *capacity as u64);
                r
            },
        }
    }
}

impl RxError {
    /// The error in words.
    pub open spec fn text(self) -> Seq<char> {
        match self {
            RxError::BufferTooSmall { required, available } => {
                "destination buffer is too small for next frame: need "@ + decimal(required as nat)
                    + " bytes, only "@ + decimal(available as nat) + " available"@
            },
            RxError::CorruptState { head, tail, capacity } => {
                "control ring has corrupt state head="@ + decimal(head as nat) + " tail="@
                    + decimal(tail as nat) + " capacity="@ + decimal(capacity as nat)
            },
            RxError::CorruptFrameLen { len, available, capacity } => {
                "control ring has corrupt frame length "@ + decimal(len as nat) + " with "@
                    + decimal(available as nat) + " available bytes and capacity "@
                    + decimal(capacity as nat)
            },
        }
    }

    /// The error in words.
    pub fn message(&self) -> (r: String)
        ensures
            r@ == self.text(),
    {
        match self {
            RxError::BufferTooSmall { required, available } => {
                let mut r: String = owned("destination buffer is too small for next frame: need ");
                append_decimal(&mut r, *required as u64);
                r.append(" bytes, only ");
                append_decimal(&mut r, *available as u64);
                r.append(" available");
                r
            },
            RxError::CorruptState { head, tail, capacity } => {
                let mut r: String = owned("control ring has corrupt state head=");
                append_decimal(&mut r, *head as u64);
                r.append(" tail=");
                append_decimal(&mut r, *tail as u64);
                r.append(" capacity=");
                append_decimal(&mut r, *capacity as u64);
                r
            },
            RxError::CorruptFrameLen { len, available, capacity } => {
                let mut r: String = owned("control ring has corrupt frame length ");
                append_decimal(&mut r, *len as u64);
                r.append(" with ");
                append_decimal(&mut r, *available as u64);
                r.append(" available bytes and capacity ");
                append_decimal(&mut r, *capacity as u64);
                r
            },
        }
    }
}

impl BackendTxError {
    /// The error in words.
    pub open spec fn text(self) -> Seq<char> {
        match self {
            BackendTxError::Lease(e) => e.text(),
            BackendTxError::Ring(e) => e.text(),
        }
    }

    /// The error in words.
    pub fn message(&self) -> (r: String)
        ensures
            r@ == self.text(),
    {
        match self {
            BackendTxError::Lease(e) => e.message(),
            BackendTxError::Ring(e) => e.message(),
        }
    }
}

impl BackendRxError {
    /// The error in words.
    pub open spec fn text(self) -> Seq<char> {
        match self {
            BackendRxError::Lease(e) => e.text(),
            BackendRxError::Ring(e) => e.text(),
        }
    }

    /// The error in words.
    pub fn message(&self) -> (r: String)
        ensures
            r@ == self.text(),
    {
        match self {
            BackendRxError::Lease(e) => e.message(),
            BackendRxError::Ring(e) => e.message(),
        }
    }
}

impl WorkerTxError {
    /// The error in words.
    pub open spec fn text(self) -> Seq<char> {
        match self {
            WorkerTxError::Slot(e) => e.text(),
            WorkerTxError::Ring(e) => e.text(),
        }
    }

    /// The error in words.
    pub fn message(&self) -> (r: String)
        ensures
            r@ == self.text(),
    {
        match self {
            WorkerTxError::Slot(e) => e.message(),
            WorkerTxError::Ring(e) => e.message(),
        }
    }
}

impl WorkerRxError {
    /// The error in words.
    pub open spec fn text(self) -> Seq<char> {
        match self {
            WorkerRxError::Slot(e) => e.text(),
            WorkerRxError::Ring(e) => e.text(),
        }
    }

    /// The error in words.
    pub fn message(&self) -> (r: String)
        ensures
            r@ == self.text(),
    {
        match self {
            WorkerRxError::Slot(e) => e.message(),
            WorkerRxError::Ring(e) => e.message(),
        }
    }
}

/// A layout by its numbers.
pub open spec fn layout_text(layout: TransportRegionLayout) -> Seq<char> {
    " slots="@ + decimal(layout.slot_count as nat) + " b2w_cap="@ + decimal(
        layout.backend_to_worker_cap as nat,
    ) + " w2b_cap="@ + decimal(layout.worker_to_backend_cap as nat)
}

fn append_layout(out: &mut String, layout: TransportRegionLayout)
    ensures
        final(out)@ == old(out)@ + layout_text(layout),
{
    out.append(" slots=");
    append_decimal(out, layout.slot_count as u64);
    out.append(" b2w_cap=");
    append_decimal(out, layout.backend_to_worker_cap as u64);
    out.append(" w2b_cap=");
    append_decimal(out, layout.worker_to_backend_cap as u64);
    assert(out@ =~= old(out)@ + layout_text(layout));
}

impl ReinitError {
    /// The error in words.
    pub open spec fn text(self) -> Seq<char> {
        match self {
            ReinitError::InvalidExistingRegion(e) => {
                "cannot reinitialize invalid control_transport region: "@ + e.text()
            },
            ReinitError::LayoutMismatch { existing, requested } => {
                "control_transport reinit requires the same layout; existing"@ + layout_text(
                    existing,
                ) + ", requested"@ + layout_text(requested)
            },
            ReinitError::BackendProbeFailed { slot_id, error_kind, raw_os_error } => {
                "control_transport reinit backend liveness probe failed for slot "@ + decimal(
                    slot_id as nat,
                ) + ": "@ + error_kind.text() + " (raw_os_error="@ + code_text(raw_os_error)
                    + ")"@
            },
        }
    }

    /// The error in words.
    pub fn message(&self) -> (r: String)
        ensures
            r@ == self.text(),
    {
        match self {
            ReinitError::InvalidExistingRegion(e) => {
                let mut r: String = owned(
                    "cannot reinitialize invalid control_transport region: ",
                );
                r.append(e.message().as_str());
                r
            },
            ReinitError::LayoutMismatch { existing, requested } => {
                let mut r: String = owned(
                    "control_transport reinit requires the same layout; existing",
                );
                append_layout(&mut r, *existing);
                r.append(", requested");
                append_layout(&mut r, *requested);
                r
            },
            ReinitError::BackendProbeFailed { slot_id, error_kind, raw_os_error } => {
                let mut r: String = owned(
                    "control_transport reinit backend liveness probe failed for slot ",
                );
                append_decimal(&mut r, *slot_id as u64);
                r.append(": ");
                r.append(error_kind.as_str());
                r.append(" (raw_os_error=");
                append_code(&mut r, *raw_os_error);
                r.append(")");
                r
            },
        }
    }
}

impl NotifyError {
    /// The error in words; `reason` is what the operating system says of it.
    pub open spec fn text(self, reason: Seq<char>) -> Seq<char> {
        "failed to send SIGUSR1: "@ + reason
    }

    /// The error in words; `reason` is what the operating system says of it.
    pub fn message(&self, reason: &str) -> (r: String)
        ensures
            r@ == self.text(reason@),
    {
        let mut r: String = owned("failed to send SIGUSR1: ");
        r.append(reason);
        r
    }
}

} // verus!
