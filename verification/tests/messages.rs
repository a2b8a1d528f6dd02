//! Errors in words.

use fusion_runtime::control::error::{
    AcquireError, AttachError, BackendRxError, BackendTxError, ConfigError, InitError, LeaseError,
    NotifyError, ProbeErrorKind, ProbeFailure, ReinitError, RxError, SlotAccessError, TxError,
    WorkerAttachError, WorkerLifecycleError, WorkerRxError, WorkerTxError,
};
use fusion_runtime::control::layout::TransportRegionLayout;
use fusion_runtime::filter::bloom::{BloomAttachError, BloomParamError, LayoutError};
use fusion_runtime::filter::lifecycle::{LifecycleError, LifecycleSnapshot, RuntimeFilterState};
use fusion_runtime::filter::pool::RuntimeFilterPoolAttachError;
use fusion_runtime::metrics::region::MetricsError;
use fusion_runtime::protocol::error::{DecodeError, EncodeError};
use fusion_runtime::protocol::scan::{ProducerSetError, ScanChannelSetError};
use fusion_runtime::text::{append_decimal, append_hex, append_signed};

#[test]
fn numbers_are_written_out() {
    for value in [0u64, 9, 10, 1234567890, u64::MAX] {
        let mut out = String::from("n=");
        append_decimal(&mut out, value);
        out.push(' ');
        append_hex(&mut out, value);
        assert_eq!(out, format!("n={value} {value:x}"));
    }
    for value in [0i32, 7, -7, i32::MIN, i32::MAX] {
        let mut out = String::new();
        append_signed(&mut out, value);
        assert_eq!(out, format!("{value}"));
    }
}

#[test]
fn layout_errors_in_words() {
    assert_eq!(ConfigError::ZeroSlotCount.message(), "slot count must be non-zero");
    assert_eq!(
        ConfigError::RingTooSmall { minimum: 5, actual: 4 }.message(),
        "ring capacity 4 is smaller than minimum 5"
    );
    assert_eq!(
        ConfigError::RingTooLarge { maximum: 10, actual: 11 }.message(),
        "ring capacity 11 exceeds maximum encodable size 10"
    );
    assert_eq!(
        InitError::InvalidConfig(ConfigError::LayoutOverflow).message(),
        "invalid control_transport config: control_transport layout overflowed usize"
    );
    assert_eq!(
        InitError::BadAlignment { expected: 8, actual: 0x10ab }.message(),
        "control_transport region base 0x10ab is not aligned to 8 bytes"
    );
    assert_eq!(
        AttachError::BadMagic { expected: 0xfe, actual: 0x10 }.message(),
        "unexpected control_transport magic 0x10, expected 0xfe"
    );
    assert_eq!(
        AttachError::UnsupportedVersion { expected: 10, actual: 9 }.message(),
        "unsupported control_transport version 9, expected 10"
    );
}

#[test]
fn lease_errors_in_words() {
    assert_eq!(
        AcquireError::Empty.message(),
        "no backend transport slots are currently available"
    );
    assert_eq!(
        AcquireError::BackendProbeFailed {
            slot_id: 3,
            error_kind: ProbeErrorKind::PermissionDenied,
            raw_os_error: Some(-1),
        }
        .message(),
        "backend liveness probe failed while reaping slot 3: kind=permission denied, raw_os_error=Some(-1)"
    );
    assert_eq!(
        SlotAccessError::BackendProbeFailed {
            slot_id: 3,
            claimed_generation: 4,
            error_kind: ProbeErrorKind::InvalidInput,
            raw_os_error: None,
        }
        .message(),
        "slot 3 from generation 4 could not probe backend liveness: kind=InvalidInput raw_os_error=None"
    );
    let stale = LeaseError::StaleLeaseEpoch {
        slot_id: 1,
        claimed_generation: 2,
        claimed_lease_epoch: 3,
        current_lease_epoch: 4,
    };
    assert_eq!(
        stale.message(),
        "slot 1 from generation 2 belongs to lease epoch 3, but current lease epoch is 4"
    );
    assert_eq!(BackendTxError::Lease(stale).message(), stale.message());
    assert_eq!(
        WorkerTxError::Slot(SlotAccessError::Busy { slot_id: 1, claimed_generation: 2 })
            .message(),
        "slot 1 from generation 2 is already claimed by a worker"
    );
    assert_eq!(
        WorkerLifecycleError::HandlesAlive { live_slots: 2 }.message(),
        "worker generation switch requires all local worker slots to be detached, but 2 are still alive"
    );
    assert_eq!(
        WorkerAttachError::RegionAlreadyAttached {
            existing_region_key: 0xa0,
            requested_region_key: 0xb0,
        }
        .message(),
        "worker process already attached control_transport region 0xa0, cannot attach region 0xb0"
    );
    let layout = |slots| TransportRegionLayout::new(slots, 64, 96).expect("layout");
    assert_eq!(
        ReinitError::LayoutMismatch { existing: layout(1), requested: layout(2) }.message(),
        "control_transport reinit requires the same layout; existing slots=1 b2w_cap=64 w2b_cap=96, requested slots=2 b2w_cap=64 w2b_cap=96"
    );
    assert_eq!(
        ReinitError::BackendProbeFailed {
            slot_id: 7,
            error_kind: ProbeErrorKind::NotFound,
            raw_os_error: Some(3),
        }
        .message(),
        "control_transport reinit backend liveness probe failed for slot 7: entity not found (raw_os_error=Some(3))"
    );
}

#[test]
fn ring_errors_in_words() {
    assert_eq!(
        TxError::Full { required: 5, available: 0 }.message(),
        "control ring is full: need 5 bytes, only 0 available"
    );
    let corrupt = RxError::CorruptFrameLen { len: 9, available: 8, capacity: 7 };
    assert_eq!(
        corrupt.message(),
        "control ring has corrupt frame length 9 with 8 available bytes and capacity 7"
    );
    assert_eq!(BackendRxError::Ring(corrupt).message(), corrupt.message());
    assert_eq!(WorkerRxError::Ring(corrupt).message(), corrupt.message());
    let failure = ProbeFailure {
        error_kind: ProbeErrorKind::Uncategorized,
        raw_os_error: Some(5),
    };
    assert_eq!(
        NotifyError::Signal(failure).message("Input/output error (os error 5)"),
        "failed to send SIGUSR1: Input/output error (os error 5)"
    );
}

#[test]
fn protocol_errors_in_words() {
    assert_eq!(
        DecodeError::InvalidMagic { expected: 0x5046_5232, actual: 0x1a }.message(),
        "invalid runtime magic: expected 0x50465232, got 0x0000001a"
    );
    assert_eq!(
        DecodeError::MsgPack("bad".into()).message(),
        "MsgPack decoding failed: bad"
    );
    let order = ScanChannelSetError::ChannelOutOfOrder {
        previous_scan_id: 8,
        previous_producer_id: 1,
        current_scan_id: 7,
        current_producer_id: 2,
    };
    assert_eq!(
        order.message(),
        "scan channel set is not sorted by scan_id/producer_id: previous=(8, 1), current=(7, 2)"
    );
    assert_eq!(EncodeError::ScanChannels(order).message(), order.message());
    assert_eq!(
        EncodeError::BufferTooSmall { expected: 10, actual: 9 }.message(),
        "output buffer too small: expected at least 10 bytes, got 9"
    );
    assert_eq!(
        ProducerSetError::DuplicateProducerId { producer_id: 5 }.message(),
        "duplicate producer id 5 in scan open"
    );
}

#[test]
fn filter_and_metrics_errors_in_words() {
    let busy = LifecycleError::Busy {
        snapshot: LifecycleSnapshot { generation: 1, state: RuntimeFilterState::Building },
    };
    assert_eq!(
        busy.message(),
        "runtime filter slot is busy: LifecycleSnapshot { generation: 1, state: Building }"
    );
    assert_eq!(
        RuntimeFilterPoolAttachError::Lifecycle(busy).message(),
        format!("runtime filter pool lifecycle error: {}", busy.message())
    );
    assert_eq!(
        RuntimeFilterPoolAttachError::InvalidMagic { actual: 0xabc }.message(),
        "runtime filter pool has invalid magic 0xabc"
    );
    assert_eq!(
        RuntimeFilterPoolAttachError::Layout(LayoutError).message(),
        "runtime filter pool layout error: invalid parameters to Layout::from_size_align"
    );
    assert_eq!(
        BloomAttachError::InsufficientWords { required: 3, actual: 2 }.message(),
        "bloom filter storage has 2 words, but 3 are required"
    );
    assert_eq!(
        BloomParamError::InvalidFalsePositiveRate(1.5f64.to_bits()).message("1.5"),
        "false positive rate must be finite and in (0, 1), got 1.5"
    );
    assert_eq!(
        MetricsError::BadMagic { expected: 0x10, actual: 0xff }.message(),
        "runtime metrics bad magic: expected 0x10, got 0xff"
    );
    assert_eq!(
        MetricsError::LayoutMismatch { expected: 1, actual: 2 }.message(),
        "runtime metrics layout mismatch: expected 1, got 2"
    );
}
