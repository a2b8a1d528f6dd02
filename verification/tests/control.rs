//! The control transport: leases, claims, generations, resets and rings.

use fusion_runtime::control::backend::BackendSlotLease;
use fusion_runtime::control::error::{
    AcquireError, AttachError, BackendTxError, ConfigError, InitError, LeaseError, NotifyError,
    ProbeErrorKind, ProbeFailure, ReinitError, RxError, SlotAccessError, TxError,
    WorkerLifecycleError, WorkerRxError, WorkerTxError,
};
use fusion_runtime::control::layout::TransportRegionLayout;
use fusion_runtime::control::meta::{
    RegionMeta, SlotMeta, CONTROL_TRANSPORT_MAGIC, WORKER_STATE_OFFLINE, WORKER_STATE_RESTARTING,
};
use fusion_runtime::control::process::{
    probe_pid_alive, signal_pid_usr1, KillAnswer, LivenessTable,
};
use fusion_runtime::control::region::TransportRegion;
use fusion_runtime::control::registry::ProcessContext;
use fusion_runtime::control::reinit::ReinitStage;
use fusion_runtime::control::ring::{CommitOutcome, FramedRing};
use fusion_runtime::control::worker::{WorkerSlot, WorkerTransport};

const PID: i32 = 4242;
const BASE: usize = 0x10000;
const EIO: i32 = 5;

fn all_alive() -> LivenessTable {
    LivenessTable { entries: Vec::new(), otherwise: KillAnswer::Delivered }
}

fn all_dead() -> LivenessTable {
    LivenessTable { entries: Vec::new(), otherwise: KillAnswer::NoSuchProcess }
}

fn io_failure() -> ProbeFailure {
    ProbeFailure { error_kind: ProbeErrorKind::Uncategorized, raw_os_error: Some(EIO) }
}

fn all_fail() -> LivenessTable {
    LivenessTable { entries: Vec::new(), otherwise: KillAnswer::Failed(io_failure()) }
}

fn inactive(layout: TransportRegionLayout) -> (TransportRegion, ProcessContext) {
    let region = TransportRegion::init_in_place(BASE, layout.size, 0, layout).expect("init");
    (region, ProcessContext::new(PID))
}

fn active(layout: TransportRegionLayout) -> (TransportRegion, ProcessContext) {
    let (mut region, process) = inactive(layout);
    let generation =
        region.activate_worker_generation(PID, &process, &all_alive()).expect("activate");
    assert_eq!(generation, 1);
    (region, process)
}

fn one_slot() -> (TransportRegion, ProcessContext) {
    active(TransportRegionLayout::new(1, 64, 64).expect("layout"))
}

fn attach_worker(region: &TransportRegion, process: &mut ProcessContext) -> WorkerTransport {
    WorkerTransport::attach(region, process).expect("worker attach")
}

fn acquire(
    region: &mut TransportRegion,
    process: &ProcessContext,
) -> Result<BackendSlotLease, AcquireError> {
    BackendSlotLease::acquire(region, process, &all_alive())
}

fn send_to_worker(backend: &BackendSlotLease, region: &mut TransportRegion, payload: &[u8]) {
    let outcome = backend.to_worker_tx().send_frame(region, payload, Ok(true)).expect("send");
    assert_eq!(outcome, CommitOutcome::Notified);
}

fn recv_from_backend(slot: &WorkerSlot, region: &mut TransportRegion, expected: &[u8]) {
    let mut buf = [0u8; 8];
    let rx = slot.from_backend_rx(region).expect("rx");
    let len = rx.recv_frame_into(region, &mut buf).expect("recv").expect("frame");
    assert_eq!(&buf[..len], expected);
}

fn assert_drained(slot: &WorkerSlot, region: &mut TransportRegion) {
    let mut buf = [0u8; 8];
    let rx = slot.from_backend_rx(region).expect("rx");
    assert_eq!(rx.recv_frame_into(region, &mut buf).expect("empty"), None);
}

fn reinit(
    region: &mut TransportRegion,
    process: &mut ProcessContext,
    layout: TransportRegionLayout,
    table: &LivenessTable,
) {
    let stage =
        region.reinit_in_place(process, BASE, layout.size, layout, table).expect("reinit");
    assert_eq!(stage, ReinitStage::Finished);
}

#[test]
fn init_and_attach_round_trip() {
    let region_layout = TransportRegionLayout::new(4, 64, 96).expect("layout");
    let (region, _process) = active(region_layout);
    let attached = region.attach(BASE + 1, region_layout.size);
    assert!(attached.is_err(), "wrong base pointer must not attach");

    let (region, _process) = active(region_layout);
    let attached = region.attach(BASE, region_layout.size).expect("attach");
    assert_eq!(attached.slot_count(), 4);
    assert_eq!(attached.backend_to_worker_capacity(), 64);
    assert_eq!(attached.worker_to_backend_capacity(), 96);
    assert_eq!(region.slot_count(), 4);
    assert_eq!(region.backend_to_worker_capacity(), 64);
    assert_eq!(region.worker_to_backend_capacity(), 96);
    assert_eq!(region.region_generation(), 1);
}

#[test]
fn init_in_place_rejects_already_initialized_region() {
    let layout = TransportRegionLayout::new(1, 64, 64).expect("layout");
    let (_region, _process) = inactive(layout);

    let err = match TransportRegion::init_in_place(
        BASE,
        layout.size,
        CONTROL_TRANSPORT_MAGIC,
        layout,
    ) {
        Ok(_) => panic!("second init must be rejected"),
        Err(err) => err,
    };
    assert!(matches!(err, InitError::AlreadyInitialized));
}

#[test]
fn init_in_place_over_nonzero_memory_initializes_rings_to_known_empty_state() {
    let layout = TransportRegionLayout::new(1, 64, 64).expect("layout");
    let filled = 0xa5a5_a5a5_a5a5_a5a5;
    let mut region =
        TransportRegion::init_in_place(BASE, layout.size, filled, layout).expect("init");
    let mut process = ProcessContext::new(PID);
    assert_eq!(
        region.activate_worker_generation(PID, &process, &all_alive()).expect("activate"),
        1
    );

    let worker = attach_worker(&region, &mut process);
    let backend = acquire(&mut region, &process).expect("backend");
    send_to_worker(&backend, &mut region, b"init");

    let slot = worker
        .slot_unchecked(&mut region, &mut process, backend.slot_id(), &all_alive())
        .expect("slot");
    recv_from_backend(&slot, &mut region, b"init");
    assert_drained(&slot, &mut region);
}

#[test]
fn backend_acquire_requires_active_worker_generation() {
    let layout = TransportRegionLayout::new(1, 64, 64).expect("layout");
    let (mut region, process) = inactive(layout);
    assert!(matches!(acquire(&mut region, &process), Err(AcquireError::WorkerOffline)));
}

#[test]
fn worker_attach_allows_same_region_multiple_times() {
    let (region, mut process) = one_slot();

    let first = WorkerTransport::attach(&region, &mut process).expect("first attach");
    let second = WorkerTransport::attach(&region, &mut process).expect("second attach");

    assert_eq!(first.ready_slots(&region).next(&region), None);
    assert_eq!(second.ready_slots(&region).next(&region), None);
}

#[test]
fn worker_attach_allows_different_regions_in_same_process() {
    let layout = TransportRegionLayout::new(1, 64, 64).expect("layout");
    let mut process = ProcessContext::new(PID);
    let region1 = TransportRegion::init_in_place(BASE, layout.size, 0, layout).expect("init");
    let region2 =
        TransportRegion::init_in_place(2 * BASE, layout.size, 0, layout).expect("init");

    let first = WorkerTransport::attach(&region1, &mut process).expect("first attach");
    let second = WorkerTransport::attach(&region2, &mut process).expect("second attach");

    assert_eq!(first.ready_slots(&region1).next(&region1), None);
    assert_eq!(second.ready_slots(&region2).next(&region2), None);
}

#[test]
fn worker_attach_resets_registry_after_pid_change() {
    let layout = TransportRegionLayout::new(1, 64, 64).expect("layout");
    let mut process = ProcessContext::new(PID);
    let region1 = TransportRegion::init_in_place(BASE, layout.size, 0, layout).expect("init");
    let region2 =
        TransportRegion::init_in_place(2 * BASE, layout.size, 0, layout).expect("init");

    let _attached = WorkerTransport::attach(&region1, &mut process).expect("first attach");

    process.set_pid(2002);
    let attached =
        WorkerTransport::attach(&region2, &mut process).expect("attach after simulated fork");
    assert_eq!(attached.ready_slots(&region2).next(&region2), None);
}

#[test]
fn pid_change_clears_inherited_local_worker_owners() {
    let (mut region, mut process) = one_slot();
    let worker = attach_worker(&region, &mut process);
    let mut backend = acquire(&mut region, &process).expect("backend");
    let _slot = worker
        .slot_unchecked(&mut region, &mut process, backend.slot_id(), &all_alive())
        .expect("slot");

    backend.release(&mut region, &process);

    process.set_pid(2002);
    let worker =
        WorkerTransport::attach(&region, &mut process).expect("attach after simulated fork");
    assert_eq!(
        worker
            .activate_generation(&mut region, PID, &process, &all_alive())
            .expect("activate after simulated fork"),
        2
    );
}

#[test]
fn reinit_in_place_rejects_different_layout() {
    let small = TransportRegionLayout::new(1, 64, 64).expect("small layout");
    let large = TransportRegionLayout::new(2, 64, 64).expect("large layout");
    let mut process = ProcessContext::new(PID);

    let mut region =
        TransportRegion::init_in_place(BASE, large.size, 0, small).expect("init small");
    assert_eq!(region.slot_count(), 1);

    let err =
        match region.reinit_in_place(&mut process, BASE, large.size, large, &all_alive()) {
            Ok(_) => panic!("different layout reinit must fail"),
            Err(err) => err,
        };
    assert!(matches!(
        err,
        ReinitError::LayoutMismatch { existing, requested }
            if existing == small && requested == large
    ));
}

#[test]
fn backend_slot_reuse_and_release_returns_to_freelist() {
    let (mut region, process) = one_slot();

    {
        let mut lease = acquire(&mut region, &process).expect("lease");
        assert_eq!(lease.slot_id(), 0);
        assert_eq!(lease.generation(), 1);
        assert!(lease.backend_pid(&region) > 0);
        lease.release(&mut region, &process);
    }

    let lease = acquire(&mut region, &process).expect("lease after release");
    assert_eq!(lease.slot_id(), 0);
}

#[test]
fn worker_attach_is_exclusive_and_release_is_deferred_until_worker_drop() {
    let (mut region, mut process) = one_slot();
    let worker = attach_worker(&region, &mut process);
    let mut backend = acquire(&mut region, &process).expect("backend");
    assert!(!backend.worker_attached(&region));

    let slot_id = backend.slot_id();
    let mut worker_slot = worker
        .slot_unchecked(&mut region, &mut process, slot_id, &all_alive())
        .expect("worker slot");
    assert!(backend.worker_attached(&region));
    let second_err =
        match worker.slot_unchecked(&mut region, &mut process, slot_id, &all_alive()) {
            Ok(_) => panic!("second claim must fail"),
            Err(err) => err,
        };
    assert!(matches!(
        second_err,
        SlotAccessError::Busy { slot_id: 0, claimed_generation: 1 }
    ));

    backend.release(&mut region, &process);
    assert!(matches!(
        worker_slot.from_backend_rx(&region),
        Err(SlotAccessError::Released { slot_id: 0, claimed_generation: 1 })
    ));
    assert!(matches!(
        worker_slot.to_backend_tx(&region),
        Err(SlotAccessError::Released { slot_id: 0, claimed_generation: 1 })
    ));
    assert!(matches!(acquire(&mut region, &process), Err(AcquireError::Empty)));

    worker_slot.release(&mut region, &mut process);
    assert!(!backend.worker_attached(&region));
    let fresh = acquire(&mut region, &process).expect("fresh backend");
    assert_eq!(fresh.slot_id(), slot_id);
}

#[test]
fn existing_worker_handles_fail_once_backend_detaches() {
    let (mut region, mut process) = one_slot();
    let worker = attach_worker(&region, &mut process);

    let mut backend = acquire(&mut region, &process).expect("backend");
    send_to_worker(&backend, &mut region, b"hello");

    let mut slot = worker
        .slot_unchecked(&mut region, &mut process, backend.slot_id(), &all_alive())
        .expect("slot");
    {
        let tx = slot.to_backend_tx(&region).expect("tx");
        backend.release(&mut region, &process);
        let err = tx
            .send_frame(&mut region, b"pong", Ok(true))
            .expect_err("tx must fail after backend release");
        assert!(matches!(
            err,
            WorkerTxError::Slot(SlotAccessError::Released { slot_id: 0, claimed_generation: 1 })
        ));
    }

    slot.release(&mut region, &mut process);

    let mut backend = acquire(&mut region, &process).expect("backend again");
    send_to_worker(&backend, &mut region, b"next");
    let slot = worker
        .slot_unchecked(&mut region, &mut process, backend.slot_id(), &all_alive())
        .expect("slot");
    let rx = slot.from_backend_rx(&region).expect("rx");
    backend.release(&mut region, &process);
    let mut buf = [0u8; 8];
    let err = rx
        .recv_frame_into(&mut region, &mut buf)
        .expect_err("rx must fail after backend release");
    assert!(matches!(
        err,
        WorkerRxError::Slot(SlotAccessError::Released { slot_id: 0, claimed_generation: 1 })
    ));
}

#[test]
fn worker_claim_fails_if_backend_releases_during_attach() {
    let (mut region, mut process) = one_slot();
    let _worker = attach_worker(&region, &mut process);
    let mut backend = acquire(&mut region, &process).expect("backend");
    let slot_id = backend.slot_id();

    let incarnation = region.examine_worker_claim(slot_id).expect("examine");
    region.reserve_worker_claim(&mut process, slot_id, incarnation).expect("reserve");
    backend.release(&mut region, &process);

    let err = match region.recheck_worker_claim(&mut process, slot_id, incarnation, &all_alive())
    {
        Ok(_) => panic!("worker attach must fail once backend detaches"),
        Err(err) => err,
    };
    assert!(matches!(err, SlotAccessError::Released { slot_id: 0, claimed_generation: 1 }));

    let fresh = acquire(&mut region, &process).expect("fresh backend");
    assert_eq!(fresh.slot_id(), slot_id);
}

#[test]
fn worker_claim_pending_blocks_same_generation_reuse_until_rollback() {
    let (mut region, mut process) = one_slot();
    let _worker = attach_worker(&region, &mut process);
    let mut backend = acquire(&mut region, &process).expect("backend");
    let slot_id = backend.slot_id();

    let incarnation = region.examine_worker_claim(slot_id).expect("examine");
    region.reserve_worker_claim(&mut process, slot_id, incarnation).expect("reserve");
    backend.release(&mut region, &process);
    assert!(matches!(acquire(&mut region, &process), Err(AcquireError::Empty)));

    let err = match region.recheck_worker_claim(&mut process, slot_id, incarnation, &all_alive())
    {
        Ok(_) => panic!("worker attach must fail once backend detaches"),
        Err(err) => err,
    };
    assert!(matches!(err, SlotAccessError::Released { slot_id: 0, claimed_generation: 1 }));

    let fresh = acquire(&mut region, &process).expect("fresh backend");
    assert_eq!(fresh.slot_id(), slot_id);
}

#[test]
fn worker_claim_surfaces_unexpected_backend_probe_error() {
    let (mut region, mut process) = one_slot();
    let worker = attach_worker(&region, &mut process);
    let backend = acquire(&mut region, &process).expect("backend");

    let err =
        match worker.slot_unchecked(&mut region, &mut process, backend.slot_id(), &all_fail()) {
            Ok(_) => panic!("worker attach must fail when backend liveness probe fails"),
            Err(err) => err,
        };
    assert!(matches!(
        err,
        SlotAccessError::BackendProbeFailed {
            slot_id: 0,
            claimed_generation: 1,
            error_kind,
            raw_os_error: Some(code),
        } if error_kind == ProbeErrorKind::Uncategorized && code == EIO
    ));
}

#[test]
fn backend_to_worker_round_trip_and_ready_slots() {
    let layout = TransportRegionLayout::new(2, 64, 64).expect("layout");
    let (mut region, mut process) = active(layout);
    let worker = attach_worker(&region, &mut process);
    let backend = acquire(&mut region, &process).expect("backend");

    send_to_worker(&backend, &mut region, b"hello");

    let mut ready = worker.ready_slots(&region);
    assert_eq!(ready.next(&region), Some(backend.slot_id()));
    assert_eq!(ready.next(&region), None);

    let slot = worker
        .slot_unchecked(&mut region, &mut process, backend.slot_id(), &all_alive())
        .expect("slot");
    assert_eq!(worker.ready_slots(&region).next(&region), None);

    recv_from_backend(&slot, &mut region, b"hello");
    assert_eq!(worker.ready_slots(&region).next(&region), None);
}

#[test]
fn worker_to_backend_round_trip_does_not_mark_ready_slots() {
    let (mut region, mut process) = one_slot();
    let worker = attach_worker(&region, &mut process);
    let backend = acquire(&mut region, &process).expect("backend");
    let slot = worker
        .slot_unchecked(&mut region, &mut process, backend.slot_id(), &all_alive())
        .expect("slot");

    let tx = slot.to_backend_tx(&region).expect("tx");
    assert_eq!(
        tx.send_frame(&mut region, b"pong", Ok(true)).expect("send"),
        CommitOutcome::Notified
    );

    assert_eq!(worker.ready_slots(&region).next(&region), None);

    let rx = backend.from_worker_rx();
    let mut buf = [0u8; 8];
    let len = rx.recv_frame_into(&mut region, &mut buf).expect("recv").expect("frame");
    assert_eq!(&buf[..len], b"pong");
}

#[test]
fn generation_switch_invalidates_old_handles_and_keeps_live_old_slots_unavailable() {
    let (mut region, mut process) = one_slot();
    let worker = attach_worker(&region, &mut process);
    let mut backend = acquire(&mut region, &process).expect("backend");

    send_to_worker(&backend, &mut region, b"stale");

    assert_eq!(
        worker.activate_generation(&mut region, PID, &process, &all_alive()).expect("activate"),
        2
    );
    assert_eq!(worker.ready_slots(&region).next(&region), None);

    let backend_tx = backend.to_worker_tx();
    let send_err = match backend_tx.send_frame(&mut region, b"x", Ok(true)) {
        Ok(_) => panic!("stale backend unexpectedly sent"),
        Err(err) => err,
    };
    assert!(matches!(send_err, BackendTxError::Lease(LeaseError::StaleGeneration { .. })));

    assert!(matches!(acquire(&mut region, &process), Err(AcquireError::Empty)));

    backend.release(&mut region, &process);
    let fresh = acquire(&mut region, &process).expect("fresh backend");
    assert_eq!(fresh.slot_id(), 0);
    assert_eq!(fresh.generation(), 2);
}

#[test]
fn deactivate_generation_makes_transport_offline_until_reactivated() {
    let (mut region, mut process) = one_slot();
    let worker = attach_worker(&region, &mut process);
    assert_eq!(worker.deactivate_generation(&mut region, &process).expect("deactivate"), 2);

    assert!(matches!(acquire(&mut region, &process), Err(AcquireError::WorkerOffline)));

    assert_eq!(
        worker.activate_generation(&mut region, PID, &process, &all_alive()).expect("activate"),
        3
    );
    let lease = acquire(&mut region, &process).expect("lease");
    assert_eq!(lease.slot_id(), 0);
}

#[test]
fn backend_acquire_stops_once_worker_leaves_online_even_before_generation_bump() {
    let (mut region, mut process) = one_slot();
    let _worker = attach_worker(&region, &mut process);

    region.store_region_meta(RegionMeta::new(1, WORKER_STATE_OFFLINE));
    assert_eq!(region.region_generation(), 1);

    assert!(matches!(acquire(&mut region, &process), Err(AcquireError::WorkerOffline)));
}

#[test]
fn backend_acquire_requires_online_generation_not_restarting() {
    let (mut region, mut process) = one_slot();
    let _worker = attach_worker(&region, &mut process);

    region.store_region_meta(RegionMeta::new(1, WORKER_STATE_RESTARTING));
    assert_eq!(region.region_generation(), 1);

    assert!(matches!(acquire(&mut region, &process), Err(AcquireError::WorkerOffline)));
}

#[test]
fn backend_acquire_rolls_back_if_generation_switch_happens_after_publish() {
    let (mut region, mut process) = one_slot();
    let worker = attach_worker(&region, &mut process);

    let mut begun =
        BackendSlotLease::begin_acquire(&mut region, &process, &all_alive()).expect("publish");
    region.deactivate_worker_generation(&process).expect("deactivate in between");

    assert!(matches!(
        begun.confirm_acquire(&mut region, &process),
        Err(AcquireError::WorkerOffline)
    ));
    assert_eq!(region.region_generation(), 2);

    assert_eq!(
        worker.activate_generation(&mut region, PID, &process, &all_alive()).expect("activate"),
        3
    );
    let lease = acquire(&mut region, &process).expect("lease after rollback");
    assert_eq!(lease.slot_id(), 0);
    assert_eq!(lease.generation(), 3);
}

#[test]
fn backend_acquire_rolls_back_if_activate_happens_after_publish() {
    let (mut region, process) = one_slot();

    let mut begun =
        BackendSlotLease::begin_acquire(&mut region, &process, &all_alive()).expect("publish");
    region.activate_worker_generation(PID, &process, &all_alive()).expect("activate in between");

    assert!(matches!(
        begun.confirm_acquire(&mut region, &process),
        Err(AcquireError::WorkerOffline)
    ));
    assert_eq!(region.region_generation(), 2);

    let lease = acquire(&mut region, &process).expect("lease after activate-side rollback");
    assert_eq!(lease.slot_id(), 0);
    assert_eq!(lease.generation(), 2);
}

#[test]
fn activate_generation_reaps_dead_old_generation_backend_owner() {
    let (mut region, mut process) = one_slot();
    let worker = attach_worker(&region, &mut process);
    let backend = acquire(&mut region, &process).expect("backend");
    let slot_id = backend.slot_id();

    assert_eq!(
        worker.activate_generation(&mut region, PID, &process, &all_alive()).expect("activate"),
        2
    );
    assert!(matches!(acquire(&mut region, &process), Err(AcquireError::Empty)));

    // The backend of the old generation died without releasing its lease.
    assert_eq!(
        worker
            .activate_generation(&mut region, PID, &process, &all_dead())
            .expect("activate again"),
        3
    );

    let fresh = acquire(&mut region, &process).expect("fresh backend");
    assert_eq!(fresh.slot_id(), slot_id);
    assert_eq!(fresh.generation(), 3);
}

#[test]
fn generation_switch_requires_local_worker_slots_to_be_detached() {
    let (mut region, mut process) = one_slot();
    let worker = attach_worker(&region, &mut process);
    let mut backend = acquire(&mut region, &process).expect("backend");
    let mut slot = worker
        .slot_unchecked(&mut region, &mut process, backend.slot_id(), &all_alive())
        .expect("slot");

    let activate_err = worker
        .activate_generation(&mut region, PID, &process, &all_alive())
        .expect_err("activate must fail while slot is alive");
    assert!(matches!(activate_err, WorkerLifecycleError::HandlesAlive { live_slots: 1 }));

    let deactivate_err = worker
        .deactivate_generation(&mut region, &process)
        .expect_err("deactivate must fail while slot is alive");
    assert!(matches!(deactivate_err, WorkerLifecycleError::HandlesAlive { live_slots: 1 }));

    slot.release(&mut region, &mut process);
    backend.release(&mut region, &process);
    assert_eq!(worker.deactivate_generation(&mut region, &process).expect("deactivate"), 2);
    assert_eq!(
        worker.activate_generation(&mut region, PID, &process, &all_alive()).expect("activate"),
        3
    );
}

#[test]
fn worker_exit_helper_clears_owned_slots_before_deactivate() {
    let (mut region, mut process) = one_slot();
    let worker = attach_worker(&region, &mut process);
    let mut backend = acquire(&mut region, &process).expect("backend");
    let slot_id = backend.slot_id();
    let mut slot = worker
        .slot_unchecked(&mut region, &mut process, slot_id, &all_alive())
        .expect("slot");

    backend.release(&mut region, &process);
    assert!(matches!(acquire(&mut region, &process), Err(AcquireError::Empty)));

    worker.release_owned_slots_for_exit(&mut region, &mut process);
    assert_eq!(worker.deactivate_generation(&mut region, &process).expect("deactivate"), 2);
    slot.release(&mut region, &mut process);
    assert_eq!(
        worker.activate_generation(&mut region, PID, &process, &all_alive()).expect("activate"),
        3
    );

    let fresh = acquire(&mut region, &process).expect("fresh backend");
    assert_eq!(fresh.slot_id(), slot_id);
}

#[test]
fn activate_generation_sweeps_stale_worker_owners_from_dead_process() {
    let (mut region, mut process) = one_slot();
    let worker = attach_worker(&region, &mut process);
    let mut backend = acquire(&mut region, &process).expect("backend");
    let _slot = worker
        .slot_unchecked(&mut region, &mut process, backend.slot_id(), &all_alive())
        .expect("slot");
    let slot_id = backend.slot_id();

    // A dead worker process left the slot attached; its registry is lost.
    process.reset_worker_owner_registry(region.region_key(), region.slot_count());
    backend.release(&mut region, &process);

    assert_eq!(
        worker.activate_generation(&mut region, PID, &process, &all_alive()).expect("activate"),
        2
    );
    let fresh = acquire(&mut region, &process).expect("fresh backend");
    assert_eq!(fresh.slot_id(), slot_id);
    assert_eq!(fresh.generation(), 2);
}

#[test]
fn commit_peer_missing_still_publishes_frame() {
    let (mut region, mut process) = one_slot();
    let worker = attach_worker(&region, &mut process);
    let backend = acquire(&mut region, &process).expect("backend");
    worker.clear_worker_pid(&mut region);

    let tx = backend.to_worker_tx();
    let signal = signal_pid_usr1(tx.inner.peer_pid(&region), KillAnswer::Delivered);
    let outcome = tx.send_frame(&mut region, b"hey", signal).expect("send");
    assert!(matches!(outcome, CommitOutcome::PeerMissing));

    worker.set_worker_pid(&mut region, PID);
    let slot = worker
        .slot_unchecked(&mut region, &mut process, backend.slot_id(), &all_alive())
        .expect("slot");
    recv_from_backend(&slot, &mut region, b"hey");
}

#[test]
fn commit_esrch_still_publishes_frame() {
    let (mut region, mut process) = one_slot();
    let worker = attach_worker(&region, &mut process);
    let backend = acquire(&mut region, &process).expect("backend");
    worker.set_worker_pid(&mut region, i32::MAX);

    let tx = backend.to_worker_tx();
    let signal = signal_pid_usr1(tx.inner.peer_pid(&region), KillAnswer::NoSuchProcess);
    let outcome = tx.send_frame(&mut region, b"hey", signal).expect("send");
    assert!(matches!(outcome, CommitOutcome::PeerMissing));

    let slot = worker
        .slot_unchecked(&mut region, &mut process, backend.slot_id(), &all_alive())
        .expect("slot");
    recv_from_backend(&slot, &mut region, b"hey");
}

#[test]
fn signal_hook_can_force_peer_missing() {
    assert!(!signal_pid_usr1(PID, KillAnswer::NoSuchProcess).expect("signal"));
}

#[test]
fn backend_acquire_reaps_dead_backend_owner_before_reporting_empty() {
    let (mut region, process) = one_slot();

    let backend =
        BackendSlotLease::acquire(&mut region, &process, &all_dead()).expect("backend");
    let slot_id = backend.slot_id();

    // The backend process died and left its lease behind.
    let fresh =
        BackendSlotLease::acquire(&mut region, &process, &all_dead()).expect("fresh backend");
    assert_eq!(fresh.slot_id(), slot_id);
    assert_eq!(fresh.generation(), 1);
}

#[test]
fn backend_acquire_surfaces_probe_failure_during_reap() {
    let (mut region, process) = one_slot();

    let _backend =
        BackendSlotLease::acquire(&mut region, &process, &all_fail()).expect("backend");

    let err = match BackendSlotLease::acquire(&mut region, &process, &all_fail()) {
        Ok(_) => panic!("probe failure must surface"),
        Err(err) => err,
    };
    match err {
        AcquireError::BackendProbeFailed { slot_id, raw_os_error, .. } => {
            assert_eq!(slot_id, 0);
            assert_eq!(raw_os_error, Some(EIO));
        }
        other => panic!("unexpected acquire error: {other:?}"),
    }
}

#[test]
fn worker_claim_reaps_dead_backend_owner_before_attach() {
    let (mut region, mut process) = one_slot();
    let worker = attach_worker(&region, &mut process);

    let backend = acquire(&mut region, &process).expect("backend");
    let slot_id = backend.slot_id();

    let err = match worker.slot_unchecked(&mut region, &mut process, slot_id, &all_dead()) {
        Ok(_) => panic!("stale backend must not attach"),
        Err(err) => err,
    };
    assert!(matches!(err, SlotAccessError::Released { slot_id: 0, claimed_generation: 1 }));

    let fresh = acquire(&mut region, &process).expect("fresh backend");
    assert_eq!(fresh.slot_id(), slot_id);
}

#[test]
fn reinit_in_place_retains_old_backend_owned_slot_until_release() {
    let layout = TransportRegionLayout::new(1, 64, 64).expect("layout");
    let (mut region, mut process) = active(layout);
    let mut old_backend = acquire(&mut region, &process).expect("old backend");
    let old_generation = old_backend.generation();
    let old_epoch = old_backend.backend_lease_id().lease_epoch();
    let slot_id = old_backend.slot_id();

    reinit(&mut region, &mut process, layout, &all_alive());
    let worker = attach_worker(&region, &mut process);
    let fresh_generation = worker
        .activate_generation(&mut region, PID, &process, &all_alive())
        .expect("reactivate after reinit");
    assert!(fresh_generation > old_generation);
    assert!(matches!(acquire(&mut region, &process), Err(AcquireError::Empty)));

    old_backend.release(&mut region, &process);

    let fresh_backend = acquire(&mut region, &process).expect("fresh backend");
    assert_eq!(fresh_backend.slot_id(), slot_id);
    assert_eq!(fresh_backend.generation(), fresh_generation);
    assert!(
        fresh_backend.backend_lease_id().lease_epoch() > old_epoch,
        "reinit must preserve monotonic lease identity",
    );
}

#[test]
fn reinit_in_place_makes_old_worker_handle_stale_but_does_not_free_slot() {
    let layout = TransportRegionLayout::new(1, 64, 64).expect("layout");
    let (mut region, mut process) = active(layout);
    let worker = attach_worker(&region, &mut process);
    let mut old_backend = acquire(&mut region, &process).expect("old backend");
    let slot_id = old_backend.slot_id();
    let old_slot = worker
        .slot_unchecked(&mut region, &mut process, slot_id, &all_alive())
        .expect("old slot");

    reinit(&mut region, &mut process, layout, &all_alive());
    let fresh_worker = attach_worker(&region, &mut process);
    let fresh_generation = fresh_worker
        .activate_generation(&mut region, PID, &process, &all_alive())
        .expect("reactivate after reinit");

    let err = match old_slot.from_backend_rx(&region) {
        Ok(_) => panic!("old worker handle must go stale after reinit"),
        Err(err) => err,
    };
    assert!(matches!(
        err,
        SlotAccessError::StaleGeneration {
            slot_id: 0,
            claimed_generation: 1,
            current_generation,
        } if current_generation == fresh_generation
    ));
    assert!(matches!(acquire(&mut region, &process), Err(AcquireError::Empty)));

    old_backend.release(&mut region, &process);
    let fresh_backend = acquire(&mut region, &process).expect("fresh backend");
    assert_eq!(fresh_backend.generation(), fresh_generation);
}

#[test]
fn stale_worker_drop_after_reinit_is_harmless_with_retention() {
    let layout = TransportRegionLayout::new(1, 64, 64).expect("layout");
    let (mut region, mut process) = active(layout);
    let worker = attach_worker(&region, &mut process);
    let mut old_backend = acquire(&mut region, &process).expect("old backend");
    let slot_id = old_backend.slot_id();
    let mut old_slot = worker
        .slot_unchecked(&mut region, &mut process, slot_id, &all_alive())
        .expect("old slot");

    reinit(&mut region, &mut process, layout, &all_alive());
    let fresh_worker = attach_worker(&region, &mut process);
    let fresh_generation = fresh_worker
        .activate_generation(&mut region, PID, &process, &all_alive())
        .expect("reactivate after reinit");

    old_slot.release(&mut region, &mut process);

    assert!(matches!(acquire(&mut region, &process), Err(AcquireError::Empty)));

    old_backend.release(&mut region, &process);
    let reacquired = acquire(&mut region, &process).expect("reacquire");
    assert_eq!(reacquired.generation(), fresh_generation);
}

#[test]
fn reinit_keeps_already_free_slots_reusable() {
    let layout = TransportRegionLayout::new(2, 64, 64).expect("layout");
    let (mut region, mut process) = active(layout);
    let mut old_backend = acquire(&mut region, &process).expect("old backend");
    let retained_slot = old_backend.slot_id();

    reinit(&mut region, &mut process, layout, &all_alive());
    let worker = attach_worker(&region, &mut process);
    let fresh_generation = worker
        .activate_generation(&mut region, PID, &process, &all_alive())
        .expect("reactivate after reinit");

    let first_fresh = acquire(&mut region, &process).expect("first fresh backend");
    assert_eq!(first_fresh.generation(), fresh_generation);
    assert_ne!(first_fresh.slot_id(), retained_slot);
    assert!(matches!(acquire(&mut region, &process), Err(AcquireError::Empty)));

    old_backend.release(&mut region, &process);

    let second_fresh = acquire(&mut region, &process).expect("second fresh backend");
    assert_eq!(second_fresh.slot_id(), retained_slot);
    assert_eq!(second_fresh.generation(), fresh_generation);
}

#[test]
fn reinit_plus_activate_reaps_dead_old_backend_owner() {
    let layout = TransportRegionLayout::new(1, 64, 64).expect("layout");
    let (mut region, mut process) = active(layout);
    let backend = acquire(&mut region, &process).expect("old backend");
    let slot_id = backend.slot_id();

    reinit(&mut region, &mut process, layout, &all_dead());
    let worker = attach_worker(&region, &mut process);
    let fresh_generation = worker
        .activate_generation(&mut region, PID, &process, &all_dead())
        .expect("reactivate after reinit");

    let fresh =
        BackendSlotLease::acquire(&mut region, &process, &all_dead()).expect("fresh backend");
    assert_eq!(fresh.slot_id(), slot_id);
    assert_eq!(fresh.generation(), fresh_generation);
}

#[test]
fn reinit_recovers_slot_popped_from_freelist_before_lease_publish() {
    let layout = TransportRegionLayout::new(1, 64, 64).expect("layout");
    let (mut region, mut process) = active(layout);

    let (slot_id, _epoch) = region.pop_freelist_token_for_acquire(PID).expect("slot reserve");
    region.store_backend_pid(slot_id, 0);
    assert_eq!(slot_id, 0);
    assert!(matches!(acquire(&mut region, &process), Err(AcquireError::Empty)));

    reinit(&mut region, &mut process, layout, &all_alive());
    let worker = attach_worker(&region, &mut process);
    let generation = worker
        .activate_generation(&mut region, PID, &process, &all_alive())
        .expect("reactivate after reinit");

    let fresh = acquire(&mut region, &process).expect("fresh backend");
    assert_eq!(fresh.slot_id(), slot_id);
    assert_eq!(fresh.generation(), generation);
}

#[test]
fn reinit_recovers_slot_finalized_before_freelist_push() {
    let layout = TransportRegionLayout::new(1, 64, 64).expect("layout");
    let (mut region, mut process) = active(layout);
    let backend = acquire(&mut region, &process).expect("backend");
    let slot_id = backend.slot_id();

    region.clear_slot(slot_id);
    region.store_slot_generation(slot_id, 0);
    region.store_slot_meta(slot_id, SlotMeta::free_pending());
    assert!(matches!(acquire(&mut region, &process), Err(AcquireError::Empty)));

    reinit(&mut region, &mut process, layout, &all_alive());
    let worker = attach_worker(&region, &mut process);
    let generation = worker
        .activate_generation(&mut region, PID, &process, &all_alive())
        .expect("reactivate after reinit");

    let fresh = acquire(&mut region, &process).expect("fresh backend");
    assert_eq!(fresh.slot_id(), slot_id);
    assert_eq!(fresh.generation(), generation);
}

#[test]
fn same_generation_reuse_makes_old_worker_handle_stale_epoch() {
    let (mut region, mut process) = one_slot();
    let worker = attach_worker(&region, &mut process);
    let mut backend = acquire(&mut region, &process).expect("backend");
    let slot_id = backend.slot_id();

    let old_slot = worker
        .slot_unchecked(&mut region, &mut process, slot_id, &all_alive())
        .expect("old slot");
    backend.release(&mut region, &process);
    worker.release_owned_slots_for_exit(&mut region, &mut process);

    let fresh_backend = acquire(&mut region, &process).expect("fresh backend");
    assert_eq!(fresh_backend.slot_id(), slot_id);
    assert_eq!(fresh_backend.generation(), 1);

    let err = match old_slot.from_backend_rx(&region) {
        Ok(_) => panic!("old worker handle must stale out on same-generation reuse"),
        Err(err) => err,
    };
    assert!(matches!(
        err,
        SlotAccessError::StaleLeaseEpoch { slot_id: 0, claimed_generation: 1, .. }
    ));

    let fresh_slot = worker
        .slot_unchecked(&mut region, &mut process, slot_id, &all_alive())
        .expect("fresh slot");
    assert_drained(&fresh_slot, &mut region);
}

#[test]
fn exact_lease_claim_stales_after_same_generation_reuse() {
    let (mut region, mut process) = one_slot();
    let worker = attach_worker(&region, &mut process);
    let mut backend = acquire(&mut region, &process).expect("backend");
    let peer = backend.backend_lease_slot();

    {
        let mut slot = worker
            .slot_for_backend_lease(&mut region, &mut process, peer, &all_alive())
            .expect("claim exact backend lease");
        slot.release(&mut region, &mut process);
    }

    backend.release(&mut region, &process);
    let fresh_backend = acquire(&mut region, &process).expect("fresh backend");
    assert_eq!(fresh_backend.slot_id(), peer.slot_id());

    let err = match worker.slot_for_backend_lease(&mut region, &mut process, peer, &all_alive())
    {
        Ok(_) => panic!("old backend lease must stale out after same-generation reuse"),
        Err(err) => err,
    };
    assert!(matches!(
        err,
        SlotAccessError::StaleLeaseEpoch { slot_id: 0, claimed_generation: 1, .. }
    ));
}

#[test]
fn old_worker_drop_does_not_detach_new_same_generation_incarnation() {
    let (mut region, mut process) = one_slot();
    let worker = attach_worker(&region, &mut process);
    let mut backend = acquire(&mut region, &process).expect("backend");
    let slot_id = backend.slot_id();

    let mut old_slot = worker
        .slot_unchecked(&mut region, &mut process, slot_id, &all_alive())
        .expect("old slot");
    backend.release(&mut region, &process);
    worker.release_owned_slots_for_exit(&mut region, &mut process);

    let mut fresh_backend = acquire(&mut region, &process).expect("fresh backend");
    let mut fresh_slot = worker
        .slot_unchecked(&mut region, &mut process, slot_id, &all_alive())
        .expect("fresh slot");

    old_slot.release(&mut region, &mut process);
    fresh_backend.release(&mut region, &process);
    fresh_slot.release(&mut region, &mut process);

    let reacquired = acquire(&mut region, &process).expect("reacquire after fresh drop");
    assert_eq!(reacquired.slot_id(), slot_id);
}

#[test]
fn recv_frame_into_requires_large_enough_buffer_without_consuming_frame() {
    let (mut region, mut process) = one_slot();
    let worker = attach_worker(&region, &mut process);
    let backend = acquire(&mut region, &process).expect("backend");
    send_to_worker(&backend, &mut region, b"hello");

    let slot = worker
        .slot_unchecked(&mut region, &mut process, backend.slot_id(), &all_alive())
        .expect("slot");
    let rx = slot.from_backend_rx(&region).expect("rx");
    let mut small = [0u8; 3];
    let err =
        rx.recv_frame_into(&mut region, &mut small).expect_err("small buffer must fail");
    assert!(matches!(
        err,
        WorkerRxError::Ring(RxError::BufferTooSmall { required: 5, available: 3 })
    ));

    recv_from_backend(&slot, &mut region, b"hello");
}

struct TestRing {
    ring: FramedRing,
    ready: bool,
}

impl TestRing {
    fn new(capacity: usize) -> Self {
        TestRing { ring: FramedRing::init_empty(capacity), ready: false }
    }

    fn send(&mut self, payload: &[u8]) -> Result<CommitOutcome, TxError> {
        self.ring.send_frame(&mut self.ready, payload, Ok(false))
    }

    fn recv(&mut self, expected: &[u8]) {
        let mut buf = [0u8; 8];
        let len = self.ring.recv_frame_into(&mut self.ready, &mut buf);
        let len = len.expect("recv").expect("frame");
        assert_eq!(&buf[..len], expected);
    }

    fn assert_empty(&mut self) {
        let mut buf = [0u8; 8];
        assert_eq!(self.ring.recv_frame_into(&mut self.ready, &mut buf).expect("empty"), None);
    }
}

#[test]
fn framed_ring_empty_nonzero_offset_resends_max_frame_capacity_10() {
    let mut ring = TestRing::new(10);

    assert_eq!(ring.send(b"abcde").expect("send"), CommitOutcome::PeerMissing);
    ring.recv(b"abcde");
    ring.assert_empty();

    assert_eq!(ring.send(b"abcde").expect("resend after drain"), CommitOutcome::PeerMissing);
    ring.recv(b"abcde");
    ring.assert_empty();
}

#[test]
fn framed_ring_full_send_is_non_mutating_and_retries_after_drain() {
    let mut ring = TestRing::new(10);

    assert_eq!(ring.send(b"abcde").expect("send fills ring"), CommitOutcome::PeerMissing);
    let err = ring.send(b"x").expect_err("send while full must fail");
    assert!(matches!(err, TxError::Full { required: 5, available: 0 }));

    ring.recv(b"abcde");
    assert_eq!(ring.send(b"x").expect("retry after drain"), CommitOutcome::PeerMissing);
    ring.recv(b"x");
    ring.assert_empty();
}

#[test]
fn framed_ring_empty_nonzero_offset_resends_max_frame_capacity_9() {
    let mut ring = TestRing::new(9);

    assert_eq!(ring.send(b"pong").expect("send"), CommitOutcome::PeerMissing);
    ring.recv(b"pong");
    ring.assert_empty();

    assert_eq!(ring.send(b"pong").expect("resend after drain"), CommitOutcome::PeerMissing);
    ring.recv(b"pong");
    ring.assert_empty();
}

fn split_frame_wraps(backend_to_worker: usize) {
    let layout = TransportRegionLayout::new(1, backend_to_worker, 64).expect("layout");
    let (mut region, mut process) = active(layout);
    let worker = attach_worker(&region, &mut process);
    let backend = acquire(&mut region, &process).expect("backend");
    let slot = worker
        .slot_unchecked(&mut region, &mut process, backend.slot_id(), &all_alive())
        .expect("slot");

    send_to_worker(&backend, &mut region, b"hi");
    recv_from_backend(&slot, &mut region, b"hi");

    send_to_worker(&backend, &mut region, b"x");
    recv_from_backend(&slot, &mut region, b"x");
    assert_drained(&slot, &mut region);
}

#[test]
fn backend_to_worker_split_frame_wrap_round_trips_capacity_10() {
    split_frame_wraps(10);
}

#[test]
fn backend_to_worker_split_frame_wrap_round_trips_capacity_9() {
    split_frame_wraps(9);
}

#[test]
fn slot_reuse_after_wrapped_drain_keeps_ring_sendable() {
    let layout = TransportRegionLayout::new(1, 10, 64).expect("layout");
    let (mut region, mut process) = active(layout);
    let worker = attach_worker(&region, &mut process);

    let mut backend = acquire(&mut region, &process).expect("backend");
    let slot_id = backend.slot_id();
    {
        let mut slot = worker
            .slot_unchecked(&mut region, &mut process, slot_id, &all_alive())
            .expect("slot");
        send_to_worker(&backend, &mut region, b"abcde");
        recv_from_backend(&slot, &mut region, b"abcde");
        assert_drained(&slot, &mut region);
        slot.release(&mut region, &mut process);
    }
    backend.release(&mut region, &process);

    let fresh = acquire(&mut region, &process).expect("fresh backend");
    assert_eq!(fresh.slot_id(), slot_id);
    let fresh_slot = worker
        .slot_unchecked(&mut region, &mut process, fresh.slot_id(), &all_alive())
        .expect("fresh slot");

    send_to_worker(&fresh, &mut region, b"abcde");
    recv_from_backend(&fresh_slot, &mut region, b"abcde");
    assert_drained(&fresh_slot, &mut region);
}

#[test]
fn layouts_that_cannot_be_are_refused() {
    assert!(matches!(TransportRegionLayout::new(0, 64, 64), Err(ConfigError::ZeroSlotCount)));
    assert!(matches!(
        TransportRegionLayout::new(1, 4, 64),
        Err(ConfigError::RingTooSmall { minimum: 5, actual: 4 })
    ));
    assert!(matches!(
        TransportRegionLayout::new(1, 64, 3),
        Err(ConfigError::RingTooSmall { minimum: 5, actual: 3 })
    ));
    assert!(TransportRegionLayout::new(1, 5, 5).is_ok());
}

#[test]
fn short_or_misplaced_memory_is_refused() {
    let layout = TransportRegionLayout::new(1, 64, 64).expect("layout");
    assert!(matches!(
        TransportRegion::init_in_place(BASE, layout.size - 1, 0, layout),
        Err(InitError::RegionTooSmall { expected, actual })
            if expected == layout.size && actual == layout.size - 1
    ));
    assert!(TransportRegion::init_in_place(BASE + 1, layout.size, 0, layout).is_err());

    let (region, _process) = inactive(layout);
    assert!(matches!(
        region.attach(BASE, layout.size - 1),
        Err(AttachError::RegionTooSmall { .. })
    ));
}

#[test]
fn oversized_payload_is_refused() {
    let mut ring = TestRing::new(10);
    assert!(matches!(
        ring.send(b"sixsix"),
        Err(TxError::PayloadTooLarge { actual: 6, maximum: 5 })
    ));
    ring.assert_empty();
}

#[test]
fn failed_notification_is_reported_and_the_frame_stays() {
    let mut ring = TestRing::new(10);
    let failed = ring.ring.send_frame(
        &mut ring.ready,
        b"x",
        Err(NotifyError::Signal(io_failure())),
    );
    assert_eq!(
        failed.expect("send"),
        CommitOutcome::NotifyFailed(NotifyError::Signal(io_failure()))
    );
    ring.recv(b"x");
}

#[test]
fn process_answers_are_read() {
    let denied = ProbeFailure {
        error_kind: ProbeErrorKind::PermissionDenied,
        raw_os_error: Some(1),
    };
    assert_eq!(signal_pid_usr1(0, KillAnswer::Delivered), Ok(false));
    assert_eq!(signal_pid_usr1(7, KillAnswer::Delivered), Ok(true));
    assert_eq!(
        signal_pid_usr1(7, KillAnswer::NotPermitted(denied)),
        Err(NotifyError::Signal(denied))
    );
    assert_eq!(
        signal_pid_usr1(7, KillAnswer::Failed(io_failure())),
        Err(NotifyError::Signal(io_failure()))
    );
    assert_eq!(probe_pid_alive(-1, KillAnswer::Delivered), Ok(false));
    assert_eq!(probe_pid_alive(7, KillAnswer::NotPermitted(denied)), Ok(true));
    assert_eq!(probe_pid_alive(7, KillAnswer::NoSuchProcess), Ok(false));
    assert_eq!(probe_pid_alive(7, KillAnswer::Failed(io_failure())), Err(io_failure()));

    let table = LivenessTable {
        entries: vec![(7, KillAnswer::NoSuchProcess), (7, KillAnswer::Delivered)],
        otherwise: KillAnswer::Delivered,
    };
    assert_eq!(table.probe(7), Ok(false));
    assert_eq!(table.probe(8), Ok(true));
}

#[test]
fn slots_outside_the_region_are_refused() {
    let (mut region, mut process) = one_slot();
    let worker = attach_worker(&region, &mut process);
    assert!(matches!(
        worker.slot_unchecked(&mut region, &mut process, 1, &all_alive()),
        Err(SlotAccessError::BadSlotId { slot_id: 1, slot_count: 1 })
    ));
    assert!(matches!(
        worker.slot_unchecked(&mut region, &mut process, 0, &all_alive()),
        Err(SlotAccessError::Released { slot_id: 0, .. })
    ));
}

#[test]
fn released_lease_is_refused() {
    let (mut region, process) = one_slot();
    let mut backend = acquire(&mut region, &process).expect("backend");
    assert_eq!(backend.validate(&region), Ok(()));
    backend.release(&mut region, &process);
    assert!(matches!(backend.validate(&region), Err(LeaseError::Released { .. })));
    let again = acquire(&mut region, &process).expect("again");
    assert_ne!(again.backend_lease_id(), backend.backend_lease_id());
    assert!(backend.validate(&region).is_err());
    assert_eq!(again.validate(&region), Ok(()));
}

#[test]
fn ready_leases_are_listed_in_slot_order() {
    let layout = TransportRegionLayout::new(3, 64, 64).expect("layout");
    let (mut region, mut process) = active(layout);
    let worker = attach_worker(&region, &mut process);
    let first = acquire(&mut region, &process).expect("first");
    let second = acquire(&mut region, &process).expect("second");
    let third = acquire(&mut region, &process).expect("third");
    send_to_worker(&third, &mut region, b"c");
    send_to_worker(&first, &mut region, b"a");

    let mut expected = vec![first.backend_lease_slot(), third.backend_lease_slot()];
    expected.sort_by_key(|peer| peer.slot_id());
    let mut leases = worker.ready_backend_leases(&region);
    assert_eq!(leases.next(&region), Some(expected[0]));
    assert_eq!(leases.next(&region), Some(expected[1]));
    assert_eq!(leases.next(&region), None);
    assert!(!expected.contains(&second.backend_lease_slot()));

    let mut cursor = 0;
    assert_eq!(worker.next_ready_backend_lease(&region, &mut cursor), Some(expected[0]));
    assert_eq!(worker.next_ready_backend_lease(&region, &mut cursor), Some(expected[1]));
}

#[test]
fn lease_epochs_rise_over_releases_switches_and_resets() {
    let layout = TransportRegionLayout::new(2, 64, 64).expect("layout");
    let (mut region, mut process) = active(layout);
    let worker = attach_worker(&region, &mut process);
    let mut epochs = Vec::new();

    let mut lease = acquire(&mut region, &process).expect("first");
    epochs.push(lease.backend_lease_id().lease_epoch());
    lease.release(&mut region, &process);
    let mut lease = acquire(&mut region, &process).expect("again");
    epochs.push(lease.backend_lease_id().lease_epoch());
    lease.release(&mut region, &process);
    worker
        .activate_generation(&mut region, PID, &process, &all_alive())
        .expect("next generation");
    let lease = acquire(&mut region, &process).expect("next generation");
    epochs.push(lease.backend_lease_id().lease_epoch());
    reinit(&mut region, &mut process, layout, &all_alive());
    worker
        .activate_generation(&mut region, PID, &process, &all_alive())
        .expect("after reset");
    let lease = acquire(&mut region, &process).expect("after reset");
    epochs.push(lease.backend_lease_id().lease_epoch());

    assert_eq!(epochs, [1, 2, 3, 4]);
}

#[test]
fn generation_counts_the_switches() {
    let layout = TransportRegionLayout::new(2, 64, 64).expect("layout");
    let (mut region, mut process) = inactive(layout);
    let worker = attach_worker(&region, &mut process);
    assert_eq!(region.region_generation(), 0);
    assert_eq!(worker.activate_generation(&mut region, PID, &process, &all_alive()), Ok(1));

    let backend = acquire(&mut region, &process).expect("backend");
    let mut slot = worker
        .slot_unchecked(&mut region, &mut process, backend.slot_id(), &all_alive())
        .expect("slot");
    send_to_worker(&backend, &mut region, b"abc");
    recv_from_backend(&slot, &mut region, b"abc");
    worker.set_worker_pid(&mut region, 77);
    let _again = attach_worker(&region, &mut process);
    assert!(worker.deactivate_generation(&mut region, &process).is_err());
    assert_eq!(region.region_generation(), 1);

    slot.release(&mut region, &mut process);
    assert_eq!(worker.deactivate_generation(&mut region, &process), Ok(2));
    assert!(acquire(&mut region, &process).is_err());
    assert_eq!(region.region_generation(), 2);
    reinit(&mut region, &mut process, layout, &all_alive());
    assert_eq!(region.region_generation(), 3);
}

#[test]
fn free_slots_serve_as_many_acquisitions() {
    let layout = TransportRegionLayout::new(4, 64, 64).expect("layout");
    let (mut region, process) = active(layout);

    let mut leases = Vec::new();
    for _ in 0..4 {
        leases.push(acquire(&mut region, &process).expect("free slot"));
    }
    let ids: Vec<u32> = leases.iter().map(|lease| lease.slot_id()).collect();
    assert_eq!(ids, [0, 1, 2, 3]);
    assert!(leases.iter().all(|lease| lease.generation() == 1));
    assert_eq!(acquire(&mut region, &process), Err(AcquireError::Empty));

    leases[2].release(&mut region, &process);
    assert_eq!(acquire(&mut region, &process).expect("released slot").slot_id(), 2);
    assert_eq!(acquire(&mut region, &process), Err(AcquireError::Empty));
}

#[test]
fn released_slot_waits_for_the_worker() {
    let (mut region, mut process) = one_slot();
    let worker = attach_worker(&region, &mut process);
    let mut backend = acquire(&mut region, &process).expect("backend");
    let old_lease = backend;
    let mut slot = worker
        .slot_unchecked(&mut region, &mut process, backend.slot_id(), &all_alive())
        .expect("slot");

    backend.release(&mut region, &process);
    assert_eq!(acquire(&mut region, &process), Err(AcquireError::Empty));
    assert_eq!(
        slot.validate_current_access(&region),
        Err(SlotAccessError::Released { slot_id: 0, claimed_generation: 1 })
    );
    let mut twice = old_lease;
    twice.release(&mut region, &process);
    assert_eq!(acquire(&mut region, &process), Err(AcquireError::Empty));

    slot.release(&mut region, &mut process);
    let next = acquire(&mut region, &process).expect("handed on");
    assert_eq!(next.slot_id(), 0);
    let mut late = old_lease;
    late.release(&mut region, &process);
    assert_eq!(next.validate(&region), Ok(()));
    assert_eq!(acquire(&mut region, &process), Err(AcquireError::Empty));
}

#[test]
fn exit_frees_what_backends_left_and_keeps_the_rest() {
    let layout = TransportRegionLayout::new(3, 64, 64).expect("layout");
    let (mut region, mut process) = active(layout);
    let worker = attach_worker(&region, &mut process);
    let mut left = acquire(&mut region, &process).expect("left");
    let kept = acquire(&mut region, &process).expect("kept");
    let unclaimed = acquire(&mut region, &process).expect("unclaimed");
    let mut left_slot = worker
        .slot_unchecked(&mut region, &mut process, left.slot_id(), &all_alive())
        .expect("left slot");
    let mut kept_slot = worker
        .slot_unchecked(&mut region, &mut process, kept.slot_id(), &all_alive())
        .expect("kept slot");
    left.release(&mut region, &process);
    assert_eq!(acquire(&mut region, &process), Err(AcquireError::Empty));

    worker.release_owned_slots_for_exit(&mut region, &mut process);
    assert_eq!(kept.validate(&region), Ok(()));
    assert!(!kept.worker_attached(&region));
    assert_eq!(unclaimed.validate(&region), Ok(()));

    // The slot that was freed is leased and claimed again before the old
    // handles go.
    let again = acquire(&mut region, &process).expect("freed slot");
    assert_eq!(again.slot_id(), left.slot_id());
    let again_slot = worker
        .slot_unchecked(&mut region, &mut process, again.slot_id(), &all_alive())
        .expect("claimed again");
    left_slot.release(&mut region, &mut process);
    kept_slot.release(&mut region, &mut process);
    assert!(again.worker_attached(&region));
    assert_eq!(again_slot.validate_current_access(&region), Ok(()));
    assert_eq!(kept.validate(&region), Ok(()));

    worker.release_owned_slots_for_exit(&mut region, &mut process);
    assert_eq!(worker.deactivate_generation(&mut region, &process), Ok(2));
}

#[test]
fn held_slots_are_recorded_per_region() {
    let layout = TransportRegionLayout::new(1, 64, 64).expect("layout");
    let (mut first, mut process) = active(layout);
    let mut second =
        TransportRegion::init_in_place(2 * BASE, layout.size, 0, layout).expect("init");
    let worker = attach_worker(&first, &mut process);
    let backend = acquire(&mut first, &process).expect("backend");
    let _slot = worker
        .slot_unchecked(&mut first, &mut process, backend.slot_id(), &all_alive())
        .expect("slot");

    let again = attach_worker(&first, &mut process);
    let other = attach_worker(&second, &mut process);
    assert_eq!(
        again.activate_generation(&mut first, PID, &process, &all_alive()),
        Err(WorkerLifecycleError::HandlesAlive { live_slots: 1 })
    );
    assert_eq!(other.activate_generation(&mut second, PID, &process, &all_alive()), Ok(1));
}

#[test]
fn cleared_worker_pid_leaves_the_worker_online() {
    let layout = TransportRegionLayout::new(2, 64, 64).expect("layout");
    let (mut region, mut process) = active(layout);
    let worker = attach_worker(&region, &mut process);
    let backend = acquire(&mut region, &process).expect("backend");

    worker.clear_worker_pid(&mut region);
    assert_eq!(region.region_generation(), 1);
    assert_eq!(backend.validate(&region), Ok(()));
    let tx = backend.to_worker_tx();
    let signal = signal_pid_usr1(tx.inner.peer_pid(&region), KillAnswer::Delivered);
    assert_eq!(tx.send_frame(&mut region, b"abc", signal), Ok(CommitOutcome::PeerMissing));
    acquire(&mut region, &process).expect("another lease");
    let slot = worker
        .slot_unchecked(&mut region, &mut process, backend.slot_id(), &all_alive())
        .expect("slot");
    recv_from_backend(&slot, &mut region, b"abc");
}

#[test]
fn reset_leaves_slots_to_old_backends_only() {
    let layout = TransportRegionLayout::new(3, 64, 64).expect("layout");
    let (mut region, mut process) = active(layout);
    let mut old_backend = acquire(&mut region, &process).expect("old backend");
    let worker = attach_worker(&region, &mut process);

    let other = TransportRegionLayout::new(2, 64, 64).expect("layout");
    assert!(matches!(
        region.reinit_in_place(&mut process, BASE, layout.size, other, &all_alive()),
        Err(ReinitError::LayoutMismatch { .. })
    ));
    assert_eq!(region.region_generation(), 1);
    assert_eq!(old_backend.validate(&region), Ok(()));

    reinit(&mut region, &mut process, layout, &all_alive());
    assert_eq!(acquire(&mut region, &process), Err(AcquireError::WorkerOffline));
    assert_eq!(worker.activate_generation(&mut region, PID, &process, &all_alive()), Ok(3));
    let first = acquire(&mut region, &process).expect("first");
    let second = acquire(&mut region, &process).expect("second");
    assert_ne!(first.slot_id(), second.slot_id());
    assert_ne!(first.slot_id(), old_backend.slot_id());
    assert_ne!(second.slot_id(), old_backend.slot_id());
    assert_eq!(acquire(&mut region, &process), Err(AcquireError::Empty));

    old_backend.release(&mut region, &process);
    assert_eq!(
        acquire(&mut region, &process).expect("third").slot_id(),
        old_backend.slot_id()
    );
}

#[test]
fn frame_lengths_are_in_the_order_of_the_machine() {
    let mut ring = FramedRing::init_empty(16);
    let mut ready = false;
    ring.send_frame(&mut ready, b"abc", Ok(true)).expect("send");
    assert_eq!(ring.data[..4], 3u32.to_ne_bytes());
    assert_eq!(ring.data[4..7], *b"abc");

    let mut ring = FramedRing::init_empty(512);
    ring.data[..4].copy_from_slice(&300u32.to_ne_bytes());
    ring.data[4..304].fill(7);
    ring.tail = 304;
    let mut dst = [0u8; 300];
    assert_eq!(ring.recv_frame_into(&mut ready, &mut dst), Ok(Some(300)));
    assert_eq!(dst, [7u8; 300]);
}
