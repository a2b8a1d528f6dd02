//! The control transport where the steps of two actors interleave.

use fusion_runtime::control::backend::BackendSlotLease;
use fusion_runtime::control::error::{AcquireError, LeaseError, SlotAccessError};
use fusion_runtime::control::freelist::PublishStep;
use fusion_runtime::control::layout::TransportRegionLayout;
use fusion_runtime::control::meta::{
    LeaseIncarnation, RegionMeta, SlotMeta, OWNER_ANY_WORKER, OWNER_BACKEND, OWNER_WORKER,
    OWNER_WORKER_PENDING, WORKER_STATE_OFFLINE, WORKER_STATE_ONLINE,
};
use fusion_runtime::control::process::{KillAnswer, LivenessTable};
use fusion_runtime::control::region::TransportRegion;
use fusion_runtime::control::registry::ProcessContext;
use fusion_runtime::control::reinit::ReinitStage;
use fusion_runtime::control::ring::{ready_after_consume, FramedRing};
use fusion_runtime::control::worker::WorkerTransport;

const PID: i32 = 4242;
const BASE: usize = 0x10000;

fn all_alive() -> LivenessTable {
    LivenessTable { entries: Vec::new(), otherwise: KillAnswer::Delivered }
}

fn all_dead() -> LivenessTable {
    LivenessTable { entries: Vec::new(), otherwise: KillAnswer::NoSuchProcess }
}

fn layout(slots: u32) -> TransportRegionLayout {
    TransportRegionLayout::new(slots, 64, 64).expect("layout")
}

/// A region whose worker is online in the given generation.
fn online(slots: u32, generation: u64) -> (TransportRegion, ProcessContext) {
    let layout = layout(slots);
    let mut region = TransportRegion::init_in_place(BASE, layout.size, 0, layout).expect("init");
    let process = ProcessContext::new(PID);
    while region.region_generation() < generation {
        region.activate_worker_generation(PID, &process, &all_alive()).expect("activate");
    }
    (region, process)
}

fn acquire(region: &mut TransportRegion, process: &ProcessContext) -> BackendSlotLease {
    BackendSlotLease::acquire(region, process, &all_alive()).expect("backend")
}

fn slot_word(region: &TransportRegion, slot_id: u32) -> SlotMeta {
    region.load_slot_snapshot(slot_id).slot_meta
}

fn slot_generation(region: &TransportRegion, slot_id: u32) -> u64 {
    region.load_slot_snapshot(slot_id).slot_generation
}

#[test]
fn acquire_rolls_back_if_deactivate_happens_between_snapshot_and_recheck() {
    let (mut region, process) = online(1, 5);
    let mut begun =
        BackendSlotLease::begin_acquire(&mut region, &process, &all_alive()).expect("begin");
    region.deactivate_worker_generation(&process).expect("deactivate");
    assert_eq!(region.region_generation(), 6);

    assert_eq!(
        begun.confirm_acquire(&mut region, &process),
        Err(AcquireError::WorkerOffline)
    );
    assert!(slot_word(&region, 0).is_free_published());
    assert_eq!(slot_generation(&region, 0), 0);
}

#[test]
fn acquire_rolls_back_if_activate_bumps_generation_between_snapshot_and_recheck() {
    let (mut region, process) = online(1, 7);
    let mut begun =
        BackendSlotLease::begin_acquire(&mut region, &process, &all_alive()).expect("begin");
    region.activate_worker_generation(PID, &process, &all_alive()).expect("activate");

    assert_eq!(
        begun.confirm_acquire(&mut region, &process),
        Err(AcquireError::WorkerOffline)
    );
    assert!(slot_word(&region, 0).is_free_published());
    assert_eq!(slot_generation(&region, 0), 0);
    assert_eq!(
        region.load_region_meta().raw(),
        RegionMeta::new(8, WORKER_STATE_ONLINE).raw()
    );
}

#[test]
fn clear_then_republish_does_not_lose_ready() {
    // The consumer looks at the tail before and after it lowers the flag; the
    // producer publishes before, between or after the two looks.
    let (head, tail, published) = (1, 1, 2);
    assert!(ready_after_consume(true, head, published, published));
    assert!(ready_after_consume(true, head, tail, published));
    assert!(!ready_after_consume(true, head, tail, tail));

    let mut ring = FramedRing::init_empty(16);
    let mut ready = false;
    let mut buf = [0u8; 8];
    ring.publish_frame(&mut ready, b"a").expect("first");
    ring.publish_frame(&mut ready, b"b").expect("second");
    assert_eq!(ring.recv_frame_into(&mut ready, &mut buf), Ok(Some(1)));
    assert!(ready);
    assert!(ring.has_pending_frame());
}

#[test]
fn observed_tail_never_outpaces_publish_marker() {
    let mut ring = FramedRing::init_empty(16);
    let mut ready = false;
    let mut buf = [0u8; 8];
    assert!(!ring.has_pending_frame());
    assert_eq!(ring.recv_frame_into(&mut ready, &mut buf), Ok(None));
    ring.publish_frame(&mut ready, b"p").expect("publish");
    assert!(ring.has_pending_frame());
    assert_eq!(ring.recv_frame_into(&mut ready, &mut buf), Ok(Some(1)));
    assert_eq!(buf[0], b'p');
}

#[test]
fn reinit_waits_for_live_popped_token_before_republishing_slot() {
    let (mut region, mut process) = online(1, 1);
    let (slot_id, epoch) = region.pop_freelist_token_for_acquire(PID).expect("pop");
    let size = layout(1).size;
    let stage = region
        .reinit_in_place(&mut process, BASE, size, layout(1), &all_alive())
        .expect("reinit");
    assert_eq!(stage, ReinitStage::Quiescing, "the popped token is still live");
    assert_eq!(region.load_freelist_epoch(), epoch);
    assert!(slot_word(&region, slot_id).is_free_popped());

    // The acquirer sees that the region is being reset and gives the token up.
    assert!(region.abort_reserved_slot_acquire(slot_id, PID));
    assert!(slot_word(&region, slot_id).is_free_pending());
    let stage = region.resume_reinit(stage, &all_alive(), PID).expect("resume");

    assert_eq!(stage, ReinitStage::Finished);
    assert_eq!(
        region.load_region_meta().raw(),
        RegionMeta::new(2, WORKER_STATE_OFFLINE).raw()
    );
    assert!(slot_word(&region, slot_id).is_current_epoch_published(region.load_freelist_epoch()));
    assert_ne!(region.load_freelist_epoch(), epoch);
}

#[test]
fn reinit_republishes_free_pending_created_after_first_rebuild_pass() {
    let (mut region, mut process) = online(1, 1);
    let mut backend = acquire(&mut region, &process);
    let size = layout(1).size;
    let stage =
        region.begin_reinit(&mut process, BASE, size, layout(1)).expect("begin");
    assert_eq!(stage, ReinitStage::Quiescing);
    let pass = region.quiesce_slots_for_reinit(&all_alive()).expect("quiesce");
    assert!(!pass.saw_live_transitional);

    // The old backend lets go while the region is being reset.
    backend.release(&mut region, &process);
    assert!(slot_word(&region, 0).is_free_pending());
    assert_eq!(slot_generation(&region, 0), 0);

    let stage = region.resume_reinit(stage, &all_alive(), PID).expect("resume");
    assert_eq!(stage, ReinitStage::Finished);
    assert_eq!(
        region.load_region_meta().raw(),
        RegionMeta::new(2, WORKER_STATE_OFFLINE).raw()
    );
    assert!(slot_word(&region, 0).is_current_epoch_published(region.load_freelist_epoch()));
}

#[test]
fn reinit_waits_for_live_push_claimed_slot_before_rebuilding_freelist() {
    let (mut region, mut process) = online(1, 1);
    let (slot_id, epoch) = region.pop_freelist_token_for_acquire(PID).expect("pop");
    region.store_slot_meta(slot_id, SlotMeta::free_pending());
    let step = region.begin_publish_free_slot(slot_id, PID);
    let pushed = match step {
        PublishStep::Pushed(epoch) => epoch,
        PublishStep::Settled(_) => panic!("the token must be on the stack"),
    };
    assert_eq!(pushed, epoch);

    let size = layout(1).size;
    let stage = region
        .reinit_in_place(&mut process, BASE, size, layout(1), &all_alive())
        .expect("reinit");
    assert_eq!(stage, ReinitStage::Quiescing, "the publisher is still live");
    assert_eq!(region.load_freelist_epoch(), epoch);

    region.finish_publish_free_slot(slot_id, pushed);
    let stage = region.resume_reinit(stage, &all_alive(), PID).expect("resume");
    assert_eq!(stage, ReinitStage::Finished);
    assert_eq!(
        region.load_region_meta().raw(),
        RegionMeta::new(2, WORKER_STATE_OFFLINE).raw()
    );
    assert_eq!(region.load_freelist_epoch(), epoch + 1);
    assert!(slot_word(&region, slot_id).is_current_epoch_published(epoch + 1));
}

#[test]
fn reinit_waits_for_live_popped_token_and_stale_acquire_cannot_claim_rebuilt_slot() {
    let (mut region, mut process) = online(1, 1);
    let (slot_id, epoch) = region.pop_freelist_token_for_acquire(PID).expect("pop");
    let size = layout(1).size;
    let stage = region
        .reinit_in_place(&mut process, BASE, size, layout(1), &all_alive())
        .expect("reinit");
    assert_eq!(stage, ReinitStage::Quiescing);
    assert!(region.load_region_meta().is_reiniting());

    // The acquirer is found dead; the reset goes on without it.
    let stage = region.resume_reinit(stage, &all_dead(), PID).expect("resume");
    assert_eq!(stage, ReinitStage::Finished);
    assert!(!region.reserve_popped_slot_for_acquire(slot_id, epoch, PID));

    let worker = WorkerTransport::attach(&region, &mut process).expect("attach");
    let generation = worker
        .activate_generation(&mut region, PID, &process, &all_alive())
        .expect("reactivate after reinit");
    let fresh = acquire(&mut region, &process);
    assert_eq!(fresh.slot_id(), 0);
    assert_eq!(fresh.generation(), generation);
    assert_eq!(
        BackendSlotLease::acquire(&mut region, &process, &all_alive()),
        Err(AcquireError::Empty)
    );
}

#[test]
fn reinit_republishes_free_pending_created_after_rebuild_pass() {
    let (mut region, mut process) = online(1, 1);
    let mut backend = acquire(&mut region, &process);
    let slot_id = backend.slot_id();
    let size = layout(1).size;
    let stage = region.begin_reinit(&mut process, BASE, size, layout(1)).expect("begin");
    assert!(region.load_region_meta().is_reiniting());

    backend.release(&mut region, &process);
    assert!(matches!(
        BackendSlotLease::acquire(&mut region, &process, &all_alive()),
        Err(AcquireError::WorkerOffline | AcquireError::Empty)
    ));
    let stage = region.resume_reinit(stage, &all_alive(), PID).expect("resume");
    assert_eq!(stage, ReinitStage::Finished);

    let worker = WorkerTransport::attach(&region, &mut process).expect("attach");
    let generation = worker
        .activate_generation(&mut region, PID, &process, &all_alive())
        .expect("reactivate after reinit");
    let fresh = acquire(&mut region, &process);
    assert_eq!(fresh.slot_id(), slot_id);
    assert_eq!(fresh.generation(), generation);
}

#[test]
fn reinit_waits_for_live_post_push_publication_before_resetting_freelist() {
    let (mut region, mut process) = online(2, 1);
    let (slot_id, epoch) = region.pop_freelist_token_for_acquire(PID).expect("pop");
    region.store_slot_meta(slot_id, SlotMeta::free_pending());
    let step = region.begin_publish_free_slot(slot_id, PID);
    assert_eq!(step, PublishStep::Pushed(epoch));

    let size = layout(2).size;
    let stage = region
        .reinit_in_place(&mut process, BASE, size, layout(2), &all_alive())
        .expect("reinit");
    assert_eq!(stage, ReinitStage::Quiescing);
    assert!(region.load_region_meta().is_reiniting());

    region.finish_publish_free_slot(slot_id, epoch);
    let stage = region.resume_reinit(stage, &all_alive(), PID).expect("resume");
    assert_eq!(stage, ReinitStage::Finished);

    let worker = WorkerTransport::attach(&region, &mut process).expect("attach");
    let generation = worker
        .activate_generation(&mut region, PID, &process, &all_alive())
        .expect("reactivate after reinit");
    let first = acquire(&mut region, &process);
    let second = acquire(&mut region, &process);
    let mut slots = [first.slot_id(), second.slot_id()];
    slots.sort_unstable();
    assert_eq!(slots, [0, 1]);
    assert_eq!(first.generation(), generation);
    assert_eq!(second.generation(), generation);
    assert_eq!(
        BackendSlotLease::acquire(&mut region, &process, &all_alive()),
        Err(AcquireError::Empty)
    );
}

#[test]
fn same_generation_reacquire_rejects_old_backend_handle() {
    let (mut region, process) = online(1, 7);
    let mut backend = acquire(&mut region, &process);
    let old = backend;
    assert_eq!(old.backend_lease_id().lease_epoch(), 1);
    assert_eq!(old.validate(&region), Ok(()));

    backend.release(&mut region, &process);
    assert!(old.validate(&region).is_err());
    let fresh = acquire(&mut region, &process);

    assert_eq!(slot_word(&region, 0).lease_epoch(), 2);
    assert!(matches!(old.validate(&region), Err(LeaseError::StaleLeaseEpoch { .. })));
    assert_eq!(fresh.validate(&region), Ok(()));
}

#[test]
fn stale_worker_drop_cannot_clear_new_incarnation() {
    let (mut region, mut process) = online(1, 11);
    let worker = WorkerTransport::attach(&region, &mut process).expect("attach");
    let mut backend = acquire(&mut region, &process);
    let mut stale = worker
        .slot_unchecked(&mut region, &mut process, 0, &all_alive())
        .expect("claim");
    backend.release(&mut region, &process);
    worker.release_owned_slots_for_exit(&mut region, &mut process);
    let _fresh = acquire(&mut region, &process);
    let current = worker
        .slot_unchecked(&mut region, &mut process, 0, &all_alive())
        .expect("claim again");

    assert!(matches!(
        stale.validate_current_access(&region),
        Err(SlotAccessError::StaleLeaseEpoch { .. })
    ));
    stale.release(&mut region, &mut process);
    assert_eq!(current.validate_current_access(&region), Ok(()));
    let word = slot_word(&region, 0);
    assert_ne!(word.lease_epoch(), 1);
    assert_ne!(word.owner_mask() & OWNER_WORKER, 0, "the new claim must stay");
}

/// One step of a claim by the worker, on what the earlier steps left.
fn claim_step(
    step: usize,
    region: &mut TransportRegion,
    process: &mut ProcessContext,
    claim: &mut Option<LeaseIncarnation>,
    table: &LivenessTable,
    committed: &mut bool,
) {
    match step {
        0 => *claim = region.examine_worker_claim(0).ok(),
        1 => {
            if let Some(incarnation) = *claim {
                if region.reserve_worker_claim(process, 0, incarnation).is_err() {
                    *claim = None;
                }
            }
        }
        2 => {
            if let Some(incarnation) = *claim {
                if region.recheck_worker_claim(process, 0, incarnation, table).is_err() {
                    *claim = None;
                }
            }
        }
        _ => {
            if let Some(incarnation) = *claim {
                *committed = region.commit_worker_claim(process, 0, incarnation).is_ok();
            }
        }
    }
}

#[test]
fn claim_vs_backend_release_never_leaves_orphan_worker_owner() {
    for released_before in 0..5 {
        let (mut region, mut process) = online(1, 5);
        WorkerTransport::attach(&region, &mut process).expect("attach");
        let mut backend = acquire(&mut region, &process);
        let mut claim = None;
        let mut committed = false;
        for step in 0..5 {
            if step == released_before {
                backend.release(&mut region, &process);
            }
            if step < 4 {
                let table = all_alive();
                claim_step(
                    step,
                    &mut region,
                    &mut process,
                    &mut claim,
                    &table,
                    &mut committed,
                );
            }
        }
        let word = slot_word(&region, 0);
        assert_eq!(word.owner_mask() & OWNER_BACKEND, 0);
        if committed {
            assert_eq!(released_before, 4);
            assert_ne!(word.owner_mask() & OWNER_WORKER, 0);
        } else {
            assert_eq!(word.owner_mask() & OWNER_ANY_WORKER, 0);
            assert!(word.is_free_published());
        }
    }
}

#[test]
fn claim_race_with_dead_backend_reap_cannot_touch_fresh_reuse() {
    for reaped_before in 0..5 {
        let (mut region, mut process) = online(1, 9);
        WorkerTransport::attach(&region, &mut process).expect("attach");
        let old = acquire(&mut region, &process);
        let mut claim = None;
        let mut committed = false;
        for step in 0..5 {
            if step == reaped_before {
                // The backend is found dead; where its slot comes free at once,
                // another backend takes it.
                let dead = all_dead();
                let _ = region.reap_dead_backend_owner(0, old.incarnation, &dead, PID);
                let _ = BackendSlotLease::acquire(&mut region, &process, &all_alive());
            }
            if step < 4 {
                let table = all_alive();
                claim_step(
                    step,
                    &mut region,
                    &mut process,
                    &mut claim,
                    &table,
                    &mut committed,
                );
            }
        }
        let word = slot_word(&region, 0);
        if word.is_leased() && word.lease_epoch() == 2 && reaped_before > 0 {
            assert_eq!(word.owner_mask() & OWNER_WORKER, 0);
            assert_eq!(word.owner_mask() & OWNER_WORKER_PENDING, 0);
        } else if !committed {
            assert_eq!(word.owner_mask() & OWNER_ANY_WORKER, 0);
        }
    }
}

#[test]
fn aborted_popped_slot_is_free_again() {
    let (mut region, process) = online(1, 1);
    let (slot_id, epoch) = region.pop_freelist_token_for_acquire(PID).expect("pop");
    assert!(slot_word(&region, slot_id).is_free_popped());

    assert!(region.abort_reserved_slot_acquire(slot_id, PID));
    assert!(slot_word(&region, slot_id).is_current_epoch_published(epoch));
    assert_eq!(slot_generation(&region, slot_id), 0);
    assert_eq!(region.load_slot_snapshot(slot_id).backend_pid, 0);

    // Giving up once more finds the slot free and pushes no second token.
    assert!(region.abort_reserved_slot_acquire(slot_id, PID));
    assert_eq!(acquire(&mut region, &process).slot_id(), slot_id);
    assert!(BackendSlotLease::acquire(&mut region, &process, &all_alive()).is_err());
}

#[test]
fn acquisition_for_an_old_generation_gives_its_slot_back() {
    let (mut region, process) = online(1, 2);
    assert_eq!(
        region.reserve_backend_slot(1, &all_alive(), PID),
        Err(AcquireError::WorkerOffline)
    );
    assert!(slot_word(&region, 0).is_current_epoch_published(region.load_freelist_epoch()));
    assert_eq!(acquire(&mut region, &process).generation(), 2);
}
