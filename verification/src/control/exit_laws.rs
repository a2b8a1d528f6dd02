//! What a worker that shuts down leaves behind.

use super::laws::{law_detach_keeps_sound, only_slot_changed, slot_sound, sound};
use super::lifecycle::lifecycle_error;
use super::meta::{
    free_word, lemma_owner_bits, no_incarnation, worker_bit, LeaseIncarnation,
    LEASE_STATE_FREE_PUBLISHED, OWNER_BACKEND, OWNER_BOTH, OWNER_WORKER,
};
use super::order_laws::{law_exit_keeps_order, law_stack_is_complete, orderly};
use super::process::{KillAnswer, LivenessTable};
use super::region::RegionState;
use super::registry::{
    held_slots, lemma_found_registry, lemma_held_count_zero, lemma_update_keeps_found, ProcessState,
};
use super::worker::lemma_held_slots_in_range;
use vstd::prelude::*;

verus! {

/// The worker holds the slot under this incarnation.
pub open spec fn held_by_worker(v: RegionState, id: int, incarnation: LeaseIncarnation) -> bool {
    v.slots[id].leased_as(incarnation) && worker_bit(v.slots[id].meta.owners)
}

/// After a release the worker does not hold the slot under that incarnation.
proof fn lemma_released_is_not_held(
    v: RegionState,
    id: u32,
    incarnation: LeaseIncarnation,
    table: LivenessTable,
    pid: i32,
)
    requires
        sound(v),
        v.has_slot(id),
    ensures
        sound(v.worker_released(id as int, incarnation, pid)),
        only_slot_changed(v, id as int, v.worker_released(id as int, incarnation, pid)),
        !held_by_worker(v.worker_released(id as int, incarnation, pid), id as int, incarnation),
{
    law_detach_keeps_sound(v, id, incarnation, table, pid);
    assert(slot_sound(v.slots[id as int], v) && v.slots[id as int].shaped(v.layout));
    lemma_owner_bits(v.slots[id as int].meta.owners);
    let (cleared, mutation) = v.owners_cleared(id as int, incarnation, OWNER_WORKER);
    if mutation.changed {
        lemma_owner_bits(mutation.remaining_mask);
    }
}

/// Letting go of the slots of a registry, one after the other.
proof fn lemma_exit(
    v: RegionState,
    owners: Seq<LeaseIncarnation>,
    table: LivenessTable,
    pid: i32,
)
    requires
        sound(v),
        owners.len() <= v.slots.len(),
    ensures
        ({
            let w = v.workers_released(held_slots(owners), pid);
            &&& sound(w)
            &&& w.same_frame(v)
            &&& forall|id: int|
                0 <= id < owners.len() && owners[id] != no_incarnation() ==> !held_by_worker(
                    w,
                    id,
                    #[trigger] owners[id],
                )
            &&& forall|id: int|
                0 <= id < v.slots.len() && (id >= owners.len() || owners[id] == no_incarnation())
                    ==> #[trigger] w.slots[id] == v.slots[id]
            &&& forall|id: int|
                0 <= id < owners.len() && owners[id] != no_incarnation() ==> #[trigger] w.slots[id]
                    == v.worker_released(id, owners[id], pid).slots[id]
        }),
    decreases owners.len(),
{
    if owners.len() > 0 {
        let before = owners.drop_last();
        let last = (owners.len() - 1) as u32;
        lemma_exit(v, before, table, pid);
        let u = v.workers_released(held_slots(before), pid);
        let w = v.workers_released(held_slots(owners), pid);
        if owners.last() != no_incarnation() {
            assert(held_slots(owners).drop_last() =~= held_slots(before));
            lemma_released_is_not_held(u, last, owners.last(), table, pid);
        }
        assert forall|id: int|
            0 <= id < owners.len() && owners[id] != no_incarnation() implies !held_by_worker(
            w,
            id,
            #[trigger] owners[id],
        ) by {
            if id < last {
                assert(before[id] == owners[id]);
                assert(w.slots[id] == u.slots[id]);
            }
        }
        assert forall|id: int|
            0 <= id < v.slots.len() && (id >= owners.len() || owners[id]
                == no_incarnation()) implies #[trigger] w.slots[id] == v.slots[id] by {
            if id < last {
                assert(before[id] == owners[id]);
            }
            assert(u.slots[id] == v.slots[id]);
        }
        assert(u.slots[last as int] == v.slots[last as int]);
        assert forall|id: int|
            0 <= id < owners.len() && owners[id] != no_incarnation() implies #[trigger] w.slots[id]
            == v.worker_released(id, owners[id], pid).slots[id] by {
            if id < last {
                assert(before[id] == owners[id]);
                assert(w.slots[id] == u.slots[id]);
            }
        }
    }
}

/// A worker that lets go of its slots before it exits holds none of them any
/// more, leaves every other slot alone and the region sound, and can then switch
/// the generation.
pub proof fn law_exit_lets_go_of_every_slot(v: RegionState, process: ProcessState)
    requires
        sound(v),
    ensures
        ({
            let owners = process.owners(v.key, v.layout.slot_count);
            let w = v.workers_released(held_slots(owners), process.pid);
            &&& sound(w)
            &&& w.same_frame(v)
            &&& forall|id: int|
                0 <= id < owners.len() && owners[id] != no_incarnation() ==> !held_by_worker(
                    w,
                    id,
                    #[trigger] owners[id],
                )
            &&& forall|id: int|
                0 <= id < v.slots.len() && (id >= owners.len() || owners[id] == no_incarnation())
                    ==> #[trigger] w.slots[id] == v.slots[id]
            &&& lifecycle_error(w, process.after_take(v.key, v.layout.slot_count)) is None
        }),
{
    let slot_count = v.layout.slot_count;
    let owners = process.owners(v.key, slot_count);
    let table = LivenessTable { entries: arbitrary(), otherwise: KillAnswer::Delivered };
    lemma_found_registry(process.registries, process.pid, v.key, slot_count);
    lemma_exit(v, owners, table, process.pid);
    let after = process.after_take(v.key, slot_count);
    let none = Seq::new(slot_count as nat, |i: int| no_incarnation());
    if let Some(at) = process.attached(v.key, slot_count) {
        lemma_update_keeps_found(
            process.registries,
            at,
            none,
            process.pid,
            v.key,
            slot_count,
        );
        assert(after.owners(v.key, slot_count) == none);
        lemma_held_count_zero(none);
    }
}

/// What exiting does to each slot that the worker records. One that its backend
/// had let go of is free, and on the free stack; one that its backend still
/// holds stays leased, to the backend alone; one that is leased otherwise by
/// now is left alone.
pub proof fn law_exit_frees_what_backends_left(v: RegionState, process: ProcessState, id: u32)
    requires
        orderly(v),
        v.has_slot(id),
        process.attached(v.key, v.layout.slot_count) is Some,
        process.owners(v.key, v.layout.slot_count)[id as int] != no_incarnation(),
    ensures
        ({
            let owners = process.owners(v.key, v.layout.slot_count);
            let w = v.workers_released(held_slots(owners), process.pid);
            let incarnation = owners[id as int];
            let slot = v.slots[id as int];
            &&& orderly(w)
            &&& slot.leased_as(incarnation) && slot.meta.owners == OWNER_WORKER ==> {
                &&& w.slots[id as int].meta == free_word(
                    LEASE_STATE_FREE_PUBLISHED,
                    v.freelist_epoch,
                )
                &&& w.freelist.contains(id)
            }
            &&& slot.leased_as(incarnation) && slot.meta.owners == OWNER_BOTH ==> {
                &&& w.slots[id as int].leased_as(incarnation)
                &&& w.slots[id as int].meta.owners == OWNER_BACKEND
                &&& w.slots[id as int].backend_pid == slot.backend_pid
                &&& !w.freelist.contains(id)
            }
            &&& !slot.leased_as(incarnation) ==> w.slots[id as int] == slot
        }),
{
    let owners = process.owners(v.key, v.layout.slot_count);
    let pid = process.pid;
    let w = v.workers_released(held_slots(owners), pid);
    lemma_found_registry(process.registries, process.pid, v.key, v.layout.slot_count);
    lemma_held_slots_in_range(owners);
    lemma_exit(v, owners, arbitrary(), pid);
    law_exit_keeps_order(v, held_slots(owners), pid);
    law_stack_is_complete(w);
    let slot = v.slots[id as int];
    assert(slot.shaped(v.layout));
    lemma_owner_bits(slot.meta.owners);
    assert(w.slots[id as int] == v.worker_released(
        id as int,
        owners[id as int],
        pid,
    ).slots[id as int]);
}

/// After an exit the worker's old handles are harmless: letting go of one finds
/// nothing recorded and changes neither the process nor the region. That holds
/// on when the slot was leased again and claimed again by this process.
pub proof fn law_old_handles_are_harmless_after_exit(
    process: ProcessState,
    key: usize,
    slot_count: u32,
    id: u32,
    old_claim: LeaseIncarnation,
    new_claim: LeaseIncarnation,
)
    requires
        process.attached(key, slot_count) is Some,
        id < slot_count,
        old_claim != no_incarnation(),
        new_claim != old_claim,
    ensures
        ({
            let after = process.after_take(key, slot_count);
            let (again, entered) = after.after_insert(key, slot_count, id as int, new_claim);
            &&& after.after_remove(key, slot_count, id as int, old_claim) == (after, false)
            &&& entered
            &&& again.after_remove(key, slot_count, id as int, old_claim) == (again, false)
        }),
{
    let at = process.attached(key, slot_count)->0;
    let none = Seq::new(slot_count as nat, |i: int| no_incarnation());
    lemma_found_registry(process.registries, process.pid, key, slot_count);
    lemma_update_keeps_found(process.registries, at, none, process.pid, key, slot_count);
    let after = process.after_take(key, slot_count);
    assert(after.registries[at].owners == none);
    lemma_update_keeps_found(
        after.registries,
        at,
        none.update(id as int, new_claim),
        process.pid,
        key,
        slot_count,
    );
}

} // verus!
