//! What each operation makes of the one slot that it is about, and what a process
//! records of its own claims.

use super::error::AcquireError;
use super::laws::sound;
use super::layout::TransportRegionLayout;
use super::meta::{
    backend_bit, lemma_owner_bits, no_incarnation, pending_bit, worker_bit, LeaseIncarnation,
    SlotWord, LEASE_STATE_ACQUIRE_RESERVED, LEASE_STATE_FREE_PENDING, LEASE_STATE_FREE_POPPED,
    LEASE_STATE_FREE_PUBLISHED, LEASE_STATE_FREE_PUSHED, LEASE_STATE_LEASED, OWNER_BACKEND,
    OWNER_WORKER, OWNER_WORKER_PENDING, WORKER_STATE_OFFLINE, WORKER_STATE_REINITING,
};
use super::order_laws::newly_leased;
use super::region::{fresh_region, RegionState, SlotState};
use super::registry::{find_registry, held_count, held_slots, ProcessState, RegistryState};
use vstd::prelude::*;

verus! {

/// A slot that nobody owns, with nothing on its rings, as it waits on the free
/// stack of `freelist_epoch`.
pub open spec fn waits_free(slot: SlotState, freelist_epoch: u64) -> bool {
    &&& slot.meta.state == LEASE_STATE_FREE_PUBLISHED
    &&& slot.meta.epoch == freelist_epoch
    &&& slot.meta.owners == 0
    &&& slot.generation == 0
    &&& slot.backend_pid == 0
    &&& is_silent(slot)
}

/// Nothing is on the rings of the slot, and nothing was announced there.
pub open spec fn is_silent(slot: SlotState) -> bool {
    &&& slot.to_worker.head == slot.to_worker.tail
    &&& slot.to_backend.head == slot.to_backend.tail
    &&& !slot.to_worker_ready
    &&& !slot.to_backend_ready
}

/// Clearing a slot empties both rings where they stand, takes back what was
/// announced and forgets the backend. Its lease and its owners stay.
pub proof fn law_cleared_slot_is_silent(slot: SlotState)
    ensures
        is_silent(slot.cleared()),
        slot.cleared().backend_pid == 0,
        slot.cleared().meta == slot.meta,
        slot.cleared().generation == slot.generation,
        slot.cleared().to_worker.tail == slot.to_worker.tail,
        slot.cleared().to_backend.tail == slot.to_backend.tail,
        slot.cleared().to_worker.bytes == slot.to_worker.bytes,
        slot.cleared().to_backend.bytes == slot.to_backend.bytes,
{
}

/// A slot that was just leased belongs to its backend alone, under the new lease,
/// and nothing is on its rings.
pub proof fn law_new_lease_belongs_to_its_backend(
    slot: SlotState,
    incarnation: LeaseIncarnation,
    pid: i32,
)
    ensures
        ({
            let leased = newly_leased(slot, incarnation, pid);
            &&& leased.meta.state == LEASE_STATE_LEASED
            &&& leased.meta.epoch == incarnation.lease_epoch
            &&& leased.generation == incarnation.generation
            &&& leased.meta.owners == 1
            &&& leased.backend_pid == pid
            &&& is_silent(leased)
        }),
{
}

/// One owner let go of its slot: `w` is the region afterwards. With other owners
/// left the slot stays leased to them; with none left it waits free on top of the
/// stack.
pub open spec fn owner_let_go(v: RegionState, id: int, bit: int, w: RegionState) -> bool {
    let before = v.slots[id];
    let after = w.slots[id];
    if before.meta.owners != bit {
        &&& after.meta.owners == before.meta.owners - bit
        &&& after.meta.state == LEASE_STATE_LEASED
        &&& after.meta.epoch == before.meta.epoch
        &&& after.generation == before.generation
        &&& after.to_worker == before.to_worker
        &&& after.to_backend == before.to_backend
        &&& after.to_worker_ready == before.to_worker_ready
        &&& after.to_backend_ready == before.to_backend_ready
        &&& after.backend_pid == if bit == 1 {
            0
        } else {
            before.backend_pid
        }
        &&& w.freelist == v.freelist
    } else {
        &&& waits_free(after, v.freelist_epoch)
        &&& w.freelist == v.freelist.push(id as u32)
    }
}

proof fn lemma_emptied_is_free(v: RegionState, id: int, pid: i32)
    requires
        0 <= id < v.slots.len(),
        v.meta.worker_state != WORKER_STATE_REINITING,
    ensures
        ({
            let w = v.with_emptied(id).published(id, pid).0;
            &&& waits_free(w.slots[id], v.freelist_epoch)
            &&& w.freelist == v.freelist.push(id as u32)
        }),
{
}

/// A worker that lets go of a lease loses its own part, and only where it has one:
/// where the slot is leased as it says and an attached worker owns it.
pub proof fn law_worker_lets_go_of_its_part(
    v: RegionState,
    id: u32,
    incarnation: LeaseIncarnation,
    pid: i32,
)
    requires
        sound(v),
        v.has_slot(id),
        v.meta.worker_state != WORKER_STATE_REINITING,
    ensures
        ({
            let slot = v.slots[id as int];
            let w = v.worker_released(id as int, incarnation, pid);
            if slot.leased_as(incarnation) && worker_bit(slot.meta.owners) {
                owner_let_go(v, id as int, 2, w)
            } else {
                w == v
            }
        }),
{
    let slot = v.slots[id as int];
    assert(slot.shaped(v.layout));
    lemma_owner_bits(slot.meta.owners);
    let (cleared, mutation) = v.owners_cleared(id as int, incarnation, OWNER_WORKER);
    lemma_emptied_is_free(cleared, id as int, pid);
}

/// A claim that is taken back loses the pending part, and only where there is one.
pub proof fn law_claim_lets_go_of_its_part(
    v: RegionState,
    id: u32,
    incarnation: LeaseIncarnation,
    pid: i32,
)
    requires
        sound(v),
        v.has_slot(id),
        v.meta.worker_state != WORKER_STATE_REINITING,
    ensures
        ({
            let slot = v.slots[id as int];
            let w = v.claim_rolled_back(id as int, incarnation, pid);
            if slot.leased_as(incarnation) && pending_bit(slot.meta.owners) {
                owner_let_go(v, id as int, 4, w)
            } else {
                w == v
            }
        }),
{
    let slot = v.slots[id as int];
    assert(slot.shaped(v.layout));
    lemma_owner_bits(slot.meta.owners);
    let (cleared, mutation) = v.owners_cleared(id as int, incarnation, OWNER_WORKER_PENDING);
    lemma_emptied_is_free(cleared, id as int, pid);
}

/// A backend that lets go of a lease loses its own part, and only where it has
/// one.
pub proof fn law_backend_lets_go_of_its_part(
    v: RegionState,
    id: u32,
    incarnation: LeaseIncarnation,
    pid: i32,
)
    requires
        sound(v),
        v.has_slot(id),
        v.meta.worker_state != WORKER_STATE_REINITING,
    ensures
        ({
            let slot = v.slots[id as int];
            let w = v.backend_released(id as int, incarnation, pid);
            if slot.leased_as(incarnation) && backend_bit(slot.meta.owners) {
                owner_let_go(v, id as int, 1, w)
            } else {
                w == v
            }
        }),
{
    let slot = v.slots[id as int];
    assert(slot.shaped(v.layout));
    lemma_owner_bits(slot.meta.owners);
    let (cleared, mutation) = v.owners_cleared(id as int, incarnation, OWNER_BACKEND);
    lemma_emptied_is_free(cleared.with_backend_pid(id as int, 0), id as int, pid);
}

/// A lease is finalized exactly where the slot is leased as it says and nobody
/// owns it; the slot then waits free on top of the stack.
pub proof fn law_lease_without_owner_is_finalized(
    v: RegionState,
    id: u32,
    incarnation: LeaseIncarnation,
    pid: i32,
)
    requires
        v.has_slot(id),
        v.meta.worker_state != WORKER_STATE_REINITING,
    ensures
        ({
            let slot = v.slots[id as int];
            let (w, done) = v.finalized(id as int, incarnation, pid);
            &&& done <==> slot.leased_as(incarnation) && slot.meta.owners == 0
            &&& done ==> waits_free(w.slots[id as int], v.freelist_epoch) && w.freelist
                == v.freelist.push(id)
            &&& !done ==> w == v
        }),
{
    lemma_emptied_is_free(v, id as int, pid);
}

/// A slot that waits for a token gets one, outside a reset. A slot that has one
/// keeps it, and a slot in any other state is left alone.
pub proof fn law_only_waiting_slots_are_published(v: RegionState, id: u32, pid: i32)
    requires
        v.has_slot(id),
        v.meta.worker_state != WORKER_STATE_REINITING,
    ensures
        ({
            let state = v.slots[id as int].meta.state;
            let (w, done) = v.published(id as int, pid);
            &&& done <==> state == LEASE_STATE_FREE_PENDING || state == LEASE_STATE_FREE_PUBLISHED
                || state == LEASE_STATE_FREE_PUSHED
            &&& done ==> w.slots[id as int].meta.state == LEASE_STATE_FREE_PUBLISHED
                && w.slots[id as int].backend_pid == 0 && w.slots[id as int].meta.owners
                == if state == LEASE_STATE_FREE_PUBLISHED {
                v.slots[id as int].meta.owners
            } else {
                0
            }
            &&& state == LEASE_STATE_FREE_PENDING ==> w.freelist == v.freelist.push(id)
                && w.slots[id as int].meta.epoch == v.freelist_epoch
            &&& state != LEASE_STATE_FREE_PENDING ==> w.freelist == v.freelist
                && w.slots[id as int].meta.epoch == v.slots[id as int].meta.epoch
            &&& !done ==> w == v
        }),
{
}

/// An acquisition that is broken off leaves a slot that it popped or reserved free
/// again, leaves a free slot as it is, and fails on a leased one.
pub proof fn law_broken_off_acquisition(v: RegionState, id: u32, pid: i32)
    requires
        v.has_slot(id),
        v.meta.worker_state != WORKER_STATE_REINITING,
        v.slots[id as int].meta.state <= 6,
    ensures
        ({
            let state = v.slots[id as int].meta.state;
            let (w, done) = v.acquire_aborted(id as int, pid);
            &&& done <==> state != LEASE_STATE_LEASED
            &&& state == LEASE_STATE_FREE_POPPED || state == LEASE_STATE_ACQUIRE_RESERVED
                ==> waits_free(w.slots[id as int], v.freelist_epoch) && w.freelist
                == v.freelist.push(id)
            &&& state != LEASE_STATE_FREE_POPPED && state != LEASE_STATE_ACQUIRE_RESERVED ==> w
                == v
        }),
{
    lemma_emptied_is_free(v, id as int, pid);
}

/// A popped slot is reserved exactly if it was popped under the epoch that the
/// acquisition saw.
pub proof fn law_popped_slot_is_reserved(v: RegionState, id: u32, epoch: u64, pid: i32)
    requires
        v.has_slot(id),
    ensures
        ({
            let word = v.slots[id as int].meta;
            let (w, done) = v.reserved(id as int, epoch, pid);
            &&& done <==> word.state == LEASE_STATE_FREE_POPPED && word.epoch == epoch
            &&& done ==> w.slots[id as int] == (SlotState {
                meta: SlotWord { state: LEASE_STATE_ACQUIRE_RESERVED, epoch: 0, owners: 0 },
                ..v.slots[id as int]
            }) && w.freelist == v.freelist
            &&& !done && word.state != LEASE_STATE_FREE_PENDING ==> w == v
        }),
{
}

/// A reserved slot is leased to its backend under the next lease epoch, and each
/// lease uses an epoch up. A slot whose reservation is gone is not leased.
pub proof fn law_reserved_slot_is_leased(v: RegionState, id: u32, generation: u64, pid: i32)
    requires
        v.has_slot(id),
        v.next_lease_epoch < u64::MAX,
    ensures
        ({
            let (w, r) = v.lease_published(id as int, generation, pid);
            let ready = v.slots[id as int].meta.state == LEASE_STATE_ACQUIRE_RESERVED
                && v.slots[id as int].meta.epoch == 0 && v.slots[id as int].meta.owners == 0;
            &&& r is Some <==> ready
            &&& w.next_lease_epoch == v.next_lease_epoch + 1
            &&& r matches Some(incarnation) ==> {
                &&& incarnation.generation == generation
                &&& incarnation.lease_epoch == v.next_lease_epoch
                &&& w.slots[id as int].leased_as(incarnation)
                &&& w.slots[id as int].meta.owners == 1
                &&& w.slots[id as int].backend_pid == pid
                &&& is_silent(w.slots[id as int])
                &&& w.freelist == v.freelist
            }
        }),
{
}

/// A new lease is confirmed exactly if the worker is still online in its
/// generation. Otherwise the backend lets go of it.
pub proof fn law_lease_is_confirmed(
    v: RegionState,
    id: u32,
    incarnation: LeaseIncarnation,
    pid: i32,
)
    ensures
        ({
            let (w, r) = v.lease_confirmed(id, incarnation, pid);
            let online = v.meta.online() && v.meta.generation == incarnation.generation;
            &&& r is Ok <==> online
            &&& online ==> w == v
            &&& !online ==> r == Err::<(), AcquireError>(AcquireError::WorkerOffline) && w
                == v.backend_released(id as int, incarnation, pid)
        }),
{
}

/// A region that was just set up is offline, has never leased a slot, and holds
/// every slot of its layout free, silent and on the stack, slot zero on top.
pub proof fn law_fresh_region_is_free(layout: TransportRegionLayout, key: usize, i: int)
    requires
        0 <= i < layout.slot_count,
    ensures
        ({
            let v = fresh_region(layout, key);
            let n = layout.slot_count as int;
            &&& v.meta.generation == 0
            &&& v.meta.worker_state == WORKER_STATE_OFFLINE
            &&& v.worker_pid == 0
            &&& v.next_lease_epoch == 1
            &&& v.key == key
            &&& v.layout == layout
            &&& v.slots.len() == n
            &&& v.freelist.len() == n
            &&& v.freelist[i] == n - 1 - i
            &&& v.freelist.last() == 0
            &&& waits_free(v.slots[i], v.freelist_epoch)
            &&& v.slots[i].to_worker.capacity() == layout.backend_to_worker_cap
            &&& v.slots[i].to_backend.capacity() == layout.worker_to_backend_cap
        }),
{
}

/// The newest record of a process for a region counts, and there is none exactly
/// if no record is of that process, that region and that many slots.
pub proof fn law_newest_record_counts(
    registries: Seq<RegistryState>,
    owner_pid: i32,
    region_key: usize,
    slot_count: u32,
)
    ensures
        find_registry(registries, owner_pid, region_key, slot_count) is None <==> forall|i: int|
            0 <= i < registries.len() ==> !(#[trigger] registries[i]).matches(
                owner_pid,
                region_key,
                slot_count,
            ),
        find_registry(registries, owner_pid, region_key, slot_count) matches Some(at) ==> {
            &&& 0 <= at < registries.len()
            &&& registries[at].owner_pid == owner_pid
            &&& registries[at].region_key == region_key
            &&& registries[at].owners.len() == slot_count
            &&& forall|i: int|
                at < i < registries.len() ==> !(#[trigger] registries[i]).matches(
                    owner_pid,
                    region_key,
                    slot_count,
                )
        },
    decreases registries.len(),
{
    if registries.len() > 0 && !registries.last().matches(owner_pid, region_key, slot_count) {
        let fewer = registries.drop_last();
        law_newest_record_counts(fewer, owner_pid, region_key, slot_count);
        assert forall|i: int| 0 <= i < fewer.len() implies #[trigger] fewer[i] == registries[i] by {
        }
        if find_registry(fewer, owner_pid, region_key, slot_count) is None {
            assert forall|i: int| 0 <= i < registries.len() implies !(
            #[trigger] registries[i]).matches(owner_pid, region_key, slot_count) by {
                if i < fewer.len() {
                    assert(fewer[i] == registries[i]);
                }
            }
        } else {
            let at = find_registry(fewer, owner_pid, region_key, slot_count)->0;
            assert(fewer[at] == registries[at]);
            assert(registries[at].matches(owner_pid, region_key, slot_count));
            assert forall|i: int| at < i < registries.len() implies !(
            #[trigger] registries[i]).matches(owner_pid, region_key, slot_count) by {
                if i < fewer.len() {
                    assert(fewer[i] == registries[i]);
                }
            }
        }
    } else if registries.len() > 0 {
        assert(registries[registries.len() - 1].matches(owner_pid, region_key, slot_count));
    }
}

/// The claims that a process holds are counted and listed one by one, in slot
/// order: a slot is listed exactly if something is recorded for it, with that.
pub proof fn law_held_slots_are_listed(owners: Seq<LeaseIncarnation>, slot: int)
    requires
        owners.len() <= u32::MAX,
    ensures
        held_slots(owners).len() == held_count(owners),
        held_count(owners) == 0 <==> forall|i: int|
            0 <= i < owners.len() ==> #[trigger] owners[i] == no_incarnation(),
        forall|k: int|
            0 <= k < held_slots(owners).len() ==> {
                let (id, incarnation) = #[trigger] held_slots(owners)[k];
                &&& id < owners.len()
                &&& owners[id as int] == incarnation
                &&& incarnation != no_incarnation()
            },
        forall|j: int, k: int|
            0 <= j < k < held_slots(owners).len() ==> (#[trigger] held_slots(owners)[j]).0 < (
            #[trigger] held_slots(owners)[k]).0,
        0 <= slot < owners.len() && owners[slot] != no_incarnation() ==> held_slots(
            owners,
        ).contains((slot as u32, owners[slot])),
    decreases owners.len(),
{
    if owners.len() > 0 {
        let fewer = owners.drop_last();
        law_held_slots_are_listed(fewer, slot);
        let before = held_slots(fewer);
        let list = held_slots(owners);
        assert(forall|i: int| 0 <= i < fewer.len() ==> #[trigger] fewer[i] == owners[i]);
        assert(owners[owners.len() - 1] == owners.last());
        assert(held_count(owners) == 0 <==> forall|i: int|
            0 <= i < owners.len() ==> #[trigger] owners[i] == no_incarnation()) by {
            if held_count(owners) == 0 {
                assert forall|i: int| 0 <= i < owners.len() implies #[trigger] owners[i]
                    == no_incarnation() by {
                    if i < fewer.len() {
                        assert(fewer[i] == no_incarnation());
                    }
                }
            }
        }
        assert forall|k: int| 0 <= k < list.len() implies ({
            let (id, incarnation) = #[trigger] list[k];
            &&& id < owners.len()
            &&& owners[id as int] == incarnation
            &&& incarnation != no_incarnation()
        }) by {
            if k < before.len() {
                assert(list[k] == before[k]);
            }
        }
        assert forall|j: int, k: int| 0 <= j < k < list.len() implies (#[trigger] list[j]).0 < (
        #[trigger] list[k]).0 by {
            assert(list[j] == before[j]);
            if k < before.len() {
                assert(list[k] == before[k]);
            }
        }
        if 0 <= slot < owners.len() && owners[slot] != no_incarnation() {
            if slot < fewer.len() {
                assert(before.contains((slot as u32, owners[slot])));
                let k = choose|k: int|
                    0 <= k < before.len() && before[k] == (slot as u32, owners[slot]);
                assert(list[k] == (slot as u32, owners[slot]));
            } else {
                assert(list[before.len() as int] == (slot as u32, owners[slot]));
            }
        }
    }
}

/// A claim is recorded exactly where nothing is recorded for its slot, and taken
/// back exactly where it is what is recorded. Nothing else of the record changes.
pub proof fn law_claims_are_recorded(
    process: ProcessState,
    region_key: usize,
    slot_count: u32,
    slot_id: int,
    incarnation: LeaseIncarnation,
    other: int,
)
    requires
        process.attached(region_key, slot_count) is Some,
        0 <= slot_id < slot_count,
        0 <= other < slot_count,
        other != slot_id,
        incarnation != no_incarnation(),
    ensures
        ({
            let at = process.attached(region_key, slot_count)->0;
            let before = process.registries[at].owners;
            let (added, fresh) = process.after_insert(
                region_key,
                slot_count,
                slot_id,
                incarnation,
            );
            let (left, gone) = process.after_remove(
                region_key,
                slot_count,
                slot_id,
                incarnation,
            );
            let taken = process.after_take(region_key, slot_count);
            &&& fresh <==> before[slot_id] == no_incarnation()
            &&& !fresh ==> added == process
            &&& fresh ==> added.registries[at].owners[slot_id] == incarnation
            &&& added.registries[at].owners[other] == before[other]
            &&& gone <==> before[slot_id] == incarnation
            &&& !gone ==> left == process
            &&& gone ==> left.registries[at].owners[slot_id] == no_incarnation()
            &&& left.registries[at].owners[other] == before[other]
            &&& taken.registries[at].owners[slot_id] == no_incarnation()
            &&& taken.registries[at].owners[other] == no_incarnation()
            &&& added.pid == process.pid
            &&& left.pid == process.pid
            &&& taken.pid == process.pid
        }),
{
    law_newest_record_counts(process.registries, process.pid, region_key, slot_count);
}

/// Attaching to a region that a process has a record for keeps the record; to one
/// that it has none for makes an empty one, and a reset makes one anyway.
pub proof fn law_attaching_keeps_records(
    process: ProcessState,
    region_key: usize,
    slot_count: u32,
    slot_id: int,
)
    requires
        0 <= slot_id < slot_count,
    ensures
        process.attached(region_key, slot_count) is Some ==> process.after_attach(
            region_key,
            slot_count,
        ) == process,
        process.attached(region_key, slot_count) is None ==> process.after_attach(
            region_key,
            slot_count,
        ) == process.after_reset(region_key, slot_count),
        ({
            let fresh = process.after_reset(region_key, slot_count);
            &&& fresh.attached(region_key, slot_count) == Some(process.registries.len() as int)
            &&& fresh.owners(region_key, slot_count).len() == slot_count
            &&& fresh.owners(region_key, slot_count)[slot_id] == no_incarnation()
            &&& fresh.registries.drop_last() == process.registries
        }),
{
    let fresh = process.after_reset(region_key, slot_count);
    assert(fresh.registries.drop_last() =~= process.registries);
}

} // verus!
