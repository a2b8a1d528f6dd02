//! Between whole calls every slot is somebody's or on the free stack.
//!
//! [`orderly`] says so. It holds of a region that was just set up and is kept
//! by every whole call, so no slot is ever lost. While another process is
//! between two steps of a call it may not hold: a slot that is being published
//! has a token before it says so, and a process that pops such a token drops
//! it.

use super::claim::ClaimState;
use super::error::ProbeFailure;
use super::history::{history, RegionCall};
use super::laws::{
    core_sound, has_token_state, law_acquire, law_claim_keeps_sound, law_detach_keeps_sound,
    law_fresh_region_sound, law_generation_change_keeps_sound, law_publish_keeps_sound,
    lemma_sweep_one_keeps_sound, only_slot_changed, slot_sound, sound, tokens_complete,
    tokens_sound,
};
use super::layout::TransportRegionLayout;
use super::meta::{
    free_word, leased_word, lemma_owner_bits, LeaseIncarnation, LEASE_STATE_ACQUIRE_RESERVED,
    LEASE_STATE_LEASED, OWNER_BACKEND, REGION_META_MAX_GENERATION, SLOT_META_MAX_LEASE_EPOCH,
    WORKER_STATE_REINITING, WORKER_STATE_RESTARTING,
};
use super::process::LivenessTable;
use super::region::{fresh_region, RegionState, SlotState};
use super::registry::{held_slots, lemma_found_registry};
use super::reset_laws::{law_reset_frees_all_but_owned, retained};
use super::worker::lemma_held_slots_in_range;
use vstd::prelude::*;

verus! {

/// A slot is leased to somebody, or it is free and its token is on the stack.
pub open spec fn in_place(v: RegionState, slot: SlotState, id: int) -> bool {
    retained(slot) || (slot.meta.published_in(v.freelist_epoch) && v.freelist.contains(id as u32))
}

/// A sound region, not under a reset, whose slots are all in place.
pub open spec fn orderly(v: RegionState) -> bool {
    &&& sound(v)
    &&& v.meta.worker_state != WORKER_STATE_REINITING
    &&& forall|i: int| 0 <= i < v.slots.len() ==> in_place(v, #[trigger] v.slots[i], i)
}

/// The counters of the region have not reached their last values.
pub open spec fn has_room(v: RegionState) -> bool {
    &&& v.meta.generation < REGION_META_MAX_GENERATION
    &&& v.next_lease_epoch < SLOT_META_MAX_LEASE_EPOCH
    &&& v.freelist_epoch < SLOT_META_MAX_LEASE_EPOCH
}

/// In an orderly region the free stack holds exactly the slots that nobody owns.
pub proof fn law_stack_is_complete(v: RegionState)
    requires
        orderly(v),
    ensures
        tokens_sound(v),
        tokens_complete(v),
        v.freelist.no_duplicates(),
        forall|id: u32| v.has_slot(id) ==> (#[trigger] v.freelist.contains(id) <==> !retained(
            v.slots[id as int],
        )),
{
    assert forall|id: u32| v.has_slot(id) implies (#[trigger] v.freelist.contains(id)
        <==> !retained(v.slots[id as int])) by {
        assert(in_place(v, v.slots[id as int], id as int));
        if v.freelist.contains(id) {
            let i = choose|i: int| 0 <= i < v.freelist.len() && v.freelist[i] == id;
            assert(has_token_state(v.slots[v.freelist[i] as int].meta.state));
        }
    }
    assert forall|i: int|
        0 <= i < v.slots.len() && has_token_state((#[trigger] v.slots[i]).meta.state)
            && v.slots[i].meta.epoch == v.freelist_epoch implies v.freelist.contains(
        i as u32,
    ) by {
        assert(in_place(v, v.slots[i], i));
    }
}

/// A region that was just set up is orderly.
pub proof fn law_fresh_region_orderly(layout: TransportRegionLayout, key: usize)
    requires
        layout.valid(),
    ensures
        orderly(fresh_region(layout, key)),
{
    let v = fresh_region(layout, key);
    law_fresh_region_sound(layout, key);
    assert forall|i: int| 0 <= i < v.slots.len() implies in_place(v, #[trigger] v.slots[i], i) by {
        assert(v.slots[i] == super::region::fresh_slot(layout, 1));
        assert(v.freelist[layout.slot_count - 1 - i] == i as u32);
    }
}

/// A call that touches one slot keeps the order if it leaves that slot in place
/// and drops no other token.
proof fn lemma_one_slot(v: RegionState, id: u32, w: RegionState)
    requires
        orderly(v),
        sound(w),
        v.has_slot(id),
        only_slot_changed(v, id as int, w),
        in_place(w, w.slots[id as int], id as int),
        w.freelist == v.freelist || w.freelist == v.freelist.push(id),
    ensures
        orderly(w),
{
    assert forall|i: int| 0 <= i < w.slots.len() implies in_place(w, #[trigger] w.slots[i], i) by {
        if i != id {
            assert(w.slots[i] == v.slots[i]);
            assert(in_place(v, v.slots[i], i));
            lemma_push_keeps(v.freelist, id, i as u32);
        }
    }
}

proof fn lemma_push_keeps(s: Seq<u32>, x: u32, y: u32)
    ensures
        s.contains(y) ==> s.push(x).contains(y),
        s.push(x).contains(x),
{
    if s.contains(y) {
        let k = choose|k: int| 0 <= k < s.len() && s[k] == y;
        assert(s.push(x)[k] == y);
    }
    assert(s.push(x)[s.len() as int] == x);
}

proof fn lemma_publish_orderly(v: RegionState, id: u32, pid: i32)
    requires
        orderly(v),
        v.has_slot(id),
    ensures
        orderly(v.published(id as int, pid).0),
{
    law_publish_keeps_sound(v, id, pid, 0);
    let w = v.published(id as int, pid).0;
    assert(in_place(v, v.slots[id as int], id as int));
    lemma_one_slot(v, id, w);
}

/// Clearing owner bits and following that up.
proof fn lemma_clear_orderly(
    v: RegionState,
    id: u32,
    incarnation: LeaseIncarnation,
    bits: u32,
    pid: i32,
)
    requires
        orderly(v),
        v.has_slot(id),
        ({
            let (cleared, mutation) = v.owners_cleared(id as int, incarnation, bits);
            let w = cleared.followed_up(id as int, incarnation, mutation, pid);
            sound(w) && only_slot_changed(v, id as int, w)
        }),
    ensures
        ({
            let (cleared, mutation) = v.owners_cleared(id as int, incarnation, bits);
            orderly(cleared.followed_up(id as int, incarnation, mutation, pid))
        }),
{
    let (cleared, mutation) = v.owners_cleared(id as int, incarnation, bits);
    let w = cleared.followed_up(id as int, incarnation, mutation, pid);
    assert(in_place(v, v.slots[id as int], id as int));
    if mutation.changed {
        if mutation.remaining_mask == 0 {
            lemma_push_keeps(v.freelist, id, id);
            assert(w.freelist == v.freelist.push(id));
        }
        lemma_one_slot(v, id, w);
    }
}

/// Letting go of a slot and reaping a dead backend keep the order.
pub proof fn law_detach_keeps_order(
    v: RegionState,
    id: u32,
    incarnation: LeaseIncarnation,
    table: LivenessTable,
    pid: i32,
)
    requires
        orderly(v),
        v.has_slot(id),
    ensures
        orderly(v.worker_released(id as int, incarnation, pid)),
        orderly(v.claim_rolled_back(id as int, incarnation, pid)),
        orderly(v.backend_released(id as int, incarnation, pid)),
        orderly(v.reaped(id as int, incarnation, table, pid).0),
{
    law_detach_keeps_sound(v, id, incarnation, table, pid);
    lemma_clear_orderly(v, id, incarnation, super::meta::OWNER_WORKER, pid);
    lemma_clear_orderly(v, id, incarnation, super::meta::OWNER_WORKER_PENDING, pid);
    let slot = v.slots[id as int];
    if slot.leased_as(incarnation) && super::meta::backend_bit(slot.meta.owners) {
        assert(slot.shaped(v.layout));
        lemma_owner_bits(slot.meta.owners);
        let w = v.backend_detached(id as int, incarnation, pid);
        let (cleared, mutation) = v.owners_cleared(id as int, incarnation, OWNER_BACKEND);
        assert(mutation.changed);
        lemma_push_keeps(v.freelist, id, id);
        assert(v.backend_released(id as int, incarnation, pid) == w);
        if mutation.remaining_mask == 0 {
            assert(w.freelist == v.freelist.push(id));
        }
        lemma_one_slot(v, id, w);
    }
}

pub proof fn lemma_reap_orderly(
    v: RegionState,
    from: int,
    any: bool,
    first: Option<(u32, ProbeFailure)>,
    table: LivenessTable,
    pid: i32,
)
    requires
        orderly(v),
        0 <= from,
    ensures
        orderly(v.reaped_from(from, any, first, table, pid).0),
        v.reaped_from(from, any, first, table, pid).0.same_frame(v),
    decreases v.slots.len() - from,
{
    if from < v.slots.len() {
        let slot = v.slots[from];
        let incarnation = LeaseIncarnation {
            generation: slot.generation,
            lease_epoch: slot.meta.epoch,
        };
        law_detach_keeps_order(v, from as u32, incarnation, table, pid);
        law_detach_keeps_sound(v, from as u32, incarnation, table, pid);
        let (next, r) = v.reaped_one(from, table, pid);
        lemma_reap_orderly(
            next,
            from + 1,
            any || r == Ok::<bool, ProbeFailure>(true),
            match r {
                Err(failure) => if first is None {
                    Some((from as u32, failure))
                } else {
                    first
                },
                Ok(_) => first,
            },
            table,
            pid,
        );
    }
}

/// Sweeping one slot keeps the order and leaves every other slot alone.
pub proof fn lemma_sweep_one_orderly(
    v: RegionState,
    id: u32,
    generation: u64,
    table: LivenessTable,
    pid: i32,
)
    requires
        orderly(v),
        v.has_slot(id),
    ensures
        orderly(v.swept_one(id as int, generation, table, pid)),
        only_slot_changed(v, id as int, v.swept_one(id as int, generation, table, pid)),
{
    let w = v.swept_one(id as int, generation, table, pid);
    let slot = v.slots[id as int];
    let incarnation = LeaseIncarnation {
        generation: slot.generation,
        lease_epoch: slot.meta.epoch,
    };
    lemma_sweep_one_keeps_sound(v, id, generation, table, pid);
    if slot.generation == 0 || slot.generation == generation || slot.meta.epoch == 0 {
    } else {
        assert(in_place(v, slot, id as int));
        assert(slot.shaped(v.layout) && slot_sound(slot, v));
        lemma_owner_bits(slot.meta.owners);
        law_detach_keeps_order(v, id, incarnation, table, pid);
        law_detach_keeps_sound(v, id, incarnation, table, pid);
        let next = if super::meta::backend_bit(slot.meta.owners) {
            v.reaped(id as int, incarnation, table, pid).0
        } else {
            v
        };
        let owners = next.slots[id as int].meta.owners;
        assert(next.slots[id as int].shaped(next.layout));
        lemma_owner_bits(owners);
        assert(in_place(next, next.slots[id as int], id as int));
        if !super::meta::worker_bit(owners) && !super::meta::pending_bit(owners) {
            if owners == 0 && next.slots[id as int].meta.state == LEASE_STATE_LEASED {
                assert(!retained(next.slots[id as int]));
            }
        } else {
            let (cleared, mutation) = next.owners_cleared(
                id as int,
                incarnation,
                super::meta::OWNER_ANY_WORKER,
            );
            let after = cleared.followed_up(id as int, incarnation, mutation, pid);
            assert(w == after);
            assert(only_slot_changed(next, id as int, after));
            lemma_clear_orderly(next, id, incarnation, super::meta::OWNER_ANY_WORKER, pid);
        }
    }
}

proof fn lemma_sweep_orderly(
    v: RegionState,
    from: int,
    generation: u64,
    table: LivenessTable,
    pid: i32,
)
    requires
        orderly(v),
        0 <= from,
    ensures
        orderly(v.swept_from(from, generation, table, pid)),
        v.swept_from(from, generation, table, pid).same_frame(v),
    decreases v.slots.len() - from,
{
    if from < v.slots.len() {
        lemma_sweep_one_orderly(v, from as u32, generation, table, pid);
        lemma_sweep_orderly(
            v.swept_one(from, generation, table, pid),
            from + 1,
            generation,
            table,
            pid,
        );
    }
}

/// A change of the region's own words alone keeps the order.
pub proof fn lemma_new_word_orderly(v: RegionState, w: RegionState)
    requires
        orderly(v),
        sound(w),
        w.meta.worker_state != WORKER_STATE_REINITING,
        w.slots == v.slots,
        w.freelist == v.freelist,
        w.freelist_epoch == v.freelist_epoch,
    ensures
        orderly(w),
{
    assert forall|i: int| 0 <= i < w.slots.len() implies in_place(w, #[trigger] w.slots[i], i) by {
        assert(in_place(v, v.slots[i], i));
    }
}

/// A generation switch keeps the order.
pub proof fn law_generation_switch_keeps_order(
    v: RegionState,
    worker_pid: i32,
    table: LivenessTable,
    pid: i32,
)
    requires
        orderly(v),
        v.meta.generation < REGION_META_MAX_GENERATION,
    ensures
        orderly(v.generation_begun(super::meta::WORKER_STATE_OFFLINE)),
        orderly(v.activated(worker_pid, table, pid)),
{
    law_generation_change_keeps_sound(v, worker_pid, table, pid);
    lemma_new_word_orderly(v, v.generation_begun(super::meta::WORKER_STATE_OFFLINE));
    let begun = v.generation_begun(WORKER_STATE_RESTARTING);
    let generation = (v.meta.generation + 1) as u64;
    lemma_new_word_orderly(v, begun);
    lemma_sweep_orderly(begun, 0, generation, table, pid);
    let swept = begun.swept_from(0, generation, table, pid);
    lemma_new_word_orderly(swept, v.activated(worker_pid, table, pid));
}

/// A slot that was just leased to the process `pid`.
pub open spec fn newly_leased(
    slot: SlotState,
    incarnation: LeaseIncarnation,
    pid: i32,
) -> SlotState {
    SlotState {
        generation: incarnation.generation,
        backend_pid: pid,
        meta: leased_word(incarnation.lease_epoch, OWNER_BACKEND),
        ..slot.cleared()
    }
}

/// The region after the slot on top of the free stack was leased.
pub open spec fn top_leased(v: RegionState, pid: i32) -> RegionState {
    let id = v.freelist.last() as int;
    let incarnation = LeaseIncarnation {
        generation: v.meta.generation,
        lease_epoch: v.next_lease_epoch,
    };
    RegionState {
        next_lease_epoch: (v.next_lease_epoch + 1) as u64,
        freelist: v.freelist.drop_last(),
        slots: v.slots.update(id, newly_leased(v.slots[id], incarnation, pid)),
        ..v
    }
}

pub proof fn lemma_top_reserved(v: RegionState, pid: i32)
    requires
        orderly(v),
        v.meta.online(),
        v.freelist.len() > 0,
    ensures
        ({
            let id = v.freelist.last();
            let (first, token) = v.token_taken(pid);
            let (reserved, r) = first.popped_slot_reserved(id, v.meta.generation, pid);
            let (leased, incarnation) = reserved.lease_published(
                id as int,
                v.meta.generation,
                pid,
            );
            &&& v.has_slot(id)
            &&& token == Some(id)
            &&& r == Ok::<u32, super::error::AcquireError>(id)
            &&& incarnation == Some(
                LeaseIncarnation {
                    generation: v.meta.generation,
                    lease_epoch: v.next_lease_epoch,
                },
            )
            &&& leased == top_leased(v, pid)
        }),
{
    let id = v.freelist.last();
    assert(v.freelist[v.freelist.len() - 1] < v.slots.len());
    assert(v.freelist.contains(v.freelist[v.freelist.len() - 1]));
    assert(in_place(v, v.slots[id as int], id as int));
    law_stack_is_complete(v);
    let first = v.without_top().popped(id as int, pid);
    assert(v.without_top().token_good(id as int));
    assert(v.token_taken(pid) == (first, Some(id)));
    let reserved = first.with_meta(id as int, free_word(LEASE_STATE_ACQUIRE_RESERVED, 0));
    assert(first.popped_slot_reserved(id, v.meta.generation, pid).0 == reserved);
    let leased = reserved.lease_published(id as int, v.meta.generation, pid).0;
    assert(leased.slots =~= top_leased(v, pid).slots);
    assert(leased =~= top_leased(v, pid));
}

/// An acquisition that finds a token leases the slot on top of the stack, under
/// the next lease epoch, and changes nothing else.
pub proof fn law_acquire_takes_top(v: RegionState, table: LivenessTable, pid: i32)
    requires
        orderly(v),
        v.meta.online(),
        v.next_lease_epoch < SLOT_META_MAX_LEASE_EPOCH,
        v.freelist.len() > 0,
    ensures
        v.lease_acquired(table, pid) == (
            top_leased(v, pid),
            Ok::<(u32, LeaseIncarnation), super::error::AcquireError>(
                (
                    v.freelist.last(),
                    LeaseIncarnation {
                        generation: v.meta.generation,
                        lease_epoch: v.next_lease_epoch,
                    },
                ),
            ),
        ),
        orderly(top_leased(v, pid)),
{
    lemma_top_reserved(v, pid);
    law_acquire(v, table, pid);
    lemma_top_leased_orderly(v, pid);
}

proof fn lemma_top_leased_orderly(v: RegionState, pid: i32)
    requires
        orderly(v),
        v.freelist.len() > 0,
        sound(top_leased(v, pid)),
    ensures
        orderly(top_leased(v, pid)),
{
    let w = top_leased(v, pid);
    let id = v.freelist.last();
    assert(v.freelist[v.freelist.len() - 1] < v.slots.len());
    assert forall|i: int| 0 <= i < w.slots.len() implies in_place(w, #[trigger] w.slots[i], i) by {
        if i != id {
            assert(in_place(v, v.slots[i], i));
            if v.freelist.contains(i as u32) {
                let k = choose|k: int| 0 <= k < v.freelist.len() && v.freelist[k] == i as u32;
                assert(k != v.freelist.len() - 1);
                assert(w.freelist[k] == i as u32);
            }
        }
    }
}

proof fn lemma_acquire_orderly(v: RegionState, table: LivenessTable, pid: i32)
    requires
        orderly(v),
        v.next_lease_epoch < SLOT_META_MAX_LEASE_EPOCH,
    ensures
        orderly(v.lease_acquired(table, pid).0),
{
    if v.meta.online() {
        if v.freelist.len() > 0 {
            law_acquire_takes_top(v, table, pid);
        } else {
            law_acquire(v, table, pid);
            assert(v.token_taken(pid) == (v, None::<u32>));
            lemma_reap_orderly(v, 0, false, None, table, pid);
            let (reaped, r) = v.dead_reaped(table, pid);
            if r is Ok && reaped.freelist.len() > 0 {
                lemma_top_reserved(reaped, pid);
                assert(v.lease_acquired(table, pid).0 == top_leased(reaped, pid));
                lemma_top_leased_orderly(reaped, pid);
            }
        }
    }
}

proof fn lemma_claim_orderly(
    s: ClaimState,
    id: u32,
    incarnation: LeaseIncarnation,
    table: LivenessTable,
)
    requires
        orderly(s.region),
        s.region.has_slot(id),
        s.region.slots[id as int].generation == incarnation.generation,
    ensures
        orderly(s.claimed(Ok(incarnation), id, table).0.region),
{
    let pid = s.process.pid;
    assert(orderly(s.region.reaped(id as int, incarnation, table, pid).0)) by {
        law_detach_keeps_order(s.region, id, incarnation, table, pid);
    }
    lemma_reserve_orderly(s, id, incarnation, table);
    let (reserved, r) = s.claim_reserved(id, incarnation);
    if r is Ok {
        lemma_recheck_orderly(reserved, id, incarnation, table);
        let (rechecked, r) = reserved.claim_rechecked(id, incarnation, table);
        if r is Ok {
            lemma_commit_orderly(rechecked, id, incarnation, table);
        }
    }
}

proof fn lemma_reserve_orderly(
    s: ClaimState,
    id: u32,
    incarnation: LeaseIncarnation,
    table: LivenessTable,
)
    requires
        orderly(s.region),
        s.region.has_slot(id),
        s.region.slots[id as int].generation == incarnation.generation,
    ensures
        ({
            let reserved = s.claim_reserved(id, incarnation).0.region;
            &&& orderly(reserved)
            &&& reserved.has_slot(id)
            &&& reserved.slots[id as int].generation == incarnation.generation
        }),
{
    let reserved = s.claim_reserved(id, incarnation).0.region;
    assert(sound(reserved)) by {
        law_claim_keeps_sound(s, id, incarnation, table);
    }
    assert(in_place(s.region, s.region.slots[id as int], id as int));
    lemma_one_slot(s.region, id, reserved);
}

proof fn lemma_commit_orderly(
    s: ClaimState,
    id: u32,
    incarnation: LeaseIncarnation,
    table: LivenessTable,
)
    requires
        orderly(s.region),
        s.region.has_slot(id),
        s.region.slots[id as int].generation == incarnation.generation,
    ensures
        orderly(s.claim_committed(id, incarnation).0.region),
{
    let committed = s.claim_committed(id, incarnation).0.region;
    if s.region.slots[id as int].meta == leased_word(
        incarnation.lease_epoch,
        super::meta::OWNER_CLAIM_PENDING,
    ) {
        assert(sound(committed)) by {
            law_claim_keeps_sound(s, id, incarnation, table);
        }
        lemma_one_slot(s.region, id, committed);
    } else {
        law_detach_keeps_order(s.region, id, incarnation, table, s.process.pid);
    }
}

proof fn lemma_recheck_orderly(
    s: ClaimState,
    id: u32,
    incarnation: LeaseIncarnation,
    table: LivenessTable,
)
    requires
        orderly(s.region),
        s.region.has_slot(id),
    ensures
        orderly(s.claim_rechecked(id, incarnation, table).0.region),
{
    let pid = s.process.pid;
    law_detach_keeps_order(s.region, id, incarnation, table, pid);
    law_detach_keeps_sound(s.region, id, incarnation, table, pid);
    let undone = s.region.claim_rolled_back(id as int, incarnation, pid);
    law_detach_keeps_order(undone, id, incarnation, table, pid);
}

/// Letting go of several slots keeps the order.
pub proof fn law_exit_keeps_order(
    v: RegionState,
    owned: Seq<(u32, LeaseIncarnation)>,
    pid: i32,
)
    requires
        orderly(v),
        forall|i: int| 0 <= i < owned.len() ==> v.has_slot((#[trigger] owned[i]).0),
    ensures
        orderly(v.workers_released(owned, pid)),
        v.workers_released(owned, pid).same_frame(v),
    decreases owned.len(),
{
    if owned.len() > 0 {
        law_exit_keeps_order(v, owned.drop_last(), pid);
        let u = v.workers_released(owned.drop_last(), pid);
        assert(v.has_slot(owned[owned.len() - 1].0));
        law_detach_keeps_order(u, owned.last().0, owned.last().1, arbitrary(), pid);
        law_detach_keeps_sound(u, owned.last().0, owned.last().1, arbitrary(), pid);
    }
}

/// Traffic through a slot keeps the order.
proof fn lemma_traffic_orderly(v: RegionState, id: u32, w: RegionState)
    requires
        orderly(v),
        v.has_slot(id),
        w.shaped(),
        w == v.with_slot(id as int, w.slots[id as int]),
        w.slots[id as int].meta == v.slots[id as int].meta,
        w.slots[id as int].generation == v.slots[id as int].generation,
    ensures
        orderly(w),
{
    assert forall|i: int| 0 <= i < w.slots.len() implies slot_sound(#[trigger] w.slots[i], w)
        && in_place(w, w.slots[i], i) by {
        assert(slot_sound(v.slots[i], v));
        assert(in_place(v, v.slots[i], i));
        if i != id {
            assert(w.slots[i] == v.slots[i]);
        }
    }
    assert forall|i: int, j: int|
        0 <= i < w.slots.len() && 0 <= j < w.slots.len() && i != j && (
        #[trigger] w.slots[i]).meta.state == LEASE_STATE_LEASED && (
        #[trigger] w.slots[j]).meta.state == LEASE_STATE_LEASED implies w.slots[i].meta.epoch
        != w.slots[j].meta.epoch by {
        assert(v.slots[i].meta == w.slots[i].meta && v.slots[j].meta == w.slots[j].meta);
    }
    assert(core_sound(w));
    assert forall|i: int| 0 <= i < w.freelist.len() implies has_token_state(
        w.slots[(#[trigger] w.freelist[i]) as int].meta.state,
    ) && w.slots[w.freelist[i] as int].meta.epoch == w.freelist_epoch by {
        assert(w.slots[w.freelist[i] as int].meta == v.slots[v.freelist[i] as int].meta);
    }
}

/// Every whole call keeps the order.
pub proof fn law_whole_call_keeps_order(call: RegionCall, v: RegionState, w: RegionState)
    requires
        orderly(v),
        has_room(v),
        call.whole(),
        call.leads(v, w),
        w.shaped(),
    ensures
        orderly(w),
{
    match call {
        RegionCall::Acquire { table, pid } => {
            lemma_acquire_orderly(v, table, pid);
        },
        RegionCall::ReleaseLease { id, incarnation, pid } => {
            law_detach_keeps_order(v, id, incarnation, arbitrary(), pid);
        },
        RegionCall::Claim { process, verdict, id, table } => {
            if verdict is Ok {
                lemma_claim_orderly(ClaimState { region: v, process }, id, verdict->Ok_0, table);
            }
        },
        RegionCall::ReleaseClaim { id, incarnation, pid } => {
            law_detach_keeps_order(v, id, incarnation, arbitrary(), pid);
        },
        RegionCall::Exit { process } => {
            let owners = process.owners(v.key, v.layout.slot_count);
            lemma_found_registry(process.registries, process.pid, v.key, v.layout.slot_count);
            lemma_held_slots_in_range(owners);
            law_exit_keeps_order(v, held_slots(owners), process.pid);
        },
        RegionCall::Send { id, direction, payload } => {
            if w != v {
                lemma_traffic_orderly(v, id, w);
            }
        },
        RegionCall::Receive { id, direction, frame_len } => {
            if w != v {
                lemma_traffic_orderly(v, id, w);
            }
        },
        RegionCall::SetWorkerPid { worker_pid } => {
            assert forall|i: int| 0 <= i < w.slots.len() implies slot_sound(
                #[trigger] w.slots[i],
                w,
            ) by {
                assert(slot_sound(v.slots[i], v));
            }
            lemma_new_word_orderly(v, w);
        },
        RegionCall::Activate { process, worker_pid, table } => {
            law_generation_switch_keeps_order(v, worker_pid, table, process.pid);
        },
        RegionCall::Deactivate { process } => {
            law_generation_switch_keeps_order(v, 0, arbitrary(), process.pid);
        },
        RegionCall::Reset { base, len, layout, table } => {
            lemma_nobody_between_steps(v);
            law_reset_frees_all_but_owned(v, table);
            if call.switches(v) {
                lemma_reset_orderly(v, w);
            }
        },
        RegionCall::Publish { id, pid } => {
            lemma_publish_orderly(v, id, pid);
        },
        _ => {},
    }
}

/// In an orderly region nobody is between two steps.
proof fn lemma_nobody_between_steps(v: RegionState)
    requires
        orderly(v),
    ensures
        forall|i: int|
            0 <= i < v.slots.len() ==> !super::reinit::is_transitional(
                (#[trigger] v.slots[i]).meta.state,
            ),
{
    assert forall|i: int| 0 <= i < v.slots.len() implies !super::reinit::is_transitional(
        (#[trigger] v.slots[i]).meta.state,
    ) by {
        assert(in_place(v, v.slots[i], i));
    }
}

/// What a finished reset leaves is orderly.
pub proof fn lemma_reset_orderly(v: RegionState, w: RegionState)
    requires
        sound(w),
        w.meta.worker_state != WORKER_STATE_REINITING,
        w.slots.len() == v.slots.len(),
        forall|i: int|
            0 <= i < v.slots.len() && retained(v.slots[i]) ==> #[trigger] w.slots[i]
                == v.slots[i],
        forall|i: int|
            0 <= i < v.slots.len() && !retained(v.slots[i]) ==> (
            #[trigger] w.slots[i]).meta.published_in(w.freelist_epoch) && w.freelist.contains(
                i as u32,
            ),
    ensures
        orderly(w),
{
    assert forall|i: int| 0 <= i < w.slots.len() implies in_place(w, #[trigger] w.slots[i], i) by {
        assert(retained(v.slots[i]) || !retained(v.slots[i]));
    }
}

/// Whatever whole calls are made on an orderly region, in whatever order and by
/// whatever processes, every slot stays leased to somebody or on the free stack.
pub proof fn law_no_slot_is_lost(
    calls: Seq<RegionCall>,
    states: Seq<RegionState>,
    to: int,
)
    requires
        history(calls, states),
        orderly(states[0]),
        forall|i: int| 0 <= i < calls.len() ==> (#[trigger] calls[i]).whole(),
        forall|i: int| 0 <= i < states.len() ==> has_room(#[trigger] states[i]),
        0 <= to < states.len(),
    ensures
        orderly(states[to]),
    decreases to,
{
    if to > 0 {
        law_no_slot_is_lost(calls, states, to - 1);
        assert(calls[to - 1].leads(states[to - 1], states[to - 1 + 1]));
        law_whole_call_keeps_order(calls[to - 1], states[to - 1], states[to]);
    }
}

} // verus!
