//! What holds of every region that the transport can bring about.
//!
//! [`sound`] is kept by every operation. From it follow the promises of the
//! transport: a token is never on the free stack twice, no two leases share an
//! epoch, a slot comes back to the free stack only when nobody owns it, and a
//! generation change makes every older lease and claim stale.

use super::claim::{claim_verdict, ClaimState};
use super::error::{AcquireError, LeaseError, SlotAccessError};
use super::lifecycle::{access_verdict, lease_verdict};
use super::meta::{
    backend_bit, free_word, leased_word, lemma_owner_bits, LeaseIncarnation,
    LEASE_STATE_ACQUIRE_RESERVED, LEASE_STATE_FREE_PENDING, LEASE_STATE_FREE_POPPED,
    LEASE_STATE_FREE_PUBLISHED, LEASE_STATE_FREE_PUSHED, LEASE_STATE_FREE_PUSH_CLAIMED,
    LEASE_STATE_LEASED, OWNER_ANY_WORKER, OWNER_BACKEND, OWNER_BOTH, OWNER_CLAIM_PENDING,
    OWNER_WORKER, OWNER_WORKER_PENDING, REGION_META_MAX_GENERATION, SLOT_META_MAX_LEASE_EPOCH,
    WORKER_STATE_OFFLINE, WORKER_STATE_ONLINE, WORKER_STATE_REINITING, WORKER_STATE_RESTARTING,
};
use super::process::LivenessTable;
use super::region::{fresh_region, RegionState, SlotState};
use vstd::prelude::*;

verus! {

/// The lease states of a slot whose token is on the free stack.
pub open spec fn has_token_state(state: u32) -> bool {
    ||| state == LEASE_STATE_FREE_PUBLISHED
    ||| state == LEASE_STATE_FREE_PUSHED
    ||| state == LEASE_STATE_FREE_PUSH_CLAIMED
}

/// A leased slot has an epoch that was handed out and a generation that was
/// reached; a slot that is not leased has no owner, and no epoch that the free
/// stack has not reached.
pub open spec fn slot_sound(slot: SlotState, v: RegionState) -> bool {
    if slot.meta.state == LEASE_STATE_LEASED {
        1 <= slot.meta.epoch < v.next_lease_epoch && 1 <= slot.generation <= v.meta.generation
    } else {
        slot.meta.owners == 0 && slot.meta.epoch <= v.freelist_epoch && slot.meta.state
            <= LEASE_STATE_FREE_POPPED
    }
}

/// Every token on the free stack belongs to a free slot of the stack's epoch.
pub open spec fn tokens_sound(v: RegionState) -> bool {
    forall|i: int|
        0 <= i < v.freelist.len() ==> has_token_state(
            v.slots[(#[trigger] v.freelist[i]) as int].meta.state,
        ) && v.slots[v.freelist[i] as int].meta.epoch == v.freelist_epoch
}

/// Every free slot that says it is on the current stack is on it.
pub open spec fn tokens_complete(v: RegionState) -> bool {
    forall|i: int|
        0 <= i < v.slots.len() && has_token_state((#[trigger] v.slots[i]).meta.state)
            && v.slots[i].meta.epoch == v.freelist_epoch ==> v.freelist.contains(i as u32)
}

/// The part of [`sound`] that holds during a reset, too.
pub open spec fn core_sound(v: RegionState) -> bool {
    &&& v.shaped()
    &&& v.freelist.no_duplicates()
    &&& forall|i: int| 0 <= i < v.slots.len() ==> slot_sound(#[trigger] v.slots[i], v)
    &&& forall|i: int, j: int|
        0 <= i < v.slots.len() && 0 <= j < v.slots.len() && i != j && (
        #[trigger] v.slots[i]).meta.state == LEASE_STATE_LEASED && (
        #[trigger] v.slots[j]).meta.state == LEASE_STATE_LEASED ==> v.slots[i].meta.epoch
            != v.slots[j].meta.epoch
}

/// What holds of every region.
pub open spec fn sound(v: RegionState) -> bool {
    core_sound(v) && (v.meta.worker_state != WORKER_STATE_REINITING ==> tokens_sound(v))
}

/// A slot may become `slot` without breaking the region.
spec fn fits_in(v: RegionState, id: int, slot: SlotState) -> bool {
    &&& 0 <= id < v.slots.len()
    &&& slot.shaped(v.layout)
    &&& slot_sound(slot, v)
    &&& slot.meta.state == LEASE_STATE_LEASED ==> v.slots[id].meta.state == LEASE_STATE_LEASED
        && v.slots[id].meta.epoch == slot.meta.epoch
}

proof fn lemma_core_with_slot(v: RegionState, id: int, slot: SlotState)
    requires
        core_sound(v),
        fits_in(v, id, slot),
    ensures
        core_sound(v.with_slot(id, slot)),
{
    let w = v.with_slot(id, slot);
    assert forall|i: int| 0 <= i < w.slots.len() implies (#[trigger] w.slots[i]).shaped(w.layout)
        && slot_sound(w.slots[i], w) by {
        if i != id {
            assert(w.slots[i] == v.slots[i]);
        }
    }
    assert forall|i: int, j: int|
        0 <= i < w.slots.len() && 0 <= j < w.slots.len() && i != j && (
        #[trigger] w.slots[i]).meta.state == LEASE_STATE_LEASED && (
        #[trigger] w.slots[j]).meta.state == LEASE_STATE_LEASED implies w.slots[i].meta.epoch
        != w.slots[j].meta.epoch by {
        assert(v.slots[i].meta.state == LEASE_STATE_LEASED && v.slots[i].meta.epoch
            == w.slots[i].meta.epoch);
        assert(v.slots[j].meta.state == LEASE_STATE_LEASED && v.slots[j].meta.epoch
            == w.slots[j].meta.epoch);
    }
}

proof fn lemma_tokens_with_slot(v: RegionState, id: int, slot: SlotState)
    requires
        v.shaped(),
        tokens_sound(v),
        0 <= id < v.slots.len(),
        has_token_state(v.slots[id].meta.state) && v.slots[id].meta.epoch == v.freelist_epoch
            ==> has_token_state(slot.meta.state) && slot.meta.epoch == v.freelist_epoch,
    ensures
        tokens_sound(v.with_slot(id, slot)),
{
    let w = v.with_slot(id, slot);
    assert forall|i: int| 0 <= i < w.freelist.len() implies has_token_state(
        w.slots[(#[trigger] w.freelist[i]) as int].meta.state,
    ) && w.slots[w.freelist[i] as int].meta.epoch == w.freelist_epoch by {
        assert(v.freelist[i] < v.slots.len());
    }
}

/// A slot that may become `slot`, and that keeps its token if it has one.
proof fn lemma_sound_with_slot(v: RegionState, id: int, slot: SlotState)
    requires
        sound(v),
        fits_in(v, id, slot),
        has_token_state(v.slots[id].meta.state) ==> has_token_state(slot.meta.state)
            && slot.meta.epoch == v.slots[id].meta.epoch,
    ensures
        sound(v.with_slot(id, slot)),
{
    lemma_core_with_slot(v, id, slot);
    if v.meta.worker_state != WORKER_STATE_REINITING {
        lemma_tokens_with_slot(v, id, slot);
    }
}

proof fn lemma_not_on_stack(v: RegionState, id: int)
    requires
        tokens_sound(v),
        v.shaped(),
        0 <= id < v.slots.len(),
        !has_token_state(v.slots[id].meta.state),
    ensures
        !v.freelist.contains(id as u32),
{
    if v.freelist.contains(id as u32) {
        let i = choose|i: int| 0 <= i < v.freelist.len() && v.freelist[i] == id as u32;
        assert(v.freelist[i] == id as u32);
    }
}

proof fn lemma_push_no_duplicates(s: Seq<u32>, x: u32)
    requires
        s.no_duplicates(),
        !s.contains(x),
    ensures
        s.push(x).no_duplicates(),
{
    let t = s.push(x);
    assert forall|i: int, j: int| 0 <= i < t.len() && 0 <= j < t.len() && i != j implies t[i]
        != t[j] by {
        if i < s.len() && j < s.len() {
            assert(s[i] != s[j]);
        } else if i < s.len() {
            assert(s.contains(s[i]));
        } else {
            assert(s.contains(s[j]));
        }
    }
}

/// A token may be pushed for a slot that is in a token state and not yet on
/// the stack.
proof fn lemma_core_with_token(v: RegionState, id: u32)
    requires
        core_sound(v),
        v.has_slot(id),
        !v.freelist.contains(id),
    ensures
        core_sound(v.with_token(id)),
{
    let w = v.with_token(id);
    lemma_push_no_duplicates(v.freelist, id);
    assert forall|i: int| 0 <= i < w.freelist.len() implies (#[trigger] w.freelist[i])
        < w.slots.len() by {
        if i < v.freelist.len() {
            assert(w.freelist[i] == v.freelist[i]);
        }
    }
    assert forall|i: int| 0 <= i < w.slots.len() implies slot_sound(#[trigger] w.slots[i], w) by {
        assert(slot_sound(v.slots[i], v));
    }
}

proof fn lemma_core_without_top(v: RegionState)
    requires
        core_sound(v),
        v.freelist.len() > 0,
    ensures
        core_sound(v.without_top()),
        !v.without_top().freelist.contains(v.freelist.last()),
        tokens_sound(v) ==> tokens_sound(v.without_top()),
{
    let w = v.without_top();
    assert forall|i: int, j: int|
        0 <= i < w.freelist.len() && 0 <= j < w.freelist.len() && i != j implies w.freelist[i]
        != w.freelist[j] by {
        assert(v.freelist[i] != v.freelist[j]);
    }
    assert forall|i: int| 0 <= i < w.slots.len() implies slot_sound(#[trigger] w.slots[i], w) by {
        assert(slot_sound(v.slots[i], v));
    }
    assert forall|i: int| 0 <= i < w.freelist.len() implies (#[trigger] w.freelist[i])
        < w.slots.len() by {
        assert(v.freelist[i] < v.slots.len());
    }
    if w.freelist.contains(v.freelist.last()) {
        let i = choose|i: int|
            0 <= i < w.freelist.len() && w.freelist[i] == v.freelist.last();
        assert(v.freelist[i] == v.freelist[v.freelist.len() - 1]);
    }
    if tokens_sound(v) {
        assert forall|i: int| 0 <= i < w.freelist.len() implies has_token_state(
            w.slots[(#[trigger] w.freelist[i]) as int].meta.state,
        ) && w.slots[w.freelist[i] as int].meta.epoch == w.freelist_epoch by {
            assert(w.freelist[i] == v.freelist[i]);
        }
    }
}

/// A region that was just set up is sound.
pub proof fn law_fresh_region_sound(layout: super::layout::TransportRegionLayout, key: usize)
    requires
        layout.valid(),
    ensures
        sound(fresh_region(layout, key)),
{
    let v = fresh_region(layout, key);
    assert forall|i: int| 0 <= i < v.slots.len() implies (#[trigger] v.slots[i]).shaped(v.layout)
        && slot_sound(v.slots[i], v) by {
        assert(v.slots[i] == super::region::fresh_slot(layout, 1));
    }
    assert forall|i: int| 0 <= i < v.freelist.len() implies has_token_state(
        v.slots[(#[trigger] v.freelist[i]) as int].meta.state,
    ) && v.slots[v.freelist[i] as int].meta.epoch == v.freelist_epoch by {
        assert(v.slots[v.freelist[i] as int] == super::region::fresh_slot(layout, 1));
    }
}

/// Both steps of a publication keep the region sound, and so does a whole one.
/// Each touches one slot only.
pub proof fn law_publish_keeps_sound(v: RegionState, id: u32, pid: i32, epoch: u64)
    requires
        sound(v),
        v.has_slot(id),
    ensures
        sound(v.publish_begun(id as int, pid).0),
        sound(v.publish_finished(id as int, epoch).0),
        sound(v.published(id as int, pid).0),
        v.published(id as int, pid).0.same_frame(v),
        forall|j: int|
            0 <= j < v.slots.len() && j != id ==> v.published(id as int, pid).0.slots[j]
                == v.slots[j],
{
    let slot = v.slots[id as int];
    assert(slot.shaped(v.layout) && slot_sound(slot, v));
    let (w, step) = v.publish_begun(id as int, pid);
    if slot.meta.state == LEASE_STATE_FREE_PUBLISHED {
        lemma_sound_with_slot(v, id as int, SlotState { backend_pid: 0, ..slot });
    } else if slot.meta.state == LEASE_STATE_FREE_PUSHED {
        lemma_sound_with_slot(v, id as int, w.slots[id as int]);
    } else if slot.meta.state == LEASE_STATE_FREE_PENDING && v.meta.worker_state
        != WORKER_STATE_REINITING {
        let mid = v.with_slot(id as int, w.slots[id as int]);
        lemma_not_on_stack(v, id as int);
        lemma_sound_with_slot(v, id as int, w.slots[id as int]);
        lemma_core_with_token(mid, id);
        assert(w == mid.with_token(id));
        assert forall|i: int| 0 <= i < w.freelist.len() implies has_token_state(
            w.slots[(#[trigger] w.freelist[i]) as int].meta.state,
        ) && w.slots[w.freelist[i] as int].meta.epoch == w.freelist_epoch by {
            if i < v.freelist.len() {
                assert(w.freelist[i] == mid.freelist[i]);
            }
        }
        lemma_finish_keeps_sound(w, id, v.freelist_epoch);
    }
    lemma_finish_keeps_sound(v, id, epoch);
}

proof fn lemma_finish_keeps_sound(v: RegionState, id: u32, epoch: u64)
    requires
        sound(v),
        v.has_slot(id),
    ensures
        sound(v.publish_finished(id as int, epoch).0),
{
    let slot = v.slots[id as int];
    assert(slot.shaped(v.layout) && slot_sound(slot, v));
    if slot.meta == free_word(LEASE_STATE_FREE_PUSH_CLAIMED, epoch) {
        lemma_sound_with_slot(
            v,
            id as int,
            SlotState {
                backend_pid: 0,
                meta: free_word(LEASE_STATE_FREE_PUBLISHED, epoch),
                ..slot
            },
        );
    }
}

/// Emptying a slot that has no token and publishing it keeps the region sound.
/// Outside a reset the slot then has a token, on top of the stack.
pub proof fn law_emptied_slot_is_published(v: RegionState, id: u32, pid: i32)
    requires
        sound(v),
        v.has_slot(id),
        !has_token_state(v.slots[id as int].meta.state),
    ensures
        sound(v.with_emptied(id as int)),
        sound(v.with_emptied(id as int).published(id as int, pid).0),
        v.with_emptied(id as int).published(id as int, pid).0.same_frame(v),
        forall|j: int|
            0 <= j < v.slots.len() && j != id ==> v.with_emptied(id as int).published(
                id as int,
                pid,
            ).0.slots[j] == v.slots[j],
        v.meta.worker_state != WORKER_STATE_REINITING ==> ({
            let w = v.with_emptied(id as int).published(id as int, pid).0;
            &&& w.slots[id as int].meta == free_word(LEASE_STATE_FREE_PUBLISHED, v.freelist_epoch)
            &&& w.slots[id as int].generation == 0
            &&& w.freelist == v.freelist.push(id)
        }),
        v.meta.worker_state == WORKER_STATE_REINITING ==> v.with_emptied(id as int).published(
            id as int,
            pid,
        ).0 == v.with_emptied(id as int),
{
    let slot = v.slots[id as int];
    assert(slot.shaped(v.layout) && slot_sound(slot, v));
    lemma_sound_with_slot(v, id as int, v.with_emptied(id as int).slots[id as int]);
    law_publish_keeps_sound(v.with_emptied(id as int), id, pid, 0);
}

/// Taking a token keeps the region sound, and changes no slot that is leased.
/// The slot that was had was free.
pub proof fn law_take_token_keeps_sound(v: RegionState, pid: i32)
    requires
        sound(v),
    ensures
        ({
            let (w, token) = v.token_taken(pid);
            &&& sound(w)
            &&& w.same_frame(v)
            &&& forall|j: int|
                0 <= j < v.slots.len() && v.slots[j].meta.state == LEASE_STATE_LEASED
                    ==> #[trigger] w.slots[j] == v.slots[j]
            &&& token matches Some(id) ==> {
                &&& v.has_slot(id)
                &&& v.slots[id as int].meta.state != LEASE_STATE_LEASED
                &&& w.slots[id as int].meta == free_word(
                    LEASE_STATE_FREE_POPPED,
                    v.freelist_epoch,
                )
                &&& w.slots[id as int].backend_pid == pid
            }
            &&& token is None ==> w.freelist.len() == 0
        }),
    decreases v.pop_measure(),
{
    if v.freelist.len() > 0 {
        let id = v.freelist.last();
        assert(v.freelist[v.freelist.len() - 1] < v.slots.len());
        lemma_core_without_top(v);
        let top = v.without_top();
        let slot = top.slots[id as int];
        assert(slot.shaped(v.layout) && slot_sound(slot, v));
        v.lemma_pop_step(pid);
        let (next, had) = top.claimed_after_pop(id as int, pid);
        if top.token_good(id as int) {
            lemma_core_with_slot(top, id as int, next.slots[id as int]);
            if v.meta.worker_state != WORKER_STATE_REINITING {
                assert forall|i: int| 0 <= i < next.freelist.len() implies has_token_state(
                    next.slots[(#[trigger] next.freelist[i]) as int].meta.state,
                ) && next.slots[next.freelist[i] as int].meta.epoch == next.freelist_epoch by {
                    assert(top.freelist.contains(top.freelist[i]));
                    assert(next.freelist[i] != id);
                }
            }
            assert(sound(next));
        } else {
            if slot.meta.state == LEASE_STATE_FREE_PENDING {
                law_publish_keeps_sound(top, id, pid, 0);
            }
            law_take_token_keeps_sound(next, pid);
        }
    }
}

/// Clearing owner bits, freeing what nobody owns any more, and reaping keep the
/// region sound and touch one slot only.
pub proof fn law_detach_keeps_sound(
    v: RegionState,
    id: u32,
    incarnation: LeaseIncarnation,
    table: LivenessTable,
    pid: i32,
)
    requires
        sound(v),
        v.has_slot(id),
    ensures
        ({
            let finalized = v.finalized(id as int, incarnation, pid).0;
            &&& sound(finalized)
            &&& only_slot_changed(v, id as int, finalized)
        }),
        ({
            let released = v.worker_released(id as int, incarnation, pid);
            &&& sound(released)
            &&& only_slot_changed(v, id as int, released)
        }),
        ({
            let rolled_back = v.claim_rolled_back(id as int, incarnation, pid);
            &&& sound(rolled_back)
            &&& only_slot_changed(v, id as int, rolled_back)
        }),
        ({
            let released = v.backend_released(id as int, incarnation, pid);
            &&& sound(released)
            &&& only_slot_changed(v, id as int, released)
        }),
        ({
            let reaped = v.reaped(id as int, incarnation, table, pid).0;
            &&& sound(reaped)
            &&& only_slot_changed(v, id as int, reaped)
        }),
{
    lemma_finalize_keeps_sound(v, id, incarnation, pid);
    lemma_clear_keeps_sound(v, id, incarnation, OWNER_WORKER, pid);
    lemma_clear_keeps_sound(v, id, incarnation, OWNER_WORKER_PENDING, pid);
    lemma_backend_detach_keeps_sound(v, id, incarnation, pid);
}

/// The two regions differ in one slot and the free stack at most.
pub open spec fn only_slot_changed(v: RegionState, id: int, w: RegionState) -> bool {
    &&& w.same_frame(v)
    &&& forall|j: int| 0 <= j < v.slots.len() && j != id ==> #[trigger] w.slots[j] == v.slots[j]
}

proof fn lemma_finalize_keeps_sound(
    v: RegionState,
    id: u32,
    incarnation: LeaseIncarnation,
    pid: i32,
)
    requires
        sound(v),
        v.has_slot(id),
    ensures
        sound(v.finalized(id as int, incarnation, pid).0),
        only_slot_changed(v, id as int, v.finalized(id as int, incarnation, pid).0),
{
    if v.slots[id as int].leased_as(incarnation) && v.slots[id as int].meta.owners == 0 {
        law_emptied_slot_is_published(v, id, pid);
    }
}

proof fn lemma_clear_keeps_sound(
    v: RegionState,
    id: u32,
    incarnation: LeaseIncarnation,
    bits: u32,
    pid: i32,
)
    requires
        sound(v),
        v.has_slot(id),
        bits == OWNER_WORKER || bits == OWNER_WORKER_PENDING || bits == OWNER_ANY_WORKER,
    ensures
        ({
            let (cleared, mutation) = v.owners_cleared(id as int, incarnation, bits);
            let w = cleared.followed_up(id as int, incarnation, mutation, pid);
            &&& sound(w)
            &&& only_slot_changed(v, id as int, w)
        }),
{
    let slot = v.slots[id as int];
    assert(slot.shaped(v.layout) && slot_sound(slot, v));
    lemma_owner_bits(slot.meta.owners);
    let (cleared, mutation) = v.owners_cleared(id as int, incarnation, bits);
    if mutation.changed {
        lemma_sound_with_slot(v, id as int, cleared.slots[id as int]);
    }
    lemma_finalize_keeps_sound(cleared, id, incarnation, pid);
}

proof fn lemma_backend_detach_keeps_sound(
    v: RegionState,
    id: u32,
    incarnation: LeaseIncarnation,
    pid: i32,
)
    requires
        sound(v),
        v.has_slot(id),
    ensures
        sound(v.backend_detached(id as int, incarnation, pid)),
        only_slot_changed(v, id as int, v.backend_detached(id as int, incarnation, pid)),
{
    let slot = v.slots[id as int];
    assert(slot.shaped(v.layout) && slot_sound(slot, v));
    lemma_owner_bits(slot.meta.owners);
    let (cleared, mutation) = v.owners_cleared(id as int, incarnation, OWNER_BACKEND);
    let mid = cleared.with_backend_pid(id as int, 0);
    lemma_sound_with_slot(v, id as int, mid.slots[id as int]);
    assert(mid =~= v.with_slot(id as int, mid.slots[id as int]));
    lemma_finalize_keeps_sound(mid, id, incarnation, pid);
}

/// The reaper keeps the region sound.
pub proof fn law_reaper_keeps_sound(
    v: RegionState,
    from: int,
    any: bool,
    first: Option<(u32, super::error::ProbeFailure)>,
    table: LivenessTable,
    pid: i32,
)
    requires
        sound(v),
        0 <= from,
    ensures
        sound(v.reaped_from(from, any, first, table, pid).0),
        v.reaped_from(from, any, first, table, pid).0.same_frame(v),
    decreases v.slots.len() - from,
{
    if from < v.slots.len() {
        let slot = v.slots[from];
        law_detach_keeps_sound(
            v,
            from as u32,
            LeaseIncarnation { generation: slot.generation, lease_epoch: slot.meta.epoch },
            table,
            pid,
        );
        let (next, r) = v.reaped_one(from, table, pid);
        law_reaper_keeps_sound(
            next,
            from + 1,
            any || r == Ok::<bool, super::error::ProbeFailure>(true),
            match r {
                Err(failure) => if first is None {
                    Some((from as u32, failure))
                } else {
                    first
                },
                Ok(_) => first,
            },
            table,
            pid,
        );
    }
}

/// Sweeping one slot keeps the region sound and leaves every other slot alone.
pub proof fn lemma_sweep_one_keeps_sound(
    v: RegionState,
    id: u32,
    generation: u64,
    table: LivenessTable,
    pid: i32,
)
    requires
        sound(v),
        v.has_slot(id),
    ensures
        sound(v.swept_one(id as int, generation, table, pid)),
        only_slot_changed(v, id as int, v.swept_one(id as int, generation, table, pid)),
{
    let slot = v.slots[id as int];
    let incarnation = LeaseIncarnation {
        generation: slot.generation,
        lease_epoch: slot.meta.epoch,
    };
    law_detach_keeps_sound(v, id, incarnation, table, pid);
    let next = if backend_bit(slot.meta.owners) {
        v.reaped(id as int, incarnation, table, pid).0
    } else {
        v
    };
    lemma_finalize_keeps_sound(next, id, incarnation, pid);
    lemma_clear_keeps_sound(next, id, incarnation, OWNER_ANY_WORKER, pid);
}

/// Sweeping what older generations left keeps the region sound.
pub proof fn law_sweep_keeps_sound(
    v: RegionState,
    from: int,
    generation: u64,
    table: LivenessTable,
    pid: i32,
)
    requires
        sound(v),
        0 <= from,
    ensures
        sound(v.swept_from(from, generation, table, pid)),
        v.swept_from(from, generation, table, pid).same_frame(v),
    decreases v.slots.len() - from,
{
    if from < v.slots.len() {
        lemma_sweep_one_keeps_sound(v, from as u32, generation, table, pid);
        law_sweep_keeps_sound(
            v.swept_one(from, generation, table, pid),
            from + 1,
            generation,
            table,
            pid,
        );
    }
}

proof fn lemma_core_new_region_meta(v: RegionState, generation: u64, worker_state: u32, worker_pid: i32)
    requires
        core_sound(v),
        v.meta.generation <= generation <= REGION_META_MAX_GENERATION,
        worker_state < 4,
    ensures
        core_sound(v.with_worker_pid(worker_pid).with_region_meta(generation, worker_state)),
        tokens_sound(v) ==> tokens_sound(
            v.with_worker_pid(worker_pid).with_region_meta(generation, worker_state),
        ),
{
    let w = v.with_worker_pid(worker_pid).with_region_meta(generation, worker_state);
    assert forall|i: int| 0 <= i < w.slots.len() implies slot_sound(#[trigger] w.slots[i], w) by {
        assert(slot_sound(v.slots[i], v));
    }
}

/// Switching the worker generation keeps a region sound. During a reset the
/// tokens must be in order for that.
pub proof fn law_generation_change_keeps_sound(
    v: RegionState,
    worker_pid: i32,
    table: LivenessTable,
    pid: i32,
)
    requires
        core_sound(v),
        tokens_sound(v),
        v.meta.generation < REGION_META_MAX_GENERATION,
    ensures
        sound(v.generation_begun(WORKER_STATE_OFFLINE)),
        sound(v.generation_begun(WORKER_STATE_RESTARTING)),
        sound(v.activated(worker_pid, table, pid)),
{
    let generation = (v.meta.generation + 1) as u64;
    lemma_core_new_region_meta(v, generation, WORKER_STATE_OFFLINE, 0);
    lemma_core_new_region_meta(v, generation, WORKER_STATE_RESTARTING, 0);
    let begun = v.generation_begun(WORKER_STATE_RESTARTING);
    law_sweep_keeps_sound(begun, 0, generation, table, pid);
    let swept = begun.swept_from(0, generation, table, pid);
    lemma_core_new_region_meta(swept, generation, WORKER_STATE_ONLINE, worker_pid);
}

/// A generation change is a hard boundary: a lease that was good is stale from
/// then on, and so is a claim.
pub proof fn law_generation_change_invalidates(
    before: RegionState,
    after: RegionState,
    slot_id: u32,
    incarnation: LeaseIncarnation,
)
    requires
        after.meta.generation > before.meta.generation,
    ensures
        lease_verdict(
            before.meta,
            before.slots[slot_id as int],
            slot_id,
            incarnation,
            true,
        ) is None ==> lease_verdict(
            after.meta,
            after.slots[slot_id as int],
            slot_id,
            incarnation,
            true,
        ) == Some(
            LeaseError::StaleGeneration {
                slot_id,
                claimed_generation: incarnation.generation,
                current_generation: after.meta.generation,
            },
        ),
        access_verdict(
            before.meta,
            before.layout.slot_count,
            before.slots[slot_id as int],
            slot_id,
            incarnation,
            true,
        ) is None ==> access_verdict(
            after.meta,
            after.layout.slot_count,
            after.slots[slot_id as int],
            slot_id,
            incarnation,
            true,
        ) == Some(
            SlotAccessError::StaleGeneration {
                slot_id,
                claimed_generation: incarnation.generation,
                current_generation: after.meta.generation,
            },
        ),
{
}

/// Activation, deactivation and reset each move on to the next generation.
pub proof fn law_lifecycle_moves_generation(
    v: RegionState,
    worker_pid: i32,
    table: LivenessTable,
    pid: i32,
)
    requires
        v.meta.generation < REGION_META_MAX_GENERATION,
    ensures
        v.activated(worker_pid, table, pid).meta.generation == v.meta.generation + 1,
        v.activated(worker_pid, table, pid).meta.online(),
        v.generation_begun(WORKER_STATE_OFFLINE).meta.generation == v.meta.generation + 1,
        !v.generation_begun(WORKER_STATE_OFFLINE).meta.online(),
        v.reinit_begun().meta.generation == v.meta.generation + 1,
        !v.reinit_begun().meta.online(),
{
}

/// No slot is leased unless the worker is online, even before the next
/// generation is announced.
pub proof fn law_offline_refuses_leases(v: RegionState, table: LivenessTable, pid: i32)
    requires
        v.meta.worker_state != WORKER_STATE_ONLINE || v.meta.generation == 0,
    ensures
        v.lease_acquired(table, pid) == (
            v,
            Err::<(u32, LeaseIncarnation), AcquireError>(AcquireError::WorkerOffline),
        ),
{
}

proof fn lemma_popped_slot_reserved(v: RegionState, id: u32, generation: u64, pid: i32)
    requires
        sound(v),
        v.has_slot(id),
        v.slots[id as int].meta == free_word(LEASE_STATE_FREE_POPPED, v.freelist_epoch),
    ensures
        sound(v.popped_slot_reserved(id, generation, pid).0),
        v.popped_slot_reserved(id, generation, pid).0.same_frame(v),
        v.popped_slot_reserved(id, generation, pid).1 is Ok ==> v.popped_slot_reserved(
            id,
            generation,
            pid,
        ).0.slots[id as int].meta == free_word(LEASE_STATE_ACQUIRE_RESERVED, 0),
{
    let slot = v.slots[id as int];
    assert(slot.shaped(v.layout) && slot_sound(slot, v));
    if v.online_in(generation) {
        let next = v.reserved(id as int, v.freelist_epoch, pid).0;
        lemma_sound_with_slot(v, id as int, next.slots[id as int]);
    } else {
        law_emptied_slot_is_published(v, id, pid);
    }
}

proof fn lemma_reserve_keeps_sound(
    v: RegionState,
    generation: u64,
    table: LivenessTable,
    pid: i32,
)
    requires
        sound(v),
    ensures
        ({
            let (w, r) = v.backend_slot_reserved(generation, table, pid);
            &&& sound(w)
            &&& w.same_frame(v)
            &&& r matches Ok(id) ==> v.has_slot(id) && w.slots[id as int].meta == free_word(
                LEASE_STATE_ACQUIRE_RESERVED,
                0,
            )
        }),
{
    law_take_token_keeps_sound(v, pid);
    let (first, token) = v.token_taken(pid);
    if token is Some {
        lemma_popped_slot_reserved(first, token->0, generation, pid);
    } else {
        law_reaper_keeps_sound(first, 0, false, None, table, pid);
        let (reaped, r) = first.dead_reaped(table, pid);
        law_take_token_keeps_sound(reaped, pid);
        let (second, token) = reaped.token_taken(pid);
        if token is Some {
            lemma_popped_slot_reserved(second, token->0, generation, pid);
        }
    }
}

/// Leasing a reserved slot keeps the region sound: the epoch of the new lease
/// is one that no lease has.
pub proof fn law_lease_epoch_is_fresh(v: RegionState, id: u32, pid: i32)
    requires
        sound(v),
        v.has_slot(id),
        v.meta.generation >= 1,
        v.next_lease_epoch < SLOT_META_MAX_LEASE_EPOCH,
        v.slots[id as int].meta == free_word(LEASE_STATE_ACQUIRE_RESERVED, 0),
    ensures
        ({
            let (w, incarnation) = v.lease_published(id as int, v.meta.generation, pid);
            &&& sound(w)
            &&& incarnation == Some(
                LeaseIncarnation {
                    generation: v.meta.generation,
                    lease_epoch: v.next_lease_epoch,
                },
            )
            &&& w.slots[id as int].leased_as(incarnation->0)
            &&& w.slots[id as int].meta.owners == OWNER_BACKEND
            &&& w.slots[id as int].backend_pid == pid
            &&& w.slots[id as int].to_worker.used() == 0
            &&& w.slots[id as int].to_backend.used() == 0
            &&& w.meta == v.meta
            &&& forall|j: int|
                0 <= j < v.slots.len() && (#[trigger] v.slots[j]).meta.state
                    == LEASE_STATE_LEASED ==> v.slots[j].meta.epoch < v.next_lease_epoch
            &&& forall|j: int|
                0 <= j < v.slots.len() && j != id ==> #[trigger] w.slots[j] == v.slots[j]
        }),
{
    let (w, incarnation) = v.lease_published(id as int, v.meta.generation, pid);
    let slot = v.slots[id as int];
    assert(slot.shaped(v.layout) && slot_sound(slot, v));
    assert forall|i: int| 0 <= i < w.slots.len() implies (#[trigger] w.slots[i]).shaped(w.layout)
        && slot_sound(w.slots[i], w) by {
        if i != id {
            assert(w.slots[i] == v.slots[i]);
            assert(slot_sound(v.slots[i], v));
        }
    }
    assert forall|j: int|
        0 <= j < v.slots.len() && (#[trigger] v.slots[j]).meta.state
            == LEASE_STATE_LEASED implies v.slots[j].meta.epoch < v.next_lease_epoch by {
        assert(slot_sound(v.slots[j], v));
    }
    assert forall|i: int, j: int|
        0 <= i < w.slots.len() && 0 <= j < w.slots.len() && i != j && (
        #[trigger] w.slots[i]).meta.state == LEASE_STATE_LEASED && (
        #[trigger] w.slots[j]).meta.state == LEASE_STATE_LEASED implies w.slots[i].meta.epoch
        != w.slots[j].meta.epoch by {
        if i == id {
            assert(slot_sound(v.slots[j], v));
        } else if j == id {
            assert(slot_sound(v.slots[i], v));
        } else {
            assert(w.slots[i] == v.slots[i] && w.slots[j] == v.slots[j]);
        }
    }
    if v.meta.worker_state != WORKER_STATE_REINITING {
        lemma_not_on_stack(v, id as int);
        assert forall|i: int| 0 <= i < w.freelist.len() implies has_token_state(
            w.slots[(#[trigger] w.freelist[i]) as int].meta.state,
        ) && w.slots[w.freelist[i] as int].meta.epoch == w.freelist_epoch by {
            assert(v.freelist.contains(v.freelist[i]));
            assert(w.freelist[i] == v.freelist[i]);
        }
    }
}

/// An acquisition keeps the region sound. Where it succeeds, the backend holds
/// a lease of the current generation under an epoch that was never used, with
/// both rings empty, and nobody else owns the slot.
pub proof fn law_acquire(v: RegionState, table: LivenessTable, pid: i32)
    requires
        sound(v),
        v.next_lease_epoch < SLOT_META_MAX_LEASE_EPOCH,
    ensures
        ({
            let (w, r) = v.lease_acquired(table, pid);
            &&& sound(w)
            &&& w.meta == v.meta
            &&& r matches Ok((id, incarnation)) ==> {
                &&& v.has_slot(id)
                &&& incarnation.generation == v.meta.generation
                &&& incarnation.lease_epoch == v.next_lease_epoch
                &&& w.next_lease_epoch == v.next_lease_epoch + 1
                &&& w.slots[id as int].leased_as(incarnation)
                &&& w.slots[id as int].meta.owners == OWNER_BACKEND
                &&& w.slots[id as int].backend_pid == pid
                &&& w.slots[id as int].to_worker.used() == 0
                &&& w.slots[id as int].to_backend.used() == 0
                &&& lease_verdict(w.meta, w.slots[id as int], id, incarnation, true) is None
            }
        }),
{
    if v.meta.online() {
        let generation = v.meta.generation;
        lemma_reserve_keeps_sound(v, generation, table, pid);
        let (reserved, r) = v.backend_slot_reserved(generation, table, pid);
        if r is Ok {
            law_lease_epoch_is_fresh(reserved, r->Ok_0, pid);
        }
    }
}

/// A token on top of the stack means that an acquisition succeeds.
pub proof fn law_acquire_succeeds(v: RegionState, table: LivenessTable, pid: i32)
    requires
        sound(v),
        v.meta.online(),
        v.next_lease_epoch < SLOT_META_MAX_LEASE_EPOCH,
        v.freelist.len() > 0,
        v.slots[v.freelist.last() as int].meta.state != LEASE_STATE_FREE_PUSH_CLAIMED,
    ensures
        v.lease_acquired(table, pid).1 == Ok::<(u32, LeaseIncarnation), AcquireError>(
            (
                v.freelist.last(),
                LeaseIncarnation {
                    generation: v.meta.generation,
                    lease_epoch: v.next_lease_epoch,
                },
            ),
        ),
{
    let id = v.freelist.last();
    assert(v.freelist[v.freelist.len() - 1] < v.slots.len());
    let top = v.without_top();
    assert(top.token_good(id as int));
    assert(v.token_taken(pid).1 == Some(id));
    law_acquire(v, table, pid);
    law_take_token_keeps_sound(v, pid);
    let (first, token) = v.token_taken(pid);
    lemma_popped_slot_reserved(first, id, v.meta.generation, pid);
}

/// A slot goes back to the free stack only when neither its backend nor the
/// worker owns it: while one of them holds on, a release of the other leaves it
/// leased, without a token.
pub proof fn law_release_waits_for_both(
    v: RegionState,
    id: u32,
    incarnation: LeaseIncarnation,
    pid: i32,
)
    requires
        sound(v),
        v.has_slot(id),
        v.slots[id as int].leased_as(incarnation),
        v.meta.worker_state != WORKER_STATE_REINITING,
    ensures
        v.slots[id as int].meta.owners == OWNER_BOTH ==> {
            let w = v.backend_released(id as int, incarnation, pid);
            &&& w.slots[id as int].leased_as(incarnation)
            &&& w.slots[id as int].meta.owners == OWNER_WORKER
            &&& w.freelist == v.freelist
        },
        v.slots[id as int].meta.owners == OWNER_BOTH ==> {
            let w = v.worker_released(id as int, incarnation, pid);
            &&& w.slots[id as int].leased_as(incarnation)
            &&& w.slots[id as int].meta.owners == OWNER_BACKEND
            &&& w.freelist == v.freelist
        },
        v.slots[id as int].meta.owners == OWNER_BACKEND ==> {
            let w = v.backend_released(id as int, incarnation, pid);
            &&& w.slots[id as int].meta == free_word(LEASE_STATE_FREE_PUBLISHED, v.freelist_epoch)
            &&& w.freelist == v.freelist.push(id)
        },
        v.slots[id as int].meta.owners == OWNER_WORKER ==> {
            let w = v.worker_released(id as int, incarnation, pid);
            &&& w.slots[id as int].meta == free_word(LEASE_STATE_FREE_PUBLISHED, v.freelist_epoch)
            &&& w.freelist == v.freelist.push(id)
        },
{
    lemma_owner_bits(v.slots[id as int].meta.owners);
}

/// A handle of an earlier lease of a slot cannot change the slot: neither its
/// release, nor a worker's, nor a reaper that goes by it.
pub proof fn law_stale_handle_is_harmless(
    v: RegionState,
    id: u32,
    incarnation: LeaseIncarnation,
    table: LivenessTable,
    pid: i32,
)
    requires
        !v.slots[id as int].leased_as(incarnation),
    ensures
        v.backend_released(id as int, incarnation, pid) == v,
        v.worker_released(id as int, incarnation, pid) == v,
        v.claim_rolled_back(id as int, incarnation, pid) == v,
        v.reaped(id as int, incarnation, table, pid).0 == v,
{
}

/// A lease epoch tells the leases of one generation apart: a lease that was
/// given back and whose slot was leased again is stale by its epoch.
pub proof fn law_reuse_makes_lease_stale(
    v: RegionState,
    slot_id: u32,
    old_lease: LeaseIncarnation,
    new_lease: LeaseIncarnation,
)
    requires
        v.slots[slot_id as int].leased_as(new_lease),
        new_lease.generation == v.meta.generation,
        old_lease.generation == new_lease.generation,
        old_lease.lease_epoch < new_lease.lease_epoch,
    ensures
        lease_verdict(v.meta, v.slots[slot_id as int], slot_id, old_lease, true) == Some(
            LeaseError::StaleLeaseEpoch {
                slot_id,
                claimed_generation: old_lease.generation,
                claimed_lease_epoch: old_lease.lease_epoch,
                current_lease_epoch: new_lease.lease_epoch,
            },
        ),
{
}

/// A claim keeps the region sound, step by step.
pub proof fn law_claim_keeps_sound(
    s: ClaimState,
    id: u32,
    incarnation: LeaseIncarnation,
    table: LivenessTable,
)
    requires
        sound(s.region),
        s.region.has_slot(id),
        s.region.slots[id as int].generation == incarnation.generation,
    ensures
        sound(s.claim_reserved(id, incarnation).0.region),
        sound(s.claim_rechecked(id, incarnation, table).0.region),
        sound(s.claim_committed(id, incarnation).0.region),
{
    let v = s.region;
    let slot = v.slots[id as int];
    assert(slot.shaped(v.layout) && slot_sound(slot, v));
    if slot.meta == leased_word(incarnation.lease_epoch, OWNER_BACKEND) {
        lemma_sound_with_slot(
            v,
            id as int,
            SlotState {
                meta: leased_word(incarnation.lease_epoch, OWNER_CLAIM_PENDING),
                ..slot
            },
        );
    }
    if slot.meta == leased_word(incarnation.lease_epoch, OWNER_CLAIM_PENDING) {
        lemma_sound_with_slot(
            v,
            id as int,
            SlotState { meta: leased_word(incarnation.lease_epoch, OWNER_BOTH), ..slot },
        );
    }
    law_detach_keeps_sound(v, id, incarnation, table, s.process.pid);
    let back = v.claim_rolled_back(id as int, incarnation, s.process.pid);
    law_detach_keeps_sound(back, id, incarnation, table, s.process.pid);
}

/// A claim that succeeded is good, and shares the slot with its backend.
pub proof fn law_claim_attaches(
    s: ClaimState,
    id: u32,
    incarnation: LeaseIncarnation,
    table: LivenessTable,
)
    requires
        sound(s.region),
        claim_verdict(
            s.region.meta,
            s.region.layout.slot_count,
            s.region.slots[id as int],
            id,
        ) == Ok::<LeaseIncarnation, SlotAccessError>(incarnation),
        s.claimed(Ok(incarnation), id, table).1 is Ok,
    ensures
        ({
            let (after, r) = s.claimed(Ok(incarnation), id, table);
            let slot = after.region.slots[id as int];
            &&& r == Ok::<LeaseIncarnation, SlotAccessError>(incarnation)
            &&& slot.leased_as(incarnation)
            &&& slot.meta.owners == OWNER_BOTH
            &&& access_verdict(
                after.region.meta,
                after.region.layout.slot_count,
                slot,
                id,
                incarnation,
                true,
            ) is None
            &&& lease_verdict(after.region.meta, slot, id, incarnation, true) is None
        }),
{
}

/// A claim on a slot whose backend is alive, that the worker does not hold yet
/// and this process does not record, succeeds.
pub proof fn law_claim_succeeds(
    s: ClaimState,
    id: u32,
    incarnation: LeaseIncarnation,
    table: LivenessTable,
)
    requires
        sound(s.region),
        claim_verdict(
            s.region.meta,
            s.region.layout.slot_count,
            s.region.slots[id as int],
            id,
        ) == Ok::<LeaseIncarnation, SlotAccessError>(incarnation),
        table.says(s.region.slots[id as int].backend_pid) == Ok::<
            bool,
            super::error::ProbeFailure,
        >(true),
        s.process.after_insert(
            s.region.key,
            s.region.layout.slot_count,
            id as int,
            incarnation,
        ).1,
    ensures
        s.claimed(Ok(incarnation), id, table).1 == Ok::<LeaseIncarnation, SlotAccessError>(
            incarnation,
        ),
{
    assert(slot_sound(s.region.slots[id as int], s.region));
    assert(s.region.slots[id as int].shaped(s.region.layout));
    lemma_owner_bits(s.region.slots[id as int].meta.owners);
}

} // verus!
