//! Which slots the free stack holds while calls overlap.
//!
//! A free slot that says it is on the stack is on it, after every step of every
//! call. The one exception is a token that is popped while its slot is still
//! being published: the popper finds a slot that is not published yet and drops
//! the token, and the publisher then publishes a slot without one.

use super::claim::ClaimState;
use super::error::ProbeFailure;
use super::history::{
    lemma_detach_frame, lemma_publish_frame, tokens_in_range, RegionCall,
};
use super::laws::{has_token_state, slot_sound, sound, tokens_complete};
use super::meta::{
    LeaseIncarnation, LEASE_STATE_FREE_PENDING, LEASE_STATE_FREE_PUSH_CLAIMED,
    WORKER_STATE_RESTARTING,
};
use super::process::LivenessTable;
use super::region::{RegionState, SlotState};
use super::registry::{held_slots, lemma_found_registry};
use super::reinit::{no_pass, settle_step, ReinitPass, ReinitStage, SettleStep};
use super::worker::lemma_held_slots_in_range;
use vstd::prelude::*;

verus! {

/// No slot is between the push of its token and its publication.
pub open spec fn no_half_publication(v: RegionState) -> bool {
    forall|i: int|
        0 <= i < v.slots.len() ==> (#[trigger] v.slots[i]).meta.state
            != LEASE_STATE_FREE_PUSH_CLAIMED
}

/// The slot says that it is on the stack of the region.
pub open spec fn says_on_stack(v: RegionState, slot: SlotState) -> bool {
    has_token_state(slot.meta.state) && slot.meta.epoch == v.freelist_epoch
}

/// One slot changed, and no token of another slot went.
proof fn lemma_complete_slot(v: RegionState, id: u32, w: RegionState)
    requires
        tokens_complete(v),
        v.has_slot(id),
        w.same_frame(v),
        forall|j: int| 0 <= j < v.slots.len() && j != id ==> #[trigger] w.slots[j] == v.slots[j],
        says_on_stack(w, w.slots[id as int]) ==> says_on_stack(v, v.slots[id as int])
            && w.freelist == v.freelist || w.freelist == v.freelist.push(id),
        w.freelist == v.freelist || w.freelist == v.freelist.push(id),
    ensures
        tokens_complete(w),
{
    assert forall|i: int|
        0 <= i < w.slots.len() && has_token_state((#[trigger] w.slots[i]).meta.state)
            && w.slots[i].meta.epoch == w.freelist_epoch implies w.freelist.contains(
        i as u32,
    ) by {
        if w.freelist == v.freelist.push(id) {
            assert(w.freelist[v.freelist.len() as int] == id);
        }
        if i != id || w.freelist == v.freelist {
            assert(v.freelist.contains(i as u32));
            let k = choose|k: int| 0 <= k < v.freelist.len() && v.freelist[k] == i as u32;
            assert(w.freelist[k] == i as u32);
        }
    }
}

proof fn lemma_publish_complete(v: RegionState, id: u32, pid: i32, epoch: u64)
    requires
        tokens_complete(v),
        v.has_slot(id),
    ensures
        tokens_complete(v.publish_begun(id as int, pid).0),
        tokens_complete(v.publish_finished(id as int, epoch).0),
        tokens_complete(v.published(id as int, pid).0),
        no_half_publication(v) ==> no_half_publication(v.published(id as int, pid).0),
{
    let begun = v.publish_begun(id as int, pid).0;
    lemma_complete_slot(v, id, begun);
    lemma_complete_slot(v, id, v.publish_finished(id as int, epoch).0);
    lemma_complete_slot(begun, id, begun.publish_finished(id as int, v.freelist_epoch).0);
}

proof fn lemma_empty_complete(v: RegionState, id: u32, pid: i32)
    requires
        tokens_complete(v),
        v.has_slot(id),
    ensures
        tokens_complete(v.with_emptied(id as int)),
        tokens_complete(v.with_emptied(id as int).published(id as int, pid).0),
        no_half_publication(v) ==> no_half_publication(v.with_emptied(id as int)),
        no_half_publication(v) ==> no_half_publication(
            v.with_emptied(id as int).published(id as int, pid).0,
        ),
{
    lemma_complete_slot(v, id, v.with_emptied(id as int));
    lemma_publish_complete(v.with_emptied(id as int), id, pid, 0);
}

proof fn lemma_take_complete(v: RegionState, pid: i32)
    requires
        tokens_in_range(v),
        v.slots.len() <= u32::MAX,
        tokens_complete(v),
        no_half_publication(v),
    ensures
        tokens_complete(v.token_taken(pid).0),
        no_half_publication(v.token_taken(pid).0),
        v.token_taken(pid).0.same_frame(v),
        tokens_in_range(v.token_taken(pid).0),
        v.token_taken(pid).1 matches Some(id) ==> v.has_slot(id),
    decreases v.pop_measure(),
{
    if v.freelist.len() > 0 {
        let id = v.freelist.last();
        assert(v.freelist[v.freelist.len() - 1] < v.slots.len());
        let top = v.without_top();
        assert(tokens_in_range(top)) by {
            assert forall|i: int| 0 <= i < top.freelist.len() implies (#[trigger] top.freelist[i])
                < top.slots.len() by {
                assert(v.freelist[i] < v.slots.len());
            }
        }
        let (next, had) = top.claimed_after_pop(id as int, pid);
        lemma_publish_frame(top, id, pid);
        v.lemma_pop_step(pid);
        assert(tokens_complete(next)) by {
            assert forall|i: int|
                0 <= i < next.slots.len() && has_token_state((#[trigger] next.slots[i]).meta.state)
                    && next.slots[i].meta.epoch == next.freelist_epoch implies
                next.freelist.contains(i as u32) by {
                if i == id {
                    assert(top.slots[id as int].meta.state == LEASE_STATE_FREE_PENDING);
                    assert(next.freelist[top.freelist.len() as int] == id);
                } else {
                    assert(next.slots[i] == v.slots[i]);
                    let k = choose|k: int| 0 <= k < v.freelist.len() && v.freelist[k] == i as u32;
                    assert(k < v.freelist.len() - 1);
                    assert(top.freelist[k] == i as u32);
                    assert(next.freelist[k] == i as u32);
                }
            }
        }
        assert(no_half_publication(next));
        if !had {
            lemma_take_complete(next, pid);
        }
    }
}

proof fn lemma_clear_complete(
    v: RegionState,
    id: u32,
    incarnation: LeaseIncarnation,
    bits: u32,
    pid: i32,
)
    requires
        tokens_complete(v),
        v.has_slot(id),
    ensures
        ({
            let (cleared, mutation) = v.owners_cleared(id as int, incarnation, bits);
            let w = cleared.followed_up(id as int, incarnation, mutation, pid);
            &&& tokens_complete(w)
            &&& no_half_publication(v) ==> no_half_publication(w)
        }),
{
    let (cleared, mutation) = v.owners_cleared(id as int, incarnation, bits);
    lemma_complete_slot(v, id, cleared);
    lemma_empty_complete(cleared, id, pid);
}

proof fn lemma_detach_complete(
    v: RegionState,
    id: u32,
    incarnation: LeaseIncarnation,
    table: LivenessTable,
    pid: i32,
)
    requires
        tokens_complete(v),
        v.has_slot(id),
    ensures
        tokens_complete(v.finalized(id as int, incarnation, pid).0),
        tokens_complete(v.worker_released(id as int, incarnation, pid)),
        tokens_complete(v.claim_rolled_back(id as int, incarnation, pid)),
        tokens_complete(v.backend_released(id as int, incarnation, pid)),
        tokens_complete(v.reaped(id as int, incarnation, table, pid).0),
        no_half_publication(v) ==> no_half_publication(
            v.reaped(id as int, incarnation, table, pid).0,
        ),
{
    lemma_empty_complete(v, id, pid);
    lemma_clear_complete(v, id, incarnation, super::meta::OWNER_WORKER, pid);
    lemma_clear_complete(v, id, incarnation, super::meta::OWNER_WORKER_PENDING, pid);
    let (cleared, mutation) = v.owners_cleared(
        id as int,
        incarnation,
        super::meta::OWNER_BACKEND,
    );
    let mid = cleared.with_backend_pid(id as int, 0);
    lemma_complete_slot(v, id, mid);
    lemma_empty_complete(mid, id, pid);
}

proof fn lemma_reap_complete(
    v: RegionState,
    from: int,
    any: bool,
    first: Option<(u32, ProbeFailure)>,
    table: LivenessTable,
    pid: i32,
)
    requires
        tokens_in_range(v),
        tokens_complete(v),
        no_half_publication(v),
        v.slots.len() <= u32::MAX,
        0 <= from,
    ensures
        ({
            let w = v.reaped_from(from, any, first, table, pid).0;
            &&& tokens_complete(w)
            &&& no_half_publication(w)
            &&& w.same_frame(v)
            &&& tokens_in_range(w)
        }),
    decreases v.slots.len() - from,
{
    if from < v.slots.len() {
        let slot = v.slots[from];
        let incarnation = LeaseIncarnation {
            generation: slot.generation,
            lease_epoch: slot.meta.epoch,
        };
        lemma_detach_complete(v, from as u32, incarnation, table, pid);
        lemma_detach_frame(v, from as u32, incarnation, table, pid);
        let (next, r) = v.reaped_one(from, table, pid);
        lemma_reap_complete(
            next,
            from + 1,
            any || r == Ok::<bool, ProbeFailure>(true),
            match r {
                Err(failure) => if first is None {
                    Some((from as u32, failure))
                } else {
                    first
                },
                Ok(_) => first,
            },
            table,
            pid,
        );
    }
}

proof fn lemma_sweep_complete(
    v: RegionState,
    from: int,
    generation: u64,
    table: LivenessTable,
    pid: i32,
)
    requires
        tokens_in_range(v),
        tokens_complete(v),
        v.slots.len() <= u32::MAX,
        0 <= from,
    ensures
        tokens_complete(v.swept_from(from, generation, table, pid)),
    decreases v.slots.len() - from,
{
    if from < v.slots.len() {
        let id = from as u32;
        let slot = v.slots[from];
        let incarnation = LeaseIncarnation {
            generation: slot.generation,
            lease_epoch: slot.meta.epoch,
        };
        lemma_detach_complete(v, id, incarnation, table, pid);
        lemma_detach_frame(v, id, incarnation, table, pid);
        let reaped = v.reaped(from, incarnation, table, pid).0;
        lemma_detach_complete(reaped, id, incarnation, table, pid);
        lemma_detach_frame(reaped, id, incarnation, table, pid);
        lemma_clear_complete(reaped, id, incarnation, super::meta::OWNER_ANY_WORKER, pid);
        lemma_clear_complete(v, id, incarnation, super::meta::OWNER_ANY_WORKER, pid);
        lemma_sweep_complete(
            v.swept_one(from, generation, table, pid),
            from + 1,
            generation,
            table,
            pid,
        );
    }
}

proof fn lemma_exit_complete(v: RegionState, owned: Seq<(u32, LeaseIncarnation)>, pid: i32)
    requires
        tokens_in_range(v),
        tokens_complete(v),
        forall|i: int| 0 <= i < owned.len() ==> v.has_slot((#[trigger] owned[i]).0),
    ensures
        tokens_complete(v.workers_released(owned, pid)),
        v.workers_released(owned, pid).same_frame(v),
        tokens_in_range(v.workers_released(owned, pid)),
    decreases owned.len(),
{
    if owned.len() > 0 {
        lemma_exit_complete(v, owned.drop_last(), pid);
        let u = v.workers_released(owned.drop_last(), pid);
        assert(v.has_slot(owned[owned.len() - 1].0));
        lemma_detach_complete(u, owned.last().0, owned.last().1, arbitrary(), pid);
        lemma_detach_frame(u, owned.last().0, owned.last().1, arbitrary(), pid);
    }
}

/// A slot that was not free in a later epoch is not so after a pass that waits
/// for quiet.
proof fn lemma_quiesce_complete(v: RegionState, from: int, pass: ReinitPass, table: LivenessTable)
    requires
        tokens_complete(v),
        v.slots.len() <= u32::MAX,
        0 <= from,
        forall|i: int|
            0 <= i < v.slots.len() && has_token_state((#[trigger] v.slots[i]).meta.state)
                ==> v.slots[i].meta.epoch <= v.freelist_epoch,
    ensures
        ({
            let w = v.quiesced_from(from, pass, table).0;
            &&& tokens_complete(w)
            &&& w.same_frame(v)
            &&& forall|i: int|
                0 <= i < w.slots.len() && has_token_state((#[trigger] w.slots[i]).meta.state)
                    ==> w.slots[i].meta.epoch <= w.freelist_epoch
        }),
    decreases v.slots.len() - from,
{
    if from < v.slots.len() {
        lemma_complete_slot(v, from as u32, v.with_emptied(from));
        let p = match settle_step(v.slots[from], table) {
            SettleStep::Live => ReinitPass { saw_live_transitional: true, ..pass },
            SettleStep::Emptied => ReinitPass { made_progress: true, ..pass },
            _ => pass,
        };
        lemma_quiesce_complete(v.settled(from, table), from + 1, p, table);
    }
}

proof fn lemma_rebuild_complete(
    v: RegionState,
    from: int,
    epoch: u64,
    pass: ReinitPass,
    table: LivenessTable,
)
    requires
        tokens_complete(v),
        v.slots.len() <= u32::MAX,
        epoch == v.freelist_epoch,
        0 <= from,
    ensures
        tokens_complete(v.rebuilt_from(from, epoch, pass, table).0),
        v.rebuilt_from(from, epoch, pass, table).0.same_frame(v),
    decreases v.slots.len() - from,
{
    if from < v.slots.len() {
        let (next, r) = v.rebuilt_one(from, epoch, pass, table);
        lemma_complete_slot(v, from as u32, next);
        if r is Ok {
            lemma_rebuild_complete(next, from + 1, epoch, r->Ok_0, table);
        }
    }
}

proof fn lemma_rebuilt_complete(v: RegionState, epoch: u64, table: LivenessTable)
    requires
        tokens_complete(v),
        v.slots.len() <= u32::MAX,
        epoch == v.freelist_epoch,
    ensures
        tokens_complete(v.rebuilt(epoch, table).0),
    decreases v.unsettled_from(0, epoch, table),
{
    let (next, r) = v.rebuilt_from(0, epoch, no_pass(), table);
    lemma_rebuild_complete(v, 0, epoch, no_pass(), table);
    super::reinit::lemma_rebuild_pass_settles(v, 0, epoch, no_pass(), table);
    if r is Ok && !r->Ok_0.saw_live_transitional && r->Ok_0.saw_unpublished_free {
        lemma_rebuilt_complete(next, epoch, table);
    }
}

proof fn lemma_resume_complete(v: RegionState, stage: ReinitStage, table: LivenessTable)
    requires
        v.shaped(),
        tokens_complete(v),
        forall|i: int| 0 <= i < v.slots.len() ==> slot_sound(#[trigger] v.slots[i], v),
        stage matches ReinitStage::Rebuilding(epoch) ==> epoch == v.freelist_epoch,
    ensures
        tokens_complete(v.reinit_resumed(stage, table).0),
{
    match stage {
        ReinitStage::Finished => {},
        ReinitStage::Rebuilding(epoch) => {
            lemma_rebuilt_complete(v, epoch, table);
        },
        ReinitStage::Quiescing => {
            assert forall|i: int|
                0 <= i < v.slots.len() && has_token_state(
                    (#[trigger] v.slots[i]).meta.state,
                ) implies v.slots[i].meta.epoch <= v.freelist_epoch by {
                assert(slot_sound(v.slots[i], v));
            }
            lemma_quiesce_complete(v, 0, no_pass(), table);
            let next = v.quiesced_from(0, no_pass(), table).0;
            lemma_rebuilt_complete(next.stack_renewed(), (next.freelist_epoch + 1) as u64, table);
        },
    }
}

proof fn lemma_popped_complete(v: RegionState, id: u32, generation: u64, pid: i32)
    requires
        tokens_in_range(v),
        tokens_complete(v),
        v.has_slot(id),
    ensures
        tokens_complete(v.popped_slot_reserved(id, generation, pid).0),
{
    lemma_empty_complete(v, id, pid);
    lemma_publish_complete(v, id, pid, 0);
    lemma_complete_slot(
        v,
        id,
        v.with_meta(
            id as int,
            super::meta::free_word(super::meta::LEASE_STATE_ACQUIRE_RESERVED, 0),
        ),
    );
}

proof fn lemma_lease_complete(v: RegionState, table: LivenessTable, pid: i32)
    requires
        v.shaped(),
        tokens_complete(v),
        no_half_publication(v),
    ensures
        tokens_complete(v.lease_begun(table, pid).0),
        tokens_complete(v.lease_acquired(table, pid).0),
{
    if v.meta.online() {
        let generation = v.meta.generation;
        lemma_take_complete(v, pid);
        let (first, token) = v.token_taken(pid);
        if token is Some {
            lemma_popped_complete(first, token->0, generation, pid);
            lemma_publish_frame(first, token->0, pid);
        } else {
            lemma_reap_complete(first, 0, false, None, table, pid);
            let reaped = first.dead_reaped(table, pid).0;
            lemma_take_complete(reaped, pid);
            let (second, token) = reaped.token_taken(pid);
            if token is Some {
                lemma_popped_complete(second, token->0, generation, pid);
                lemma_publish_frame(second, token->0, pid);
            }
        }
        let (reserved, r) = v.backend_slot_reserved(generation, table, pid);
        assert(tokens_complete(reserved));
        if r is Ok {
            let id = r->Ok_0;
            assert(reserved.has_slot(id));
            let prepared = (RegionState {
                next_lease_epoch: (reserved.next_lease_epoch + 1) as u64,
                ..reserved
            }).with_slot(
                id as int,
                SlotState {
                    generation,
                    backend_pid: pid,
                    ..reserved.slots[id as int].cleared()
                },
            );
            assert(tokens_complete(prepared)) by {
                assert forall|i: int|
                    0 <= i < prepared.slots.len() && has_token_state(
                        (#[trigger] prepared.slots[i]).meta.state,
                    ) && prepared.slots[i].meta.epoch == prepared.freelist_epoch implies
                    prepared.freelist.contains(i as u32) by {
                    assert(reserved.slots[i].meta == prepared.slots[i].meta);
                }
            }
            lemma_empty_complete(prepared, id, pid);
            let (leased, incarnation) = reserved.lease_published(id as int, generation, pid);
            if incarnation is Some {
                lemma_complete_slot(prepared, id, leased);
                lemma_detach_complete(leased, id, incarnation->0, table, pid);
            }
        }
    }
}

/// After every step of every call a free slot that says it is on the stack is
/// on it. A call that takes tokens must not find a slot that is between the
/// push of its token and its publication.
pub proof fn law_call_keeps_stack_complete(call: RegionCall, v: RegionState, w: RegionState)
    requires
        sound(v),
        tokens_complete(v),
        call is Acquire || call is BeginAcquire ==> no_half_publication(v),
        call.leads(v, w),
    ensures
        tokens_complete(w),
{
    assert(tokens_in_range(v));
    match call {
        RegionCall::Acquire { table, pid } => {
            lemma_lease_complete(v, table, pid);
        },
        RegionCall::BeginAcquire { table, pid } => {
            lemma_lease_complete(v, table, pid);
        },
        RegionCall::ConfirmAcquire { id, incarnation, pid } => {
            lemma_detach_complete(v, id, incarnation, arbitrary(), pid);
        },
        RegionCall::ReleaseLease { id, incarnation, pid } => {
            lemma_detach_complete(v, id, incarnation, arbitrary(), pid);
        },
        RegionCall::Claim { process, verdict, id, table } => {
            if verdict is Ok {
                lemma_claim_complete(ClaimState { region: v, process }, id, verdict->Ok_0, table);
            }
        },
        RegionCall::ReserveClaim { process, id, incarnation } => {
            lemma_complete_slot(v, id, w);
        },
        RegionCall::RecheckClaim { process, id, incarnation, table } => {
            lemma_recheck_complete(ClaimState { region: v, process }, id, incarnation, table);
        },
        RegionCall::CommitClaim { process, id, incarnation } => {
            lemma_commit_complete(ClaimState { region: v, process }, id, incarnation);
        },
        RegionCall::ReleaseClaim { id, incarnation, pid } => {
            lemma_detach_complete(v, id, incarnation, arbitrary(), pid);
        },
        RegionCall::Exit { process } => {
            let owners = process.owners(v.key, v.layout.slot_count);
            lemma_found_registry(process.registries, process.pid, v.key, v.layout.slot_count);
            lemma_held_slots_in_range(owners);
            lemma_exit_complete(v, held_slots(owners), process.pid);
        },
        RegionCall::Send { id, direction, payload } => {
            if w != v {
                lemma_complete_slot(v, id, w);
            }
        },
        RegionCall::Receive { id, direction, frame_len } => {
            if w != v {
                lemma_complete_slot(v, id, w);
            }
        },
        RegionCall::Activate { process, worker_pid, table } => {
            lemma_sweep_complete(
                v.generation_begun(WORKER_STATE_RESTARTING),
                0,
                (v.meta.generation + 1) as u64,
                table,
                process.pid,
            );
        },
        RegionCall::AnnounceGeneration { process, table } => {
            lemma_sweep_complete(
                v.generation_begun(WORKER_STATE_RESTARTING),
                0,
                (v.meta.generation + 1) as u64,
                table,
                process.pid,
            );
        },
        RegionCall::Reset { base, len, layout, table } => {
            if call.switches(v) {
                let b = v.reinit_begun();
                assert forall|i: int|
                    0 <= i < b.slots.len() && has_token_state(
                        (#[trigger] b.slots[i]).meta.state,
                    ) implies b.slots[i].meta.epoch <= b.freelist_epoch by {
                    assert(slot_sound(v.slots[i], v));
                }
                lemma_quiesce_complete(b, 0, no_pass(), table);
                let next = b.quiesced_from(0, no_pass(), table).0;
                lemma_rebuilt_complete(
                    next.stack_renewed(),
                    (next.freelist_epoch + 1) as u64,
                    table,
                );
            }
        },
        RegionCall::ResumeReset { stage, table } => {
            lemma_resume_complete(v, stage, table);
        },
        RegionCall::Publish { id, pid } => {
            lemma_publish_complete(v, id, pid, 0);
        },
        RegionCall::BeginPublish { id, pid } => {
            lemma_publish_complete(v, id, pid, 0);
        },
        RegionCall::FinishPublish { id, epoch } => {
            lemma_publish_complete(v, id, 0, epoch);
        },
        RegionCall::AbortAcquire { id, pid } => {
            lemma_empty_complete(v, id, pid);
        },
        _ => {},
    }
}

proof fn lemma_recheck_complete(
    s: ClaimState,
    id: u32,
    incarnation: LeaseIncarnation,
    table: LivenessTable,
)
    requires
        s.region.has_slot(id),
        tokens_in_range(s.region),
        tokens_complete(s.region),
    ensures
        tokens_complete(s.claim_rechecked(id, incarnation, table).0.region),
        tokens_in_range(s.claim_rechecked(id, incarnation, table).0.region),
        s.claim_rechecked(id, incarnation, table).0.region.same_frame(s.region),
{
    let pid = s.process.pid;
    lemma_detach_complete(s.region, id, incarnation, table, pid);
    lemma_detach_frame(s.region, id, incarnation, table, pid);
    let undone = s.region.claim_rolled_back(id as int, incarnation, pid);
    lemma_detach_complete(undone, id, incarnation, table, pid);
    lemma_detach_frame(undone, id, incarnation, table, pid);
}

proof fn lemma_commit_complete(s: ClaimState, id: u32, incarnation: LeaseIncarnation)
    requires
        s.region.has_slot(id),
        tokens_complete(s.region),
    ensures
        tokens_complete(s.claim_committed(id, incarnation).0.region),
{
    let v = s.region;
    lemma_detach_complete(v, id, incarnation, arbitrary(), s.process.pid);
    if v.slots[id as int].meta == super::meta::leased_word(
        incarnation.lease_epoch,
        super::meta::OWNER_CLAIM_PENDING,
    ) {
        lemma_complete_slot(v, id, s.claim_committed(id, incarnation).0.region);
    }
}

proof fn lemma_claim_complete(
    s: ClaimState,
    id: u32,
    incarnation: LeaseIncarnation,
    table: LivenessTable,
)
    requires
        s.region.has_slot(id),
        tokens_in_range(s.region),
        tokens_complete(s.region),
    ensures
        tokens_complete(s.claimed(Ok(incarnation), id, table).0.region),
{
    let pid = s.process.pid;
    lemma_detach_complete(s.region, id, incarnation, table, pid);
    lemma_detach_frame(s.region, id, incarnation, table, pid);
    let looked = ClaimState {
        region: s.region.reaped(id as int, incarnation, table, pid).0,
        ..s
    };
    let reserved = looked.claim_reserved(id, incarnation).0;
    lemma_complete_slot(looked.region, id, reserved.region);
    lemma_recheck_complete(reserved, id, incarnation, table);
    let rechecked = reserved.claim_rechecked(id, incarnation, table).0;
    lemma_commit_complete(rechecked, id, incarnation);
}

} // verus!
