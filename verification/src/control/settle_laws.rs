//! A reset waits for those who are at work on a slot, and only for them.

use super::error::{ProbeFailure, ReinitError};
use super::layout::{attach_error, layout_of, RegionHeader, TransportRegionLayout};
use super::meta::{
    LEASE_STATE_ACQUIRE_RESERVED, LEASE_STATE_FREE_PENDING, LEASE_STATE_FREE_POPPED,
    LEASE_STATE_FREE_PUBLISHED, LEASE_STATE_FREE_PUSHED, LEASE_STATE_FREE_PUSH_CLAIMED,
    LEASE_STATE_LEASED, WORKER_STATE_REINITING,
};
use super::process::LivenessTable;
use super::region::{RegionState, SlotState};
use super::reinit::{
    no_pass, reinit_refusal, settle_step, ReinitPass, ReinitStage, SettleStep,
};
use super::slot_laws::{is_silent, waits_free};
use vstd::prelude::*;

verus! {

/// Somebody is between two steps of taking the slot or giving it back.
pub open spec fn between_steps(slot: SlotState) -> bool {
    ||| slot.meta.state == LEASE_STATE_FREE_POPPED
    ||| slot.meta.state == LEASE_STATE_ACQUIRE_RESERVED
    ||| slot.meta.state == LEASE_STATE_FREE_PUSH_CLAIMED
}

/// A live process is between two steps on the slot.
pub open spec fn busy(slot: SlotState, table: LivenessTable) -> bool {
    between_steps(slot) && table.actor(slot.backend_pid) == Ok::<bool, ProbeFailure>(true)
}

/// Nothing could be learned of the process that is between two steps.
pub open spec fn unknown(slot: SlotState, table: LivenessTable) -> bool {
    between_steps(slot) && table.actor(slot.backend_pid) is Err
}

/// Nobody is left who could bring the slot to rest.
pub open spec fn orphaned(slot: SlotState, table: LivenessTable) -> bool {
    ||| between_steps(slot) && table.actor(slot.backend_pid) == Ok::<bool, ProbeFailure>(false)
    ||| slot.meta.state == LEASE_STATE_LEASED && slot.meta.owners == 0 && slot.generation != 0
        && slot.meta.epoch != 0
}

/// A reset waits for a slot exactly while a live process is between two steps on
/// it, empties it exactly if nobody is left who could bring it to rest, and stops
/// exactly where nothing could be learned of the process.
pub proof fn law_reset_waits_for_the_living(slot: SlotState, table: LivenessTable)
    ensures
        settle_step(slot, table) == SettleStep::Live <==> busy(slot, table),
        settle_step(slot, table) == SettleStep::Emptied <==> orphaned(slot, table),
        settle_step(slot, table) is Failed <==> unknown(slot, table),
        settle_step(slot, table) matches SettleStep::Failed(failure) ==> table.actor(
            slot.backend_pid,
        ) == Err::<bool, ProbeFailure>(failure),
{
}

proof fn lemma_quiesced(v: RegionState, from: int, pass: ReinitPass, table: LivenessTable)
    requires
        0 <= from <= v.slots.len(),
        v.slots.len() <= u32::MAX,
    ensures
        ({
            let (w, r) = v.quiesced_from(from, pass, table);
            &&& w.slots.len() == v.slots.len()
            &&& forall|i: int| 0 <= i < from ==> #[trigger] w.slots[i] == v.slots[i]
            &&& r is Ok <==> forall|i: int|
                from <= i < v.slots.len() ==> !unknown(#[trigger] v.slots[i], table)
            &&& r matches Ok(p) ==> {
                &&& p.saw_live_transitional <==> pass.saw_live_transitional || exists|i: int|
                    from <= i < v.slots.len() && busy(#[trigger] v.slots[i], table)
                &&& forall|i: int|
                    from <= i < v.slots.len() && !orphaned(v.slots[i], table)
                        ==> #[trigger] w.slots[i] == v.slots[i]
                &&& forall|i: int|
                    from <= i < v.slots.len() && orphaned(v.slots[i], table) ==> {
                        &&& (#[trigger] w.slots[i]).meta.state == LEASE_STATE_FREE_PENDING
                        &&& w.slots[i].meta.owners == 0
                        &&& w.slots[i].generation == 0
                        &&& w.slots[i].backend_pid == 0
                        &&& is_silent(w.slots[i])
                    }
            }
            &&& r matches Err(e) ==> {
                &&& e matches ReinitError::BackendProbeFailed { slot_id, error_kind, raw_os_error }
                    && from <= slot_id < v.slots.len() && table.actor(
                    v.slots[slot_id as int].backend_pid,
                ) == Err::<bool, ProbeFailure>(ProbeFailure { error_kind, raw_os_error })
                    && unknown(v.slots[slot_id as int], table) && forall|j: int|
                    from <= j < slot_id ==> !unknown(#[trigger] v.slots[j], table)
            }
        }),
    decreases v.slots.len() - from,
{
    if from < v.slots.len() {
        law_reset_waits_for_the_living(v.slots[from], table);
        let step = settle_step(v.slots[from], table);
        let next = v.settled(from, table);
        let p = match step {
            SettleStep::Live => ReinitPass { saw_live_transitional: true, ..pass },
            SettleStep::Emptied => ReinitPass { made_progress: true, ..pass },
            _ => pass,
        };
        let (w, r) = v.quiesced_from(from, pass, table);
        if step is Failed {
            assert(unknown(v.slots[from], table));
        } else {
            lemma_quiesced(next, from + 1, p, table);
            assert(forall|i: int|
                from < i < v.slots.len() ==> #[trigger] next.slots[i] == v.slots[i]);
            assert(w.slots[from] == next.slots[from]);
            assert forall|i: int| 0 <= i < from implies #[trigger] w.slots[i] == v.slots[i] by {
                assert(next.slots[i] == v.slots[i]);
            }
            if r is Ok {
                assert forall|i: int| from <= i < v.slots.len() implies !unknown(
                    #[trigger] v.slots[i],
                    table,
                ) by {
                    if i > from {
                        assert(next.slots[i] == v.slots[i]);
                    }
                }
                let q = r->Ok_0;
                if q.saw_live_transitional && !p.saw_live_transitional {
                    let i = choose|i: int|
                        from < i < v.slots.len() && busy(#[trigger] next.slots[i], table);
                    assert(busy(v.slots[i], table));
                }
                if exists|i: int| from <= i < v.slots.len() && busy(#[trigger] v.slots[i], table) {
                    let i = choose|i: int|
                        from <= i < v.slots.len() && busy(#[trigger] v.slots[i], table);
                    if i > from {
                        assert(busy(next.slots[i], table));
                    }
                }
                assert forall|i: int|
                    from <= i < v.slots.len() && !orphaned(v.slots[i], table) implies
                    #[trigger] w.slots[i] == v.slots[i] by {
                    if i > from {
                        assert(next.slots[i] == v.slots[i]);
                    }
                }
                assert forall|i: int|
                    from <= i < v.slots.len() && orphaned(v.slots[i], table) implies {
                    &&& (#[trigger] w.slots[i]).meta.state == LEASE_STATE_FREE_PENDING
                    &&& w.slots[i].meta.owners == 0
                    &&& w.slots[i].generation == 0
                    &&& w.slots[i].backend_pid == 0
                    &&& is_silent(w.slots[i])
                } by {
                    if i > from {
                        assert(next.slots[i] == v.slots[i]);
                    }
                }
            } else {
                let e = r->Err_0;
                assert(e is BackendProbeFailed);
                let slot_id = e->slot_id;
                assert(next.slots[slot_id as int] == v.slots[slot_id as int]);
                assert(unknown(v.slots[slot_id as int], table));
                assert forall|j: int| from <= j < slot_id implies !unknown(
                    #[trigger] v.slots[j],
                    table,
                ) by {
                    if j > from {
                        assert(next.slots[j] == v.slots[j]);
                    }
                }
            }
        }
    }
}

/// A pass of a reset over the slots stops at the first process of which nothing
/// could be learned, and names its slot. Otherwise it looks at every slot: it
/// empties every orphaned one, leaves every other one as it is, and knows whether
/// anybody was still at work on any of them.
pub proof fn law_reset_looks_at_every_slot(v: RegionState, table: LivenessTable)
    requires
        v.slots.len() <= u32::MAX,
    ensures
        ({
            let (w, r) = v.quiesced_from(0, no_pass(), table);
            &&& w.slots.len() == v.slots.len()
            &&& r is Ok <==> forall|i: int|
                0 <= i < v.slots.len() ==> !unknown(#[trigger] v.slots[i], table)
            &&& r matches Ok(p) ==> {
                &&& p.saw_live_transitional <==> exists|i: int|
                    0 <= i < v.slots.len() && busy(#[trigger] v.slots[i], table)
                &&& forall|i: int|
                    0 <= i < v.slots.len() && !orphaned(v.slots[i], table)
                        ==> #[trigger] w.slots[i] == v.slots[i]
                &&& forall|i: int|
                    0 <= i < v.slots.len() && orphaned(v.slots[i], table) ==> {
                        &&& (#[trigger] w.slots[i]).meta.state == LEASE_STATE_FREE_PENDING
                        &&& w.slots[i].meta.owners == 0
                        &&& w.slots[i].generation == 0
                        &&& w.slots[i].backend_pid == 0
                        &&& is_silent(w.slots[i])
                    }
            }
            &&& r matches Err(e) ==> {
                &&& e matches ReinitError::BackendProbeFailed { slot_id, error_kind, raw_os_error }
                    && slot_id < v.slots.len() && table.actor(
                    v.slots[slot_id as int].backend_pid,
                ) == Err::<bool, ProbeFailure>(ProbeFailure { error_kind, raw_os_error })
                    && unknown(v.slots[slot_id as int], table) && forall|j: int|
                    0 <= j < slot_id ==> !unknown(#[trigger] v.slots[j], table)
            }
        }),
{
    lemma_quiesced(v, 0, no_pass(), table);
}

/// A reset that waits goes on waiting exactly while somebody of whom it can learn
/// is at work on a slot. It fails exactly if it could learn nothing of somebody.
pub proof fn law_reset_goes_on_when_nobody_works(v: RegionState, table: LivenessTable)
    requires
        v.slots.len() <= u32::MAX,
    ensures
        ({
            let (w, r) = v.reinit_resumed(ReinitStage::Quiescing, table);
            let any_unknown = exists|i: int|
                0 <= i < v.slots.len() && unknown(#[trigger] v.slots[i], table);
            let any_busy = exists|i: int|
                0 <= i < v.slots.len() && busy(#[trigger] v.slots[i], table);
            &&& any_unknown ==> (r matches Err(ReinitError::BackendProbeFailed { .. }))
            &&& !any_unknown && any_busy ==> r == Ok::<ReinitStage, ReinitError>(
                ReinitStage::Quiescing,
            )
            &&& !any_unknown && any_busy ==> w.freelist_epoch == v.freelist_epoch
        }),
{
    lemma_quiesced(v, 0, no_pass(), table);
    lemma_quiesce_epoch(v, 0, no_pass(), table);
}

proof fn lemma_quiesce_epoch(v: RegionState, from: int, pass: ReinitPass, table: LivenessTable)
    requires
        0 <= from <= v.slots.len(),
    ensures
        v.quiesced_from(from, pass, table).0.freelist_epoch == v.freelist_epoch,
        v.quiesced_from(from, pass, table).0.meta == v.meta,
    decreases v.slots.len() - from,
{
    if from < v.slots.len() {
        let step = settle_step(v.slots[from], table);
        let p = match step {
            SettleStep::Live => ReinitPass { saw_live_transitional: true, ..pass },
            SettleStep::Emptied => ReinitPass { made_progress: true, ..pass },
            _ => pass,
        };
        if !(step is Failed) {
            lemma_quiesce_epoch(v.settled(from, table), from + 1, p, table);
        }
    }
}

/// A reset begins with a generation of its own, without a worker. A finished reset
/// stays finished.
pub proof fn law_reset_begins_a_generation(v: RegionState, table: LivenessTable)
    requires
        v.meta.generation < u64::MAX,
    ensures
        v.reinit_begun().meta.generation == v.meta.generation + 1,
        v.reinit_begun().meta.worker_state == WORKER_STATE_REINITING,
        v.reinit_begun().worker_pid == 0,
        v.reinit_begun().slots == v.slots,
        v.reinit_begun().freelist == v.freelist,
        v.reinit_resumed(ReinitStage::Finished, table) == (
            v,
            Ok::<ReinitStage, ReinitError>(ReinitStage::Finished),
        ),
{
}

/// While the free stack of `epoch` is rebuilt, a free slot without a token of it
/// gets one, a slot that has one is marked so, and a leased slot stays leased. A
/// slot on which somebody is at work is passed over.
pub proof fn law_free_slot_gets_its_token(
    v: RegionState,
    id: int,
    epoch: u64,
    pass: ReinitPass,
    table: LivenessTable,
)
    requires
        0 <= id < v.slots.len(),
        v.slots[id].meta.state <= 6,
    ensures
        ({
            let slot = v.slots[id];
            let (w, r) = v.rebuilt_one(id, epoch, pass, table);
            let has_token = slot.meta.epoch == epoch && (slot.meta.state
                == LEASE_STATE_FREE_PUBLISHED || slot.meta.state == LEASE_STATE_FREE_PUSHED);
            let at_rest = !between_steps(slot) && slot.meta.state != LEASE_STATE_LEASED;
            &&& r is Err <==> unknown(slot, table)
            &&& busy(slot, table) || unknown(slot, table) ==> w == v
            &&& r matches Ok(p) ==> {
                &&& p.saw_live_transitional <==> pass.saw_live_transitional || busy(slot, table)
                &&& p.saw_unpublished_free <==> pass.saw_unpublished_free || orphaned(slot, table)
                    || at_rest && !has_token
            }
            &&& at_rest && !has_token ==> {
                &&& waits_free(w.slots[id], epoch)
                &&& w.freelist == v.freelist.push(id as u32)
            }
            &&& at_rest && has_token ==> {
                &&& w.slots[id].meta.state == LEASE_STATE_FREE_PUBLISHED
                &&& w.slots[id].meta.epoch == epoch
                &&& w.freelist == v.freelist
            }
            &&& orphaned(slot, table) ==> w.slots[id].meta.state == LEASE_STATE_FREE_PENDING
                && w.freelist == v.freelist
            &&& slot.meta.state == LEASE_STATE_LEASED && slot.meta.owners != 0 ==> w == v
        }),
{
    law_reset_waits_for_the_living(v.slots[id], table);
}

/// The slot is free and at rest.
pub open spec fn at_rest(slot: SlotState) -> bool {
    !between_steps(slot) && slot.meta.state != LEASE_STATE_LEASED
}

proof fn lemma_rebuilt_from(
    v: RegionState,
    from: int,
    epoch: u64,
    pass: ReinitPass,
    table: LivenessTable,
)
    requires
        0 <= from <= v.slots.len(),
        v.slots.len() <= u32::MAX,
        forall|i: int| 0 <= i < v.slots.len() ==> (#[trigger] v.slots[i]).meta.state <= 6,
    ensures
        ({
            let (w, r) = v.rebuilt_from(from, epoch, pass, table);
            &&& w.slots.len() == v.slots.len()
            &&& forall|i: int| 0 <= i < w.slots.len() ==> (#[trigger] w.slots[i]).meta.state <= 6
            &&& forall|i: int| 0 <= i < from ==> #[trigger] w.slots[i] == v.slots[i]
            &&& forall|i: int|
                from <= i < v.slots.len() && (busy(v.slots[i], table) || unknown(
                    v.slots[i],
                    table,
                )) ==> #[trigger] w.slots[i] == v.slots[i]
            &&& r is Ok <==> forall|i: int|
                from <= i < v.slots.len() ==> !unknown(#[trigger] v.slots[i], table)
            &&& r matches Ok(p) ==> {
                &&& p.saw_live_transitional <==> pass.saw_live_transitional || exists|i: int|
                    from <= i < v.slots.len() && busy(#[trigger] v.slots[i], table)
                &&& forall|i: int|
                    from <= i < v.slots.len() && at_rest(v.slots[i]) ==> (
                    #[trigger] w.slots[i]).meta.state == LEASE_STATE_FREE_PUBLISHED
                        && w.slots[i].meta.epoch == epoch
            }
        }),
    decreases v.slots.len() - from,
{
    if from < v.slots.len() {
        law_free_slot_gets_its_token(v, from, epoch, pass, table);
        let (next, r1) = v.rebuilt_one(from, epoch, pass, table);
        assert(forall|i: int|
            0 <= i < v.slots.len() && i != from ==> #[trigger] next.slots[i] == v.slots[i]);
        if r1 is Err {
            assert(unknown(v.slots[from], table));
        } else {
            let p = r1->Ok_0;
            assert forall|i: int| 0 <= i < next.slots.len() implies (
            #[trigger] next.slots[i]).meta.state <= 6 by {
                if i != from {
                    assert(next.slots[i] == v.slots[i]);
                }
            }
            lemma_rebuilt_from(next, from + 1, epoch, p, table);
            let (w, r) = v.rebuilt_from(from, epoch, pass, table);
            assert(w.slots[from] == next.slots[from]);
            assert forall|i: int| 0 <= i < from implies #[trigger] w.slots[i] == v.slots[i] by {
                assert(next.slots[i] == v.slots[i]);
            }
            assert forall|i: int|
                from <= i < v.slots.len() && (busy(v.slots[i], table) || unknown(
                    v.slots[i],
                    table,
                )) implies #[trigger] w.slots[i] == v.slots[i] by {
                if i > from {
                    assert(next.slots[i] == v.slots[i]);
                }
            }
            if r is Ok {
                assert forall|i: int| from <= i < v.slots.len() implies !unknown(
                    #[trigger] v.slots[i],
                    table,
                ) by {
                    if i > from {
                        assert(next.slots[i] == v.slots[i]);
                    }
                }
                assert forall|i: int| from <= i < v.slots.len() && at_rest(v.slots[i]) implies (
                #[trigger] w.slots[i]).meta.state == LEASE_STATE_FREE_PUBLISHED
                    && w.slots[i].meta.epoch == epoch by {
                    if i > from {
                        assert(next.slots[i] == v.slots[i]);
                    }
                }
                if r->Ok_0.saw_live_transitional && !p.saw_live_transitional {
                    let i = choose|i: int|
                        from < i < v.slots.len() && busy(#[trigger] next.slots[i], table);
                    assert(busy(v.slots[i], table));
                }
                if exists|i: int| from <= i < v.slots.len() && busy(#[trigger] v.slots[i], table) {
                    let i = choose|i: int|
                        from <= i < v.slots.len() && busy(#[trigger] v.slots[i], table);
                    if i > from {
                        assert(busy(next.slots[i], table));
                    }
                }
            } else {
                let i = choose|i: int|
                    from < i < v.slots.len() && unknown(#[trigger] next.slots[i], table);
                assert(unknown(v.slots[i], table));
            }
        }
    }
}

/// While a reset rebuilds the free stack it waits exactly like before: it goes on
/// rebuilding the same stack while somebody of whom it can learn is at work on a
/// slot, and it fails exactly if it could learn nothing of somebody.
pub proof fn law_rebuilding_waits_for_the_living(
    v: RegionState,
    epoch: u64,
    table: LivenessTable,
)
    requires
        v.slots.len() <= u32::MAX,
        forall|i: int| 0 <= i < v.slots.len() ==> (#[trigger] v.slots[i]).meta.state <= 6,
    ensures
        ({
            let (w, r) = v.reinit_resumed(ReinitStage::Rebuilding(epoch), table);
            let any_unknown = exists|i: int|
                0 <= i < v.slots.len() && unknown(#[trigger] v.slots[i], table);
            let any_busy = exists|i: int|
                0 <= i < v.slots.len() && busy(#[trigger] v.slots[i], table);
            &&& any_unknown ==> r is Err
            &&& !any_unknown && any_busy ==> r == Ok::<ReinitStage, ReinitError>(
                ReinitStage::Rebuilding(epoch),
            )
            &&& !any_unknown && any_busy ==> forall|i: int|
                0 <= i < v.slots.len() && at_rest(v.slots[i]) ==> (
                #[trigger] w.slots[i]).meta.state == LEASE_STATE_FREE_PUBLISHED
                    && w.slots[i].meta.epoch == epoch
        }),
{
    lemma_rebuilt_from(v, 0, epoch, no_pass(), table);
}

/// A region is reset exactly if it could be attached and has the layout that is
/// asked for.
pub proof fn law_only_the_same_region_is_reset(
    base: usize,
    len: usize,
    header: RegionHeader,
    layout: TransportRegionLayout,
)
    ensures
        ({
            let refusal = reinit_refusal(base, len, header, layout);
            let existing = layout_of(
                header.slot_count,
                header.backend_to_worker_cap as usize,
                header.worker_to_backend_cap as usize,
            );
            &&& refusal is None <==> attach_error(base, len, header) is None && existing == layout
            &&& attach_error(base, len, header) matches Some(e) ==> refusal == Some(
                ReinitError::InvalidExistingRegion(e),
            )
            &&& attach_error(base, len, header) is None && existing != layout ==> refusal == Some(
                ReinitError::LayoutMismatch { existing, requested: layout },
            )
        }),
{
}

} // verus!
