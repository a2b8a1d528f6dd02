//! What a reset does to a sound region.

use super::laws::{
    core_sound, has_token_state, slot_sound, sound, tokens_complete, tokens_sound,
};
use super::meta::{
    LEASE_STATE_LEASED, REGION_META_MAX_GENERATION, SLOT_META_MAX_LEASE_EPOCH, WORKER_STATE_OFFLINE,
};
use super::process::LivenessTable;
use super::region::{RegionState, SlotState};
use super::reinit::{
    half_published, is_transitional, no_pass, settle_step, ReinitPass, ReinitStage, SettleStep,
};
use vstd::prelude::*;

verus! {

/// A slot that a reset leaves to its owners.
pub open spec fn retained(slot: SlotState) -> bool {
    slot.meta.state == LEASE_STATE_LEASED && slot.meta.owners != 0
}

/// Nobody is at work on the slot, and it is not leased without an owner.
pub open spec fn quiet(slot: SlotState) -> bool {
    !is_transitional(slot.meta.state) && (slot.meta.state == LEASE_STATE_LEASED ==> retained(slot))
}

proof fn lemma_emptied_core(v: RegionState, id: int)
    requires
        core_sound(v),
        0 <= id < v.slots.len(),
    ensures
        core_sound(v.with_emptied(id)),
{
    let w = v.with_emptied(id);
    assert(v.slots[id].shaped(v.layout));
    assert forall|i: int| 0 <= i < w.slots.len() implies (#[trigger] w.slots[i]).shaped(w.layout)
        && slot_sound(w.slots[i], w) by {
        if i != id {
            assert(w.slots[i] == v.slots[i]);
            assert(slot_sound(v.slots[i], v));
        }
    }
    assert forall|i: int, j: int|
        0 <= i < w.slots.len() && 0 <= j < w.slots.len() && i != j && (
        #[trigger] w.slots[i]).meta.state == LEASE_STATE_LEASED && (
        #[trigger] w.slots[j]).meta.state == LEASE_STATE_LEASED implies w.slots[i].meta.epoch
        != w.slots[j].meta.epoch by {
        assert(w.slots[i] == v.slots[i] && w.slots[j] == v.slots[j]);
    }
}

/// A pass that waits for quiet keeps the core of soundness and every slot that
/// has an owner. If it saw nobody at work, every slot it looked at is quiet.
pub proof fn law_quiesce_pass(
    v: RegionState,
    from: int,
    pass: ReinitPass,
    table: LivenessTable,
)
    requires
        core_sound(v),
        0 <= from,
    ensures
        ({
            let (w, r) = v.quiesced_from(from, pass, table);
            &&& core_sound(w)
            &&& w.same_frame(v)
            &&& w.freelist == v.freelist
            &&& forall|i: int| 0 <= i < v.slots.len() && retained(#[trigger] v.slots[i])
                ==> w.slots[i] == v.slots[i]
            &&& forall|i: int| 0 <= i < from && i < v.slots.len() ==> #[trigger] w.slots[i]
                == v.slots[i]
            &&& r matches Ok(p) ==> {
                &&& pass.saw_live_transitional ==> p.saw_live_transitional
                &&& !p.saw_live_transitional ==> forall|i: int|
                    from <= i < v.slots.len() ==> quiet(#[trigger] w.slots[i])
            }
        }),
    decreases v.slots.len() - from,
{
    if from < v.slots.len() {
        assert(slot_sound(v.slots[from], v));
        let next = v.settled(from, table);
        if settle_step(v.slots[from], table) == SettleStep::Emptied {
            lemma_emptied_core(v, from);
        }
        let step = settle_step(v.slots[from], table);
        let p = match step {
            SettleStep::Live => ReinitPass { saw_live_transitional: true, ..pass },
            SettleStep::Emptied => ReinitPass { made_progress: true, ..pass },
            _ => pass,
        };
        law_quiesce_pass(next, from + 1, p, table);
        let (w, r) = next.quiesced_from(from + 1, p, table);
        assert(w.slots[from] == next.slots[from]);
        assert forall|i: int| 0 <= i < v.slots.len() && retained(#[trigger] v.slots[i]) implies
            w.slots[i] == v.slots[i] && next.slots[i] == v.slots[i] by {
            assert(next.slots[i] == v.slots[i]);
        }
        assert forall|i: int| 0 <= i < from && i < v.slots.len() implies #[trigger] w.slots[i]
            == v.slots[i] && next.slots[i] == v.slots[i] by {
            assert(next.slots[i] == v.slots[i]);
        }
        if step != SettleStep::Live {
            if !(step is Failed) {
                assert(quiet(next.slots[from]));
            }
        }
        if r is Ok && !r->Ok_0.saw_live_transitional && !(step is Failed) {
            assert forall|i: int| from <= i < v.slots.len() implies quiet(
                #[trigger] w.slots[i],
            ) by {
                if i > from {
                    assert(quiet(w.slots[i]));
                }
            }
        }
    }
}

proof fn lemma_republished(v: RegionState, id: int, epoch: u64)
    requires
        core_sound(v),
        tokens_sound(v),
        tokens_complete(v),
        0 <= id < v.slots.len(),
        epoch == v.freelist_epoch,
        v.slots[id].meta.state != LEASE_STATE_LEASED,
        v.slots[id].meta.republishable(epoch),
    ensures
        core_sound(v.republished(id, epoch)),
        tokens_sound(v.republished(id, epoch)),
        tokens_complete(v.republished(id, epoch)),
{
    let w = v.republished(id, epoch);
    let slot = w.slots[id];
    assert(v.slots[id].shaped(v.layout));
    assert(slot.shaped(v.layout));
    if v.freelist.contains(id as u32) {
        let i = choose|i: int| 0 <= i < v.freelist.len() && v.freelist[i] == id as u32;
        assert(has_token_state(v.slots[v.freelist[i] as int].meta.state));
    }
    assert forall|i: int, j: int|
        0 <= i < w.freelist.len() && 0 <= j < w.freelist.len() && i != j implies w.freelist[i]
        != w.freelist[j] by {
        if i < v.freelist.len() {
            assert(v.freelist.contains(v.freelist[i]));
        }
        if j < v.freelist.len() {
            assert(v.freelist.contains(v.freelist[j]));
        }
    }
    assert forall|i: int| 0 <= i < w.freelist.len() implies (#[trigger] w.freelist[i])
        < w.slots.len() && has_token_state(w.slots[w.freelist[i] as int].meta.state)
        && w.slots[w.freelist[i] as int].meta.epoch == w.freelist_epoch by {
        if i < v.freelist.len() {
            assert(w.freelist[i] == v.freelist[i]);
            assert(v.freelist.contains(v.freelist[i]));
            assert(v.freelist[i] < v.slots.len());
        }
    }
    assert forall|i: int| 0 <= i < w.slots.len() implies (#[trigger] w.slots[i]).shaped(w.layout)
        && slot_sound(w.slots[i], w) by {
        if i != id {
            assert(w.slots[i] == v.slots[i]);
            assert(slot_sound(v.slots[i], v));
        }
    }
    assert forall|i: int, j: int|
        0 <= i < w.slots.len() && 0 <= j < w.slots.len() && i != j && (
        #[trigger] w.slots[i]).meta.state == LEASE_STATE_LEASED && (
        #[trigger] w.slots[j]).meta.state == LEASE_STATE_LEASED implies w.slots[i].meta.epoch
        != w.slots[j].meta.epoch by {
        assert(w.slots[i] == v.slots[i] && w.slots[j] == v.slots[j]);
    }
    assert forall|i: int|
        0 <= i < w.slots.len() && has_token_state((#[trigger] w.slots[i]).meta.state)
            && w.slots[i].meta.epoch == w.freelist_epoch implies w.freelist.contains(
        i as u32,
    ) by {
        if i == id {
            assert(w.freelist[w.freelist.len() - 1] == id as u32);
        } else {
            assert(w.slots[i] == v.slots[i]);
            let k = choose|k: int| 0 <= k < v.freelist.len() && v.freelist[k] == i as u32;
            assert(w.freelist[k] == i as u32);
        }
    }
}

proof fn lemma_rebuild_pass(
    v: RegionState,
    from: int,
    epoch: u64,
    pass: ReinitPass,
    table: LivenessTable,
)
    requires
        core_sound(v),
        tokens_sound(v),
        tokens_complete(v),
        epoch == v.freelist_epoch,
        0 <= from,
        forall|i: int| 0 <= i < v.slots.len() ==> quiet(#[trigger] v.slots[i]),
    ensures
        ({
            let (w, r) = v.rebuilt_from(from, epoch, pass, table);
            &&& r is Ok
            &&& r->Ok_0.saw_live_transitional == pass.saw_live_transitional
            &&& core_sound(w)
            &&& tokens_sound(w)
            &&& tokens_complete(w)
            &&& w.same_frame(v)
            &&& forall|i: int| 0 <= i < v.slots.len() ==> quiet(#[trigger] w.slots[i])
            &&& forall|i: int| 0 <= i < v.slots.len() && retained(#[trigger] v.slots[i])
                ==> w.slots[i] == v.slots[i]
            &&& forall|i: int| 0 <= i < v.slots.len() && retained(#[trigger] w.slots[i])
                ==> w.slots[i] == v.slots[i]
            &&& forall|i: int| 0 <= i < from && i < v.slots.len() ==> #[trigger] w.slots[i]
                == v.slots[i]
            &&& forall|i: int|
                from <= i < v.slots.len() ==> retained(#[trigger] w.slots[i])
                    || w.slots[i].meta.published_in(epoch)
        }),
    decreases v.slots.len() - from,
{
    if from < v.slots.len() {
        let slot = v.slots[from];
        assert(slot_sound(slot, v));
        assert(slot.shaped(v.layout));
        assert(quiet(slot));
        let (next, r) = v.rebuilt_one(from, epoch, pass, table);
        assert(settle_step(slot, table) == SettleStep::Nothing);
        if slot.meta.state == LEASE_STATE_LEASED {
        } else if half_published(slot, epoch) {
            let s = next.slots[from];
            assert forall|i: int| 0 <= i < next.slots.len() implies (#[trigger]
            next.slots[i]).shaped(next.layout) && slot_sound(next.slots[i], next) by {
                if i != from {
                    assert(next.slots[i] == v.slots[i]);
                    assert(slot_sound(v.slots[i], v));
                }
            }
            assert forall|i: int, j: int|
                0 <= i < next.slots.len() && 0 <= j < next.slots.len() && i != j && (
                #[trigger] next.slots[i]).meta.state == LEASE_STATE_LEASED && (
                #[trigger] next.slots[j]).meta.state == LEASE_STATE_LEASED implies
                next.slots[i].meta.epoch != next.slots[j].meta.epoch by {
                assert(next.slots[i] == v.slots[i] && next.slots[j] == v.slots[j]);
            }
            assert forall|i: int| 0 <= i < next.freelist.len() implies has_token_state(
                next.slots[(#[trigger] next.freelist[i]) as int].meta.state,
            ) && next.slots[next.freelist[i] as int].meta.epoch == next.freelist_epoch by {
                assert(v.freelist[i] < v.slots.len());
            }
            assert forall|i: int|
                0 <= i < next.slots.len() && has_token_state((
                #[trigger] next.slots[i]).meta.state) && next.slots[i].meta.epoch
                    == next.freelist_epoch implies next.freelist.contains(i as u32) by {
                assert(has_token_state(v.slots[i].meta.state) && v.slots[i].meta.epoch
                    == v.freelist_epoch);
            }
        } else if slot.meta.republishable(epoch) {
            lemma_republished(v, from, epoch);
        }
        assert(forall|i: int|
            0 <= i < v.slots.len() && i != from ==> #[trigger] next.slots[i] == v.slots[i]);
        lemma_rebuild_pass(next, from + 1, epoch, r->Ok_0, table);
        let (w, _) = next.rebuilt_from(from + 1, epoch, r->Ok_0, table);
        assert(w.slots[from] == next.slots[from]);
        assert(retained(next.slots[from]) || next.slots[from].meta.published_in(epoch));
        assert forall|i: int| 0 <= i < v.slots.len() && retained(#[trigger] v.slots[i]) implies
            w.slots[i] == v.slots[i] by {
            assert(next.slots[i] == v.slots[i]);
        }
        assert forall|i: int| 0 <= i < v.slots.len() && retained(#[trigger] w.slots[i]) implies
            w.slots[i] == v.slots[i] by {
            assert(w.slots[i] == next.slots[i]);
        }
        assert forall|i: int| 0 <= i < from && i < v.slots.len() implies #[trigger] w.slots[i]
            == v.slots[i] by {
            assert(w.slots[i] == next.slots[i]);
        }
        assert forall|i: int| from <= i < v.slots.len() implies retained(#[trigger] w.slots[i])
            || w.slots[i].meta.published_in(epoch) by {}
    }
}

proof fn lemma_rebuilt(v: RegionState, epoch: u64, table: LivenessTable)
    requires
        core_sound(v),
        tokens_sound(v),
        tokens_complete(v),
        epoch == v.freelist_epoch,
        forall|i: int| 0 <= i < v.slots.len() ==> quiet(#[trigger] v.slots[i]),
    ensures
        ({
            let (w, r) = v.rebuilt(epoch, table);
            &&& r == Ok::<ReinitStage, super::error::ReinitError>(ReinitStage::Finished)
            &&& sound(w)
            &&& tokens_complete(w)
            &&& w.meta.generation == v.meta.generation
            &&& w.meta.worker_state == WORKER_STATE_OFFLINE
            &&& w.freelist_epoch == v.freelist_epoch
            &&& w.next_lease_epoch == v.next_lease_epoch
            &&& w.key == v.key
            &&& w.layout == v.layout
            &&& w.slots.len() == v.slots.len()
            &&& forall|i: int|
                0 <= i < v.slots.len() ==> if retained(v.slots[i]) {
                    #[trigger] w.slots[i] == v.slots[i]
                } else {
                    w.slots[i].meta.published_in(epoch)
                }
        }),
    decreases v.unsettled_from(0, epoch, table),
{
    let (next, r) = v.rebuilt_from(0, epoch, no_pass(), table);
    lemma_rebuild_pass(v, 0, epoch, no_pass(), table);
    super::reinit::lemma_rebuild_pass_settles(v, 0, epoch, no_pass(), table);
    if r->Ok_0.saw_unpublished_free {
        lemma_rebuilt(next, epoch, table);
        let (w, _) = next.rebuilt(epoch, table);
        assert forall|i: int| 0 <= i < v.slots.len() implies if retained(v.slots[i]) {
            #[trigger] w.slots[i] == v.slots[i]
        } else {
            w.slots[i].meta.published_in(epoch)
        } by {
            assert(retained(next.slots[i]) ==> next.slots[i] == v.slots[i]);
            assert(retained(v.slots[i]) ==> next.slots[i] == v.slots[i]);
        }
    } else {
        let w = next.with_region_meta(next.meta.generation, WORKER_STATE_OFFLINE);
        assert forall|i: int| 0 <= i < w.slots.len() implies slot_sound(#[trigger] w.slots[i], w) by {
            assert(slot_sound(next.slots[i], next));
        }
        assert(core_sound(w));
        assert forall|i: int| 0 <= i < v.slots.len() implies if retained(v.slots[i]) {
            #[trigger] w.slots[i] == v.slots[i]
        } else {
            w.slots[i].meta.published_in(epoch)
        } by {
            assert(w.slots[i] == next.slots[i]);
            assert(retained(next.slots[i]) ==> next.slots[i] == v.slots[i]);
        }
    }
}

/// A reset that nobody holds up finishes. Afterwards the region is sound and
/// offline in the next generation; a slot that had an owner is as it was; and
/// every other slot is free, with exactly one token on the new free stack.
pub proof fn law_reset_frees_all_but_owned(v: RegionState, table: LivenessTable)
    requires
        sound(v),
        v.meta.generation < REGION_META_MAX_GENERATION,
        v.freelist_epoch < SLOT_META_MAX_LEASE_EPOCH,
        forall|i: int|
            0 <= i < v.slots.len() && is_transitional((#[trigger] v.slots[i]).meta.state)
                ==> table.actor(v.slots[i].backend_pid) == Ok::<
                bool,
                super::error::ProbeFailure,
            >(false),
    ensures
        ({
            let (w, r) = v.reinit_begun().reinit_resumed(ReinitStage::Quiescing, table);
            &&& r == Ok::<ReinitStage, super::error::ReinitError>(ReinitStage::Finished)
            &&& sound(w)
            &&& w.meta.generation == v.meta.generation + 1
            &&& w.meta.worker_state == WORKER_STATE_OFFLINE
            &&& w.freelist_epoch == v.freelist_epoch + 1
            &&& w.next_lease_epoch == v.next_lease_epoch
            &&& w.key == v.key
            &&& w.layout == v.layout
            &&& w.slots.len() == v.slots.len()
            &&& forall|i: int|
                0 <= i < v.slots.len() && retained(v.slots[i]) ==> #[trigger] w.slots[i]
                    == v.slots[i]
            &&& forall|i: int|
                0 <= i < v.slots.len() && !retained(v.slots[i]) ==> (
                #[trigger] w.slots[i]).meta.published_in(w.freelist_epoch)
                    && w.freelist.contains(i as u32)
        }),
{
    let b = v.reinit_begun();
    assert forall|i: int| 0 <= i < b.slots.len() implies slot_sound(#[trigger] b.slots[i], b) by {
        assert(slot_sound(v.slots[i], v));
    }
    assert(core_sound(b));
    lemma_quiesce_dead(b, 0, no_pass(), table);
    law_quiesce_pass(b, 0, no_pass(), table);
    let (q, r) = b.quiesced_from(0, no_pass(), table);
    let n = q.stack_renewed();
    assert(core_sound(n)) by {
        assert forall|i: int| 0 <= i < n.slots.len() implies slot_sound(#[trigger] n.slots[i], n) by {
            assert(slot_sound(q.slots[i], q));
        }
    }
    assert(tokens_sound(n));
    assert(tokens_complete(n)) by {
        assert forall|i: int|
            0 <= i < n.slots.len() && has_token_state((#[trigger] n.slots[i]).meta.state)
                && n.slots[i].meta.epoch == n.freelist_epoch implies n.freelist.contains(
            i as u32,
        ) by {
            assert(slot_sound(q.slots[i], q));
        }
    }
    lemma_rebuilt(n, n.freelist_epoch, table);
    let (w, _) = n.rebuilt(n.freelist_epoch, table);
    assert forall|i: int| 0 <= i < v.slots.len() && !retained(v.slots[i]) implies (
    #[trigger] w.slots[i]).meta.published_in(w.freelist_epoch) && w.freelist.contains(
        i as u32,
    ) by {
        lemma_quiesce_slot(b, 0, no_pass(), table, i);
        assert(!retained(n.slots[i]));
        assert(w.slots[i].meta.published_in(n.freelist_epoch));
    }
}

/// A pass that waits for quiet does not make a slot owned.
proof fn lemma_quiesce_slot(
    v: RegionState,
    from: int,
    pass: ReinitPass,
    table: LivenessTable,
    i: int,
)
    requires
        0 <= from,
        0 <= i < v.slots.len(),
    ensures
        v.quiesced_from(from, pass, table).0.slots.len() == v.slots.len(),
        retained(v.quiesced_from(from, pass, table).0.slots[i]) ==> retained(v.slots[i]),
    decreases v.slots.len() - from,
{
    if from < v.slots.len() {
        let next = v.settled(from, table);
        let p = match settle_step(v.slots[from], table) {
            SettleStep::Live => ReinitPass { saw_live_transitional: true, ..pass },
            SettleStep::Emptied => ReinitPass { made_progress: true, ..pass },
            _ => pass,
        };
        lemma_quiesce_slot(next, from + 1, p, table, i);
    }
}

/// Where every process at work is dead, a pass that waits for quiet succeeds
/// and sees nobody.
proof fn lemma_quiesce_dead(
    v: RegionState,
    from: int,
    pass: ReinitPass,
    table: LivenessTable,
)
    requires
        0 <= from,
        forall|i: int|
            from <= i < v.slots.len() && is_transitional((#[trigger] v.slots[i]).meta.state)
                ==> table.actor(v.slots[i].backend_pid) == Ok::<
                bool,
                super::error::ProbeFailure,
            >(false),
    ensures
        v.quiesced_from(from, pass, table).1 matches Ok(p) && p.saw_live_transitional
            == pass.saw_live_transitional,
    decreases v.slots.len() - from,
{
    if from < v.slots.len() {
        let next = v.settled(from, table);
        let p = match settle_step(v.slots[from], table) {
            SettleStep::Emptied => ReinitPass { made_progress: true, ..pass },
            _ => pass,
        };
        assert forall|i: int|
            from + 1 <= i < next.slots.len() && is_transitional((
            #[trigger] next.slots[i]).meta.state) implies table.actor(next.slots[i].backend_pid)
            == Ok::<bool, super::error::ProbeFailure>(false) by {
            assert(next.slots[i] == v.slots[i]);
        }
        lemma_quiesce_dead(next, from + 1, p, table);
    }
}

} // verus!
