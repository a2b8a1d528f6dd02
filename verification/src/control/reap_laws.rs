//! Dead backends lose their leases, all of them at once, and nobody else does.

use super::error::{AcquireError, NotifyError, ProbeFailure};
use super::laws::{law_detach_keeps_sound, only_slot_changed, slot_sound, sound};
use super::meta::{
    backend_bit, lemma_owner_bits, LeaseIncarnation, LEASE_STATE_LEASED, OWNER_BACKEND,
    SLOT_META_MAX_LEASE_EPOCH,
};
use super::order_laws::{
    law_acquire_takes_top, law_stack_is_complete, lemma_reap_orderly, lemma_top_reserved, orderly,
};
use super::process::{alive, answer_in, signalled, KillAnswer, LivenessTable};
use super::region::{RegionState, SlotState};
use super::reset_laws::retained;
use vstd::prelude::*;

verus! {

/// A backend holds the slot under a lease of `generation`.
pub open spec fn held_in(slot: SlotState, generation: u64) -> bool {
    slot.meta.state == LEASE_STATE_LEASED && slot.generation == generation && backend_bit(
        slot.meta.owners,
    )
}

/// A backend that is known to be dead holds the slot under a lease of
/// `generation`.
pub open spec fn dead_in(slot: SlotState, generation: u64, table: LivenessTable) -> bool {
    held_in(slot, generation) && table.says(slot.backend_pid) == Ok::<bool, ProbeFailure>(false)
}

/// A backend of which nothing could be learned holds the slot under a lease of
/// `generation`.
pub open spec fn unsure_in(slot: SlotState, generation: u64, table: LivenessTable) -> bool {
    held_in(slot, generation) && table.says(slot.backend_pid) is Err
}

/// The backend is gone from the slot, and no other owner is. With nobody left the
/// slot is free; with a worker left it stays leased to that worker as it was.
pub open spec fn backend_gone(before: SlotState, after: SlotState) -> bool {
    &&& !backend_bit(after.meta.owners)
    &&& after.meta.owners == before.meta.owners - 1
    &&& after.meta.owners == 0 ==> after.meta.state != LEASE_STATE_LEASED && after.generation == 0
    &&& after.meta.owners != 0 ==> after == (SlotState {
        backend_pid: 0,
        meta: super::meta::SlotWord { owners: after.meta.owners, ..before.meta },
        ..before
    })
}

/// What reaping makes of one slot.
pub open spec fn reaped_slot(
    before: SlotState,
    after: SlotState,
    generation: u64,
    table: LivenessTable,
) -> bool {
    if dead_in(before, generation, table) {
        backend_gone(before, after)
    } else {
        after == before
    }
}

proof fn lemma_reaped_one(v: RegionState, i: int, table: LivenessTable, pid: i32)
    requires
        sound(v),
        0 <= i < v.slots.len(),
    ensures
        ({
            let (w, r) = v.reaped_one(i, table, pid);
            let slot = v.slots[i];
            let generation = v.meta.generation;
            &&& sound(w)
            &&& only_slot_changed(v, i, w)
            &&& reaped_slot(slot, w.slots[i], generation, table)
            &&& dead_in(slot, generation, table) ==> r == Ok::<bool, ProbeFailure>(true)
            &&& unsure_in(slot, generation, table) ==> r == Err::<bool, ProbeFailure>(
                table.says(slot.backend_pid)->Err_0,
            )
            &&& !dead_in(slot, generation, table) && !unsure_in(slot, generation, table) ==> r
                == Ok::<bool, ProbeFailure>(false)
            &&& !dead_in(slot, generation, table) ==> w == v
        }),
{
    let slot = v.slots[i];
    assert(slot.shaped(v.layout) && slot_sound(slot, v));
    let incarnation = LeaseIncarnation {
        generation: slot.generation,
        lease_epoch: slot.meta.epoch,
    };
    law_detach_keeps_sound(v, i as u32, incarnation, table, pid);
    lemma_owner_bits(slot.meta.owners);
    if dead_in(slot, v.meta.generation, table) {
        let (cleared, mutation) = v.owners_cleared(i, incarnation, OWNER_BACKEND);
        assert(mutation.changed && mutation.remaining_mask == slot.meta.owners - 1);
        let left = cleared.with_backend_pid(i, 0);
        if mutation.remaining_mask == 0 {
            lemma_emptied(left, i, pid);
            assert(v.backend_detached(i, incarnation, pid) == left.with_emptied(i).published(
                i,
                pid,
            ).0);
        }
    }
}

proof fn lemma_emptied(v: RegionState, i: int, pid: i32)
    requires
        0 <= i < v.slots.len(),
    ensures
        ({
            let w = v.with_emptied(i).published(i, pid).0;
            &&& w.slots[i].meta.owners == 0
            &&& w.slots[i].meta.state != LEASE_STATE_LEASED
            &&& w.slots[i].generation == 0
        }),
{
}

proof fn lemma_reaped_from(
    v: RegionState,
    from: int,
    any: bool,
    first: Option<(u32, ProbeFailure)>,
    table: LivenessTable,
    pid: i32,
)
    requires
        sound(v),
        0 <= from <= v.slots.len(),
    ensures
        ({
            let (w, reaped, failed) = v.reaped_from(from, any, first, table, pid);
            let generation = v.meta.generation;
            &&& sound(w)
            &&& w.same_frame(v)
            &&& forall|i: int| 0 <= i < from ==> #[trigger] w.slots[i] == v.slots[i]
            &&& forall|i: int|
                from <= i < v.slots.len() ==> reaped_slot(
                    v.slots[i],
                    #[trigger] w.slots[i],
                    generation,
                    table,
                )
            &&& reaped <==> any || exists|i: int|
                from <= i < v.slots.len() && dead_in(#[trigger] v.slots[i], generation, table)
            &&& first is Some ==> failed == first
            &&& first is None ==> match failed {
                Some((id, failure)) => {
                    &&& from <= id < v.slots.len()
                    &&& unsure_in(v.slots[id as int], generation, table)
                    &&& table.says(v.slots[id as int].backend_pid) == Err::<bool, ProbeFailure>(
                        failure,
                    )
                    &&& forall|j: int|
                        from <= j < id ==> !unsure_in(#[trigger] v.slots[j], generation, table)
                },
                None => forall|j: int|
                    from <= j < v.slots.len() ==> !unsure_in(
                        #[trigger] v.slots[j],
                        generation,
                        table,
                    ),
            }
        }),
    decreases v.slots.len() - from,
{
    if from < v.slots.len() {
        assert(v.slots.len() <= u32::MAX);
        lemma_reaped_one(v, from, table, pid);
        let (next, r) = v.reaped_one(from, table, pid);
        let generation = v.meta.generation;
        let now_failed = match r {
            Err(failure) => if first is None {
                Some((from as u32, failure))
            } else {
                first
            },
            Ok(_) => first,
        };
        let now_any = any || r == Ok::<bool, ProbeFailure>(true);
        lemma_reaped_from(next, from + 1, now_any, now_failed, table, pid);
        let (w, reaped, failed) = v.reaped_from(from, any, first, table, pid);
        assert(next.meta == v.meta);
        assert forall|i: int| from <= i < v.slots.len() implies reaped_slot(
            v.slots[i],
            #[trigger] w.slots[i],
            generation,
            table,
        ) by {
            if i > from {
                assert(next.slots[i] == v.slots[i]);
            }
        }
        assert(forall|i: int|
            from < i < v.slots.len() ==> #[trigger] next.slots[i] == v.slots[i]);
        assert(dead_in(v.slots[from], generation, table) <==> r == Ok::<bool, ProbeFailure>(true));
        assert(reaped <==> any || exists|i: int|
            from <= i < v.slots.len() && dead_in(#[trigger] v.slots[i], generation, table)) by {
            if exists|i: int|
                from < i < v.slots.len() && dead_in(
                    #[trigger] next.slots[i],
                    generation,
                    table,
                ) {
                let i = choose|i: int|
                    from < i < v.slots.len() && dead_in(
                        #[trigger] next.slots[i],
                        generation,
                        table,
                    );
                assert(dead_in(v.slots[i], generation, table));
            }
            if exists|i: int|
                from <= i < v.slots.len() && dead_in(#[trigger] v.slots[i], generation, table) {
                let i = choose|i: int|
                    from <= i < v.slots.len() && dead_in(#[trigger] v.slots[i], generation, table);
                if i > from {
                    assert(dead_in(next.slots[i], generation, table));
                }
            }
        }
        if first is None && failed is Some && !unsure_in(v.slots[from], generation, table) {
            let (id, failure) = failed->0;
            assert(next.slots[id as int] == v.slots[id as int]);
            assert forall|j: int| from <= j < id implies !unsure_in(
                #[trigger] v.slots[j],
                generation,
                table,
            ) by {
                if j > from {
                    assert(next.slots[j] == v.slots[j]);
                }
            }
        }
        if first is None && failed is None {
            assert forall|j: int| from <= j < v.slots.len() implies !unsure_in(
                #[trigger] v.slots[j],
                generation,
                table,
            ) by {
                if j > from {
                    assert(next.slots[j] == v.slots[j]);
                }
            }
        }
    }
}

/// Reaping takes the slot away from every dead backend of the current
/// generation, wherever the slot stands, and from nobody else. It says whether
/// there was any; where there was none, it names the first slot of whose backend
/// nothing could be learned, if there is one.
pub proof fn law_every_dead_backend_is_reaped(v: RegionState, table: LivenessTable, pid: i32)
    requires
        sound(v),
    ensures
        ({
            let (w, r) = v.dead_reaped(table, pid);
            let generation = v.meta.generation;
            let any_dead = exists|i: int|
                0 <= i < v.slots.len() && dead_in(#[trigger] v.slots[i], generation, table);
            let any_unsure = exists|i: int|
                0 <= i < v.slots.len() && unsure_in(#[trigger] v.slots[i], generation, table);
            &&& w.same_frame(v)
            &&& forall|i: int|
                0 <= i < v.slots.len() ==> !dead_in(#[trigger] w.slots[i], generation, table)
            &&& forall|i: int|
                0 <= i < v.slots.len() && !dead_in(v.slots[i], generation, table)
                    ==> #[trigger] w.slots[i] == v.slots[i]
            &&& forall|i: int|
                0 <= i < v.slots.len() && dead_in(v.slots[i], generation, table) ==> backend_gone(
                    v.slots[i],
                    #[trigger] w.slots[i],
                )
            &&& r == Ok::<bool, (u32, ProbeFailure)>(true) <==> any_dead
            &&& r == Ok::<bool, (u32, ProbeFailure)>(false) <==> !any_dead && !any_unsure
            &&& r is Err <==> !any_dead && any_unsure
            &&& r matches Err((id, failure)) ==> {
                &&& id < v.slots.len()
                &&& unsure_in(v.slots[id as int], generation, table)
                &&& table.says(v.slots[id as int].backend_pid) == Err::<bool, ProbeFailure>(failure)
                &&& forall|j: int|
                    0 <= j < id ==> !unsure_in(#[trigger] v.slots[j], generation, table)
            }
        }),
{
    let (w, r) = v.dead_reaped(table, pid);
    let generation = v.meta.generation;
    if generation == 0 {
        assert forall|i: int| 0 <= i < v.slots.len() implies !held_in(
            #[trigger] v.slots[i],
            generation,
        ) by {
            assert(slot_sound(v.slots[i], v));
        }
    } else {
        lemma_reaped_from(v, 0, false, None, table, pid);
        let (next, any, first) = v.reaped_from(0, false, None, table, pid);
        assert forall|i: int| 0 <= i < v.slots.len() implies !dead_in(
            #[trigger] w.slots[i],
            generation,
            table,
        ) by {
            assert(reaped_slot(v.slots[i], w.slots[i], generation, table));
        }
        if first is Some {
            let (id, failure) = first->0;
            assert(unsure_in(v.slots[id as int], generation, table));
        }
    }
}

/// Nobody but a dead backend holds the slot.
pub open spec fn abandoned_in(slot: SlotState, generation: u64, table: LivenessTable) -> bool {
    dead_in(slot, generation, table) && slot.meta.owners == 1
}

proof fn lemma_reaped_stack(v: RegionState, table: LivenessTable, pid: i32)
    requires
        orderly(v),
        v.freelist.len() == 0,
    ensures
        ({
            let w = v.dead_reaped(table, pid).0;
            &&& orderly(w)
            &&& w.same_frame(v)
            &&& w.freelist.len() > 0 <==> exists|i: int|
                0 <= i < v.slots.len() && abandoned_in(
                    #[trigger] v.slots[i],
                    v.meta.generation,
                    table,
                )
            &&& w.freelist.len() > 0 ==> {
                &&& w.freelist.last() < v.slots.len()
                &&& abandoned_in(v.slots[w.freelist.last() as int], v.meta.generation, table)
            }
        }),
{
    let w = v.dead_reaped(table, pid).0;
    let generation = v.meta.generation;
    law_every_dead_backend_is_reaped(v, table, pid);
    lemma_reap_orderly(v, 0, false, None, table, pid);
    law_stack_is_complete(v);
    law_stack_is_complete(w);
    if w.freelist.len() > 0 {
        let top = w.freelist.last();
        assert(w.freelist[w.freelist.len() - 1] == top);
        assert(w.freelist.contains(top));
        assert(w.has_slot(top));
        assert(v.has_slot(top));
        assert(!v.freelist.contains(top));
        assert(retained(v.slots[top as int]));
        assert(!retained(w.slots[top as int]));
        assert(w.slots[top as int] != v.slots[top as int]);
        assert(dead_in(v.slots[top as int], generation, table));
        assert(abandoned_in(v.slots[top as int], generation, table));
    }
    if exists|i: int|
        0 <= i < v.slots.len() && abandoned_in(#[trigger] v.slots[i], generation, table) {
        let i = choose|i: int|
            0 <= i < v.slots.len() && abandoned_in(#[trigger] v.slots[i], generation, table);
        assert(backend_gone(v.slots[i], w.slots[i]));
        assert(v.slots.len() <= u32::MAX);
        assert(w.has_slot(i as u32));
        assert(w.freelist.contains(i as u32));
    }
}

/// Where no slot is free, an acquisition reaps first. It then gets a slot that
/// only a dead backend held, whenever there is one; it is told that there is no
/// slot exactly if there is none and the reaping was not stopped by a backend of
/// which nothing could be learned; and in that case it is told of that backend.
pub proof fn law_acquire_takes_from_the_dead(v: RegionState, table: LivenessTable, pid: i32)
    requires
        orderly(v),
        v.meta.online(),
        v.next_lease_epoch < SLOT_META_MAX_LEASE_EPOCH,
        v.freelist.len() == 0,
    ensures
        ({
            let (w, r) = v.lease_acquired(table, pid);
            let generation = v.meta.generation;
            let any_dead = exists|i: int|
                0 <= i < v.slots.len() && dead_in(#[trigger] v.slots[i], generation, table);
            let any_unsure = exists|i: int|
                0 <= i < v.slots.len() && unsure_in(#[trigger] v.slots[i], generation, table);
            let any_abandoned = exists|i: int|
                0 <= i < v.slots.len() && abandoned_in(#[trigger] v.slots[i], generation, table);
            &&& r is Ok <==> any_abandoned
            &&& r == Err::<(u32, LeaseIncarnation), AcquireError>(AcquireError::Empty)
                <==> !any_abandoned && (any_dead || !any_unsure)
            &&& (r matches Err(AcquireError::BackendProbeFailed { .. })) <==> !any_dead
                && any_unsure
            &&& r matches Err(AcquireError::BackendProbeFailed {
                slot_id,
                error_kind,
                raw_os_error,
            }) ==> {
                &&& slot_id < v.slots.len()
                &&& table.says(v.slots[slot_id as int].backend_pid) == Err::<bool, ProbeFailure>(
                    ProbeFailure { error_kind, raw_os_error },
                )
            }
            &&& r matches Ok((id, incarnation)) ==> {
                &&& id < v.slots.len()
                &&& abandoned_in(v.slots[id as int], generation, table)
                &&& incarnation.generation == generation
                &&& incarnation.lease_epoch == v.next_lease_epoch
                &&& w.slots[id as int].leased_as(incarnation)
                &&& w.slots[id as int].backend_pid == pid
            }
        }),
{
    let (w, r) = v.dead_reaped(table, pid);
    law_every_dead_backend_is_reaped(v, table, pid);
    lemma_reaped_stack(v, table, pid);
    assert(v.token_taken(pid) == (v, None::<u32>));
    if r is Ok && w.freelist.len() > 0 {
        law_acquire_takes_top(w, table, pid);
        lemma_top_reserved(w, pid);
        assert(v.backend_slot_reserved(v.meta.generation, table, pid) == w.backend_slot_reserved(
            v.meta.generation,
            table,
            pid,
        ));
        assert(v.lease_acquired(table, pid) == w.lease_acquired(table, pid));
    } else if r is Ok {
        assert(w.token_taken(pid) == (w, None::<u32>));
    }
}

/// A process is taken for dead only where there is none: where its number is not
/// positive, or where the system knows no such process. A process that may not be
/// signalled is alive, and any other failure leaves the question open. A signal
/// that may not be sent, in contrast, is an error.
pub proof fn law_only_missing_processes_are_dead(pid: i32, answer: KillAnswer)
    ensures
        alive(pid, answer) == Ok::<bool, ProbeFailure>(false) <==> pid <= 0
            || answer is NoSuchProcess,
        alive(pid, answer) == Ok::<bool, ProbeFailure>(true) <==> pid > 0 && (answer is Delivered
            || answer is NotPermitted),
        alive(pid, answer) is Err <==> pid > 0 && answer is Failed,
        alive(pid, answer) matches Err(failure) ==> answer == KillAnswer::Failed(failure),
        signalled(pid, answer) == Ok::<bool, NotifyError>(true) <==> pid > 0
            && answer is Delivered,
        signalled(pid, answer) == Ok::<bool, NotifyError>(false) <==> pid <= 0
            || answer is NoSuchProcess,
        signalled(pid, answer) matches Err(e) ==> match answer {
            KillAnswer::NotPermitted(failure) => e == NotifyError::Signal(failure),
            KillAnswer::Failed(failure) => e == NotifyError::Signal(failure),
            _ => false,
        },
{
}

/// The first answer that a table holds for a process counts; a process of which it
/// holds none gets the answer for all others.
pub proof fn law_first_answer_counts(
    entries: Seq<(i32, KillAnswer)>,
    otherwise: KillAnswer,
    pid: i32,
    i: int,
)
    ensures
        (forall|j: int| 0 <= j < entries.len() ==> (#[trigger] entries[j]).0 != pid) ==> answer_in(
            entries,
            otherwise,
            pid,
        ) == otherwise,
        0 <= i < entries.len() && entries[i].0 == pid && (forall|j: int|
            0 <= j < i ==> (#[trigger] entries[j]).0 != pid) ==> answer_in(
            entries,
            otherwise,
            pid,
        ) == entries[i].1,
    decreases entries.len(),
{
    if entries.len() > 0 && entries[0].0 != pid {
        let rest = entries.drop_first();
        law_first_answer_counts(rest, otherwise, pid, i - 1);
        assert(forall|j: int| 0 <= j < rest.len() ==> #[trigger] rest[j] == entries[j + 1]);
    }
}

/// What a table says of a process is what the answer for it means; number zero,
/// which stands for nobody, is dead to a reset whatever the table says.
pub proof fn law_table_answers(table: LivenessTable, pid: i32)
    ensures
        table.says(pid) == alive(pid, answer_in(table.entries@, table.otherwise, pid)),
        table.actor(0) == Ok::<bool, ProbeFailure>(false),
        pid != 0 ==> table.actor(pid) == table.says(pid),
        pid <= 0 ==> table.says(pid) == Ok::<bool, ProbeFailure>(false),
{
}

} // verus!
