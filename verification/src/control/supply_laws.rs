//! How many leases a region has to give, and which slots they are for.

use super::error::{AcquireError, ProbeFailure, ReinitError};
use super::laws::{slot_sound, sound};
use super::meta::{
    backend_bit, leased_word, lemma_owner_bits, LeaseIncarnation, LEASE_STATE_LEASED,
    OWNER_BACKEND, REGION_META_MAX_GENERATION, SLOT_META_MAX_LEASE_EPOCH, WORKER_STATE_RESTARTING,
};
use super::order_laws::{
    in_place, law_acquire_takes_top, law_detach_keeps_order, law_generation_switch_keeps_order,
    law_stack_is_complete, lemma_new_word_orderly, lemma_reset_orderly, lemma_sweep_one_orderly,
    newly_leased, orderly, top_leased,
};
use super::process::LivenessTable;
use super::region::{RegionState, SlotState};
use super::reinit::{is_transitional, ReinitStage};
use super::reset_laws::{law_reset_frees_all_but_owned, retained};
use vstd::prelude::*;

verus! {

/// A backend that acquires: what it learns of other processes, and its own id.
pub struct Acquirer {
    pub table: LivenessTable,
    pub pid: i32,
}

/// The region after several backends acquired, one after the other.
pub open spec fn after_acquires(v: RegionState, callers: Seq<Acquirer>) -> RegionState
    decreases callers.len(),
{
    if callers.len() == 0 {
        v
    } else {
        after_acquires(v, callers.drop_last()).lease_acquired(
            callers.last().table,
            callers.last().pid,
        ).0
    }
}

/// What the `k`th of several acquisitions gives.
pub open spec fn acquire_outcome(v: RegionState, callers: Seq<Acquirer>, k: int) -> Result<
    (u32, LeaseIncarnation),
    AcquireError,
> {
    after_acquires(v, callers.take(k)).lease_acquired(callers[k].table, callers[k].pid).1
}

/// The slot on the `k`th place of the free stack, counted from the top.
pub open spec fn nth_free(v: RegionState, k: int) -> u32 {
    v.freelist[v.freelist.len() - 1 - k]
}

/// The incarnation of the `k`th next lease of the current generation.
pub open spec fn nth_lease(v: RegionState, k: int) -> LeaseIncarnation {
    LeaseIncarnation {
        generation: v.meta.generation,
        lease_epoch: (v.next_lease_epoch + k) as u64,
    }
}

/// The slots that somebody owns.
pub open spec fn owned_slots(v: RegionState) -> Set<int> {
    Set::new(|i: int| 0 <= i < v.slots.len() && retained(v.slots[i]))
}

/// Every slot is either owned or on the free stack, once.
pub proof fn law_free_and_owned_add_up(v: RegionState)
    requires
        orderly(v),
    ensures
        owned_slots(v).finite(),
        v.freelist.len() + owned_slots(v).len() == v.slots.len(),
{
    let n = v.slots.len() as int;
    let ids = v.freelist.map_values(|x: u32| x as int);
    let free = ids.to_set();
    let owned = owned_slots(v);
    let all = vstd::set_lib::set_int_range(0, n);
    law_stack_is_complete(v);
    vstd::set_lib::lemma_int_range(0, n);
    assert(ids.no_duplicates()) by {
        assert forall|i: int, j: int| 0 <= i < ids.len() && 0 <= j < ids.len() && i != j implies
            ids[i] != ids[j] by {
            assert(v.freelist[i] != v.freelist[j]);
        }
    }
    ids.unique_seq_to_set();
    assert(owned.subset_of(all));
    vstd::set_lib::lemma_len_subset(owned, all);
    assert forall|i: int| free.contains(i) <==> 0 <= i < n && !owned.contains(i) by {
        if free.contains(i) {
            let k = choose|k: int| 0 <= k < ids.len() && ids[k] == i;
            assert(v.freelist[k] < v.slots.len());
            assert(v.freelist.contains(v.freelist[k]));
        }
        if 0 <= i < n && !owned.contains(i) {
            assert(v.has_slot(i as u32));
            assert(v.freelist.contains(i as u32));
            let k = choose|k: int| 0 <= k < v.freelist.len() && v.freelist[k] == i as u32;
            assert(ids[k] == i);
        }
    }
    assert(free.subset_of(all));
    vstd::set_lib::lemma_len_subset(free, all);
    assert(free.disjoint(owned));
    assert(free + owned =~= all);
    vstd::set_lib::lemma_set_disjoint_lens(free, owned);
}

/// The slots of `w` are those of `v` after `callers` took as many from the top of
/// the free stack.
pub open spec fn served(v: RegionState, callers: Seq<Acquirer>, w: RegionState) -> bool {
    let n = callers.len() as int;
    &&& w.meta == v.meta
    &&& w.slots.len() == v.slots.len()
    &&& w.next_lease_epoch == v.next_lease_epoch + n
    &&& w.freelist == v.freelist.take(v.freelist.len() - n)
    &&& forall|k: int|
        0 <= k < n ==> v.has_slot(#[trigger] nth_free(v, k)) && w.slots[nth_free(v, k) as int]
            == newly_leased(v.slots[nth_free(v, k) as int], nth_lease(v, k), callers[k].pid)
    &&& forall|i: int|
        0 <= i < v.slots.len() && w.freelist.contains(i as u32) ==> #[trigger] w.slots[i]
            == v.slots[i]
    &&& forall|i: int|
        0 <= i < v.slots.len() && retained(v.slots[i]) ==> #[trigger] w.slots[i] == v.slots[i]
}

proof fn lemma_one_more_served(v: RegionState, callers: Seq<Acquirer>, u: RegionState)
    requires
        v.shaped(),
        v.freelist.no_duplicates(),
        forall|i: int|
            0 <= i < v.freelist.len() ==> !retained(v.slots[(#[trigger] v.freelist[i]) as int]),
        0 < callers.len() <= v.freelist.len(),
        v.next_lease_epoch + callers.len() <= SLOT_META_MAX_LEASE_EPOCH,
        served(v, callers.drop_last(), u),
    ensures
        served(v, callers, top_leased(u, callers.last().pid)),
        u.freelist.len() > 0,
        u.freelist.last() == nth_free(v, callers.len() - 1),
{
    let n = callers.len() as int;
    let size = v.freelist.len() as int;
    let before = callers.drop_last();
    let id = nth_free(v, n - 1);
    let w = top_leased(u, callers.last().pid);
    assert(v.freelist[size - n] < v.slots.len());
    assert(u.freelist.last() == id);
    assert(w.freelist =~= v.freelist.take(size - n));
    assert(u.freelist[u.freelist.len() - 1] == id);
    assert(u.freelist.contains(id));
    assert(u.slots[id as int] == v.slots[id as int]);
    assert forall|k: int| 0 <= k < n implies v.has_slot(#[trigger] nth_free(v, k)) && w.slots[
        nth_free(v, k) as int
    ] == newly_leased(v.slots[nth_free(v, k) as int], nth_lease(v, k), callers[k].pid) by {
        assert(v.freelist[size - 1 - k] < v.slots.len());
        if k < n - 1 {
            assert(v.freelist[size - 1 - k] != v.freelist[size - n]);
            assert(before[k] == callers[k]);
        }
    }
    assert forall|i: int| 0 <= i < v.slots.len() && w.freelist.contains(i as u32) implies
        #[trigger] w.slots[i] == v.slots[i] by {
        let k = choose|k: int| 0 <= k < w.freelist.len() && w.freelist[k] == i as u32;
        assert(v.freelist[k] == i as u32);
        assert(v.freelist[k] != v.freelist[size - n]);
        assert(u.freelist[k] == i as u32);
        assert(u.freelist.contains(i as u32));
        assert(u.slots[i] == v.slots[i]);
    }
    assert forall|i: int| 0 <= i < v.slots.len() && retained(v.slots[i]) implies
        #[trigger] w.slots[i] == v.slots[i] by {
        assert(!retained(v.slots[v.freelist[size - n] as int]));
        assert(u.slots[i] == v.slots[i]);
    }
}

/// Acquisitions are served from the free stack, from the top down, each under
/// the next lease epoch. Slots that were not taken stay as they were.
pub proof fn law_free_slots_are_leased_in_turn(v: RegionState, callers: Seq<Acquirer>)
    requires
        orderly(v),
        v.meta.online(),
        callers.len() <= v.freelist.len(),
        v.next_lease_epoch + callers.len() <= SLOT_META_MAX_LEASE_EPOCH,
    ensures
        orderly(after_acquires(v, callers)),
        served(v, callers, after_acquires(v, callers)),
        forall|k: int|
            0 <= k < callers.len() ==> acquire_outcome(v, callers, k) == Ok::<
                (u32, LeaseIncarnation),
                AcquireError,
            >((#[trigger] nth_free(v, k), nth_lease(v, k))),
    decreases callers.len(),
{
    let n = callers.len() as int;
    if n == 0 {
        assert(v.freelist.take(v.freelist.len() as int) =~= v.freelist);
    } else {
        let before = callers.drop_last();
        let u = after_acquires(v, before);
        law_free_slots_are_leased_in_turn(v, before);
        assert forall|i: int| 0 <= i < v.freelist.len() implies !retained(
            v.slots[(#[trigger] v.freelist[i]) as int],
        ) by {
            lemma_token_is_free(v, i);
        }
        lemma_one_more_served(v, callers, u);
        law_acquire_takes_top(u, callers.last().table, callers.last().pid);
        assert forall|k: int| 0 <= k < n implies acquire_outcome(v, callers, k) == Ok::<
            (u32, LeaseIncarnation),
            AcquireError,
        >((#[trigger] nth_free(v, k), nth_lease(v, k))) by {
            if k < n - 1 {
                assert(before.take(k) =~= callers.take(k));
                assert(before[k] == callers[k]);
            } else {
                assert(callers.take(k) =~= before);
            }
        }
    }
}

proof fn lemma_token_is_free(v: RegionState, i: int)
    requires
        orderly(v),
        0 <= i < v.freelist.len(),
    ensures
        !retained(v.slots[v.freelist[i] as int]),
{
    law_stack_is_complete(v);
    assert(v.freelist[i] < v.slots.len());
    assert(v.freelist.contains(v.freelist[i]));
}

/// As far as `table` knows, every backend that holds a lease of the current
/// generation is alive, but for the one of slot `but`.
pub open spec fn backends_alive(v: RegionState, table: LivenessTable, but: int) -> bool {
    forall|i: int|
        0 <= i < v.slots.len() && i != but && (#[trigger] v.slots[i]).meta.state
            == LEASE_STATE_LEASED && v.slots[i].generation == v.meta.generation && backend_bit(
            v.slots[i].meta.owners,
        ) ==> table.says(v.slots[i].backend_pid) == Ok::<bool, ProbeFailure>(true)
}

proof fn lemma_nobody_reaped(v: RegionState, from: int, table: LivenessTable, pid: i32, but: int)
    requires
        backends_alive(v, table, but),
        0 <= but < v.slots.len() ==> !backend_bit(v.slots[but].meta.owners),
        0 <= from,
    ensures
        v.reaped_from(from, false, None, table, pid) == (
            v,
            false,
            None::<(u32, ProbeFailure)>,
        ),
    decreases v.slots.len() - from,
{
    if from < v.slots.len() {
        assert(v.reaped_one(from, table, pid) == (v, Ok::<bool, ProbeFailure>(false)));
        lemma_nobody_reaped(v, from + 1, table, pid, but);
    }
}

/// Where the free stack is empty and nobody is dead, an acquisition is told so
/// and changes nothing.
pub proof fn law_empty_stack_gives_nothing(
    v: RegionState,
    table: LivenessTable,
    pid: i32,
    but: int,
)
    requires
        v.meta.online(),
        v.freelist.len() == 0,
        backends_alive(v, table, but),
        0 <= but < v.slots.len() ==> !backend_bit(v.slots[but].meta.owners),
    ensures
        v.lease_acquired(table, pid) == (
            v,
            Err::<(u32, LeaseIncarnation), AcquireError>(AcquireError::Empty),
        ),
{
    assert(v.token_taken(pid) == (v, None::<u32>));
    lemma_nobody_reaped(v, 0, table, pid, but);
}

/// A region with `n` free slots serves exactly `n` acquisitions, with `n`
/// different slots, all of the current generation. The next one is told that
/// there is no slot, and changes nothing, as long as the backends are alive.
pub proof fn law_free_slots_serve_as_many(
    v: RegionState,
    callers: Seq<Acquirer>,
    next: Acquirer,
)
    requires
        orderly(v),
        v.meta.online(),
        callers.len() == v.freelist.len(),
        v.next_lease_epoch + callers.len() <= SLOT_META_MAX_LEASE_EPOCH,
        backends_alive(v, next.table, -1),
        forall|k: int|
            0 <= k < callers.len() ==> next.table.says((#[trigger] callers[k]).pid) == Ok::<
                bool,
                ProbeFailure,
            >(true),
    ensures
        forall|k: int|
            0 <= k < callers.len() ==> #[trigger] acquire_outcome(v, callers, k) == Ok::<
                (u32, LeaseIncarnation),
                AcquireError,
            >((nth_free(v, k), nth_lease(v, k))),
        forall|j: int, k: int|
            0 <= j < k < callers.len() ==> #[trigger] nth_free(v, j) != #[trigger] nth_free(v, k),
        after_acquires(v, callers).lease_acquired(next.table, next.pid) == (
            after_acquires(v, callers),
            Err::<(u32, LeaseIncarnation), AcquireError>(AcquireError::Empty),
        ),
{
    law_free_slots_are_leased_in_turn(v, callers);
    law_stack_is_complete(v);
    let w = after_acquires(v, callers);
    let size = v.freelist.len() as int;
    assert forall|k: int| 0 <= k < callers.len() implies #[trigger] acquire_outcome(v, callers, k)
        == Ok::<(u32, LeaseIncarnation), AcquireError>((nth_free(v, k), nth_lease(v, k))) by {
        assert(v.has_slot(nth_free(v, k)));
    }
    assert forall|j: int, k: int| 0 <= j < k < callers.len() implies #[trigger] nth_free(v, j)
        != #[trigger] nth_free(v, k) by {
        assert(v.freelist[size - 1 - j] != v.freelist[size - 1 - k]);
    }
    assert(backends_alive(w, next.table, -1)) by {
        assert forall|i: int|
            0 <= i < w.slots.len() && (#[trigger] w.slots[i]).meta.state == LEASE_STATE_LEASED
                && w.slots[i].generation == w.meta.generation && backend_bit(
                w.slots[i].meta.owners,
            ) implies next.table.says(w.slots[i].backend_pid) == Ok::<bool, ProbeFailure>(true) by {
            if retained(v.slots[i]) {
                assert(w.slots[i] == v.slots[i]);
            } else {
                assert(v.has_slot(i as u32) && v.freelist.contains(i as u32));
                let at = choose|at: int| 0 <= at < size && v.freelist[at] == i as u32;
                let k = size - 1 - at;
                assert(nth_free(v, k) == i as u32);
                assert(callers[k].pid == w.slots[i].backend_pid);
            }
        }
    }
    assert(w.freelist.len() == 0);
    law_empty_stack_gives_nothing(w, next.table, next.pid, -1);
}

/// Where nobody owns a slot, as many acquisitions as there are slots are served,
/// and every slot is leased by one of them.
pub proof fn law_every_slot_is_served(v: RegionState, callers: Seq<Acquirer>, id: u32)
    requires
        orderly(v),
        v.meta.online(),
        forall|i: int| 0 <= i < v.slots.len() ==> !retained(#[trigger] v.slots[i]),
        callers.len() == v.slots.len(),
        v.next_lease_epoch + callers.len() <= SLOT_META_MAX_LEASE_EPOCH,
        v.has_slot(id),
    ensures
        v.freelist.len() == v.slots.len(),
        exists|k: int|
            0 <= k < callers.len() && #[trigger] acquire_outcome(v, callers, k) == Ok::<
                (u32, LeaseIncarnation),
                AcquireError,
            >((id, nth_lease(v, k))),
{
    law_free_and_owned_add_up(v);
    assert(owned_slots(v) =~= Set::<int>::empty());
    law_stack_is_complete(v);
    law_free_slots_are_leased_in_turn(v, callers);
    assert(v.freelist.contains(id));
    let size = v.freelist.len() as int;
    let at = choose|at: int| 0 <= at < size && v.freelist[at] == id;
    let k = size - 1 - at;
    assert(nth_free(v, k) == id);
    assert(acquire_outcome(v, callers, k) == Ok::<(u32, LeaseIncarnation), AcquireError>(
        (id, nth_lease(v, k)),
    ));
}

/// A slot that its backend lets go of, and that no worker holds, is the one
/// that is leased next.
pub proof fn law_released_slot_is_leased_next(
    v: RegionState,
    id: u32,
    incarnation: LeaseIncarnation,
    pid: i32,
    next: Acquirer,
)
    requires
        orderly(v),
        v.meta.online(),
        v.next_lease_epoch < SLOT_META_MAX_LEASE_EPOCH,
        v.has_slot(id),
        v.slots[id as int].leased_as(incarnation),
        v.slots[id as int].meta.owners == OWNER_BACKEND,
    ensures
        ({
            let w = v.backend_released(id as int, incarnation, pid);
            &&& orderly(w)
            &&& w.freelist == v.freelist.push(id)
            &&& w.lease_acquired(next.table, next.pid).1 == Ok::<
                (u32, LeaseIncarnation),
                AcquireError,
            >((id, nth_lease(v, 0)))
        }),
{
    law_detach_keeps_order(v, id, incarnation, next.table, pid);
    super::laws::law_release_waits_for_both(v, id, incarnation, pid);
    super::laws::law_detach_keeps_sound(v, id, incarnation, next.table, pid);
    let w = v.backend_released(id as int, incarnation, pid);
    assert(w.freelist.last() == id);
    law_acquire_takes_top(w, next.table, next.pid);
}

/// A backend still holds the slot, as far as `table` knows.
pub open spec fn kept_by_backend(slot: SlotState, table: LivenessTable) -> bool {
    retained(slot) && backend_bit(slot.meta.owners) && table.says(slot.backend_pid) != Ok::<
        bool,
        ProbeFailure,
    >(false)
}

/// What a switch to a new generation leaves of a slot that its backend keeps.
pub open spec fn left_to_backend(slot: SlotState) -> SlotState {
    SlotState { meta: leased_word(slot.meta.epoch, OWNER_BACKEND), ..slot }
}

proof fn lemma_swept_slot(
    v: RegionState,
    id: u32,
    generation: u64,
    table: LivenessTable,
    pid: i32,
)
    requires
        orderly(v),
        v.has_slot(id),
        v.slots[id as int].meta.state == LEASE_STATE_LEASED ==> v.slots[id as int].generation
            < generation,
    ensures
        ({
            let slot = v.slots[id as int];
            let after = v.swept_one(id as int, generation, table, pid).slots[id as int];
            &&& kept_by_backend(slot, table) ==> after == left_to_backend(slot)
            &&& !kept_by_backend(slot, table) ==> !retained(after)
        }),
{
    let slot = v.slots[id as int];
    assert(slot.shaped(v.layout) && slot_sound(slot, v));
    assert(in_place(v, slot, id as int));
    lemma_owner_bits(slot.meta.owners);
    let incarnation = LeaseIncarnation {
        generation: slot.generation,
        lease_epoch: slot.meta.epoch,
    };
    if retained(slot) {
        assert(slot.leased_as(incarnation));
        let next = if backend_bit(slot.meta.owners) {
            v.reaped(id as int, incarnation, table, pid).0
        } else {
            v
        };
        let owners = next.slots[id as int].meta.owners;
        if kept_by_backend(slot, table) {
            assert(next == v);
            assert(left_to_backend(slot).meta.owners == owners % 2);
        } else {
            if backend_bit(slot.meta.owners) {
                lemma_owner_bits((slot.meta.owners - 1) as u32);
            }
        }
    }
}

proof fn lemma_swept_slots(
    v: RegionState,
    from: int,
    generation: u64,
    table: LivenessTable,
    pid: i32,
)
    requires
        orderly(v),
        0 <= from,
        forall|i: int|
            from <= i < v.slots.len() && (#[trigger] v.slots[i]).meta.state == LEASE_STATE_LEASED
                ==> v.slots[i].generation < generation,
    ensures
        ({
            let w = v.swept_from(from, generation, table, pid);
            &&& orderly(w)
            &&& w.same_frame(v)
            &&& forall|i: int| 0 <= i < from && i < v.slots.len() ==> #[trigger] w.slots[i]
                == v.slots[i]
            &&& forall|i: int|
                from <= i < v.slots.len() ==> if kept_by_backend(v.slots[i], table) {
                    #[trigger] w.slots[i] == left_to_backend(v.slots[i])
                } else {
                    !retained(w.slots[i])
                }
        }),
    decreases v.slots.len() - from,
{
    if from < v.slots.len() {
        lemma_sweep_one_orderly(v, from as u32, generation, table, pid);
        lemma_swept_slot(v, from as u32, generation, table, pid);
        let next = v.swept_one(from, generation, table, pid);
        assert forall|i: int|
            from + 1 <= i < next.slots.len() && (#[trigger] next.slots[i]).meta.state
                == LEASE_STATE_LEASED implies next.slots[i].generation < generation by {
            assert(next.slots[i] == v.slots[i]);
        }
        lemma_swept_slots(next, from + 1, generation, table, pid);
        let w = v.swept_from(from, generation, table, pid);
        assert(w.slots[from] == next.slots[from]);
        assert forall|i: int| 0 <= i < from && i < v.slots.len() implies #[trigger] w.slots[i]
            == v.slots[i] by {
            assert(next.slots[i] == v.slots[i]);
        }
        assert forall|i: int| from <= i < v.slots.len() implies if kept_by_backend(
            v.slots[i],
            table,
        ) {
            #[trigger] w.slots[i] == left_to_backend(v.slots[i])
        } else {
            !retained(w.slots[i])
        } by {
            if i > from {
                assert(next.slots[i] == v.slots[i]);
            }
        }
    }
}

/// Putting a generation online leaves exactly those slots leased whose backends
/// are not known to be dead, each to its backend alone. Every other slot is on
/// the free stack.
pub proof fn law_activation_keeps_backends(
    v: RegionState,
    worker_pid: i32,
    table: LivenessTable,
    pid: i32,
)
    requires
        orderly(v),
        v.meta.generation < REGION_META_MAX_GENERATION,
    ensures
        ({
            let w = v.activated(worker_pid, table, pid);
            &&& orderly(w)
            &&& w.meta.online()
            &&& w.meta.generation == v.meta.generation + 1
            &&& w.next_lease_epoch == v.next_lease_epoch
            &&& w.slots.len() == v.slots.len()
            &&& forall|i: int|
                0 <= i < v.slots.len() ==> if kept_by_backend(v.slots[i], table) {
                    #[trigger] w.slots[i] == left_to_backend(v.slots[i])
                } else {
                    !retained(w.slots[i])
                }
        }),
{
    law_generation_switch_keeps_order(v, worker_pid, table, pid);
    super::laws::law_generation_change_keeps_sound(v, worker_pid, table, pid);
    let b = v.generation_begun(WORKER_STATE_RESTARTING);
    let generation = (v.meta.generation + 1) as u64;
    lemma_new_word_orderly(v, b);
    assert forall|i: int|
        0 <= i < b.slots.len() && (#[trigger] b.slots[i]).meta.state
            == LEASE_STATE_LEASED implies b.slots[i].generation < generation by {
        assert(slot_sound(v.slots[i], v));
    }
    lemma_swept_slots(b, 0, generation, table, pid);
}

/// A reset that nobody holds up, and the activation after it, leave exactly
/// those slots leased whose old backends still hold them. All others are free:
/// as many acquisitions succeed as there are such slots, none of them gets a
/// slot that an old backend holds, and the next one is told that there is no
/// slot. Once an old backend lets go, the next acquisition gets its slot.
pub proof fn law_reset_supply(
    v: RegionState,
    reset_table: LivenessTable,
    worker_pid: i32,
    table: LivenessTable,
    pid: i32,
    callers: Seq<Acquirer>,
    next: Acquirer,
)
    requires
        sound(v),
        v.meta.generation + 1 < REGION_META_MAX_GENERATION,
        v.freelist_epoch < SLOT_META_MAX_LEASE_EPOCH,
        forall|i: int|
            0 <= i < v.slots.len() && is_transitional((#[trigger] v.slots[i]).meta.state)
                ==> reset_table.actor(v.slots[i].backend_pid) == Ok::<bool, ProbeFailure>(false),
        ({
            let u = v.reinit_begun().reinit_resumed(
                ReinitStage::Quiescing,
                reset_table,
            ).0.activated(worker_pid, table, pid);
            callers.len() == u.freelist.len()
        }),
        v.next_lease_epoch + callers.len() < SLOT_META_MAX_LEASE_EPOCH,
        forall|k: int|
            0 <= k < callers.len() ==> next.table.says((#[trigger] callers[k]).pid) == Ok::<
                bool,
                ProbeFailure,
            >(true),
    ensures
        ({
            let (r, outcome) = v.reinit_begun().reinit_resumed(
                ReinitStage::Quiescing,
                reset_table,
            );
            let u = r.activated(worker_pid, table, pid);
            let x = after_acquires(u, callers);
            let held = Set::new(
                |i: int| 0 <= i < v.slots.len() && kept_by_backend(v.slots[i], table),
            );
            &&& outcome == Ok::<ReinitStage, ReinitError>(ReinitStage::Finished)
            &&& r.meta.generation == v.meta.generation + 1
            &&& !r.meta.online()
            &&& u.meta.online()
            &&& orderly(u)
            &&& owned_slots(u) == held
            &&& callers.len() + held.len() == v.slots.len()
            &&& forall|k: int|
                0 <= k < callers.len() ==> #[trigger] acquire_outcome(u, callers, k) == Ok::<
                    (u32, LeaseIncarnation),
                    AcquireError,
                >((nth_free(u, k), nth_lease(u, k))) && !held.contains(nth_free(u, k) as int)
            &&& forall|j: int, k: int|
                0 <= j < k < callers.len() ==> #[trigger] nth_free(u, j) != #[trigger] nth_free(
                    u,
                    k,
                )
            &&& x.lease_acquired(next.table, next.pid) == (
                x,
                Err::<(u32, LeaseIncarnation), AcquireError>(AcquireError::Empty),
            )
            &&& forall|id: u32|
                #![trigger held.contains(id as int)]
                held.contains(id as int) ==> x.backend_released(
                    id as int,
                    LeaseIncarnation {
                        generation: v.slots[id as int].generation,
                        lease_epoch: v.slots[id as int].meta.epoch,
                    },
                    pid,
                ).lease_acquired(next.table, next.pid).1 == Ok::<
                    (u32, LeaseIncarnation),
                    AcquireError,
                >((id, nth_lease(x, 0)))
        }),
{
    let r = v.reinit_begun().reinit_resumed(ReinitStage::Quiescing, reset_table).0;
    law_reset_frees_all_but_owned(v, reset_table);
    lemma_reset_orderly(v, r);
    law_activation_keeps_backends(r, worker_pid, table, pid);
    let u = r.activated(worker_pid, table, pid);
    let held = Set::new(|i: int| 0 <= i < v.slots.len() && kept_by_backend(v.slots[i], table));
    assert forall|i: int| owned_slots(u).contains(i) <==> held.contains(i) by {
        if 0 <= i < v.slots.len() {
            assert(retained(v.slots[i]) || !retained(v.slots[i]));
            assert(r.slots[i] == v.slots[i] || !retained(v.slots[i]));
            assert(in_place(r, r.slots[i], i));
            if kept_by_backend(r.slots[i], table) {
                assert(u.slots[i] == left_to_backend(r.slots[i]));
            }
            assert(kept_by_backend(r.slots[i], table) <==> kept_by_backend(v.slots[i], table));
            assert(kept_by_backend(r.slots[i], table) <==> retained(u.slots[i]));
        }
    }
    assert(owned_slots(u) =~= held);
    law_free_and_owned_add_up(u);
    assert(backends_alive(u, next.table, -1)) by {
        assert forall|i: int|
            0 <= i < u.slots.len() && (#[trigger] u.slots[i]).meta.state == LEASE_STATE_LEASED
                && u.slots[i].generation == u.meta.generation && backend_bit(
                u.slots[i].meta.owners,
            ) implies next.table.says(u.slots[i].backend_pid) == Ok::<bool, ProbeFailure>(true) by {
            assert(in_place(u, u.slots[i], i));
            assert(slot_sound(r.slots[i], r));
            assert(u.slots[i] == left_to_backend(r.slots[i]));
        }
    }
    law_free_slots_serve_as_many(u, callers, next);
    law_stack_is_complete(u);
    law_free_slots_are_leased_in_turn(u, callers);
    assert forall|k: int| 0 <= k < callers.len() implies #[trigger] acquire_outcome(u, callers, k)
        == Ok::<(u32, LeaseIncarnation), AcquireError>((nth_free(u, k), nth_lease(u, k)))
        && !held.contains(nth_free(u, k) as int) by {
        let id = nth_free(u, k);
        assert(u.has_slot(id));
        assert(u.freelist.contains(u.freelist[u.freelist.len() - 1 - k]));
        assert(!owned_slots(u).contains(id as int));
    }
    let x = after_acquires(u, callers);
    assert forall|id: u32|
        #![trigger held.contains(id as int)]
        held.contains(id as int) implies x.backend_released(
        id as int,
        LeaseIncarnation {
            generation: v.slots[id as int].generation,
            lease_epoch: v.slots[id as int].meta.epoch,
        },
        pid,
    ).lease_acquired(next.table, next.pid).1 == Ok::<(u32, LeaseIncarnation), AcquireError>(
        (id, nth_lease(x, 0)),
    ) by {
        let incarnation = LeaseIncarnation {
            generation: v.slots[id as int].generation,
            lease_epoch: v.slots[id as int].meta.epoch,
        };
        assert(owned_slots(u).contains(id as int));
        assert(r.slots[id as int] == v.slots[id as int]);
        assert(u.slots[id as int] == left_to_backend(v.slots[id as int]));
        assert(x.slots[id as int] == u.slots[id as int]);
        law_released_slot_is_leased_next(x, id, incarnation, pid, next);
    }
}

} // verus!
