//! What allocation, lookup and release do to a pool, slot by slot.
//!
//! These laws speak of the fields of slots: which slot an allocation takes, which
//! slots a lookup finds for a scan, and what is left of a slot that is let go.

use super::bloom::{positions, BloomParams};
use super::lifecycle::{
    acquire_outcome, change_outcome, changed, decision, LifecycleError, LifecycleSnapshot,
    ProbeDecision, RuntimeFilterState, SlotContent, MAX_GENERATION,
};
use super::pool::{
    built, first_free, found, key_type_number, key_type_of, looked_up, with_hash, PoolSlotContent,
    RuntimeFilterKeyType, RuntimeFilterPoolAttachError, RuntimeFilterProbeHandle,
    RuntimeFilterTarget, SLOT_ALLOCATED, SLOT_FREE, SLOT_RETIRING,
};
use vstd::prelude::*;

verus! {

proof fn lemma_first_free_from(slots: Seq<PoolSlotContent>, i: int)
    requires
        0 <= i,
    ensures
        match first_free(slots, i) {
            Some(j) => i <= j < slots.len() && slots[j].state == SLOT_FREE && forall|k: int|
                i <= k < j ==> (#[trigger] slots[k]).state != SLOT_FREE,
            None => forall|k: int|
                i <= k < slots.len() ==> (#[trigger] slots[k]).state != SLOT_FREE,
        },
    decreases slots.len() - i,
{
    if i < slots.len() {
        lemma_first_free_from(slots, i + 1);
    }
}

/// The search for a free slot finds the free slot with the least index, and
/// finds nothing only where every slot of the pool is taken.
pub proof fn law_search_misses_no_free_slot(slots: Seq<PoolSlotContent>)
    ensures
        first_free(slots, 0) is None <==> forall|k: int|
            0 <= k < slots.len() ==> (#[trigger] slots[k]).state != SLOT_FREE,
        first_free(slots, 0) matches Some(j) ==> {
            &&& 0 <= j < slots.len()
            &&& slots[j].state == SLOT_FREE
            &&& forall|k: int| 0 <= k < j ==> (#[trigger] slots[k]).state != SLOT_FREE
        },
        forall|j: int|
            0 <= j < slots.len() && (#[trigger] slots[j]).state == SLOT_FREE && (forall|k: int|
                0 <= k < j ==> (#[trigger] slots[k]).state != SLOT_FREE) ==> first_free(slots, 0)
                == Some(j),
{
    lemma_first_free_from(slots, 0);
    assert forall|j: int|
        0 <= j < slots.len() && (#[trigger] slots[j]).state == SLOT_FREE && (forall|k: int|
            0 <= k < j ==> (#[trigger] slots[k]).state != SLOT_FREE) implies first_free(slots, 0)
        == Some(j) by {
        let least = first_free(slots, 0)->0;
        assert(slots[least].state == SLOT_FREE);
    }
}

proof fn lemma_one_slot_less(slots: Seq<PoolSlotContent>, taken: PoolSlotContent, i: int)
    requires
        first_free(slots, 0) == Some(i),
        taken.state != SLOT_FREE,
    ensures
        0 <= i < slots.len(),
        first_free(slots.update(i, taken), 0) is Some <==> exists|k: int|
            0 <= k < slots.len() && k != i && (#[trigger] slots[k]).state == SLOT_FREE,
        first_free(slots.update(i, taken), 0) matches Some(j) ==> j > i,
{
    let after = slots.update(i, taken);
    lemma_first_free_from(slots, 0);
    lemma_first_free_from(after, 0);
    if first_free(after, 0) is Some {
        let j = first_free(after, 0)->0;
        assert(after[j].state == SLOT_FREE);
        assert(j != i);
        assert(slots[j].state == SLOT_FREE);
    } else if exists|k: int| 0 <= k < slots.len() && k != i && (
    #[trigger] slots[k]).state == SLOT_FREE {
        let k = choose|k: int|
            0 <= k < slots.len() && k != i && (#[trigger] slots[k]).state == SLOT_FREE;
        assert(after[k].state == SLOT_FREE);
    }
}

/// An allocation takes one slot that was free and leaves every other slot as it
/// is. The next one is served exactly if another slot was free.
pub proof fn law_allocation_takes_one_free_slot(
    slots: Seq<PoolSlotContent>,
    target: RuntimeFilterTarget,
    other: int,
)
    requires
        first_free(slots, 0) is Some,
        acquire_outcome(slots[first_free(slots, 0)->0].filter.lifecycle) is Ok,
        0 <= other < slots.len(),
    ensures
        ({
            let i = first_free(slots, 0)->0;
            let after = slots.update(i, slots[i].allocated(target));
            &&& after[i].state != SLOT_FREE
            &&& other != i ==> after[other] == slots[other]
            &&& (first_free(after, 0) is Some <==> exists|k: int|
                0 <= k < slots.len() && k != i && (#[trigger] slots[k]).state == SLOT_FREE)
            &&& first_free(after, 0) matches Some(j) ==> j > i
        }),
{
    law_search_misses_no_free_slot(slots);
    let i = first_free(slots, 0)->0;
    lemma_one_slot_less(slots, slots[i].allocated(target), i);
}

/// A slot that is allocated for a target carries exactly that target, has one
/// reference and an empty filter of a new generation that is building. A slot
/// whose generations are used up stays free, with its filter as it was.
pub proof fn law_allocated_slot_carries_target(slot: PoolSlotContent, target: RuntimeFilterTarget)
    requires
        slot.state == SLOT_FREE,
        slot.filter.lifecycle.state == RuntimeFilterState::Free || slot.filter.lifecycle.state
            == RuntimeFilterState::Disabled,
    ensures
        ({
            let after = slot.allocated(target);
            let generation = slot.filter.lifecycle.generation;
            &&& generation < MAX_GENERATION ==> {
                &&& after.state == SLOT_ALLOCATED
                &&& after.refs == 1
                &&& after.session_epoch == target.session_epoch
                &&& after.scan_id == target.scan_id
                &&& after.output_column == target.output_column
                &&& key_type_of(after.key_type) == Some(target.key_type)
                &&& after.generation == generation + 1
                &&& after.filter.lifecycle.generation == generation + 1
                &&& after.filter.lifecycle.state == RuntimeFilterState::Building
                &&& forall|b: int| !after.filter.bits.contains(b)
            }
            &&& generation >= MAX_GENERATION ==> {
                &&& after.state == SLOT_FREE
                &&& after.refs == 0
                &&& after.filter == slot.filter
            }
        }),
{
}

/// Key types and the numbers that stand for them: different key types have
/// different numbers, each from one to nine, and no other number stands for any.
pub proof fn law_key_type_numbers_are_apart(
    a: RuntimeFilterKeyType,
    b: RuntimeFilterKeyType,
    number: u32,
)
    ensures
        key_type_number(a) == key_type_number(b) <==> a == b,
        1 <= key_type_number(a) <= 9,
        key_type_of(number) == Some(a) <==> number == key_type_number(a),
        key_type_of(number) is Some <==> 1 <= number <= 9,
{
}

/// The slot is allocated to this scan of this session, for a known key type.
pub open spec fn allocated_to(slot: PoolSlotContent, session_epoch: u64, scan_id: u64) -> bool {
    slot.state == SLOT_ALLOCATED && slot.session_epoch == session_epoch && slot.scan_id == scan_id
        && 1 <= slot.key_type <= 9
}

/// The handle is one for its slot, among the first `n`, and the slot is the scan's.
pub open spec fn handle_fits(
    handle: RuntimeFilterProbeHandle,
    slots: Seq<PoolSlotContent>,
    session_epoch: u64,
    scan_id: u64,
    n: int,
) -> bool {
    let slot = slots[handle.slot_index as int];
    &&& handle.slot_index < n
    &&& allocated_to(slot, session_epoch, scan_id)
    &&& handle.generation == slot.generation
    &&& handle.output_column == slot.output_column
    &&& key_type_number(handle.key_type) == slot.key_type
    &&& !handle.released
}

proof fn lemma_serves(slots: Seq<PoolSlotContent>, session_epoch: u64, scan_id: u64, i: int)
    requires
        0 <= i < slots.len() <= u32::MAX,
    ensures
        slots[i].serves(session_epoch, scan_id) <==> allocated_to(
            slots[i],
            session_epoch,
            scan_id,
        ),
        slots[i].serves(session_epoch, scan_id) ==> handle_fits(
            slots[i].probe_handle(i as u32),
            slots,
            session_epoch,
            scan_id,
            i + 1,
        ),
        slots[i].probe_handle(i as u32).slot_index == i,
{
}

proof fn lemma_found_fit(slots: Seq<PoolSlotContent>, session_epoch: u64, scan_id: u64, n: int)
    requires
        0 <= n <= slots.len() <= u32::MAX,
    ensures
        forall|k: int|
            0 <= k < found(slots, session_epoch, scan_id, n).len() ==> handle_fits(
                #[trigger] found(slots, session_epoch, scan_id, n)[k],
                slots,
                session_epoch,
                scan_id,
                n,
            ),
        forall|j: int, k: int|
            0 <= j < k < found(slots, session_epoch, scan_id, n).len() ==> (
            #[trigger] found(slots, session_epoch, scan_id, n)[j]).slot_index < (
            #[trigger] found(slots, session_epoch, scan_id, n)[k]).slot_index,
    decreases n,
{
    if n > 0 {
        lemma_found_fit(slots, session_epoch, scan_id, n - 1);
        lemma_serves(slots, session_epoch, scan_id, n - 1);
        let before = found(slots, session_epoch, scan_id, n - 1);
        let handles = found(slots, session_epoch, scan_id, n);
        assert forall|k: int| 0 <= k < handles.len() implies handle_fits(
            #[trigger] handles[k],
            slots,
            session_epoch,
            scan_id,
            n,
        ) by {
            if k < before.len() {
                assert(handles[k] == before[k]);
            }
        }
        assert forall|j: int, k: int| 0 <= j < k < handles.len() implies (
        #[trigger] handles[j]).slot_index < (#[trigger] handles[k]).slot_index by {
            assert(handles[j] == before[j]);
            if k < before.len() {
                assert(handles[k] == before[k]);
            }
        }
    }
}

proof fn lemma_found_all(
    slots: Seq<PoolSlotContent>,
    session_epoch: u64,
    scan_id: u64,
    n: int,
    i: int,
)
    requires
        0 <= i < n <= slots.len() <= u32::MAX,
        allocated_to(slots[i], session_epoch, scan_id),
    ensures
        exists|k: int|
            0 <= k < found(slots, session_epoch, scan_id, n).len() && (
            #[trigger] found(slots, session_epoch, scan_id, n)[k]).slot_index == i,
    decreases n,
{
    let before = found(slots, session_epoch, scan_id, n - 1);
    let handles = found(slots, session_epoch, scan_id, n);
    if i == n - 1 {
        lemma_serves(slots, session_epoch, scan_id, i);
        assert(handles[before.len() as int].slot_index == i);
    } else {
        lemma_found_all(slots, session_epoch, scan_id, n - 1, i);
        let k = choose|k: int| 0 <= k < before.len() && (#[trigger] before[k]).slot_index == i;
        assert(handles[k] == before[k]);
    }
}

/// A lookup finds every slot that is allocated to the scan, each once and in slot
/// order, and no other slot. A handle names the column and the key type that the
/// slot was allocated for, and the generation that it has.
pub proof fn law_lookup_finds_exactly_the_scan(
    slots: Seq<PoolSlotContent>,
    session_epoch: u64,
    scan_id: u64,
)
    requires
        slots.len() <= u32::MAX,
    ensures
        ({
            let handles = found(slots, session_epoch, scan_id, slots.len() as int);
            &&& forall|k: int|
                0 <= k < handles.len() ==> handle_fits(
                    #[trigger] handles[k],
                    slots,
                    session_epoch,
                    scan_id,
                    slots.len() as int,
                )
            &&& forall|j: int, k: int|
                0 <= j < k < handles.len() ==> (#[trigger] handles[j]).slot_index < (
                #[trigger] handles[k]).slot_index
            &&& forall|i: int|
                0 <= i < slots.len() && allocated_to(#[trigger] slots[i], session_epoch, scan_id)
                    ==> exists|k: int|
                    0 <= k < handles.len() && (#[trigger] handles[k]).slot_index == i
        }),
{
    let n = slots.len() as int;
    lemma_found_fit(slots, session_epoch, scan_id, n);
    assert forall|i: int|
        0 <= i < slots.len() && allocated_to(
            #[trigger] slots[i],
            session_epoch,
            scan_id,
        ) implies exists|k: int|
        0 <= k < found(slots, session_epoch, scan_id, n).len() && (
        #[trigger] found(slots, session_epoch, scan_id, n)[k]).slot_index == i by {
        lemma_found_all(slots, session_epoch, scan_id, n, i);
    }
}

/// What a worker allocates for a target, the scan of that target finds: one of
/// the handles is for the slot, its column, its key type and its generation. A
/// scan that is not the target's finds nothing there.
pub proof fn law_allocated_filter_is_found(
    slots: Seq<PoolSlotContent>,
    i: int,
    target: RuntimeFilterTarget,
    session_epoch: u64,
    scan_id: u64,
)
    requires
        0 <= i < slots.len() <= u32::MAX,
        slots[i].state == SLOT_FREE,
        acquire_outcome(slots[i].filter.lifecycle) is Ok,
    ensures
        ({
            let after = slots.update(i, slots[i].allocated(target));
            let handles = found(after, session_epoch, scan_id, slots.len() as int);
            if session_epoch == target.session_epoch && scan_id == target.scan_id {
                exists|k: int|
                    0 <= k < handles.len() && (#[trigger] handles[k]).slot_index == i
                        && handles[k].output_column == target.output_column && handles[k].key_type
                        == target.key_type && handles[k].generation
                        == slots[i].filter.lifecycle.generation + 1
            } else {
                forall|k: int|
                    0 <= k < handles.len() ==> (#[trigger] handles[k]).slot_index != i
            }
        }),
{
    let after = slots.update(i, slots[i].allocated(target));
    let n = slots.len() as int;
    let handles = found(after, session_epoch, scan_id, n);
    assert(after[i] == slots[i].allocated(target));
    law_key_type_numbers_are_apart(target.key_type, target.key_type, after[i].key_type);
    lemma_found_fit(after, session_epoch, scan_id, n);
    if session_epoch == target.session_epoch && scan_id == target.scan_id {
        lemma_found_all(after, session_epoch, scan_id, n, i);
        let k = choose|k: int| 0 <= k < handles.len() && (#[trigger] handles[k]).slot_index == i;
        assert(handle_fits(handles[k], after, session_epoch, scan_id, n));
        law_key_type_numbers_are_apart(target.key_type, handles[k].key_type, after[i].key_type);
    } else {
        assert forall|k: int| 0 <= k < handles.len() implies (
        #[trigger] handles[k]).slot_index != i by {
            assert(handle_fits(handles[k], after, session_epoch, scan_id, n));
        }
    }
}

/// A lookup counts one reference for each slot that it hands out, and changes
/// nothing else of any slot.
pub proof fn law_lookup_counts_what_it_hands_out(
    slots: Seq<PoolSlotContent>,
    session_epoch: u64,
    scan_id: u64,
    i: int,
)
    requires
        0 <= i < slots.len() <= u32::MAX,
        slots[i].refs < u32::MAX,
    ensures
        ({
            let after = looked_up(slots, session_epoch, scan_id, slots.len() as int);
            let handed = allocated_to(slots[i], session_epoch, scan_id);
            &&& after.len() == slots.len()
            &&& after[i].refs == slots[i].refs + if handed {
                1int
            } else {
                0int
            }
            &&& after[i] == (PoolSlotContent { refs: after[i].refs, ..slots[i] })
        }),
{
}

/// Letting go of a slot gives one reference back. Nothing else of the slot
/// changes, unless it was the last reference to a slot that its owner gave up:
/// then the slot is free and names no scan, and its bits and its generation
/// count are left to the next builder.
pub proof fn law_release_gives_one_reference_back(slot: PoolSlotContent)
    requires
        slot.refs > 0,
        slot.state != SLOT_FREE,
        slot.generation == slot.filter.lifecycle.generation,
    ensures
        ({
            let after = slot.released();
            &&& after.refs == slot.refs - 1
            &&& after.filter.bits == slot.filter.bits
            &&& after.filter.lifecycle.generation == slot.filter.lifecycle.generation
            &&& !(slot.refs == 1 && slot.state == SLOT_RETIRING) ==> after == (PoolSlotContent {
                refs: after.refs,
                ..slot
            })
            &&& slot.refs == 1 && slot.state == SLOT_RETIRING ==> {
                &&& after.state == SLOT_FREE
                &&& after.session_epoch == 0
                &&& after.scan_id == 0
                &&& after.output_column == 0
                &&& after.key_type == 0
                &&& after.generation == 0
                &&& after.filter.lifecycle.state != RuntimeFilterState::Ready
                &&& after.filter.lifecycle.state != RuntimeFilterState::Building
                &&& slot.filter.lifecycle.state == RuntimeFilterState::Free
                    ==> after.filter.lifecycle.state == RuntimeFilterState::Free
                &&& slot.filter.lifecycle.state != RuntimeFilterState::Free
                    ==> after.filter.lifecycle.state == RuntimeFilterState::Disabled
            }
        }),
{
}

/// An owner that gives its slot up lets go of one reference, and no lookup finds
/// the slot from then on.
pub proof fn law_disowned_slot_is_not_found(
    slot: PoolSlotContent,
    session_epoch: u64,
    scan_id: u64,
)
    requires
        slot.refs > 0,
        slot.state == SLOT_ALLOCATED,
    ensures
        slot.disowned().refs == slot.refs - 1,
        slot.disowned().state == if slot.refs == 1 {
            SLOT_FREE
        } else {
            SLOT_RETIRING
        },
        !allocated_to(slot.disowned(), session_epoch, scan_id),
        !slot.disowned().serves(session_epoch, scan_id),
        slot.refs > 1 ==> slot.disowned().filter == slot.filter,
{
}

/// The states of the slots of a pool are three different numbers, and a slot
/// that was never used is free.
pub proof fn law_slot_states_are_apart()
    ensures
        SLOT_FREE != SLOT_ALLOCATED,
        SLOT_FREE != SLOT_RETIRING,
        SLOT_ALLOCATED != SLOT_RETIRING,
        super::pool::unused_slot().state == SLOT_FREE,
        super::pool::unused_slot().refs == 0,
        super::pool::unused_slot().filter.lifecycle.state == RuntimeFilterState::Free,
        super::pool::unused_slot().filter.lifecycle.generation == 0,
        forall|b: int| !super::pool::unused_slot().filter.bits.contains(b),
{
}

/// An inserted hash sets its bits in the generation that is building, and only
/// there: each of its bits is set afterwards, no other bit is, and a builder of
/// another generation, or one whose build has ended, changes nothing.
pub proof fn law_insertion_sets_the_bits_of_the_hash(
    slot: PoolSlotContent,
    params: BloomParams,
    generation: u64,
    hash: u64,
    bit: int,
)
    ensures
        ({
            let after = with_hash(slot, params, generation, hash);
            let building = slot.filter.lifecycle.generation == generation
                && slot.filter.lifecycle.state == RuntimeFilterState::Building;
            &&& after.filter.bits.contains(bit) <==> {
                ||| slot.filter.bits.contains(bit)
                ||| building && positions(params, hash).contains(bit)
            }
            &&& after.filter.lifecycle == slot.filter.lifecycle
            &&& after.state == slot.state
            &&& after.refs == slot.refs
            &&& after.session_epoch == slot.session_epoch
            &&& after.scan_id == slot.scan_id
            &&& after.output_column == slot.output_column
            &&& after.key_type == slot.key_type
            &&& after.generation == slot.generation
        }),
{
}

/// Ending a build succeeds exactly for the generation that is building. It moves
/// that generation to the state asked for and keeps its bits; every other slot,
/// and a slot for which it fails, stays as it is, and the error says what was
/// expected and what was there.
pub proof fn law_build_ends_once(
    before: Seq<PoolSlotContent>,
    after: Seq<PoolSlotContent>,
    i: int,
    generation: u64,
    to: RuntimeFilterState,
    r: Result<(), RuntimeFilterPoolAttachError>,
    other: int,
)
    requires
        0 <= i < before.len(),
        0 <= other < before.len(),
        built(before, after, i, generation, to, r),
    ensures
        r is Ok <==> before[i].filter.lifecycle.generation == generation
            && before[i].filter.lifecycle.state == RuntimeFilterState::Building,
        r is Ok ==> after[i].filter.lifecycle.generation == generation
            && after[i].filter.lifecycle.state == to,
        after[i].filter.bits == before[i].filter.bits,
        after[i].state == before[i].state,
        after[i].refs == before[i].refs,
        other != i ==> after[other] == before[other],
        r is Err ==> after == before,
        r matches Err(e) ==> e == RuntimeFilterPoolAttachError::Lifecycle(
            LifecycleError::InvalidTransition {
                expected: LifecycleSnapshot { generation, state: RuntimeFilterState::Building },
                actual: before[i].filter.lifecycle,
            },
        ),
{
}

/// A builder is had exactly where nobody builds and no filter is ready, as long
/// as generations are left; it builds the next generation.
pub proof fn law_builder_is_had_when_nobody_builds(current: LifecycleSnapshot)
    requires
        current.generation <= MAX_GENERATION,
    ensures
        acquire_outcome(current) is Ok <==> {
            &&& current.state != RuntimeFilterState::Building
            &&& current.state != RuntimeFilterState::Ready
            &&& current.generation < MAX_GENERATION
        },
        acquire_outcome(current) matches Ok(next) ==> next.generation == current.generation + 1
            && next.state == RuntimeFilterState::Building,
        acquire_outcome(current) matches Err(LifecycleError::Busy { snapshot }) ==> snapshot
            == current && (current.state == RuntimeFilterState::Building || current.state
            == RuntimeFilterState::Ready),
        acquire_outcome(current) matches Err(LifecycleError::GenerationExhausted { generation })
            ==> generation == current.generation && current.generation == MAX_GENERATION,
        acquire_outcome(current) matches Err(e) ==> !(e is InvalidTransition),
{
}

/// A state changes exactly where generation and state are the expected ones, and
/// then only the state changes.
pub proof fn law_state_changes_as_expected(
    current: LifecycleSnapshot,
    generation: u64,
    from: RuntimeFilterState,
    to: RuntimeFilterState,
)
    ensures
        change_outcome(current, generation, from, to) is Ok <==> current.generation == generation
            && current.state == from,
        change_outcome(current, generation, from, to) matches Ok(next) ==> next.generation
            == current.generation && next.state == to,
        change_outcome(current, generation, from, to) matches Err(e) ==> e
            == (LifecycleError::InvalidTransition {
            expected: LifecycleSnapshot { generation, state: from },
            actual: current,
        }),
{
}

/// A change of state that succeeds keeps the bits of the filter, and one that fails
/// keeps everything.
pub proof fn law_changes_keep_the_bits(
    before: SlotContent,
    after: SlotContent,
    outcome: Result<LifecycleSnapshot, LifecycleError>,
)
    requires
        changed(before, after, outcome),
    ensures
        after.bits == before.bits,
        outcome matches Ok(next) ==> after.lifecycle == next,
        outcome is Err ==> after == before,
{
}

/// A probe lets a row pass unless its own generation is ready; where it is, the
/// bits decide, and they alone.
pub proof fn law_bits_decide_only_when_ready(
    current: LifecycleSnapshot,
    generation: u64,
    may_contain: bool,
)
    ensures
        decision(current, generation, may_contain) == ProbeDecision::PassUnfiltered <==> (
        current.generation != generation || current.state != RuntimeFilterState::Ready),
        current.generation == generation && current.state == RuntimeFilterState::Ready
            ==> decision(current, generation, true) == ProbeDecision::MaybePresent && decision(
            current,
            generation,
            false,
        ) == ProbeDecision::DefinitelyAbsent,
{
}

/// A filter that was retired keeps its bits and never rejects a row again, in
/// whatever generation a probe asks.
pub proof fn law_retired_filter_rejects_nothing(
    slot: PoolSlotContent,
    generation: u64,
    may_contain: bool,
)
    requires
        slot.generation == slot.filter.lifecycle.generation,
    ensures
        ({
            let filter: SlotContent = slot.retired_filter();
            &&& filter.bits == slot.filter.bits
            &&& decision(filter.lifecycle, generation, may_contain)
                == ProbeDecision::PassUnfiltered
        }),
{
}

/// Retiring ends the generation that the slot was given, where it is building or
/// ready. A filter of another generation, and one that rejects nothing anyway, are
/// left as they are.
pub proof fn law_retiring_ends_its_own_generation(slot: PoolSlotContent)
    ensures
        ({
            let before = slot.filter.lifecycle;
            let after = slot.retired_filter();
            let under_way = before.state == RuntimeFilterState::Building || before.state
                == RuntimeFilterState::Ready;
            &&& after.bits == slot.filter.bits
            &&& after.lifecycle.generation == before.generation
            &&& under_way && before.generation == slot.generation ==> after.lifecycle.state
                == RuntimeFilterState::Disabled
            &&& !under_way || before.generation != slot.generation ==> after == slot.filter
        }),
{
}

} // verus!
