//! What a join filter is built from, for whom, and what becomes of it.

use super::error::WorkerRuntimeError;
use super::key_column::{column_fault, column_hashes, present, KeyColumn};
use super::runtime_filter_plan::{
    build_ended, key_type_spec, law_build_side_keys_are_kept, pair_key_type, probed_scan,
    InstallState, JoinFacts, KeyDataType, PlanNode, RuntimeFilterBuildState,
};
use crate::filter::bloom::{positions, BloomParams};
use crate::filter::hash::{bool_hash, float32_hash, float64_hash, fnv, int_hash};
use crate::filter::lifecycle::{acquire_outcome, decision, ProbeDecision, RuntimeFilterState};
use crate::filter::pool::{
    first_free, PoolSlotContent, RuntimeFilterKeyType, RuntimeFilterPoolAttachError,
    RuntimeFilterTarget, SLOT_ALLOCATED, SLOT_FREE, SLOT_RETIRING,
};
use crate::filter::pool_laws::with_hashes;
use crate::filter::sharing_laws::law_search_misses_no_free_slot;
use crate::metrics::descriptor::MetricId;
use vstd::prelude::*;

verus! {

/// The hash that the key in a row of a column has, by the type of the column: the
/// hash of the key itself, and none for a null.
pub open spec fn row_hash(column: KeyColumn, row: int) -> Option<u64> {
    match column {
        KeyColumn::Boolean(values) => match values@[row] {
            Some(value) => Some(bool_hash(value)),
            None => None,
        },
        KeyColumn::Int16(values) => match values@[row] {
            Some(value) => Some(int_hash(value as int)),
            None => None,
        },
        KeyColumn::Int32(values) => match values@[row] {
            Some(value) => Some(int_hash(value as int)),
            None => None,
        },
        KeyColumn::Int64(values) => match values@[row] {
            Some(value) => Some(int_hash(value as int)),
            None => None,
        },
        KeyColumn::Float32(values) => match values@[row] {
            Some(value) => Some(float32_hash(value)),
            None => None,
        },
        KeyColumn::Float64(values) => match values@[row] {
            Some(value) => Some(float64_hash(value)),
            None => None,
        },
        KeyColumn::Utf8View(values) => match values@[row] {
            Some(value) => Some(fnv(value@)),
            None => None,
        },
        KeyColumn::FixedSizeBinary(_, values) => match values@[row] {
            Some(value) => Some(fnv(value@)),
            None => None,
        },
        KeyColumn::BinaryView(values) => match values@[row] {
            Some(value) => Some(fnv(value@)),
            None => None,
        },
        KeyColumn::Other => None,
    }
}

/// How many rows a column has.
pub open spec fn row_count(column: KeyColumn) -> nat {
    match column {
        KeyColumn::Boolean(values) => values@.len(),
        KeyColumn::Int16(values) => values@.len(),
        KeyColumn::Int32(values) => values@.len(),
        KeyColumn::Int64(values) => values@.len(),
        KeyColumn::Float32(values) => values@.len(),
        KeyColumn::Float64(values) => values@.len(),
        KeyColumn::Utf8View(values) => values@.len(),
        KeyColumn::FixedSizeBinary(_, values) => values@.len(),
        KeyColumn::BinaryView(values) => values@.len(),
        KeyColumn::Other => 0,
    }
}

/// A column has one hash for each of its rows: that of the key in the row.
pub proof fn law_row_hash_is_the_hash_of_its_key(column: KeyColumn, row: int)
    ensures
        column_hashes(column@).len() == row_count(column),
        0 <= row < row_count(column) ==> column_hashes(column@)[row] == row_hash(column, row),
{
}

/// An integer in a column hashes as the integer does, whatever the width of the
/// column: two columns that hold the same number in some row have the same hash
/// there.
pub proof fn law_same_integer_same_hash(
    narrow: Vec<Option<i16>>,
    middle: Vec<Option<i32>>,
    wide: Vec<Option<i64>>,
    i: int,
    j: int,
    k: int,
    value: i64,
)
    requires
        0 <= i < narrow@.len(),
        0 <= j < middle@.len(),
        0 <= k < wide@.len(),
        i16::MIN <= value <= i16::MAX ==> narrow@[i] == Some(value as i16),
        i32::MIN <= value <= i32::MAX ==> middle@[j] == Some(value as i32),
        wide@[k] == Some(value),
    ensures
        column_hashes(KeyColumn::Int64(wide)@)[k] == Some(int_hash(value as int)),
        i32::MIN <= value <= i32::MAX ==> column_hashes(KeyColumn::Int32(middle)@)[j] == Some(
            int_hash(value as int),
        ),
        i16::MIN <= value <= i16::MAX ==> column_hashes(KeyColumn::Int16(narrow)@)[i] == Some(
            int_hash(value as int),
        ),
{
}

/// A key that a column of the build side holds is kept by every probe for it,
/// once the filter that was built from the column is published.
pub proof fn law_key_in_a_column_is_kept(
    slot: PoolSlotContent,
    target: RuntimeFilterTarget,
    params: BloomParams,
    column: KeyColumn,
    row: int,
    hash: u64,
)
    requires
        slot.state == SLOT_FREE,
        acquire_outcome(slot.filter.lifecycle) is Ok,
        0 <= row < row_count(column),
        row_hash(column, row) == Some(hash),
    ensures
        ({
            let building = slot.allocated(target);
            let hashes = present(column_hashes(column@));
            let full = with_hashes(building, params, building.generation, hashes);
            let ready = build_ended(
                seq![full],
                0,
                building.generation,
                RuntimeFilterState::Ready,
            )[0];
            decision(
                ready.filter.lifecycle,
                building.generation,
                positions(params, hash).subset_of(ready.filter.bits),
            ) == ProbeDecision::MaybePresent
        }),
{
    law_row_hash_is_the_hash_of_its_key(column, row);
    law_build_side_keys_are_kept(slot, target, params, column@, row);
    lemma_hashes_set_bits(
        slot.allocated(target),
        params,
        slot.allocated(target).generation,
        present(column_hashes(column@)),
    );
}

proof fn lemma_hashes_set_bits(
    slot: PoolSlotContent,
    params: BloomParams,
    generation: u64,
    hashes: Seq<u64>,
)
    ensures
        ({
            let after = with_hashes(slot, params, generation, hashes);
            &&& after.filter.lifecycle == slot.filter.lifecycle
            &&& after.state == slot.state
            &&& after.refs == slot.refs
            &&& after.generation == slot.generation
            &&& after.session_epoch == slot.session_epoch
            &&& after.scan_id == slot.scan_id
            &&& after.output_column == slot.output_column
            &&& after.key_type == slot.key_type
        }),
    decreases hashes.len(),
{
    if hashes.len() > 0 {
        lemma_hashes_set_bits(slot, params, generation, hashes.drop_last());
    }
}

/// The hashes of a batch set their own bits in the generation that builds, and
/// no other bits. A builder of another generation, or one whose build has ended,
/// changes nothing.
pub proof fn law_batch_sets_the_bits_of_its_hashes(
    slot: PoolSlotContent,
    params: BloomParams,
    generation: u64,
    hashes: Seq<u64>,
    bit: int,
)
    ensures
        ({
            let after = with_hashes(slot, params, generation, hashes);
            let building = slot.filter.lifecycle.generation == generation
                && slot.filter.lifecycle.state == RuntimeFilterState::Building;
            &&& after.filter.bits.contains(bit) <==> {
                ||| slot.filter.bits.contains(bit)
                ||| building && exists|i: int|
                    0 <= i < hashes.len() && positions(params, #[trigger] hashes[i]).contains(bit)
            }
            &&& after == (PoolSlotContent { filter: after.filter, ..slot })
            &&& after.filter.lifecycle == slot.filter.lifecycle
        }),
    decreases hashes.len(),
{
    lemma_hashes_set_bits(slot, params, generation, hashes);
    if hashes.len() > 0 {
        let fewer = hashes.drop_last();
        lemma_hashes_set_bits(slot, params, generation, fewer);
        law_batch_sets_the_bits_of_its_hashes(slot, params, generation, fewer, bit);
        if exists|i: int|
            0 <= i < fewer.len() && positions(params, #[trigger] fewer[i]).contains(bit) {
            let i = choose|i: int|
                0 <= i < fewer.len() && positions(params, #[trigger] fewer[i]).contains(bit);
            assert(positions(params, hashes[i]).contains(bit));
        }
        if positions(params, hashes.last()).contains(bit) {
            assert(positions(params, hashes[hashes.len() - 1]).contains(bit));
        }
        if exists|i: int|
            0 <= i < hashes.len() && positions(params, #[trigger] hashes[i]).contains(bit) {
            let i = choose|i: int|
                0 <= i < hashes.len() && positions(params, #[trigger] hashes[i]).contains(bit);
            if i < fewer.len() {
                assert(fewer[i] == hashes[i]);
            }
        }
    }
}

/// The hashes of a column are those of the rows that hold a key, in row order:
/// a row with a key adds its hash at the end, and a null adds nothing.
pub proof fn law_nulls_have_no_hash(hashes: Seq<Option<u64>>, hash: u64)
    ensures
        present(Seq::empty()) == Seq::<u64>::empty(),
        present(hashes.push(Some(hash))) == present(hashes).push(hash),
        present(hashes.push(None)) == present(hashes),
        present(hashes).len() <= hashes.len(),
        (forall|i: int| 0 <= i < hashes.len() ==> (#[trigger] hashes[i]) is Some) ==> present(
            hashes,
        ).len() == hashes.len(),
    decreases hashes.len(),
{
    assert(hashes.push(Some(hash)).drop_last() =~= hashes);
    assert(hashes.push(None).drop_last() =~= hashes);
    if hashes.len() > 0 {
        law_nulls_have_no_hash(hashes.drop_last(), hash);
        let fewer = hashes.drop_last();
        if forall|i: int| 0 <= i < hashes.len() ==> (#[trigger] hashes[i]) is Some {
            assert forall|i: int| 0 <= i < fewer.len() implies (#[trigger] fewer[i]) is Some by {
                assert(fewer[i] == hashes[i]);
            }
            assert(hashes[hashes.len() - 1] is Some);
        }
    }
}

/// The type that a column has.
pub open spec fn type_of(column: KeyColumn) -> KeyDataType {
    match column {
        KeyColumn::Boolean(_) => KeyDataType::Boolean,
        KeyColumn::Int16(_) => KeyDataType::Int16,
        KeyColumn::Int32(_) => KeyDataType::Int32,
        KeyColumn::Int64(_) => KeyDataType::Int64,
        KeyColumn::Float32(_) => KeyDataType::Float32,
        KeyColumn::Float64(_) => KeyDataType::Float64,
        KeyColumn::Utf8View(_) => KeyDataType::Utf8View,
        KeyColumn::FixedSizeBinary(width, _) => KeyDataType::FixedSizeBinary(width),
        KeyColumn::BinaryView(_) => KeyDataType::BinaryView,
        KeyColumn::Other => KeyDataType::Other,
    }
}

/// A column goes into a filter exactly if its type gives the key type of the
/// filter. So a filter that was planned for a column takes every batch of it.
pub proof fn law_planned_column_fits(column: KeyColumn, key_type: RuntimeFilterKeyType)
    ensures
        column_fault(column@, key_type) is None <==> key_type_spec(type_of(column)) == Some(
            key_type,
        ),
{
}

/// A type that has keys has keys of its own kind. Two types with the same keys
/// are the same type, so that both sides of a join give a filter exactly if they
/// have one type, and that type has keys.
pub proof fn law_key_types(left: KeyDataType, right: KeyDataType)
    ensures
        key_type_spec(left) is None <==> {
            ||| left is Utf8
            ||| left is Binary
            ||| left is Other
            ||| left matches KeyDataType::FixedSizeBinary(width) && width != 16
        },
        left is Boolean <==> key_type_spec(left) == Some(RuntimeFilterKeyType::Boolean),
        left is Int16 <==> key_type_spec(left) == Some(RuntimeFilterKeyType::Int16),
        left is Int32 <==> key_type_spec(left) == Some(RuntimeFilterKeyType::Int32),
        left is Int64 <==> key_type_spec(left) == Some(RuntimeFilterKeyType::Int64),
        left is Float32 <==> key_type_spec(left) == Some(RuntimeFilterKeyType::Float32),
        left is Float64 <==> key_type_spec(left) == Some(RuntimeFilterKeyType::Float64),
        left is Utf8View <==> key_type_spec(left) == Some(RuntimeFilterKeyType::Utf8View),
        left is BinaryView <==> key_type_spec(left) == Some(RuntimeFilterKeyType::BinaryView),
        left == KeyDataType::FixedSizeBinary(16) <==> key_type_spec(left) == Some(
            RuntimeFilterKeyType::Uuid,
        ),
        pair_key_type(left, right) is Some <==> left == right && key_type_spec(left) is Some,
        pair_key_type(left, right) is Some ==> pair_key_type(left, right) == key_type_spec(right),
{
}

/// A plan under `depth` nodes that only yield.
pub open spec fn yielding(plan: PlanNode, depth: nat) -> PlanNode
    decreases depth,
{
    if depth == 0 {
        plan
    } else {
        PlanNode::Cooperative(Box::new(yielding(plan, (depth - 1) as nat)))
    }
}

/// A scan is probed through any number of nodes that only yield, and nothing
/// else is.
pub proof fn law_scan_is_seen_through_yields(scan_id: u64, depth: nat)
    ensures
        probed_scan(yielding(PlanNode::Scan(scan_id), depth)) == Some(scan_id),
        probed_scan(yielding(PlanNode::Other, depth)) is None,
    decreases depth,
{
    if depth > 0 {
        law_scan_is_seen_through_yields(scan_id, (depth - 1) as nat);
    }
}

/// A join gets a filter exactly if it is a plain inner join on one pair of
/// columns of one type that has keys, built from one partition and probed by a
/// scan. The filter is built from the left column and filters the right column
/// of that scan, in the session asked for, by the type of the keys.
pub proof fn law_filter_is_for_the_probed_column(join: JoinFacts, session_epoch: u64)
    requires
        join.wf(),
    ensures
        join.target(session_epoch) matches Some((key_index, target)) ==> {
            &&& join.on@.len() == 1
            &&& join.on@[0].0 == Some(key_index)
            &&& join.on@[0].1 matches Some(column) && target.output_column == column as u32
                && key_type_spec(join.right_types@[column as int]) == Some(target.key_type)
            &&& key_type_spec(join.left_types@[key_index as int]) == Some(target.key_type)
            &&& probed_scan(join.right) == Some(target.scan_id)
            &&& target.session_epoch == session_epoch
        },
        join.target(session_epoch) is Some <==> {
            &&& join.inner
            &&& join.null_equals_nothing
            &&& !join.null_aware
            &&& join.left_partitions == 1
            &&& join.on@.len() == 1
            &&& join.on@[0] matches (Some(left), Some(right)) && join.left_types@[left as int]
                == join.right_types@[right as int] && key_type_spec(join.left_types@[left as int])
                is Some
            &&& probed_scan(join.right) is Some
        },
{
    if join.on@.len() == 1 && join.on@[0].0 is Some && join.on@[0].1 is Some {
        law_key_types(
            join.left_types@[join.on@[0].0->0 as int],
            join.right_types@[join.on@[0].1->0 as int],
        );
    }
}

/// What installing one join does. A join that can have no filter changes
/// nothing. One that can takes the first free slot of an attached pool for its
/// target and is counted as allocated; where the pool is not attached or has no
/// free slot left, the join stays as it is and is counted as turned away.
pub proof fn law_join_takes_a_free_slot(
    state: InstallState,
    attached: bool,
    join: JoinFacts,
    session_epoch: u64,
)
    ensures
        ({
            let (after, r) = state.wrapped(attached, join, session_epoch);
            let room = attached && exists|k: int|
                0 <= k < state.slots.len() && (#[trigger] state.slots[k]).state == SLOT_FREE;
            match join.target(session_epoch) {
                None => after == state && (r matches Ok(None)),
                Some((key_index, target)) => {
                    &&& !room ==> {
                        &&& r matches Ok(None)
                        &&& after.slots == state.slots
                        &&& after.metrics == state.metrics.added(
                            MetricId::RuntimeFilterPoolExhaustedTotal,
                            1,
                        )
                    }
                    &&& room ==> {
                        let i = first_free(state.slots, 0)->0;
                        &&& 0 <= i < state.slots.len()
                        &&& state.slots[i].state == SLOT_FREE
                        &&& after.slots.len() == state.slots.len()
                        &&& after.slots[i] == state.slots[i].allocated(target)
                        &&& forall|k: int|
                            0 <= k < state.slots.len() && k != i ==> #[trigger] after.slots[k]
                                == state.slots[k]
                        &&& r is Ok <==> acquire_outcome(state.slots[i].filter.lifecycle) is Ok
                        &&& r matches Ok(filter) ==> {
                            &&& filter is Some
                            &&& filter->0.key_index == key_index
                            &&& filter->0.key_type == target.key_type
                            &&& !filter->0.state.closed
                            &&& !filter->0.state.handle.released
                            &&& filter->0.state.handle.slot_index == i as u32
                            &&& filter->0.state.handle.generation == after.slots[i].generation
                            &&& after.metrics == state.metrics.added(
                                MetricId::RuntimeFilterAllocatedTotal,
                                1,
                            )
                        }
                        &&& r matches Err(e) ==> {
                            &&& after.metrics == state.metrics
                            &&& e matches WorkerRuntimeError::FilterPool(
                                RuntimeFilterPoolAttachError::Lifecycle(cause),
                            ) && acquire_outcome(state.slots[i].filter.lifecycle) == Err::<
                                crate::filter::lifecycle::LifecycleSnapshot,
                                _,
                            >(cause)
                        }
                    }
                },
            }
        }),
{
    law_search_misses_no_free_slot(state.slots);
}

/// Ending a build moves the generation that builds to the state asked for, and
/// changes nothing else. Where that generation does not build, nothing changes.
pub proof fn law_ended_build(
    slots: Seq<PoolSlotContent>,
    i: int,
    generation: u64,
    to: RuntimeFilterState,
)
    requires
        0 <= i < slots.len(),
    ensures
        ({
            let after = build_ended(slots, i, generation, to);
            let building = slots[i].filter.lifecycle.generation == generation
                && slots[i].filter.lifecycle.state == RuntimeFilterState::Building;
            &&& after.len() == slots.len()
            &&& forall|k: int| 0 <= k < slots.len() && k != i ==> #[trigger] after[k] == slots[k]
            &&& !building ==> after == slots
            &&& building ==> {
                &&& after[i].filter.lifecycle.generation == generation
                &&& after[i].filter.lifecycle.state == to
                &&& after[i].filter.bits == slots[i].filter.bits
                &&& after[i] == (PoolSlotContent { filter: after[i].filter, ..slots[i] })
            }
        }),
{
}

/// A build that is given back rejects nothing, unless it was closed before, and
/// its slot loses the owner: it is free, or waits for its last probe.
pub proof fn law_given_back_build(
    build: RuntimeFilterBuildState,
    slots: Seq<PoolSlotContent>,
    may_contain: bool,
)
    requires
        0 <= build.handle.slot_index < slots.len(),
        slots[build.handle.slot_index as int].state == SLOT_ALLOCATED,
        slots[build.handle.slot_index as int].refs > 0,
        slots[build.handle.slot_index as int].generation == slots[build.handle.slot_index as int]
            .filter.lifecycle.generation,
        slots[build.handle.slot_index as int].generation == build.handle.generation,
    ensures
        ({
            let i = build.handle.slot_index as int;
            let after = build.given_back(slots);
            &&& after.len() == slots.len()
            &&& forall|k: int| 0 <= k < slots.len() && k != i ==> #[trigger] after[k] == slots[k]
            &&& !build.handle.released ==> {
                &&& after[i].refs == slots[i].refs - 1
                &&& after[i].state == if slots[i].refs == 1 {
                    SLOT_FREE
                } else {
                    SLOT_RETIRING
                }
            }
            &&& build.handle.released ==> {
                &&& after[i].refs == slots[i].refs
                &&& after[i].state == SLOT_ALLOCATED
            }
            &&& !build.closed && slots[i].filter.lifecycle.state != RuntimeFilterState::Ready
                ==> decision(after[i].filter.lifecycle, build.handle.generation, may_contain)
                == ProbeDecision::PassUnfiltered
            &&& build.closed && (build.handle.released || slots[i].refs > 1)
                ==> after[i].filter == slots[i].filter
        }),
{
}

/// A column of another type is refused by the names of the key type and of the
/// array that would hold its keys.
pub proof fn law_refusal_names_the_types(column: KeyColumn, key_type: RuntimeFilterKeyType)
    ensures
        key_type is Boolean && !(column is Boolean) ==> column_fault(column@, key_type) == Some(
            "runtime filter Boolean build key had non-Boolean array"@,
        ),
        key_type is Int16 && !(column is Int16) ==> column_fault(column@, key_type) == Some(
            "runtime filter Int16 build key had non-Int16 array"@,
        ),
        key_type is Int32 && !(column is Int32) ==> column_fault(column@, key_type) == Some(
            "runtime filter Int32 build key had non-Int32 array"@,
        ),
        key_type is Int64 && !(column is Int64) ==> column_fault(column@, key_type) == Some(
            "runtime filter Int64 build key had non-Int64 array"@,
        ),
        key_type is Float32 && !(column is Float32) ==> column_fault(column@, key_type) == Some(
            "runtime filter Float32 build key had non-Float32 array"@,
        ),
        key_type is Float64 && !(column is Float64) ==> column_fault(column@, key_type) == Some(
            "runtime filter Float64 build key had non-Float64 array"@,
        ),
        key_type is Utf8View && !(column is Utf8View) ==> column_fault(column@, key_type) == Some(
            "runtime filter Utf8View build key had non-Utf8View array"@,
        ),
        key_type is BinaryView && !(column is BinaryView) ==> column_fault(column@, key_type) == Some(
            "runtime filter BinaryView build key had non-BinaryView array"@,
        ),
        key_type is Uuid && !(column is FixedSizeBinary) ==> column_fault(column@, key_type) == Some(
            "runtime filter Uuid build key had non-FixedSizeBinary array"@,
        ),
{
    reveal_strlit("Boolean");
    reveal_strlit("runtime filter Boolean build key had non-Boolean array");
    reveal_strlit("Int16");
    reveal_strlit("runtime filter Int16 build key had non-Int16 array");
    reveal_strlit("Int32");
    reveal_strlit("runtime filter Int32 build key had non-Int32 array");
    reveal_strlit("Int64");
    reveal_strlit("runtime filter Int64 build key had non-Int64 array");
    reveal_strlit("Float32");
    reveal_strlit("runtime filter Float32 build key had non-Float32 array");
    reveal_strlit("Float64");
    reveal_strlit("runtime filter Float64 build key had non-Float64 array");
    reveal_strlit("Utf8View");
    reveal_strlit("runtime filter Utf8View build key had non-Utf8View array");
    reveal_strlit("BinaryView");
    reveal_strlit("runtime filter BinaryView build key had non-BinaryView array");
    reveal_strlit("Uuid");
    reveal_strlit("FixedSizeBinary");
    reveal_strlit("runtime filter Uuid build key had non-FixedSizeBinary array");
    reveal_strlit("runtime filter ");
    reveal_strlit(" build key had non-");
    reveal_strlit(" array");
    if column_fault(column@, key_type) is Some {
        let fault = column_fault(column@, key_type)->0;
        if key_type is Boolean {
            assert(fault =~= "runtime filter Boolean build key had non-Boolean array"@);
        }
        if key_type is Int16 {
            assert(fault =~= "runtime filter Int16 build key had non-Int16 array"@);
        }
        if key_type is Int32 {
            assert(fault =~= "runtime filter Int32 build key had non-Int32 array"@);
        }
        if key_type is Int64 {
            assert(fault =~= "runtime filter Int64 build key had non-Int64 array"@);
        }
        if key_type is Float32 {
            assert(fault =~= "runtime filter Float32 build key had non-Float32 array"@);
        }
        if key_type is Float64 {
            assert(fault =~= "runtime filter Float64 build key had non-Float64 array"@);
        }
        if key_type is Utf8View {
            assert(fault =~= "runtime filter Utf8View build key had non-Utf8View array"@);
        }
        if key_type is BinaryView {
            assert(fault =~= "runtime filter BinaryView build key had non-BinaryView array"@);
        }
        if key_type is Uuid && !(column is FixedSizeBinary) {
            assert(fault =~= "runtime filter Uuid build key had non-FixedSizeBinary array"@);
        }
    }
}

} // verus!
