//! Building filters from the build side of hash joins.

use super::error::WorkerRuntimeError;
use super::key_column::{
    check_column, column_fault, column_hashes, hash_row, lemma_present, present, KeyColumn,
    KeyContent,
};
use crate::filter::bloom::{positions, BloomParams};
use crate::filter::lifecycle::{
    acquire_outcome, change_outcome, decision, LifecycleSnapshot, ProbeDecision, RuntimeFilterState,
    SlotContent,
};
use crate::filter::pool::{
    first_free, PoolSlotContent, RuntimeFilterBuildHandle, RuntimeFilterKeyType, RuntimeFilterPool,
    RuntimeFilterPoolAttachError, RuntimeFilterTarget, SLOT_FREE,
};
use crate::filter::pool_laws::{
    law_published_keys_are_kept, lemma_first_free_is_free, with_hashes,
};
use crate::metrics::descriptor::MetricId;
use crate::metrics::region::{MetricsState, RuntimeMetrics};
use crate::text::{append_decimal, decimal, owned};
use vstd::prelude::*;
use vstd::string::StringExecFns;

verus! {

/// The type of a column, as far as filters tell types apart.
#[derive(Clone, Copy, Debug, PartialEq, Eq, Structural)]
pub enum KeyDataType {
    Boolean,
    Int16,
    Int32,
    Int64,
    Float32,
    Float64,
    Utf8,
    Utf8View,
    Binary,
    BinaryView,
    FixedSizeBinary(i32),
    Other,
}

/// The key type that a column type gives.
pub open spec fn key_type_spec(data_type: KeyDataType) -> Option<RuntimeFilterKeyType> {
    match data_type {
        KeyDataType::Boolean => Some(RuntimeFilterKeyType::Boolean),
        KeyDataType::Int16 => Some(RuntimeFilterKeyType::Int16),
        KeyDataType::Int32 => Some(RuntimeFilterKeyType::Int32),
        KeyDataType::Int64 => Some(RuntimeFilterKeyType::Int64),
        KeyDataType::Float32 => Some(RuntimeFilterKeyType::Float32),
        KeyDataType::Float64 => Some(RuntimeFilterKeyType::Float64),
        KeyDataType::Utf8View => Some(RuntimeFilterKeyType::Utf8View),
        KeyDataType::BinaryView => Some(RuntimeFilterKeyType::BinaryView),
        KeyDataType::FixedSizeBinary(width) => if width == 16 {
            Some(RuntimeFilterKeyType::Uuid)
        } else {
            None
        },
        _ => None,
    }
}

/// The key type that a pair of join columns gives: both sides must give the
/// same.
pub open spec fn pair_key_type(left: KeyDataType, right: KeyDataType) -> Option<
    RuntimeFilterKeyType,
> {
    if key_type_spec(left) == key_type_spec(right) {
        key_type_spec(left)
    } else {
        None
    }
}

/// The key type that a column type gives.
pub fn key_type_for(data_type: &KeyDataType) -> (r: Option<RuntimeFilterKeyType>)
    ensures
        r == key_type_spec(*data_type),
{
    match *data_type {
        KeyDataType::Boolean => Some(RuntimeFilterKeyType::Boolean),
        KeyDataType::Int16 => Some(RuntimeFilterKeyType::Int16),
        KeyDataType::Int32 => Some(RuntimeFilterKeyType::Int32),
        KeyDataType::Int64 => Some(RuntimeFilterKeyType::Int64),
        KeyDataType::Float32 => Some(RuntimeFilterKeyType::Float32),
        KeyDataType::Float64 => Some(RuntimeFilterKeyType::Float64),
        KeyDataType::Utf8View => Some(RuntimeFilterKeyType::Utf8View),
        KeyDataType::BinaryView => Some(RuntimeFilterKeyType::BinaryView),
        KeyDataType::FixedSizeBinary(width) => {
            if width == 16 {
                Some(RuntimeFilterKeyType::Uuid)
            } else {
                None
            }
        },
        _ => None,
    }
}

/// The key type that a pair of join columns gives.
pub fn key_type_for_pair(left: &KeyDataType, right: &KeyDataType) -> (r: Option<
    RuntimeFilterKeyType,
>)
    ensures
        r == pair_key_type(*left, *right),
{
    match (key_type_for(left), key_type_for(right)) {
        (Some(l), Some(r)) => {
            if l == r {
                Some(l)
            } else {
                None
            }
        },
        _ => None,
    }
}

/// A plan, as far as it matters where a filter can be probed.
pub enum PlanNode {
    /// A scan of the backend.
    Scan(u64),
    /// A node that only yields between batches.
    Cooperative(Box<PlanNode>),
    /// Any other node.
    Other,
}

/// The scan that a plan is, apart from nodes that only yield.
pub open spec fn probed_scan(plan: PlanNode) -> Option<u64>
    decreases plan,
{
    match plan {
        PlanNode::Scan(scan_id) => Some(scan_id),
        PlanNode::Cooperative(input) => probed_scan(*input),
        PlanNode::Other => None,
    }
}

/// The scan that a plan is, apart from nodes that only yield.
pub fn runtime_filter_probe_scan(plan: &PlanNode) -> (r: Option<u64>)
    ensures
        r == probed_scan(*plan),
    decreases *plan,
{
    match plan {
        PlanNode::Scan(scan_id) => Some(*scan_id),
        PlanNode::Cooperative(input) => runtime_filter_probe_scan(&**input),
        PlanNode::Other => None,
    }
}

/// What matters of a hash join.
pub struct JoinFacts {
    /// It is an inner join.
    pub inner: bool,
    /// Nulls are equal to nothing.
    pub null_equals_nothing: bool,
    /// It treats nulls specially.
    pub null_aware: bool,
    /// Partitions of the build side.
    pub left_partitions: usize,
    /// The join keys, left and right; a key that is no plain column is none.
    pub on: Vec<(Option<usize>, Option<usize>)>,
    /// The probe side.
    pub right: PlanNode,
    /// The column types of the build side.
    pub left_types: Vec<KeyDataType>,
    /// The column types of the probe side.
    pub right_types: Vec<KeyDataType>,
}

impl JoinFacts {
    /// The join can have a filter as far as its kind and its keys go.
    pub open spec fn candidate(self) -> bool {
        &&& self.inner && self.null_equals_nothing && !self.null_aware
        &&& self.left_partitions == 1
        &&& self.on@.len() == 1
        &&& self.on@[0].0 is Some && self.on@[0].1 is Some
        &&& probed_scan(self.right) is Some
    }

    /// The keys of a join that can have a filter name columns that exist.
    pub open spec fn wf(self) -> bool {
        self.candidate() ==> {
            &&& self.on@[0].0->0 < self.left_types@.len()
            &&& self.on@[0].1->0 < self.right_types@.len()
        }
    }

    /// The filter that the join can have: the column of the build side and the
    /// target on the probe side.
    pub open spec fn target(self, session_epoch: u64) -> Option<(usize, RuntimeFilterTarget)> {
        if !self.inner || !self.null_equals_nothing || self.null_aware || self.left_partitions != 1
            || self.on@.len() != 1 {
            None
        } else {
            match (self.on@[0].0, self.on@[0].1, probed_scan(self.right)) {
                (Some(left), Some(right), Some(scan_id)) => match pair_key_type(
                    self.left_types@[left as int],
                    self.right_types@[right as int],
                ) {
                    Some(key_type) => Some(
                        (
                            left,
                            RuntimeFilterTarget {
                                session_epoch,
                                scan_id,
                                output_column: right as u32,
                                key_type,
                            },
                        ),
                    ),
                    None => None,
                },
                _ => None,
            }
        }
    }
}

/// Decides whether a join can have a filter, and which.
pub fn filter_target(join: &JoinFacts, session_epoch: u64) -> (r: Option<
    (usize, RuntimeFilterTarget),
>)
    requires
        join.wf(),
    ensures
        r == join.target(session_epoch),
{
    if !join.inner || !join.null_equals_nothing || join.null_aware {
        return None;
    }
    if join.left_partitions != 1 {
        return None;
    }
    if join.on.len() != 1 {
        return None;
    }
    let (left, right) = join.on[0];
    match (left, right, runtime_filter_probe_scan(&join.right)) {
        (Some(left), Some(right), Some(scan_id)) => {
            match key_type_for_pair(&join.left_types[left], &join.right_types[right]) {
                Some(key_type) => Some(
                    (
                        left,
                        RuntimeFilterTarget {
                            session_epoch,
                            scan_id,
                            output_column: right as u32,
                            key_type,
                        },
                    ),
                ),
                None => None,
            }
        },
        _ => None,
    }
}

/// What a join gets.
#[derive(Debug, PartialEq, Eq)]
pub struct JoinFilter {
    /// The column of the build side whose keys go into the filter.
    pub key_index: usize,
    pub key_type: RuntimeFilterKeyType,
    pub state: RuntimeFilterBuildState,
}

impl JoinFilter {
    /// Name of the node that builds the filter.
    pub fn name(&self) -> (r: &'static str)
        ensures
            r@ == "RuntimeFilterBuildExec"@,
    {
        "RuntimeFilterBuildExec"
    }

    /// One line about the node.
    pub fn describe(&self) -> (r: String)
        ensures
            r@ == "RuntimeFilterBuildExec: key_index="@ + decimal(self.key_index as nat),
    {
        let mut r: String = owned("RuntimeFilterBuildExec: key_index=");
        append_decimal(&mut r, self.key_index as u64);
        r
    }

    /// The node takes exactly one child.
    pub fn check_new_children(&self, children: usize) -> (r: Result<(), WorkerRuntimeError>)
        ensures
            children == 1 ==> r is Ok,
            children != 1 ==> (r matches Err(WorkerRuntimeError::Plan(text)) && text@
                == "RuntimeFilterBuildExec expects exactly one child"@),
    {
        if children == 1 {
            Ok(())
        } else {
            Err(
                WorkerRuntimeError::Plan(
                    owned("RuntimeFilterBuildExec expects exactly one child"),
                ),
            )
        }
    }
}

/// What giving filters to joins works on: the slots of the pool and the metrics.
#[verifier::ext_equal]
pub struct InstallState {
    pub slots: Seq<PoolSlotContent>,
    pub metrics: MetricsState,
}

impl InstallState {
    /// A join after it was given its filter: what is left, and what it got.
    pub open spec fn wrapped(self, attached: bool, join: JoinFacts, session_epoch: u64) -> (
        InstallState,
        Result<Option<JoinFilter>, WorkerRuntimeError>,
    ) {
        match join.target(session_epoch) {
            None => (self, Ok(None)),
            Some((key_index, target)) => match first_free(self.slots, 0) {
                Some(i) if attached => {
                    let slot = self.slots[i];
                    let slots = self.slots.update(i, slot.allocated(target));
                    match acquire_outcome(slot.filter.lifecycle) {
                        Ok(next) => (
                            InstallState {
                                slots,
                                metrics: self.metrics.added(
                                    MetricId::RuntimeFilterAllocatedTotal,
                                    1,
                                ),
                            },
                            Ok(
                                Some(
                                    JoinFilter {
                                        key_index,
                                        key_type: target.key_type,
                                        state: RuntimeFilterBuildState {
                                            handle: RuntimeFilterBuildHandle {
                                                slot_index: i as u32,
                                                generation: next.generation,
                                                released: false,
                                            },
                                            closed: false,
                                        },
                                    },
                                ),
                            ),
                        ),
                        Err(e) => (
                            InstallState { slots, ..self },
                            Err(
                                WorkerRuntimeError::FilterPool(
                                    RuntimeFilterPoolAttachError::Lifecycle(e),
                                ),
                            ),
                        ),
                    }
                },
                _ => (
                    InstallState {
                        metrics: self.metrics.added(MetricId::RuntimeFilterPoolExhaustedTotal, 1),
                        ..self
                    },
                    Ok(None),
                ),
            },
        }
    }
}

/// Gives a join its filter, if it can have one and the pool has room. A join
/// without a filter is left as it is.
pub fn maybe_wrap_hash_join(
    join: &JoinFacts,
    session_epoch: u64,
    pool: &mut RuntimeFilterPool,
    metrics: &mut RuntimeMetrics,
) -> (r: Result<Option<JoinFilter>, WorkerRuntimeError>)
    requires
        join.wf(),
        old(pool).wf(),
        old(metrics).wf(),
    ensures
        final(pool).wf(),
        final(metrics).wf(),
        final(pool).config == old(pool).config,
        final(pool).header == old(pool).header,
        (InstallState { slots: final(pool)@, metrics: final(metrics)@ }, r) == (InstallState {
            slots: old(pool)@,
            metrics: old(metrics)@,
        }).wrapped(old(pool).header is Some, *join, session_epoch),
        r matches Ok(Some(filter)) ==> filter.state.handle.fits(*final(pool)),
{
    proof {
        lemma_first_free_is_free(pool@, 0);
    }
    let (key_index, target) = match filter_target(join, session_epoch) {
        Some(found) => found,
        None => {
            return Ok(None);
        },
    };
    match pool.allocate_build(target) {
        Err(e) => Err(WorkerRuntimeError::FilterPool(e)),
        Ok(None) => {
            metrics.increment(MetricId::RuntimeFilterPoolExhaustedTotal);
            Ok(None)
        },
        Ok(Some(handle)) => {
            metrics.increment(MetricId::RuntimeFilterAllocatedTotal);
            Ok(
                Some(
                    JoinFilter {
                        key_index,
                        key_type: target.key_type,
                        state: RuntimeFilterBuildState { handle, closed: false },
                    },
                ),
            )
        },
    }
}

/// Slots after the build of one of them has ended, if it was under way.
pub open spec fn build_ended(
    slots: Seq<PoolSlotContent>,
    i: int,
    generation: u64,
    to: RuntimeFilterState,
) -> Seq<PoolSlotContent> {
    match change_outcome(
        slots[i].filter.lifecycle,
        generation,
        RuntimeFilterState::Building,
        to,
    ) {
        Ok(lifecycle) => slots.update(
            i,
            PoolSlotContent {
                filter: SlotContent { lifecycle, ..slots[i].filter },
                ..slots[i]
            },
        ),
        Err(_) => slots,
    }
}

/// The build of one filter. It is closed once, by publication or by giving up.
#[derive(Debug, PartialEq, Eq)]
pub struct RuntimeFilterBuildState {
    pub handle: RuntimeFilterBuildHandle,
    pub closed: bool,
}

impl RuntimeFilterBuildState {
    /// Insert the keys of one batch; null keys are left out.
    pub fn insert_batch(
        &self,
        pool: &mut RuntimeFilterPool,
        metrics: &mut RuntimeMetrics,
        column: &KeyColumn,
        key_type: RuntimeFilterKeyType,
    ) -> (r: Result<(), WorkerRuntimeError>)
        requires
            old(pool).wf(),
            old(metrics).wf(),
            self.handle.fits(*old(pool)),
        ensures
            final(pool).wf(),
            final(metrics).wf(),
            final(pool).config == old(pool).config,
            final(pool).header == old(pool).header,
            match column_fault(column@, key_type) {
                Some(fault) => {
                    &&& r matches Err(WorkerRuntimeError::Execution(text)) && text@ == fault
                    &&& final(pool)@ == old(pool)@
                    &&& final(metrics)@ == old(metrics)@
                },
                None => {
                    let hashes = present(column_hashes(column@));
                    let i = self.handle.slot_index as int;
                    &&& r is Ok
                    &&& final(pool)@ == old(pool)@.update(
                        i,
                        with_hashes(
                            old(pool)@[i],
                            old(pool).config.params,
                            self.handle.generation,
                            hashes,
                        ),
                    )
                    &&& final(metrics)@ == old(metrics)@.added(
                        MetricId::RuntimeFilterBuildRowsTotal,
                        hashes.len() as u64,
                    )
                },
            },
    {
        match check_column(column, key_type) {
            Ok(()) => {},
            Err(e) => {
                return Err(e);
            },
        }
        match self.insert_hashes(pool, column) {
            Ok(rows) => {
                metrics.add(MetricId::RuntimeFilterBuildRowsTotal, rows);
                Ok(())
            },
            Err(e) => Err(e),
        }
    }

    /// Inserts the keys of a column that are not null; returns their number.
    fn insert_hashes(&self, pool: &mut RuntimeFilterPool, column: &KeyColumn) -> (r: Result<
        u64,
        WorkerRuntimeError,
    >)
        requires
            old(pool).wf(),
            self.handle.fits(*old(pool)),
        ensures
            final(pool).wf(),
            final(pool).config == old(pool).config,
            final(pool).header == old(pool).header,
            ({
                let hashes = present(column_hashes(column@));
                let i = self.handle.slot_index as int;
                &&& r == Ok::<u64, WorkerRuntimeError>(hashes.len() as u64)
                &&& hashes.len() <= u64::MAX
                &&& final(pool)@ == old(pool)@.update(
                    i,
                    with_hashes(
                        old(pool)@[i],
                        old(pool).config.params,
                        self.handle.generation,
                        hashes,
                    ),
                )
            }),
    {
        let ghost all = column_hashes(column@);
        let ghost slot = self.handle.slot_index as int;
        let ghost before = pool@;
        let ghost params = pool.config.params;
        let generation: u64 = self.handle.generation;
        let len: usize = column.len();
        let mut rows: u64 = 0;
        let mut index: usize = 0;
        assert(all.take(0) =~= Seq::empty());
        assert(pool@ =~= before.update(slot, before[slot]));
        while index < len
            invariant
                index <= len,
                len == all.len(),
                all == column_hashes(column@),
                pool.wf(),
                pool.config == old(pool).config,
                pool.header == old(pool).header,
                pool.config.params == params,
                self.handle.fits(*pool),
                slot == self.handle.slot_index,
                generation == self.handle.generation,
                before.len() == pool@.len(),
                rows == present(all.take(index as int)).len(),
                rows <= index,
                pool@ == before.update(
                    slot,
                    with_hashes(before[slot], params, generation, present(all.take(index as int))),
                ),
            decreases len - index,
        {
            proof {
                let longer = all.take(index + 1);
                assert(longer.drop_last() =~= all.take(index as int));
                assert(longer.last() == all[index as int]);
            }
            match hash_row(column, index) {
                Some(hash) => {
                    proof {
                        let hashes = present(all.take(index as int));
                        assert(hashes.push(hash).drop_last() =~= hashes);
                    }
                    match self.handle.insert_hash(pool, hash) {
                        Ok(()) => {},
                        Err(e) => {
                            return Err(WorkerRuntimeError::FilterPool(e));
                        },
                    }
                    rows = rows + 1;
                    assert(pool@ =~= before.update(
                        slot,
                        with_hashes(
                            before[slot],
                            params,
                            generation,
                            present(all.take(index + 1)),
                        ),
                    ));
                },
                None => {},
            }
            index = index + 1;
        }
        assert(all.take(len as int) =~= all);
        Ok(rows)
    }

    /// Publish the filter, unless the build is closed. A filter that cannot be
    /// published is given up.
    pub fn publish_ready(&mut self, pool: &mut RuntimeFilterPool, metrics: &mut RuntimeMetrics) -> (r:
        Result<(), WorkerRuntimeError>)
        requires
            old(pool).wf(),
            old(metrics).wf(),
            old(self).handle.fits(*old(pool)),
        ensures
            final(pool).wf(),
            final(metrics).wf(),
            final(pool).config == old(pool).config,
            final(pool).header == old(pool).header,
            *final(self) == (RuntimeFilterBuildState { closed: true, ..*old(self) }),
            old(self).closed ==> r is Ok && final(pool)@ == old(pool)@ && final(metrics)@
                == old(metrics)@,
            !old(self).closed ==> {
                let i = old(self).handle.slot_index as int;
                let generation = old(self).handle.generation;
                &&& final(pool)@ == build_ended(
                    old(pool)@,
                    i,
                    generation,
                    RuntimeFilterState::Ready,
                )
                &&& match change_outcome(
                    old(pool)@[i].filter.lifecycle,
                    generation,
                    RuntimeFilterState::Building,
                    RuntimeFilterState::Ready,
                ) {
                    Ok(_) => r is Ok && final(metrics)@ == old(metrics)@.added(
                        MetricId::RuntimeFilterReadyTotal,
                        1,
                    ),
                    Err(e) => r == Err::<(), WorkerRuntimeError>(
                        WorkerRuntimeError::FilterPool(RuntimeFilterPoolAttachError::Lifecycle(e)),
                    ) && final(metrics)@ == old(metrics)@,
                }
            },
    {
        if self.closed {
            return Ok(());
        }
        match self.handle.publish_ready(pool) {
            Ok(()) => {
                self.closed = true;
                metrics.increment(MetricId::RuntimeFilterReadyTotal);
                Ok(())
            },
            Err(e) => {
                self.disable_build(pool);
                Err(WorkerRuntimeError::FilterPool(e))
            },
        }
    }

    /// Give the filter up, unless the build is closed.
    pub fn disable_build(&mut self, pool: &mut RuntimeFilterPool)
        requires
            old(pool).wf(),
            old(self).handle.fits(*old(pool)),
        ensures
            final(pool).wf(),
            final(pool).config == old(pool).config,
            final(pool).header == old(pool).header,
            *final(self) == (RuntimeFilterBuildState { closed: true, ..*old(self) }),
            final(pool)@ == if old(self).closed {
                old(pool)@
            } else {
                build_ended(
                    old(pool)@,
                    old(self).handle.slot_index as int,
                    old(self).handle.generation,
                    RuntimeFilterState::Disabled,
                )
            },
    {
        if !self.closed {
            self.closed = true;
            let _ = self.handle.disable_build(pool);
        }
    }
}

impl RuntimeFilterBuildState {
    /// Insert the keys of one batch. A build that cannot take them is given up.
    pub fn insert_or_give_up(
        &mut self,
        pool: &mut RuntimeFilterPool,
        metrics: &mut RuntimeMetrics,
        column: &KeyColumn,
        key_type: RuntimeFilterKeyType,
    ) -> (r: Result<(), WorkerRuntimeError>)
        requires
            old(pool).wf(),
            old(metrics).wf(),
            old(self).handle.fits(*old(pool)),
        ensures
            final(pool).wf(),
            final(metrics).wf(),
            final(pool).config == old(pool).config,
            final(pool).header == old(pool).header,
            final(self).handle == old(self).handle,
            match column_fault(column@, key_type) {
                Some(fault) => {
                    &&& r matches Err(WorkerRuntimeError::Execution(text)) && text@ == fault
                    &&& final(self).closed
                    &&& final(pool)@ == old(self).given_up(old(pool)@)
                    &&& final(metrics)@ == old(metrics)@
                },
                None => {
                    let hashes = present(column_hashes(column@));
                    let i = old(self).handle.slot_index as int;
                    &&& r is Ok
                    &&& final(self).closed == old(self).closed
                    &&& final(pool)@ == old(pool)@.update(
                        i,
                        with_hashes(
                            old(pool)@[i],
                            old(pool).config.params,
                            old(self).handle.generation,
                            hashes,
                        ),
                    )
                    &&& final(metrics)@ == old(metrics)@.added(
                        MetricId::RuntimeFilterBuildRowsTotal,
                        hashes.len() as u64,
                    )
                },
            },
    {
        match self.insert_batch(pool, metrics, column, key_type) {
            Ok(()) => Ok(()),
            Err(e) => {
                self.disable_build(pool);
                Err(e)
            },
        }
    }

    /// The slots after the build was given up, unless it is closed.
    pub open spec fn given_up(self, slots: Seq<PoolSlotContent>) -> Seq<PoolSlotContent> {
        if self.closed {
            slots
        } else {
            build_ended(
                slots,
                self.handle.slot_index as int,
                self.handle.generation,
                RuntimeFilterState::Disabled,
            )
        }
    }

    /// The slots after the build was given up and its slot given back.
    pub open spec fn given_back(self, slots: Seq<PoolSlotContent>) -> Seq<PoolSlotContent> {
        let left = self.given_up(slots);
        let i = self.handle.slot_index as int;
        if self.handle.released {
            left
        } else {
            left.update(i, left[i].disowned())
        }
    }

    /// Give the filter up, unless the build is closed, and give its slot back.
    pub fn release(&mut self, pool: &mut RuntimeFilterPool)
        requires
            old(pool).wf(),
            old(self).handle.fits(*old(pool)),
        ensures
            final(pool).wf(),
            final(pool).config == old(pool).config,
            final(pool).header == old(pool).header,
            final(pool)@ == old(self).given_back(old(pool)@),
            final(self).closed,
            final(self).handle == (RuntimeFilterBuildHandle {
                released: true,
                ..old(self).handle
            }),
    {
        self.disable_build(pool);
        self.handle.release_owner(pool);
    }
}

/// A build that was given up while it was under way never rejects a row.
pub proof fn law_given_up_build_never_rejects(
    slots: Seq<PoolSlotContent>,
    i: int,
    generation: u64,
    may_contain: bool,
)
    requires
        0 <= i < slots.len(),
        slots[i].filter.lifecycle == (LifecycleSnapshot {
            generation,
            state: RuntimeFilterState::Building,
        }),
    ensures
        decision(
            build_ended(slots, i, generation, RuntimeFilterState::Disabled)[i].filter.lifecycle,
            generation,
            may_contain,
        ) == ProbeDecision::PassUnfiltered,
{
}

/// Every key of the build side that is not null is kept by the probes of a
/// filter that was built from it and published.
pub proof fn law_build_side_keys_are_kept(
    slot: PoolSlotContent,
    target: RuntimeFilterTarget,
    params: BloomParams,
    column: KeyContent,
    row: int,
)
    requires
        slot.state == SLOT_FREE,
        acquire_outcome(slot.filter.lifecycle) is Ok,
        0 <= row < column_hashes(column).len(),
        column_hashes(column)[row] is Some,
    ensures
        ({
            let allocated = slot.allocated(target);
            let generation = allocated.generation;
            let full = with_hashes(allocated, params, generation, present(column_hashes(column)));
            decision(
                change_outcome(
                    full.filter.lifecycle,
                    generation,
                    RuntimeFilterState::Building,
                    RuntimeFilterState::Ready,
                )->Ok_0,
                generation,
                positions(params, column_hashes(column)[row]->0).subset_of(full.filter.bits),
            ) == ProbeDecision::MaybePresent
        }),
{
    let hashes = present(column_hashes(column));
    lemma_present(column_hashes(column), row);
    let i = choose|i: int|
        0 <= i < hashes.len() && #[trigger] hashes[i] == column_hashes(column)[row]->0;
    law_published_keys_are_kept(slot, target, params, hashes, i);
}

} // verus!
