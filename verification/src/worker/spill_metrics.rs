//! What queries spilled.

use crate::metrics::descriptor::MetricId;
use crate::metrics::region::{saturated, MetricsState, RuntimeMetrics};
use vstd::prelude::*;

verus! {

/// What one operator reports; a number that it does not report is none.
#[derive(Clone, Copy, Debug, PartialEq, Eq)]
pub struct OperatorSpill {
    pub spill_count: Option<usize>,
    pub spilled_rows: Option<usize>,
    pub spilled_bytes: Option<usize>,
}

/// A physical plan, as far as it reports spilling: what each operator reports,
/// if anything, and the operators below it.
#[derive(Debug)]
pub struct PlanSpill {
    pub operator: Option<OperatorSpill>,
    pub children: Vec<PlanSpill>,
}

/// Aggregated operator spill metrics for one physical plan tree.
#[derive(Clone, Copy, Debug, PartialEq, Eq, Structural)]
pub struct DataFusionSpillMetrics {
    pub spill_count: u64,
    pub spilled_rows: u64,
    pub spilled_bytes: u64,
}

impl Default for DataFusionSpillMetrics {
    fn default() -> (r: Self)
        ensures
            r == (DataFusionSpillMetrics { spill_count: 0, spilled_rows: 0, spilled_bytes: 0 }),
    {
        DataFusionSpillMetrics { spill_count: 0, spilled_rows: 0, spilled_bytes: 0 }
    }
}

/// Exact sums.
pub struct SpillSums {
    pub spill_count: nat,
    pub spilled_rows: nat,
    pub spilled_bytes: nat,
}

/// A reported number; nothing reported is nothing spilled.
pub open spec fn reported(value: Option<usize>) -> nat {
    match value {
        Some(v) => v as nat,
        None => 0,
    }
}

impl SpillSums {
    pub open spec fn none() -> SpillSums {
        SpillSums { spill_count: 0, spilled_rows: 0, spilled_bytes: 0 }
    }

    /// These sums and others.
    pub open spec fn plus(self, other: SpillSums) -> SpillSums {
        SpillSums {
            spill_count: self.spill_count + other.spill_count,
            spilled_rows: self.spilled_rows + other.spilled_rows,
            spilled_bytes: self.spilled_bytes + other.spilled_bytes,
        }
    }

    /// The numbers, each up to the largest.
    pub open spec fn counted(self) -> DataFusionSpillMetrics {
        DataFusionSpillMetrics {
            spill_count: saturated(self.spill_count as int),
            spilled_rows: saturated(self.spilled_rows as int),
            spilled_bytes: saturated(self.spilled_bytes as int),
        }
    }
}

/// What one operator spilled.
pub open spec fn operator_sums(operator: Option<OperatorSpill>) -> SpillSums {
    match operator {
        Some(spill) => SpillSums {
            spill_count: reported(spill.spill_count),
            spilled_rows: reported(spill.spilled_rows),
            spilled_bytes: reported(spill.spilled_bytes),
        },
        None => SpillSums::none(),
    }
}

/// What all operators of a plan spilled.
pub open spec fn plan_sums(plan: PlanSpill) -> SpillSums
    decreases plan, 1nat, 0nat,
{
    operator_sums(plan.operator).plus(first_children(plan, plan.children@.len()))
}

/// What the plans below the first `n` children spilled.
pub open spec fn first_children(plan: PlanSpill, n: nat) -> SpillSums
    decreases plan, 0nat, n,
    when n <= plan.children@.len()
{
    if n == 0 {
        SpillSums::none()
    } else {
        first_children(plan, (n - 1) as nat).plus(plan_sums(plan.children@[n - 1]))
    }
}

impl DataFusionSpillMetrics {
    /// Add what one operator reports.
    pub fn add_metrics_set(&mut self, operator: OperatorSpill)
        ensures
            final(self).spill_count == saturated(
                old(self).spill_count + reported(operator.spill_count),
            ),
            final(self).spilled_rows == saturated(
                old(self).spilled_rows + reported(operator.spilled_rows),
            ),
            final(self).spilled_bytes == saturated(
                old(self).spilled_bytes + reported(operator.spilled_bytes),
            ),
    {
        self.spill_count = self.spill_count.saturating_add(
            operator.spill_count.unwrap_or(0) as u64,
        );
        self.spilled_rows = self.spilled_rows.saturating_add(
            operator.spilled_rows.unwrap_or(0) as u64,
        );
        self.spilled_bytes = self.spilled_bytes.saturating_add(
            operator.spilled_bytes.unwrap_or(0) as u64,
        );
    }

    /// Add these totals to the worker's counters.
    pub fn record(self, metrics: &mut RuntimeMetrics)
        requires
            old(metrics).wf(),
        ensures
            final(metrics).wf(),
            final(metrics)@ == old(metrics)@.spills_added(self),
    {
        metrics.add(MetricId::WorkerSpillCountTotal, self.spill_count);
        metrics.add(MetricId::WorkerSpilledRowsTotal, self.spilled_rows);
        metrics.add(MetricId::WorkerSpilledBytesTotal, self.spilled_bytes);
    }
}

impl MetricsState {
    /// The metrics after spill totals were added.
    pub open spec fn spills_added(self, totals: DataFusionSpillMetrics) -> MetricsState {
        self.added(MetricId::WorkerSpillCountTotal, totals.spill_count).added(
            MetricId::WorkerSpilledRowsTotal,
            totals.spilled_rows,
        ).added(MetricId::WorkerSpilledBytesTotal, totals.spilled_bytes)
    }
}

fn collect_datafusion_spill_metrics(
    plan: &PlanSpill,
    totals: &mut DataFusionSpillMetrics,
    Ghost(sums): Ghost<SpillSums>,
)
    requires
        *old(totals) == sums.counted(),
    ensures
        *final(totals) == sums.plus(plan_sums(*plan)).counted(),
    decreases plan,
{
    match plan.operator {
        Some(operator) => {
            totals.add_metrics_set(operator);
        },
        None => {},
    }
    let ghost own = sums.plus(operator_sums(plan.operator));
    assert(*totals == own.counted());
    let mut i: usize = 0;
    while i < plan.children.len()
        invariant
            i <= plan.children@.len(),
            *totals == own.plus(first_children(*plan, i as nat)).counted(),
        decreases plan.children@.len() - i,
    {
        let ghost before = own.plus(first_children(*plan, i as nat));
        proof {
            assert(decreases_to!(*plan => plan.children@[i as int]));
        }
        collect_datafusion_spill_metrics(&plan.children[i], totals, Ghost(before));
        i = i + 1;
    }
}

/// Sum spill metrics across a physical plan tree.
pub fn datafusion_spill_metrics(plan: &PlanSpill) -> (r: DataFusionSpillMetrics)
    ensures
        r == plan_sums(*plan).counted(),
{
    let mut totals: DataFusionSpillMetrics = DataFusionSpillMetrics::default();
    collect_datafusion_spill_metrics(plan, &mut totals, Ghost(SpillSums::none()));
    totals
}

/// Add spill metrics from a physical plan tree to the worker's counters.
pub fn record_datafusion_spill_metrics(plan: &PlanSpill, metrics: &mut RuntimeMetrics)
    requires
        old(metrics).wf(),
    ensures
        final(metrics).wf(),
        final(metrics)@ == old(metrics)@.spills_added(plan_sums(*plan).counted()),
{
    datafusion_spill_metrics(plan).record(metrics);
}

/// Add spill files and bytes that are still there after an execution to the
/// leak counters.
pub fn record_datafusion_spill_leaks(
    active_files: usize,
    current_bytes: u64,
    metrics: &mut RuntimeMetrics,
)
    requires
        old(metrics).wf(),
    ensures
        final(metrics).wf(),
        final(metrics)@ == old(metrics)@.added(
            MetricId::WorkerSpillLeakedFilesTotal,
            active_files as u64,
        ).added(MetricId::WorkerSpillLeakedBytesTotal, current_bytes),
{
    metrics.add(MetricId::WorkerSpillLeakedFilesTotal, active_files as u64);
    metrics.add(MetricId::WorkerSpillLeakedBytesTotal, current_bytes);
}

} // verus!
