//! What is collected from a plan, what its joins get, and how its execution runs.

use super::fsm::worker_execution_flow::transition;
use super::fsm::{WorkerExecutionEvent, WorkerExecutionState};
use super::runtime_filter_install::{
    all_given_back, installed, joins_below, plan_joins, PlanTree,
};
use super::runtime_filter_plan::{InstallState, JoinFacts, JoinFilter};
use super::scan_laws::{grown, lemma_two_added};
use super::spill::{is_safe, safe_component, PathText};
use super::spill_metrics::{
    first_children, operator_sums, plan_sums, DataFusionSpillMetrics, PlanSpill, SpillSums,
};
use crate::filter::pool::PoolSlotContent;
use crate::metrics::descriptor::{MetricId, METRIC_COUNT};
use crate::metrics::region::MetricsState;
use vstd::prelude::*;

verus! {

/// How many joins a plan and everything below it has.
pub open spec fn join_count(plan: PlanTree) -> nat
    decreases plan, 1nat, 0nat,
{
    count_below(plan, plan.children@.len()) + if plan.join is Some {
        1nat
    } else {
        0nat
    }
}

/// How many joins the first `n` children of a plan have.
pub open spec fn count_below(plan: PlanTree, n: nat) -> nat
    decreases plan, 0nat, n,
    when n <= plan.children@.len()
{
    if n == 0 {
        0
    } else {
        count_below(plan, (n - 1) as nat) + join_count(plan.children@[n - 1])
    }
}

proof fn lemma_join_count(plan: PlanTree)
    ensures
        plan_joins(plan).len() == join_count(plan),
    decreases plan, 1nat, 0nat,
{
    lemma_count_below(plan, plan.children@.len());
}

proof fn lemma_count_below(plan: PlanTree, n: nat)
    requires
        n <= plan.children@.len(),
    ensures
        joins_below(plan, n).len() == count_below(plan, n),
    decreases plan, 0nat, n,
{
    if n > 0 {
        lemma_count_below(plan, (n - 1) as nat);
        assert(decreases_to!(plan => plan.children@[n - 1]));
        lemma_join_count(plan.children@[n - 1]);
    }
}

proof fn lemma_below_grows(plan: PlanTree, i: nat, n: nat)
    requires
        i < n <= plan.children@.len(),
    ensures
        ({
            let child = plan_joins(plan.children@[i as int]);
            let at = joins_below(plan, i).len();
            let all = joins_below(plan, n);
            &&& at + child.len() <= all.len()
            &&& all.subrange(at as int, (at + child.len()) as int) == child
        }),
    decreases n,
{
    let before = joins_below(plan, (n - 1) as nat);
    let all = joins_below(plan, n);
    let child = plan_joins(plan.children@[i as int]);
    let at = joins_below(plan, i).len();
    if i == n - 1 {
        assert(all.subrange(at as int, (at + child.len()) as int) =~= child);
    } else {
        lemma_below_grows(plan, i, (n - 1) as nat);
        assert(all.subrange(at as int, (at + child.len()) as int) =~= before.subrange(
            at as int,
            (at + child.len()) as int,
        ));
    }
}

/// The joins of a plan are all its joins, each once: the joins of every child
/// stand together among them, those of an earlier child first, and the join of
/// the node itself comes last.
pub proof fn law_all_joins_are_collected(plan: PlanTree, i: nat)
    requires
        i < plan.children@.len(),
    ensures
        plan_joins(plan).len() == join_count(plan),
        plan.join matches Some(join) ==> plan_joins(plan).last() == join,
        ({
            let child = plan_joins(plan.children@[i as int]);
            let at = count_below(plan, i);
            &&& at + child.len() <= plan_joins(plan).len()
            &&& plan_joins(plan).subrange(at as int, (at + child.len()) as int) == child
        }),
{
    lemma_join_count(plan);
    lemma_count_below(plan, i);
    lemma_below_grows(plan, i, plan.children@.len());
    let child = plan_joins(plan.children@[i as int]);
    let at = count_below(plan, i);
    let below = joins_below(plan, plan.children@.len());
    assert(plan_joins(plan).subrange(at as int, (at + child.len()) as int) =~= below.subrange(
        at as int,
        (at + child.len()) as int,
    ));
}

/// The joins are asked one after the other, each on what the ones before it left.
/// Each gets what it is then given. The first that fails ends it, with its
/// failure, and the ones behind it are not asked.
pub proof fn law_joins_are_asked_in_turn(
    start: InstallState,
    attached: bool,
    joins: Seq<JoinFacts>,
    session_epoch: u64,
    i: int,
)
    requires
        0 <= i < joins.len(),
    ensures
        ({
            let before = installed(start, attached, joins.take(i), session_epoch);
            let (state, outcome) = before.state.wrapped(attached, joins[i], session_epoch);
            let after = installed(start, attached, joins.take(i + 1), session_epoch);
            &&& installed(start, attached, joins.take(0), session_epoch).state == start
            &&& before.failure is None ==> {
                &&& before.filters.len() == i
                &&& after.state == state
                &&& outcome matches Ok(filter) ==> {
                    &&& after.failure is None
                    &&& after.filters == before.filters.push(filter)
                }
                &&& outcome matches Err(e) ==> {
                    &&& after.failure == Some(e)
                    &&& after.filters == before.filters
                }
            }
            &&& before.failure is Some ==> after == before
            &&& before.failure is Some ==> installed(start, attached, joins, session_epoch)
                == before
        }),
    decreases joins.len() - i,
{
    let later = joins.take(i + 1);
    assert(later.drop_last() =~= joins.take(i));
    super::runtime_filter_install::law_every_join_is_asked_or_failed(
        start,
        attached,
        joins.take(i),
        session_epoch,
    );
    assert(joins.take(0) =~= Seq::<JoinFacts>::empty());
    if i + 1 < joins.len() {
        law_joins_are_asked_in_turn(start, attached, joins, session_epoch, i + 1);
    } else {
        assert(later =~= joins);
    }
}

/// The filter is for this slot.
pub open spec fn names(filter: Option<JoinFilter>, slot: int) -> bool {
    filter matches Some(filter) && filter.state.handle.slot_index == slot
}

/// Filters that are given back change their own slots only, and each of them its
/// own: a slot that no filter names stays as it is, and a slot that one filter
/// names is as after giving back that filter alone.
pub proof fn law_each_filter_is_given_back(
    slots: Seq<PoolSlotContent>,
    filters: Seq<Option<JoinFilter>>,
    slot: int,
    k: int,
)
    requires
        0 <= slot < slots.len(),
        forall|j: int|
            0 <= j < filters.len() && j != k ==> !names(#[trigger] filters[j], slot),
        forall|j: int|
            0 <= j < filters.len() ==> ((#[trigger] filters[j]) matches Some(filter) ==> 0
                <= filter.state.handle.slot_index < slots.len()),
    ensures
        all_given_back(slots, filters).len() == slots.len(),
        0 <= k < filters.len() && names(filters[k], slot) ==> all_given_back(slots, filters)[slot]
            == filters[k]->0.state.given_back(slots)[slot],
        !(0 <= k < filters.len() && names(filters[k], slot)) ==> all_given_back(
            slots,
            filters,
        )[slot] == slots[slot],
    decreases filters.len(),
{
    if filters.len() > 0 {
        let fewer = filters.drop_last();
        assert forall|j: int| 0 <= j < fewer.len() && j != k implies !names(
            #[trigger] fewer[j],
            slot,
        ) by {
            assert(fewer[j] == filters[j]);
        }
        assert forall|j: int| 0 <= j < fewer.len() implies ((
        #[trigger] fewer[j]) matches Some(filter) ==> 0 <= filter.state.handle.slot_index
            < slots.len()) by {
            assert(fewer[j] == filters[j]);
        }
        law_each_filter_is_given_back(slots, fewer, slot, k);
        let before = all_given_back(slots, fewer);
        let last = filters[filters.len() - 1];
        if k == filters.len() - 1 && names(last, slot) {
            assert(before[slot] == slots[slot]);
        }
    }
}

/// What a list of sums adds up to.
pub open spec fn added_up(sums: Seq<SpillSums>) -> SpillSums
    decreases sums.len(),
{
    if sums.len() == 0 {
        SpillSums { spill_count: 0, spilled_rows: 0, spilled_bytes: 0 }
    } else {
        let before = added_up(sums.drop_last());
        SpillSums {
            spill_count: before.spill_count + sums.last().spill_count,
            spilled_rows: before.spilled_rows + sums.last().spilled_rows,
            spilled_bytes: before.spilled_bytes + sums.last().spilled_bytes,
        }
    }
}

proof fn lemma_children_add_up(plan: PlanSpill, n: nat)
    requires
        n <= plan.children@.len(),
    ensures
        first_children(plan, n) == added_up(
            Seq::new(n, |i: int| plan_sums(plan.children@[i])),
        ),
    decreases n,
{
    if n > 0 {
        lemma_children_add_up(plan, (n - 1) as nat);
        let sums = Seq::new(n, |i: int| plan_sums(plan.children@[i]));
        assert(sums.drop_last() =~= Seq::new(
            (n - 1) as nat,
            |i: int| plan_sums(plan.children@[i]),
        ));
    }
}

/// A plan spilled what its own operator reports and what each of the plans below
/// it spilled, count by count. What an operator does not report counts as none.
pub proof fn law_spills_add_up(plan: PlanSpill)
    ensures
        ({
            let below = added_up(
                Seq::new(plan.children@.len(), |i: int| plan_sums(plan.children@[i])),
            );
            let own = operator_sums(plan.operator);
            &&& plan_sums(plan).spill_count == own.spill_count + below.spill_count
            &&& plan_sums(plan).spilled_rows == own.spilled_rows + below.spilled_rows
            &&& plan_sums(plan).spilled_bytes == own.spilled_bytes + below.spilled_bytes
        }),
        plan.operator is None ==> operator_sums(plan.operator) == (SpillSums {
            spill_count: 0,
            spilled_rows: 0,
            spilled_bytes: 0,
        }),
        plan.operator matches Some(spill) ==> {
            let own = operator_sums(plan.operator);
            &&& own.spill_count == (if spill.spill_count is Some {
                spill.spill_count->0 as nat
            } else {
                0
            })
            &&& own.spilled_rows == (if spill.spilled_rows is Some {
                spill.spilled_rows->0 as nat
            } else {
                0
            })
            &&& own.spilled_bytes == (if spill.spilled_bytes is Some {
                spill.spilled_bytes->0 as nat
            } else {
                0
            })
        },
{
    lemma_children_add_up(plan, plan.children@.len());
}

/// Each sum is reported as it is, up to the largest number.
pub proof fn law_sums_are_reported(sums: SpillSums)
    ensures
        sums.spill_count <= u64::MAX ==> sums.counted().spill_count == sums.spill_count,
        sums.spilled_rows <= u64::MAX ==> sums.counted().spilled_rows == sums.spilled_rows,
        sums.spilled_bytes <= u64::MAX ==> sums.counted().spilled_bytes == sums.spilled_bytes,
        sums.spill_count > u64::MAX ==> sums.counted().spill_count == u64::MAX,
        sums.spilled_rows > u64::MAX ==> sums.counted().spilled_rows == u64::MAX,
        sums.spilled_bytes > u64::MAX ==> sums.counted().spilled_bytes == u64::MAX,
{
}

/// Recorded spills are counted each in its own metric, and nowhere else.
pub proof fn law_spills_are_recorded(
    state: MetricsState,
    totals: DataFusionSpillMetrics,
    other: MetricId,
)
    requires
        state.header is Some,
        state.values.len() == METRIC_COUNT,
    ensures
        ({
            let after = state.spills_added(totals);
            &&& grown(state, after, MetricId::WorkerSpillCountTotal, totals.spill_count as int)
            &&& grown(state, after, MetricId::WorkerSpilledRowsTotal, totals.spilled_rows as int)
            &&& grown(state, after, MetricId::WorkerSpilledBytesTotal, totals.spilled_bytes as int)
            &&& other != MetricId::WorkerSpillCountTotal && other
                != MetricId::WorkerSpilledRowsTotal && other != MetricId::WorkerSpilledBytesTotal
                ==> after.value(other) == state.value(other)
        }),
{
    let count = MetricId::WorkerSpillCountTotal;
    let rows = MetricId::WorkerSpilledRowsTotal;
    let bytes = MetricId::WorkerSpilledBytesTotal;
    lemma_two_added(state, count, totals.spill_count, rows, totals.spilled_rows, other);
    lemma_two_added(state, count, totals.spill_count, rows, totals.spilled_rows, bytes);
    let first = state.added(count, totals.spill_count);
    lemma_two_added(first, rows, totals.spilled_rows, bytes, totals.spilled_bytes, other);
    lemma_two_added(first, rows, totals.spilled_rows, bytes, totals.spilled_bytes, count);
    lemma_two_added(state, count, totals.spill_count, bytes, totals.spilled_bytes, rows);
}

/// A text keeps its letters, digits, dashes, underscores and dots as a path
/// component, in their places; every other character becomes an underscore, and
/// no text at all becomes a name of its own.
pub proof fn law_component_keeps_what_is_safe(value: Seq<char>, i: int)
    requires
        0 <= i < value.len(),
    ensures
        safe_component(value).len() == value.len(),
        is_safe(value[i]) ==> safe_component(value)[i] == value[i],
        !is_safe(value[i]) ==> safe_component(value)[i] == '_',
        safe_component(Seq::empty()) == "unknown"@,
        is_safe(value[i]) <==> {
            ||| 'a' <= value[i] <= 'z'
            ||| 'A' <= value[i] <= 'Z'
            ||| '0' <= value[i] <= '9'
            ||| value[i] == '-'
            ||| value[i] == '_'
            ||| value[i] == '.'
        },
{
}

/// A name below a path comes behind all the names of the path.
pub proof fn law_name_below_comes_last(path: PathText, name: Seq<char>)
    ensures
        path.below(name).base == path.base,
        path.below(name).components.len() == path.components.len() + 1,
        path.below(name).components.last() == name,
        path.below(name).components.drop_last() == path.components,
{
    assert(path.below(name).components.drop_last() =~= path.components);
}

/// An execution goes from receiving its plan over planning to running, in this
/// order and no other. It can end early from each of these, by failure, by
/// cancellation or because the transport restarts, and it comes to rest again by
/// cleaning up, and only so.
pub proof fn law_execution_runs_in_order(state: WorkerExecutionState, event: WorkerExecutionEvent)
    ensures
        ({
            let next = transition(state, event);
            let under_way = state is ReceivingPlan || state is Planning || state is Running;
            &&& event is StartExecution ==> (next is Some <==> state is Idle)
            &&& event is PlanFrame || event is PlanDecoded ==> (next is Some
                <==> state is ReceivingPlan)
            &&& event is PhysicalPlanReady ==> (next is Some <==> state is Planning)
            &&& event is OpenScan || event is ScanPage || event is ScanEof
                || event is CompleteExecution ==> (next is Some <==> state is Running)
            &&& event is FailExecution || event is CancelExecution ==> (next is Some <==> under_way)
            &&& event is TransportRestart ==> (next is Some <==> !(state is Terminal))
            &&& event is Cleanup ==> (next is Some <==> state is Terminal)
            &&& next matches Some((after, action)) ==> {
                &&& after is ReceivingPlan <==> event is StartExecution || event is PlanFrame
                &&& after is Planning <==> event is PlanDecoded
                &&& after is Running <==> event is PhysicalPlanReady || event is OpenScan
                    || event is ScanPage || event is ScanEof
                &&& after is Terminal <==> event is CompleteExecution || event is FailExecution
                    || event is CancelExecution || event is TransportRestart
                &&& after is Idle <==> event is Cleanup
                &&& action is OpenPlanFlow <==> event is StartExecution
                &&& action is AcceptPlanFrame <==> event is PlanFrame
                &&& action is PlanPhysical <==> event is PlanDecoded
                &&& action is MarkRunning <==> event is PhysicalPlanReady
                &&& action is OpenScan <==> event is OpenScan
                &&& action is AcceptScanPage <==> event is ScanPage
                &&& action is ObserveScanEof <==> event is ScanEof
                &&& action is CompleteExecution <==> event is CompleteExecution
                &&& action is FailExecution <==> event is FailExecution
                &&& action is CancelExecution <==> event is CancelExecution
                &&& action is AbortForTransportRestart <==> event is TransportRestart
                &&& action is CleanupExecution <==> event is Cleanup
            }
        }),
{
}

} // verus!
