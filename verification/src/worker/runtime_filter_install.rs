//! Giving filters to the hash joins of a whole plan.

use super::error::WorkerRuntimeError;
use super::runtime_filter_plan::{maybe_wrap_hash_join, InstallState, JoinFacts, JoinFilter};
use crate::filter::pool::{PoolSlotContent, RuntimeFilterPool};
use crate::metrics::region::RuntimeMetrics;
use vstd::prelude::*;

verus! {

/// A physical plan: which of its nodes are hash joins.
pub struct PlanTree {
    /// What matters of the node, where it is a hash join.
    pub join: Option<JoinFacts>,
    pub children: Vec<PlanTree>,
}

/// The joins of a plan, those of the children before that of the node.
pub open spec fn plan_joins(plan: PlanTree) -> Seq<JoinFacts>
    decreases plan, 1nat, 0nat,
{
    let below = joins_below(plan, plan.children@.len());
    match plan.join {
        Some(join) => below.push(join),
        None => below,
    }
}

/// The joins of the first `n` children.
pub open spec fn joins_below(plan: PlanTree, n: nat) -> Seq<JoinFacts>
    decreases plan, 0nat, n,
    when n <= plan.children@.len()
{
    if n == 0 {
        Seq::empty()
    } else {
        joins_below(plan, (n - 1) as nat) + plan_joins(plan.children@[n - 1])
    }
}

/// How far giving filters to a list of joins came.
pub struct Installed {
    pub state: InstallState,
    /// What each join got, as far as it came.
    pub filters: Seq<Option<JoinFilter>>,
    /// Why it ended early.
    pub failure: Option<WorkerRuntimeError>,
}

/// Giving filters to a list of joins, one after the other, until one fails.
pub open spec fn installed(
    start: InstallState,
    attached: bool,
    joins: Seq<JoinFacts>,
    session_epoch: u64,
) -> Installed
    decreases joins.len(),
{
    if joins.len() == 0 {
        Installed { state: start, filters: Seq::empty(), failure: None }
    } else {
        let before = installed(start, attached, joins.drop_last(), session_epoch);
        if before.failure is Some {
            before
        } else {
            let (state, outcome) = before.state.wrapped(attached, joins.last(), session_epoch);
            match outcome {
                Ok(filter) => Installed {
                    state,
                    filters: before.filters.push(filter),
                    failure: None,
                },
                Err(e) => Installed { state, filters: before.filters, failure: Some(e) },
            }
        }
    }
}

/// The slots after filters were given back, the first one first.
pub open spec fn all_given_back(
    slots: Seq<PoolSlotContent>,
    filters: Seq<Option<JoinFilter>>,
) -> Seq<PoolSlotContent>
    decreases filters.len(),
{
    if filters.len() == 0 {
        slots
    } else {
        let before = all_given_back(slots, filters.drop_last());
        match filters.last() {
            Some(filter) => filter.state.given_back(before),
            None => before,
        }
    }
}

/// What references point to.
pub open spec fn pointed(joins: Seq<&JoinFacts>) -> Seq<JoinFacts> {
    joins.map_values(|join: &JoinFacts| *join)
}

fn collect_joins<'a>(plan: &'a PlanTree, joins: &mut Vec<&'a JoinFacts>)
    ensures
        pointed(final(joins)@) == pointed(old(joins)@) + plan_joins(*plan),
    decreases plan,
{
    let ghost before = pointed(joins@);
    let mut i: usize = 0;
    assert(pointed(joins@) =~= before + joins_below(*plan, 0));
    while i < plan.children.len()
        invariant
            i <= plan.children@.len(),
            pointed(joins@) == before + joins_below(*plan, i as nat),
        decreases plan.children@.len() - i,
    {
        let child: &'a PlanTree = &plan.children[i];
        proof {
            assert(decreases_to!(*plan => plan.children@[i as int]));
        }
        collect_joins(child, joins);
        i = i + 1;
        assert(pointed(joins@) =~= before + joins_below(*plan, i as nat));
    }
    match &plan.join {
        Some(join) => {
            let ghost so_far = joins@;
            joins.push(join);
            assert(pointed(joins@) =~= pointed(so_far).push(*join));
        },
        None => {},
    }
    assert(pointed(joins@) =~= before + plan_joins(*plan));
}

fn give_back_all(filters: &mut Vec<Option<JoinFilter>>, pool: &mut RuntimeFilterPool)
    requires
        old(pool).wf(),
        forall|j: int|
            0 <= j < old(filters)@.len() && (#[trigger] old(filters)@[j]) is Some
                ==> old(filters)@[j]->0.state.handle.fits(*old(pool)),
    ensures
        final(pool).wf(),
        final(pool).config == old(pool).config,
        final(pool).header == old(pool).header,
        final(pool)@ == all_given_back(old(pool)@, old(filters)@),
{
    let ghost all = filters@;
    let ghost start = pool@;
    let mut i: usize = 0;
    assert(all.take(0) =~= Seq::empty());
    while i < filters.len()
        invariant
            i <= filters@.len(),
            filters@.len() == all.len(),
            forall|j: int| i <= j < all.len() ==> #[trigger] filters@[j] == all[j],
            pool.wf(),
            pool.config == old(pool).config,
            pool.header == old(pool).header,
            pool@.len() == start.len(),
            pool.slots@.len() == start.len(),
            forall|j: int|
                0 <= j < all.len() && (#[trigger] all[j]) is Some
                    ==> all[j]->0.state.handle.fits(*pool),
            pool@ == all_given_back(start, all.take(i as int)),
        decreases filters.len() - i,
    {
        assert(all.take(i + 1).drop_last() =~= all.take(i as int));
        assert(filters@[i as int] == all[i as int]);
        match &mut filters[i] {
            Some(filter) => {
                assert(all[i as int] == Some(*filter));
                filter.state.release(pool);
            },
            None => {},
        }
        i = i + 1;
    }
    assert(all.take(all.len() as int) =~= all);
}

/// Gives every hash join of a plan its filter, if it can have one and the pool
/// has room. Where the pool fails, the filters given so far are given back.
pub fn install_runtime_filters(
    plan: &PlanTree,
    session_epoch: u64,
    pool: &mut RuntimeFilterPool,
    metrics: &mut RuntimeMetrics,
) -> (r: Result<Vec<Option<JoinFilter>>, WorkerRuntimeError>)
    requires
        forall|i: int|
            0 <= i < plan_joins(*plan).len() ==> (#[trigger] plan_joins(*plan)[i]).wf(),
        old(pool).wf(),
        old(metrics).wf(),
    ensures
        final(pool).wf(),
        final(metrics).wf(),
        final(pool).config == old(pool).config,
        final(pool).header == old(pool).header,
        ({
            let done = installed(
                InstallState { slots: old(pool)@, metrics: old(metrics)@ },
                old(pool).header is Some,
                plan_joins(*plan),
                session_epoch,
            );
            &&& final(metrics)@ == done.state.metrics
            &&& match done.failure {
                None => r matches Ok(filters) && filters@ == done.filters && final(pool)@
                    == done.state.slots,
                Some(e) => {
                    &&& r == Err::<Vec<Option<JoinFilter>>, WorkerRuntimeError>(e)
                    &&& final(pool)@ == all_given_back(done.state.slots, done.filters)
                },
            }
        }),
{
    let ghost start = InstallState { slots: pool@, metrics: metrics@ };
    let ghost attached = pool.header is Some;
    let ghost all = plan_joins(*plan);
    let mut joins: Vec<&JoinFacts> = Vec::new();
    assert(pointed(joins@) =~= Seq::empty());
    collect_joins(plan, &mut joins);
    assert(pointed(joins@) =~= all);
    let mut filters: Vec<Option<JoinFilter>> = Vec::new();
    let mut i: usize = 0;
    assert(all.take(0) =~= Seq::empty());
    while i < joins.len()
        invariant
            i <= joins@.len(),
            joins@.len() == all.len(),
            pointed(joins@) == all,
            all == plan_joins(*plan),
            forall|j: int| 0 <= j < all.len() ==> (#[trigger] all[j]).wf(),
            pool.wf(),
            metrics.wf(),
            pool.config == old(pool).config,
            pool.header == old(pool).header,
            attached == (pool.header is Some),
            start == (InstallState { slots: old(pool)@, metrics: old(metrics)@ }),
            ({
                let done = installed(start, attached, all.take(i as int), session_epoch);
                &&& done.failure is None
                &&& done.filters == filters@
                &&& done.state == (InstallState { slots: pool@, metrics: metrics@ })
            }),
            forall|j: int|
                0 <= j < filters@.len() && (#[trigger] filters@[j]) is Some
                    ==> filters@[j]->0.state.handle.fits(*pool),
        decreases joins.len() - i,
    {
        proof {
            assert(all.take(i + 1).drop_last() =~= all.take(i as int));
            assert(all.take(i + 1).last() == all[i as int]);
            assert(pointed(joins@)[i as int] == *joins@[i as int]);
        }
        let join: &JoinFacts = joins[i];
        match maybe_wrap_hash_join(join, session_epoch, pool, metrics) {
            Ok(filter) => {
                filters.push(filter);
            },
            Err(e) => {
                proof {
                    lemma_failure_stays(start, attached, all, i + 1, session_epoch);
                }
                give_back_all(&mut filters, pool);
                return Err(e);
            },
        }
        i = i + 1;
    }
    assert(all.take(all.len() as int) =~= all);
    Ok(filters)
}

proof fn lemma_failure_stays(
    start: InstallState,
    attached: bool,
    joins: Seq<JoinFacts>,
    n: int,
    session_epoch: u64,
)
    requires
        0 <= n <= joins.len(),
        installed(start, attached, joins.take(n), session_epoch).failure is Some,
    ensures
        installed(start, attached, joins, session_epoch) == installed(
            start,
            attached,
            joins.take(n),
            session_epoch,
        ),
    decreases joins.len() - n,
{
    if n == joins.len() {
        assert(joins.take(n) =~= joins);
    } else {
        assert(joins.take(n + 1).drop_last() =~= joins.take(n));
        lemma_failure_stays(start, attached, joins, n + 1, session_epoch);
    }
}

/// Where nothing fails, every join is asked once, in order.
pub proof fn law_every_join_is_asked(
    start: InstallState,
    attached: bool,
    joins: Seq<JoinFacts>,
    session_epoch: u64,
)
    requires
        installed(start, attached, joins, session_epoch).failure is None,
    ensures
        installed(start, attached, joins, session_epoch).filters.len() == joins.len(),
    decreases joins.len(),
{
    if joins.len() > 0 {
        law_every_join_is_asked(start, attached, joins.drop_last(), session_epoch);
    }
}

/// Every join gets an answer until one fails: that one gets none.
pub proof fn law_every_join_is_asked_or_failed(
    start: InstallState,
    attached: bool,
    joins: Seq<JoinFacts>,
    session_epoch: u64,
)
    ensures
        ({
            let done = installed(start, attached, joins, session_epoch);
            &&& done.filters.len() <= joins.len()
            &&& done.failure is None <==> done.filters.len() == joins.len()
        }),
    decreases joins.len(),
{
    if joins.len() > 0 {
        law_every_join_is_asked_or_failed(start, attached, joins.drop_last(), session_epoch);
    }
}

} // verus!
