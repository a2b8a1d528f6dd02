//! What the calls on a region do to it over time.
//!
//! [`RegionCall`] lists the calls that change a region, whole ones and the
//! single steps between which other processes may act. A history is a sequence
//! of calls, by whatever processes, in the order in which they took effect.

use super::claim::ClaimState;
use super::error::{ProbeFailure, SlotAccessError};
use super::layout::TransportRegionLayout;
use super::lease::lease_id_of;
use super::lifecycle::lifecycle_error;
use super::meta::{LeaseIncarnation, WORKER_STATE_OFFLINE, WORKER_STATE_RESTARTING};
use super::process::LivenessTable;
use super::raw::{sent, taken, RingDirection};
use super::region::{fresh_region, RegionState};
use super::registry::{held_slots, lemma_found_registry, ProcessState};
use super::reinit::{no_pass, reinit_refusal, settle_step, ReinitPass, ReinitStage, SettleStep};
use super::worker::lemma_held_slots_in_range;
use vstd::prelude::*;

verus! {

/// A call on a region. Calls that do not change the region, such as attaching a
/// worker, are not listed.
pub enum RegionCall {
    /// A backend acquires a lease.
    Acquire { table: LivenessTable, pid: i32 },
    /// The first step of an acquisition.
    BeginAcquire { table: LivenessTable, pid: i32 },
    /// The second step of an acquisition.
    ConfirmAcquire { id: u32, incarnation: LeaseIncarnation, pid: i32 },
    /// A backend lets go of its lease.
    ReleaseLease { id: u32, incarnation: LeaseIncarnation, pid: i32 },
    /// A worker claims a slot, after its first look at it said `verdict`.
    Claim {
        process: ProcessState,
        verdict: Result<LeaseIncarnation, SlotAccessError>,
        id: u32,
        table: LivenessTable,
    },
    /// The step of a claim that sets the pending bit.
    ReserveClaim { process: ProcessState, id: u32, incarnation: LeaseIncarnation },
    /// The step of a claim that looks again.
    RecheckClaim {
        process: ProcessState,
        id: u32,
        incarnation: LeaseIncarnation,
        table: LivenessTable,
    },
    /// The last step of a claim.
    CommitClaim { process: ProcessState, id: u32, incarnation: LeaseIncarnation },
    /// A worker lets go of a slot.
    ReleaseClaim { id: u32, incarnation: LeaseIncarnation, pid: i32 },
    /// A worker lets go of all its slots.
    Exit { process: ProcessState },
    /// A frame is sent.
    Send { id: u32, direction: RingDirection, payload: Seq<u8> },
    /// A frame is received.
    Receive { id: u32, direction: RingDirection, frame_len: int },
    /// The process id of the worker is set or cleared.
    SetWorkerPid { worker_pid: i32 },
    /// A worker generation is put online.
    Activate { process: ProcessState, worker_pid: i32, table: LivenessTable },
    /// The first step of an activation: the next generation is announced.
    AnnounceGeneration { process: ProcessState, table: LivenessTable },
    /// The second step of an activation.
    PutOnline { worker_pid: i32 },
    /// The worker generation is ended.
    Deactivate { process: ProcessState },
    /// A region is reset as far as it can be without waiting.
    Reset { base: usize, len: usize, layout: TransportRegionLayout, table: LivenessTable },
    /// The first step of a reset: it is announced.
    BeginReset { base: usize, len: usize, layout: TransportRegionLayout },
    /// A later step of a reset.
    ResumeReset { stage: ReinitStage, table: LivenessTable },
    /// A free slot gets its token.
    Publish { id: u32, pid: i32 },
    /// The first step of a publication.
    BeginPublish { id: u32, pid: i32 },
    /// The second step of a publication.
    FinishPublish { id: u32, epoch: u64 },
    /// An acquisition that holds a popped or reserved slot is given up.
    AbortAcquire { id: u32, pid: i32 },
}

impl RegionCall {
    /// The call on `v` may leave `w`.
    pub open spec fn leads(self, v: RegionState, w: RegionState) -> bool {
        match self {
            RegionCall::Acquire { table, pid } => w == v.lease_acquired(table, pid).0,
            RegionCall::BeginAcquire { table, pid } => w == v.lease_begun(table, pid).0,
            RegionCall::ConfirmAcquire { id, incarnation, pid } => v.has_slot(id) && w
                == v.lease_confirmed(id, incarnation, pid).0,
            RegionCall::ReleaseLease { id, incarnation, pid } => v.has_slot(id) && w
                == v.backend_released(id as int, incarnation, pid),
            RegionCall::Claim { process, verdict, id, table } => {
                &&& verdict matches Ok(incarnation) ==> v.has_slot(id)
                    && v.slots[id as int].generation == incarnation.generation
                &&& w == (ClaimState { region: v, process }).claimed(verdict, id, table).0.region
            },
            RegionCall::ReserveClaim { process, id, incarnation } => v.has_slot(id) && w == (
            ClaimState { region: v, process }).claim_reserved(id, incarnation).0.region,
            RegionCall::RecheckClaim { process, id, incarnation, table } => v.has_slot(id) && w
                == (ClaimState { region: v, process }).claim_rechecked(
                id,
                incarnation,
                table,
            ).0.region,
            RegionCall::CommitClaim { process, id, incarnation } => v.has_slot(id) && w == (
            ClaimState { region: v, process }).claim_committed(id, incarnation).0.region,
            RegionCall::ReleaseClaim { id, incarnation, pid } => v.has_slot(id) && w
                == v.worker_released(id as int, incarnation, pid),
            RegionCall::Exit { process } => w == v.workers_released(
                held_slots(process.owners(v.key, v.layout.slot_count)),
                process.pid,
            ),
            RegionCall::Send { id, direction, payload } => w == v || (v.has_slot(id) && sent(
                v,
                id as int,
                direction,
                payload,
                w,
            )),
            RegionCall::Receive { id, direction, frame_len } => w == v || (v.has_slot(id) && taken(
                v,
                id as int,
                direction,
                frame_len,
                w,
            )),
            RegionCall::SetWorkerPid { worker_pid } => w == v.with_worker_pid(worker_pid),
            RegionCall::Activate { process, worker_pid, table } => w == if self.switches(v) {
                v.activated(worker_pid, table, process.pid)
            } else {
                v
            },
            RegionCall::AnnounceGeneration { process, table } => w == if self.switches(v) {
                v.generation_begun(WORKER_STATE_RESTARTING).swept_from(
                    0,
                    (v.meta.generation + 1) as u64,
                    table,
                    process.pid,
                )
            } else {
                v
            },
            RegionCall::PutOnline { worker_pid } => w == v.with_worker_pid(
                worker_pid,
            ).with_region_meta(v.meta.generation, super::meta::WORKER_STATE_ONLINE),
            RegionCall::Deactivate { process } => w == if self.switches(v) {
                v.generation_begun(WORKER_STATE_OFFLINE)
            } else {
                v
            },
            RegionCall::Reset { base, len, layout, table } => w == if self.switches(v) {
                v.reinit_begun().reinit_resumed(ReinitStage::Quiescing, table).0
            } else {
                v
            },
            RegionCall::BeginReset { base, len, layout } => w == if self.switches(v) {
                v.reinit_begun()
            } else {
                v
            },
            RegionCall::ResumeReset { stage, table } => {
                &&& stage matches ReinitStage::Rebuilding(epoch) ==> epoch == v.freelist_epoch
                &&& w == v.reinit_resumed(stage, table).0
            },
            RegionCall::Publish { id, pid } => v.has_slot(id) && w == v.published(
                id as int,
                pid,
            ).0,
            RegionCall::BeginPublish { id, pid } => v.has_slot(id) && w == v.publish_begun(
                id as int,
                pid,
            ).0,
            RegionCall::FinishPublish { id, epoch } => v.has_slot(id) && w == v.publish_finished(
                id as int,
                epoch,
            ).0,
            RegionCall::AbortAcquire { id, pid } => v.has_slot(id) && w == v.acquire_aborted(
                id as int,
                pid,
            ).0,
        }
    }

    /// The call is a whole one, not a step of one.
    pub open spec fn whole(self) -> bool {
        match self {
            RegionCall::BeginAcquire { .. } => false,
            RegionCall::ConfirmAcquire { .. } => false,
            RegionCall::ReserveClaim { .. } => false,
            RegionCall::RecheckClaim { .. } => false,
            RegionCall::CommitClaim { .. } => false,
            RegionCall::AnnounceGeneration { .. } => false,
            RegionCall::PutOnline { .. } => false,
            RegionCall::BeginReset { .. } => false,
            RegionCall::ResumeReset { .. } => false,
            RegionCall::BeginPublish { .. } => false,
            RegionCall::FinishPublish { .. } => false,
            RegionCall::AbortAcquire { .. } => false,
            _ => true,
        }
    }

    /// The call switches the worker generation of `v`: it is an activation, a
    /// deactivation or a reset, and it is not refused.
    pub open spec fn switches(self, v: RegionState) -> bool {
        match self {
            RegionCall::Activate { process, .. } => lifecycle_error(v, process) is None,
            RegionCall::AnnounceGeneration { process, .. } => lifecycle_error(v, process) is None,
            RegionCall::Deactivate { process } => lifecycle_error(v, process) is None,
            RegionCall::Reset { base, len, layout, .. } => reinit_refusal(
                base,
                len,
                v.header,
                layout,
            ) is None,
            RegionCall::BeginReset { base, len, layout } => reinit_refusal(
                base,
                len,
                v.header,
                layout,
            ) is None,
            _ => false,
        }
    }

    /// The slot and the lease that the call hands out, if it does.
    pub open spec fn granted(self, v: RegionState) -> Option<(u32, LeaseIncarnation)> {
        match self {
            RegionCall::Acquire { table, pid } => match v.lease_acquired(table, pid).1 {
                Ok(lease) => Some(lease),
                Err(_) => None,
            },
            RegionCall::BeginAcquire { table, pid } => match v.lease_begun(table, pid).1 {
                Ok(lease) => Some(lease),
                Err(_) => None,
            },
            _ => None,
        }
    }
}

/// Every token names a slot.
pub open spec fn tokens_in_range(v: RegionState) -> bool {
    forall|i: int| 0 <= i < v.freelist.len() ==> (#[trigger] v.freelist[i]) < v.slots.len()
}

/// The words that only acquisitions and generation switches change.
pub open spec fn same_words(v: RegionState, w: RegionState) -> bool {
    w.meta.generation == v.meta.generation && w.next_lease_epoch == v.next_lease_epoch
}

/// Publishing a slot changes that slot and the free stack only.
pub proof fn lemma_publish_frame(v: RegionState, id: u32, pid: i32)
    requires
        v.has_slot(id),
        tokens_in_range(v),
    ensures
        v.published(id as int, pid).0.same_frame(v),
        tokens_in_range(v.published(id as int, pid).0),
        v.acquire_aborted(id as int, pid).0.same_frame(v),
        tokens_in_range(v.acquire_aborted(id as int, pid).0),
        v.with_emptied(id as int).published(id as int, pid).0.same_frame(v),
        tokens_in_range(v.with_emptied(id as int).published(id as int, pid).0),
{
}

proof fn lemma_take_frame(v: RegionState, pid: i32)
    requires
        tokens_in_range(v),
    ensures
        v.token_taken(pid).0.same_frame(v),
        tokens_in_range(v.token_taken(pid).0),
        v.token_taken(pid).1 matches Some(id) ==> v.has_slot(id),
    decreases v.pop_measure(),
{
    if v.freelist.len() > 0 {
        let id = v.freelist.last();
        assert(v.freelist[v.freelist.len() - 1] < v.slots.len());
        let top = v.without_top();
        assert(tokens_in_range(top)) by {
            assert forall|i: int| 0 <= i < top.freelist.len() implies (#[trigger] top.freelist[i])
                < top.slots.len() by {
                assert(v.freelist[i] < v.slots.len());
            }
        }
        lemma_publish_frame(top, id, pid);
        v.lemma_pop_step(pid);
        let (next, had) = top.claimed_after_pop(id as int, pid);
        if !had {
            lemma_take_frame(next, pid);
        }
    }
}

/// Letting go of a slot changes that slot and the free stack only.
pub proof fn lemma_detach_frame(
    v: RegionState,
    id: u32,
    incarnation: LeaseIncarnation,
    table: LivenessTable,
    pid: i32,
)
    requires
        v.has_slot(id),
        tokens_in_range(v),
    ensures
        v.finalized(id as int, incarnation, pid).0.same_frame(v),
        tokens_in_range(v.finalized(id as int, incarnation, pid).0),
        v.worker_released(id as int, incarnation, pid).same_frame(v),
        tokens_in_range(v.worker_released(id as int, incarnation, pid)),
        v.claim_rolled_back(id as int, incarnation, pid).same_frame(v),
        tokens_in_range(v.claim_rolled_back(id as int, incarnation, pid)),
        v.backend_detached(id as int, incarnation, pid).same_frame(v),
        tokens_in_range(v.backend_detached(id as int, incarnation, pid)),
        v.backend_released(id as int, incarnation, pid).same_frame(v),
        tokens_in_range(v.backend_released(id as int, incarnation, pid)),
        v.reaped(id as int, incarnation, table, pid).0.same_frame(v),
        tokens_in_range(v.reaped(id as int, incarnation, table, pid).0),
{
}

proof fn lemma_reap_frame(
    v: RegionState,
    from: int,
    any: bool,
    first: Option<(u32, ProbeFailure)>,
    table: LivenessTable,
    pid: i32,
)
    requires
        tokens_in_range(v),
        0 <= from,
        v.slots.len() <= u32::MAX,
    ensures
        v.reaped_from(from, any, first, table, pid).0.same_frame(v),
        tokens_in_range(v.reaped_from(from, any, first, table, pid).0),
    decreases v.slots.len() - from,
{
    if from < v.slots.len() {
        let slot = v.slots[from];
        lemma_detach_frame(
            v,
            from as u32,
            LeaseIncarnation { generation: slot.generation, lease_epoch: slot.meta.epoch },
            table,
            pid,
        );
        let (next, r) = v.reaped_one(from, table, pid);
        lemma_reap_frame(
            next,
            from + 1,
            any || r == Ok::<bool, ProbeFailure>(true),
            match r {
                Err(failure) => if first is None {
                    Some((from as u32, failure))
                } else {
                    first
                },
                Ok(_) => first,
            },
            table,
            pid,
        );
    }
}

proof fn lemma_sweep_frame(
    v: RegionState,
    from: int,
    generation: u64,
    table: LivenessTable,
    pid: i32,
)
    requires
        tokens_in_range(v),
        0 <= from,
        v.slots.len() <= u32::MAX,
    ensures
        v.swept_from(from, generation, table, pid).same_frame(v),
    decreases v.slots.len() - from,
{
    if from < v.slots.len() {
        let slot = v.slots[from];
        let incarnation = LeaseIncarnation {
            generation: slot.generation,
            lease_epoch: slot.meta.epoch,
        };
        lemma_detach_frame(v, from as u32, incarnation, table, pid);
        let next = v.reaped(from, incarnation, table, pid).0;
        lemma_detach_frame(next, from as u32, incarnation, table, pid);
        lemma_sweep_frame(
            v.swept_one(from, generation, table, pid),
            from + 1,
            generation,
            table,
            pid,
        );
    }
}

proof fn lemma_quiesce_frame(v: RegionState, from: int, pass: ReinitPass, table: LivenessTable)
    requires
        0 <= from,
    ensures
        v.quiesced_from(from, pass, table).0.same_frame(v),
    decreases v.slots.len() - from,
{
    if from < v.slots.len() {
        let p = match settle_step(v.slots[from], table) {
            SettleStep::Live => ReinitPass { saw_live_transitional: true, ..pass },
            SettleStep::Emptied => ReinitPass { made_progress: true, ..pass },
            _ => pass,
        };
        lemma_quiesce_frame(v.settled(from, table), from + 1, p, table);
    }
}

proof fn lemma_rebuild_frame(
    v: RegionState,
    from: int,
    epoch: u64,
    pass: ReinitPass,
    table: LivenessTable,
)
    requires
        0 <= from,
    ensures
        v.rebuilt_from(from, epoch, pass, table).0.same_frame(v),
    decreases v.slots.len() - from,
{
    if from < v.slots.len() {
        let (next, r) = v.rebuilt_one(from, epoch, pass, table);
        if r is Ok {
            lemma_rebuild_frame(next, from + 1, epoch, r->Ok_0, table);
        }
    }
}

proof fn lemma_rebuilt_words(v: RegionState, epoch: u64, table: LivenessTable)
    ensures
        same_words(v, v.rebuilt(epoch, table).0),
    decreases v.unsettled_from(0, epoch, table),
{
    let (next, r) = v.rebuilt_from(0, epoch, no_pass(), table);
    lemma_rebuild_frame(v, 0, epoch, no_pass(), table);
    super::reinit::lemma_rebuild_pass_settles(v, 0, epoch, no_pass(), table);
    if r is Ok && !r->Ok_0.saw_live_transitional && r->Ok_0.saw_unpublished_free {
        lemma_rebuilt_words(next, epoch, table);
    }
}

proof fn lemma_resume_words(v: RegionState, stage: ReinitStage, table: LivenessTable)
    ensures
        same_words(v, v.reinit_resumed(stage, table).0),
{
    match stage {
        ReinitStage::Finished => {},
        ReinitStage::Rebuilding(epoch) => {
            lemma_rebuilt_words(v, epoch, table);
        },
        ReinitStage::Quiescing => {
            lemma_quiesce_frame(v, 0, no_pass(), table);
            let next = v.quiesced_from(0, no_pass(), table).0;
            lemma_rebuilt_words(next.stack_renewed(), (next.freelist_epoch + 1) as u64, table);
        },
    }
}

proof fn lemma_exit_frame(v: RegionState, owned: Seq<(u32, LeaseIncarnation)>, pid: i32)
    requires
        tokens_in_range(v),
        forall|i: int| 0 <= i < owned.len() ==> v.has_slot((#[trigger] owned[i]).0),
    ensures
        v.workers_released(owned, pid).same_frame(v),
        tokens_in_range(v.workers_released(owned, pid)),
    decreases owned.len(),
{
    if owned.len() > 0 {
        lemma_exit_frame(v, owned.drop_last(), pid);
        let u = v.workers_released(owned.drop_last(), pid);
        assert(v.has_slot(owned[owned.len() - 1].0));
        lemma_detach_frame(u, owned.last().0, owned.last().1, arbitrary(), pid);
    }
}

proof fn lemma_reserve_frame(v: RegionState, generation: u64, table: LivenessTable, pid: i32)
    requires
        v.shaped(),
    ensures
        v.backend_slot_reserved(generation, table, pid).0.same_frame(v),
        tokens_in_range(v.backend_slot_reserved(generation, table, pid).0),
        v.backend_slot_reserved(generation, table, pid).1 matches Ok(id) ==> v.has_slot(id),
{
    lemma_take_frame(v, pid);
    let (first, token) = v.token_taken(pid);
    if token is Some {
        lemma_publish_frame(first, token->0, pid);
    } else {
        lemma_reap_frame(first, 0, false, None, table, pid);
        let reaped = first.dead_reaped(table, pid).0;
        lemma_take_frame(reaped, pid);
        let (second, token) = reaped.token_taken(pid);
        if token is Some {
            lemma_publish_frame(second, token->0, pid);
        }
    }
}

/// An acquisition hands out the next lease epoch and moves on to the one after
/// it; one that ends before leaves the next epoch alone. The generation stays.
proof fn lemma_lease_words(v: RegionState, table: LivenessTable, pid: i32)
    requires
        v.shaped(),
    ensures
        v.lease_begun(table, pid).0.meta == v.meta,
        v.lease_acquired(table, pid).0.meta == v.meta,
        v.next_lease_epoch <= v.lease_begun(table, pid).0.next_lease_epoch,
        v.next_lease_epoch <= v.lease_acquired(table, pid).0.next_lease_epoch,
        v.lease_begun(table, pid).1 matches Ok((_, incarnation)) ==> {
            &&& incarnation == LeaseIncarnation {
                generation: v.meta.generation,
                lease_epoch: v.next_lease_epoch,
            }
            &&& v.lease_begun(table, pid).0.next_lease_epoch == v.next_lease_epoch + 1
        },
        v.lease_acquired(table, pid).1 matches Ok((_, incarnation)) ==> {
            &&& incarnation == LeaseIncarnation {
                generation: v.meta.generation,
                lease_epoch: v.next_lease_epoch,
            }
            &&& v.lease_acquired(table, pid).0.next_lease_epoch == v.next_lease_epoch + 1
        },
{
    if v.meta.online() {
        let generation = v.meta.generation;
        lemma_reserve_frame(v, generation, table, pid);
        let (reserved, r) = v.backend_slot_reserved(generation, table, pid);
        if r is Ok {
            let id = r->Ok_0;
            let prepared = (RegionState {
                next_lease_epoch: (reserved.next_lease_epoch + 1) as u64,
                ..reserved
            }).with_slot(
                id as int,
                super::region::SlotState {
                    generation,
                    backend_pid: pid,
                    ..reserved.slots[id as int].cleared()
                },
            );
            lemma_publish_frame(prepared, id, pid);
        }
    }
}

/// No call takes the worker generation or the next lease epoch back. The
/// generation moves on by one with every activation, deactivation and reset
/// that is not refused, and with no other call. A lease that a call hands out
/// carries the generation and the next lease epoch that the region had before,
/// and the next lease epoch is a later one afterwards.
pub proof fn law_no_call_goes_back(call: RegionCall, v: RegionState, w: RegionState)
    requires
        v.shaped(),
        call.leads(v, w),
    ensures
        w.meta.generation == v.meta.generation + if call.switches(v) {
            1int
        } else {
            0int
        },
        v.next_lease_epoch <= w.next_lease_epoch,
        call.granted(v) matches Some((_, incarnation)) ==> {
            &&& incarnation.generation == v.meta.generation
            &&& incarnation.lease_epoch == v.next_lease_epoch
            &&& incarnation.lease_epoch < w.next_lease_epoch
        },
{
    assert(tokens_in_range(v));
    match call {
        RegionCall::Acquire { table, pid } => {
            lemma_lease_words(v, table, pid);
        },
        RegionCall::BeginAcquire { table, pid } => {
            lemma_lease_words(v, table, pid);
        },
        RegionCall::ConfirmAcquire { id, incarnation, pid } => {
            lemma_detach_frame(v, id, incarnation, arbitrary(), pid);
        },
        RegionCall::ReleaseLease { id, incarnation, pid } => {
            lemma_detach_frame(v, id, incarnation, arbitrary(), pid);
        },
        RegionCall::Claim { process, verdict, id, table } => {
            if verdict is Ok {
                lemma_claim_frame(ClaimState { region: v, process }, id, verdict->Ok_0, table);
            }
        },
        RegionCall::ReserveClaim { process, id, incarnation } => {},
        RegionCall::RecheckClaim { process, id, incarnation, table } => {
            lemma_recheck_frame(ClaimState { region: v, process }, id, incarnation, table);
        },
        RegionCall::CommitClaim { process, id, incarnation } => {
            lemma_detach_frame(v, id, incarnation, arbitrary(), process.pid);
        },
        RegionCall::ReleaseClaim { id, incarnation, pid } => {
            lemma_detach_frame(v, id, incarnation, arbitrary(), pid);
        },
        RegionCall::Exit { process } => {
            let owners = process.owners(v.key, v.layout.slot_count);
            lemma_found_registry(process.registries, process.pid, v.key, v.layout.slot_count);
            lemma_held_slots_in_range(owners);
            lemma_exit_frame(v, held_slots(owners), process.pid);
        },
        RegionCall::Activate { process, worker_pid, table } => {
            lemma_sweep_frame(
                v.generation_begun(WORKER_STATE_RESTARTING),
                0,
                (v.meta.generation + 1) as u64,
                table,
                process.pid,
            );
        },
        RegionCall::AnnounceGeneration { process, table } => {
            lemma_sweep_frame(
                v.generation_begun(WORKER_STATE_RESTARTING),
                0,
                (v.meta.generation + 1) as u64,
                table,
                process.pid,
            );
        },
        RegionCall::Reset { base, len, layout, table } => {
            lemma_resume_words(v.reinit_begun(), ReinitStage::Quiescing, table);
        },
        RegionCall::ResumeReset { stage, table } => {
            lemma_resume_words(v, stage, table);
        },
        RegionCall::Publish { id, pid } => {
            lemma_publish_frame(v, id, pid);
        },
        RegionCall::AbortAcquire { id, pid } => {
            lemma_publish_frame(v, id, pid);
        },
        _ => {},
    }
}

proof fn lemma_recheck_frame(
    s: ClaimState,
    id: u32,
    incarnation: LeaseIncarnation,
    table: LivenessTable,
)
    requires
        s.region.has_slot(id),
        tokens_in_range(s.region),
    ensures
        s.claim_rechecked(id, incarnation, table).0.region.same_frame(s.region),
        tokens_in_range(s.claim_rechecked(id, incarnation, table).0.region),
{
    lemma_detach_frame(s.region, id, incarnation, table, s.process.pid);
    let undone = s.region.claim_rolled_back(id as int, incarnation, s.process.pid);
    lemma_detach_frame(undone, id, incarnation, table, s.process.pid);
}

proof fn lemma_claim_frame(
    s: ClaimState,
    id: u32,
    incarnation: LeaseIncarnation,
    table: LivenessTable,
)
    requires
        s.region.has_slot(id),
        tokens_in_range(s.region),
    ensures
        s.claimed(Ok(incarnation), id, table).0.region.same_frame(s.region),
{
    let pid = s.process.pid;
    lemma_detach_frame(s.region, id, incarnation, table, pid);
    let looked = ClaimState {
        region: s.region.reaped(id as int, incarnation, table, pid).0,
        ..s
    };
    let (reserved, r) = looked.claim_reserved(id, incarnation);
    assert(reserved.region.same_frame(s.region) && tokens_in_range(reserved.region));
    lemma_recheck_frame(reserved, id, incarnation, table);
    let rechecked = reserved.claim_rechecked(id, incarnation, table).0;
    lemma_detach_frame(rechecked.region, id, incarnation, table, rechecked.process.pid);
}

/// `states` are what `calls` lead through, one after the other.
pub open spec fn history(calls: Seq<RegionCall>, states: Seq<RegionState>) -> bool {
    &&& states.len() == calls.len() + 1
    &&& forall|i: int| 0 <= i < states.len() ==> (#[trigger] states[i]).shaped()
    &&& forall|i: int|
        0 <= i < calls.len() ==> (#[trigger] calls[i]).leads(states[i], states[i + 1])
}

/// How many of the calls from `from` to `to` switch the generation.
pub open spec fn switches_between(
    calls: Seq<RegionCall>,
    states: Seq<RegionState>,
    from: int,
    to: int,
) -> nat
    decreases to - from,
{
    if to <= from {
        0
    } else {
        switches_between(calls, states, from, to - 1) + if calls[to - 1].switches(
            states[to - 1],
        ) {
            1nat
        } else {
            0nat
        }
    }
}

/// The worker generation never falls: between two moments of a history it rises
/// by exactly the number of activations, deactivations and resets that were not
/// refused.
pub proof fn law_generation_counts_switches(
    calls: Seq<RegionCall>,
    states: Seq<RegionState>,
    from: int,
    to: int,
)
    requires
        history(calls, states),
        0 <= from <= to < states.len(),
    ensures
        states[to].meta.generation == states[from].meta.generation + switches_between(
            calls,
            states,
            from,
            to,
        ),
    decreases to - from,
{
    if from < to {
        law_generation_counts_switches(calls, states, from, to - 1);
        assert(calls[to - 1].leads(states[to - 1], states[to - 1 + 1]));
        law_no_call_goes_back(calls[to - 1], states[to - 1], states[to]);
    }
}

/// In a history that starts when the region was set up, the worker generation is
/// the number of activations, deactivations and resets so far.
pub proof fn law_history_starts_at_zero(
    layout: TransportRegionLayout,
    key: usize,
    calls: Seq<RegionCall>,
    states: Seq<RegionState>,
    to: int,
)
    requires
        history(calls, states),
        states[0] == fresh_region(layout, key),
        0 <= to < states.len(),
    ensures
        states[to].meta.generation == switches_between(calls, states, 0, to),
{
    law_generation_counts_switches(calls, states, 0, to);
}

/// The next lease epoch never falls.
pub proof fn law_lease_epochs_rise(
    calls: Seq<RegionCall>,
    states: Seq<RegionState>,
    from: int,
    to: int,
)
    requires
        history(calls, states),
        0 <= from <= to < states.len(),
    ensures
        states[from].next_lease_epoch <= states[to].next_lease_epoch,
    decreases to - from,
{
    if from < to {
        law_lease_epochs_rise(calls, states, from, to - 1);
        assert(calls[to - 1].leads(states[to - 1], states[to - 1 + 1]));
        law_no_call_goes_back(calls[to - 1], states[to - 1], states[to]);
    }
}

/// No lease id is handed out twice: of two leases, whatever their slots and
/// generations and whatever happened in between, the later one has the greater
/// epoch, and no lease has epoch zero.
pub proof fn law_lease_ids_never_repeat(
    calls: Seq<RegionCall>,
    states: Seq<RegionState>,
    i: int,
    j: int,
)
    requires
        history(calls, states),
        0 <= i < j < calls.len(),
        calls[i].granted(states[i]) is Some,
        calls[j].granted(states[j]) is Some,
    ensures
        ({
            let (_, earlier) = calls[i].granted(states[i])->0;
            let (_, later) = calls[j].granted(states[j])->0;
            &&& 1 <= earlier.lease_epoch < later.lease_epoch
            &&& earlier.generation <= later.generation
            &&& lease_id_of(earlier) != lease_id_of(later)
        }),
{
    assert(calls[i].leads(states[i], states[i + 1]));
    assert(calls[j].leads(states[j], states[j + 1]));
    law_no_call_goes_back(calls[i], states[i], states[i + 1]);
    law_no_call_goes_back(calls[j], states[j], states[j + 1]);
    law_lease_epochs_rise(calls, states, i + 1, j);
    law_generation_counts_switches(calls, states, i, j);
}

} // verus!
