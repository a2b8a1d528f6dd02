//! Resetting a region in place.
//!
//! A reset publishes a newer offline generation, gives every free slot a token
//! of a new epoch, and leaves leased slots to their old owners. It first waits
//! until no live process is between two steps of an acquisition or a
//! publication, then throws the old free stack away and builds a new one.
//! Each pass over the slots is one call, so the caller can let other processes
//! run and probe them again in between.

use super::error::{ProbeFailure, ReinitError};
use super::layout::{attach_error, layout_of, RegionHeader, TransportRegionLayout};
use super::meta::{
    free_word, RegionMeta, SlotMeta, LEASE_STATE_ACQUIRE_RESERVED, LEASE_STATE_FREE_POPPED,
    LEASE_STATE_FREE_PUBLISHED, LEASE_STATE_FREE_PUSHED, LEASE_STATE_FREE_PUSH_CLAIMED,
    LEASE_STATE_LEASED, REGION_META_MAX_GENERATION, SLOT_META_MAX_LEASE_EPOCH,
    WORKER_STATE_OFFLINE, WORKER_STATE_REINITING,
};
use super::process::LivenessTable;
use super::region::{RegionState, SlotSnapshot, SlotState, TransportRegion};
use super::registry::ProcessContext;
use vstd::prelude::*;

verus! {

/// What a reset did with one slot that is not settled.
#[derive(Clone, Copy, Debug, PartialEq, Eq, Structural)]
pub enum SettleStep {
    /// Nothing: the slot is leased, or free without anybody at work on it.
    Nothing,
    /// A live process is at work on the slot.
    Live,
    /// The slot was emptied and waits for a token.
    Emptied,
    /// The process at work on the slot could not be probed.
    Failed(ProbeFailure),
}

/// What a pass over the slots saw.
#[derive(Clone, Copy, Debug, PartialEq, Eq, Structural)]
pub struct ReinitPass {
    /// A live process is between two steps.
    pub saw_live_transitional: bool,
    /// A free slot had no token of the new epoch.
    pub saw_unpublished_free: bool,
    /// Some slot was changed.
    pub made_progress: bool,
}

/// How far a reset has come.
#[derive(Clone, Copy, Debug, PartialEq, Eq, Structural)]
pub enum ReinitStage {
    /// Waiting until no live process is between two steps.
    Quiescing,
    /// Building the free stack of this epoch.
    Rebuilding(u64),
    /// Done: the region is offline in its new generation.
    Finished,
}

/// The lease states between two steps of an acquisition or a publication.
pub open spec fn is_transitional(state: u32) -> bool {
    ||| state == LEASE_STATE_FREE_POPPED
    ||| state == LEASE_STATE_ACQUIRE_RESERVED
    ||| state == LEASE_STATE_FREE_PUSH_CLAIMED
}

/// The error for a probe that failed during a reset.
pub open spec fn reinit_probe_error(slot_id: int, failure: ProbeFailure) -> ReinitError {
    ReinitError::BackendProbeFailed {
        slot_id: slot_id as u32,
        error_kind: failure.error_kind,
        raw_os_error: failure.raw_os_error,
    }
}

/// What a reset makes of a slot, by its word and the process in it.
pub open spec fn settle_step(slot: SlotState, table: LivenessTable) -> SettleStep {
    if slot.meta.state == LEASE_STATE_LEASED {
        if slot.generation != 0 && slot.meta.epoch != 0 && slot.meta.owners == 0 {
            SettleStep::Emptied
        } else {
            SettleStep::Nothing
        }
    } else if is_transitional(slot.meta.state) {
        match table.actor(slot.backend_pid) {
            Ok(true) => SettleStep::Live,
            Ok(false) => SettleStep::Emptied,
            Err(failure) => SettleStep::Failed(failure),
        }
    } else {
        SettleStep::Nothing
    }
}

/// A free slot that stands on the stack of `epoch` but does not say so yet.
pub open spec fn half_published(slot: SlotState, epoch: u64) -> bool {
    slot.meta.state == LEASE_STATE_FREE_PUSHED && slot.meta.epoch == epoch
}

impl RegionState {
    /// The region after a slot was emptied if it can be.
    pub open spec fn settled(self, id: int, table: LivenessTable) -> RegionState {
        if settle_step(self.slots[id], table) == SettleStep::Emptied {
            self.with_emptied(id)
        } else {
            self
        }
    }

    /// The region after a free slot was given a token of `epoch`.
    pub open spec fn republished(self, id: int, epoch: u64) -> RegionState {
        self.with_slot(
            id,
            SlotState {
                generation: 0,
                meta: free_word(LEASE_STATE_FREE_PUBLISHED, epoch),
                ..self.slots[id].cleared()
            },
        ).with_token(id as u32)
    }

    /// One pass that waits for the region to become quiet, from slot `from` on.
    pub open spec fn quiesced_from(
        self,
        from: int,
        pass: ReinitPass,
        table: LivenessTable,
    ) -> (RegionState, Result<ReinitPass, ReinitError>)
        decreases self.slots.len() - from,
        when 0 <= from
        via RegionState::quiesced_from_decreases
    {
        if from >= self.slots.len() {
            (self, Ok(pass))
        } else {
            let next = self.settled(from, table);
            match settle_step(self.slots[from], table) {
                SettleStep::Nothing => next.quiesced_from(from + 1, pass, table),
                SettleStep::Live => next.quiesced_from(
                    from + 1,
                    ReinitPass { saw_live_transitional: true, ..pass },
                    table,
                ),
                SettleStep::Emptied => next.quiesced_from(
                    from + 1,
                    ReinitPass { made_progress: true, ..pass },
                    table,
                ),
                SettleStep::Failed(failure) => (
                    next,
                    Err(reinit_probe_error(from, failure)),
                ),
            }
        }
    }

    #[via_fn]
    proof fn quiesced_from_decreases(self, from: int, pass: ReinitPass, table: LivenessTable) {
    }

    /// What a pass that builds the stack of `epoch` does with one slot.
    pub open spec fn rebuilt_one(
        self,
        id: int,
        epoch: u64,
        pass: ReinitPass,
        table: LivenessTable,
    ) -> (RegionState, Result<ReinitPass, ReinitError>) {
        let slot = self.slots[id];
        match settle_step(slot, table) {
            SettleStep::Live => (
                self,
                Ok(ReinitPass { saw_live_transitional: true, ..pass }),
            ),
            SettleStep::Emptied => (
                self.with_emptied(id),
                Ok(ReinitPass { made_progress: true, saw_unpublished_free: true, ..pass }),
            ),
            SettleStep::Failed(failure) => (self, Err(reinit_probe_error(id, failure))),
            SettleStep::Nothing => if slot.meta.state == LEASE_STATE_LEASED {
                (self, Ok(pass))
            } else if half_published(slot, epoch) {
                (
                    self.with_slot(
                        id,
                        SlotState {
                            backend_pid: 0,
                            meta: free_word(LEASE_STATE_FREE_PUBLISHED, epoch),
                            ..slot
                        },
                    ),
                    Ok(ReinitPass { made_progress: true, ..pass }),
                )
            } else if slot.meta.republishable(epoch) {
                (
                    self.republished(id, epoch),
                    Ok(ReinitPass { made_progress: true, saw_unpublished_free: true, ..pass }),
                )
            } else {
                (self, Ok(pass))
            },
        }
    }

    /// One pass that builds the stack of `epoch`, from slot `from` on.
    pub open spec fn rebuilt_from(
        self,
        from: int,
        epoch: u64,
        pass: ReinitPass,
        table: LivenessTable,
    ) -> (RegionState, Result<ReinitPass, ReinitError>)
        decreases self.slots.len() - from,
        when 0 <= from
        via RegionState::rebuilt_from_decreases
    {
        if from >= self.slots.len() {
            (self, Ok(pass))
        } else {
            let (next, r) = self.rebuilt_one(from, epoch, pass, table);
            match r {
                Err(e) => (next, Err(e)),
                Ok(p) => next.rebuilt_from(from + 1, epoch, p, table),
            }
        }
    }

    #[via_fn]
    proof fn rebuilt_from_decreases(
        self,
        from: int,
        epoch: u64,
        pass: ReinitPass,
        table: LivenessTable,
    ) {
    }

    /// The region with an empty free stack of the next epoch.
    pub open spec fn stack_renewed(self) -> RegionState {
        RegionState {
            freelist_epoch: (self.freelist_epoch + 1) as u64,
            freelist: Seq::empty(),
            ..self
        }
    }

    /// Passes that build the stack of `epoch`, until nothing is left to do or a
    /// live process has to be waited for.
    pub open spec fn rebuilt(self, epoch: u64, table: LivenessTable) -> (
        RegionState,
        Result<ReinitStage, ReinitError>,
    )
        decreases self.unsettled_from(0, epoch, table),
        via RegionState::rebuilt_decreases
    {
        let (next, r) = self.rebuilt_from(0, epoch, no_pass(), table);
        match r {
            Err(e) => (next, Err(e)),
            Ok(pass) => if pass.saw_live_transitional {
                (next, Ok(ReinitStage::Rebuilding(epoch)))
            } else if pass.saw_unpublished_free {
                next.rebuilt(epoch, table)
            } else {
                (
                    next.with_region_meta(next.meta.generation, WORKER_STATE_OFFLINE),
                    Ok(ReinitStage::Finished),
                )
            },
        }
    }

    #[via_fn]
    proof fn rebuilt_decreases(self, epoch: u64, table: LivenessTable) {
        lemma_rebuild_pass_settles(self, 0, epoch, no_pass(), table);
    }

    /// The region after a reset ran as far as it can without waiting.
    pub open spec fn reinit_resumed(self, stage: ReinitStage, table: LivenessTable) -> (
        RegionState,
        Result<ReinitStage, ReinitError>,
    ) {
        match stage {
            ReinitStage::Finished => (self, Ok(ReinitStage::Finished)),
            ReinitStage::Rebuilding(epoch) => self.rebuilt(epoch, table),
            ReinitStage::Quiescing => {
                let (next, r) = self.quiesced_from(0, no_pass(), table);
                match r {
                    Err(e) => (next, Err(e)),
                    Ok(pass) => if pass.saw_live_transitional {
                        (next, Ok(ReinitStage::Quiescing))
                    } else {
                        next.stack_renewed().rebuilt(
                            (next.freelist_epoch + 1) as u64,
                            table,
                        )
                    },
                }
            },
        }
    }

    /// The region after a reset was announced.
    pub open spec fn reinit_begun(self) -> RegionState {
        self.with_worker_pid(0).with_region_meta(
            (self.meta.generation + 1) as u64,
            WORKER_STATE_REINITING,
        )
    }

    /// How many steps the slots from `from` on still need.
    pub open spec fn unsettled_from(self, from: int, epoch: u64, table: LivenessTable) -> nat
        decreases self.slots.len() - from,
    {
        if from < 0 || from >= self.slots.len() {
            0
        } else {
            slot_rank(self.slots[from], epoch, table) + self.unsettled_from(
                from + 1,
                epoch,
                table,
            )
        }
    }
}

/// How many steps a slot still needs until it is settled.
pub open spec fn slot_rank(slot: SlotState, epoch: u64, table: LivenessTable) -> nat {
    match settle_step(slot, table) {
        SettleStep::Emptied => 2,
        SettleStep::Live => 0,
        SettleStep::Failed(_) => 0,
        SettleStep::Nothing => if slot.meta.state != LEASE_STATE_LEASED && slot.meta.republishable(
            epoch,
        ) {
            1
        } else {
            0
        },
    }
}

/// A pass that has seen nothing yet.
pub open spec fn no_pass() -> ReinitPass {
    ReinitPass {
        saw_live_transitional: false,
        saw_unpublished_free: false,
        made_progress: false,
    }
}

/// What a rebuilding pass does to one slot leaves the others alone and brings
/// the slot closer to being settled.
proof fn lemma_rebuilt_one(
    v: RegionState,
    id: int,
    epoch: u64,
    pass: ReinitPass,
    table: LivenessTable,
)
    requires
        0 <= id < v.slots.len(),
    ensures
        ({
            let (w, r) = v.rebuilt_one(id, epoch, pass, table);
            &&& w.slots.len() == v.slots.len()
            &&& forall|j: int| 0 <= j < v.slots.len() && j != id ==> w.slots[j] == v.slots[j]
            &&& w.layout == v.layout
            &&& w.meta == v.meta
            &&& w.freelist_epoch == v.freelist_epoch
            &&& slot_rank(w.slots[id], epoch, table) <= slot_rank(v.slots[id], epoch, table)
            &&& r matches Ok(p) ==> (p.saw_unpublished_free && !pass.saw_unpublished_free
                ==> slot_rank(w.slots[id], epoch, table) < slot_rank(v.slots[id], epoch, table))
        }),
{
}

/// Slots before `from` do not count.
proof fn lemma_unsettled_frame(
    v: RegionState,
    w: RegionState,
    from: int,
    epoch: u64,
    table: LivenessTable,
)
    requires
        0 <= from,
        v.slots.len() == w.slots.len(),
        forall|j: int| from <= j < v.slots.len() ==> v.slots[j] == w.slots[j],
    ensures
        v.unsettled_from(from, epoch, table) == w.unsettled_from(from, epoch, table),
    decreases v.slots.len() - from,
{
    if from < v.slots.len() {
        lemma_unsettled_frame(v, w, from + 1, epoch, table);
    }
}

/// A pass that found a free slot without a token leaves less to do.
pub proof fn lemma_rebuild_pass_settles(
    v: RegionState,
    from: int,
    epoch: u64,
    pass: ReinitPass,
    table: LivenessTable,
)
    requires
        0 <= from,
    ensures
        ({
            let (w, r) = v.rebuilt_from(from, epoch, pass, table);
            &&& w.slots.len() == v.slots.len()
            &&& forall|j: int| 0 <= j < from && j < v.slots.len() ==> w.slots[j] == v.slots[j]
            &&& w.unsettled_from(from, epoch, table) <= v.unsettled_from(from, epoch, table)
            &&& r matches Ok(p) ==> (p.saw_unpublished_free && !pass.saw_unpublished_free
                ==> w.unsettled_from(from, epoch, table) < v.unsettled_from(from, epoch, table))
        }),
    decreases v.slots.len() - from,
{
    if from < v.slots.len() {
        lemma_rebuilt_one(v, from, epoch, pass, table);
        let (next, r) = v.rebuilt_one(from, epoch, pass, table);
        lemma_unsettled_frame(v, next, from + 1, epoch, table);
        if r is Ok {
            lemma_rebuild_pass_settles(next, from + 1, epoch, r->Ok_0, table);
        }
    }
}

impl TransportRegion {
    /// Decides what a reset makes of a slot.
    fn judge_settle(&self, slot_id: u32, table: &LivenessTable) -> (r: SettleStep)
        requires
            self@.has_slot(slot_id),
        ensures
            r == settle_step(self@.slots[slot_id as int], *table),
    {
        let slot: SlotSnapshot = self.load_slot_snapshot(slot_id);
        if slot.slot_meta.is_leased() {
            if slot.slot_generation != 0 && slot.slot_meta.lease_epoch() != 0
                && slot.slot_meta.is_ownerless() {
                return SettleStep::Emptied;
            }
            return SettleStep::Nothing;
        }
        if slot.slot_meta.is_free_popped() || slot.slot_meta.is_acquire_reserved()
            || slot.slot_meta.is_free_push_claimed() {
            return match table.probe_actor(slot.backend_pid) {
                Ok(true) => SettleStep::Live,
                Ok(false) => SettleStep::Emptied,
                Err(failure) => SettleStep::Failed(failure),
            };
        }
        SettleStep::Nothing
    }

    /// One pass that waits for the region to become quiet: what dead processes
    /// left half done is emptied.
    pub fn quiesce_slots_for_reinit(&mut self, table: &LivenessTable) -> (r: Result<
        ReinitPass,
        ReinitError,
    >)
        requires
            old(self)@.shaped(),
        ensures
            (final(self)@, r) == old(self)@.quiesced_from(0, no_pass(), *table),
            final(self)@.shaped(),
            final(self)@.same_frame(old(self)@),
    {
        let mut pass: ReinitPass = ReinitPass {
            saw_live_transitional: false,
            saw_unpublished_free: false,
            made_progress: false,
        };
        let slot_count: u32 = self.slot_count();
        let mut slot_id: u32 = 0;
        while slot_id < slot_count
            invariant
                slot_id <= slot_count,
                slot_count == self@.slots.len(),
                self@.shaped(),
                self@.same_frame(old(self)@),
                self@.quiesced_from(slot_id as int, pass, *table) == old(self)@.quiesced_from(
                    0,
                    no_pass(),
                    *table,
                ),
            decreases slot_count - slot_id,
        {
            match self.judge_settle(slot_id, table) {
                SettleStep::Nothing => {},
                SettleStep::Live => {
                    pass.saw_live_transitional = true;
                },
                SettleStep::Emptied => {
                    self.empty_slot(slot_id);
                    pass.made_progress = true;
                },
                SettleStep::Failed(failure) => {
                    return Err(
                        ReinitError::BackendProbeFailed {
                            slot_id,
                            error_kind: failure.error_kind,
                            raw_os_error: failure.raw_os_error,
                        },
                    );
                },
            }
            slot_id = slot_id + 1;
        }
        Ok(pass)
    }

    /// Gives a free slot a token of `epoch`.
    fn republish_stable_free_slot_for_reinit(&mut self, slot_id: u32, epoch: u64, pid: i32)
        requires
            old(self)@.shaped(),
            old(self)@.has_slot(slot_id),
            epoch <= SLOT_META_MAX_LEASE_EPOCH,
        ensures
            final(self)@ == old(self)@.republished(slot_id as int, epoch),
            final(self)@.shaped(),
    {
        self.empty_slot(slot_id);
        self.store_backend_pid(slot_id, pid);
        self.store_slot_meta(slot_id, SlotMeta::free_push_claimed(epoch));
        self.store_slot_meta(slot_id, SlotMeta::free_pushed(epoch));
        self.release_slot(slot_id);
        self.store_backend_pid(slot_id, 0);
        self.store_slot_meta(slot_id, SlotMeta::free_published(epoch));
        assert(self@ =~= old(self)@.republished(slot_id as int, epoch));
    }

    /// One pass that builds the free stack of `epoch`.
    pub fn rebuild_freelist_for_reinit(&mut self, epoch: u64, table: &LivenessTable, pid: i32) -> (r:
        Result<ReinitPass, ReinitError>)
        requires
            old(self)@.shaped(),
            epoch <= SLOT_META_MAX_LEASE_EPOCH,
        ensures
            (final(self)@, r) == old(self)@.rebuilt_from(0, epoch, no_pass(), *table),
            final(self)@.shaped(),
            final(self)@.same_frame(old(self)@),
    {
        let mut pass: ReinitPass = ReinitPass {
            saw_live_transitional: false,
            saw_unpublished_free: false,
            made_progress: false,
        };
        let slot_count: u32 = self.slot_count();
        let mut slot_id: u32 = 0;
        while slot_id < slot_count
            invariant
                slot_id <= slot_count,
                slot_count == self@.slots.len(),
                self@.shaped(),
                self@.same_frame(old(self)@),
                epoch <= SLOT_META_MAX_LEASE_EPOCH,
                self@.rebuilt_from(slot_id as int, epoch, pass, *table) == old(
                    self,
                )@.rebuilt_from(0, epoch, no_pass(), *table),
            decreases slot_count - slot_id,
        {
            match self.judge_settle(slot_id, table) {
                SettleStep::Live => {
                    pass.saw_live_transitional = true;
                },
                SettleStep::Emptied => {
                    self.empty_slot(slot_id);
                    pass.made_progress = true;
                    pass.saw_unpublished_free = true;
                },
                SettleStep::Failed(failure) => {
                    return Err(
                        ReinitError::BackendProbeFailed {
                            slot_id,
                            error_kind: failure.error_kind,
                            raw_os_error: failure.raw_os_error,
                        },
                    );
                },
                SettleStep::Nothing => {
                    let ghost before = self@;
                    let ghost before_pass = pass;
                    let meta: SlotMeta = self.load_slot_snapshot(slot_id).slot_meta;
                    if meta.is_leased() || meta.is_current_epoch_published(epoch) {
                    } else if meta.is_free_pushed() && meta.lease_epoch() == epoch {
                        self.store_backend_pid(slot_id, 0);
                        self.store_slot_meta(slot_id, SlotMeta::free_published(epoch));
                        pass.made_progress = true;
                        assert(self@ =~= before.rebuilt_one(
                            slot_id as int,
                            epoch,
                            before_pass,
                            *table,
                        ).0);
                    } else if meta.is_republishable_after_reinit(epoch) {
                        self.republish_stable_free_slot_for_reinit(slot_id, epoch, pid);
                        pass.made_progress = true;
                        pass.saw_unpublished_free = true;
                    }
                },
            }
            slot_id = slot_id + 1;
        }
        Ok(pass)
    }

    /// Passes that build the free stack, until nothing is left to do or a live
    /// process has to be waited for.
    fn rebuild_until_settled(&mut self, epoch: u64, table: &LivenessTable, pid: i32) -> (r: Result<
        ReinitStage,
        ReinitError,
    >)
        requires
            old(self)@.shaped(),
            epoch <= SLOT_META_MAX_LEASE_EPOCH,
        ensures
            (final(self)@, r) == old(self)@.rebuilt(epoch, *table),
            final(self)@.shaped(),
    {
        loop
            invariant
                self@.shaped(),
                epoch <= SLOT_META_MAX_LEASE_EPOCH,
                self@.rebuilt(epoch, *table) == old(self)@.rebuilt(epoch, *table),
            decreases self@.unsettled_from(0, epoch, *table),
        {
            proof {
                lemma_rebuild_pass_settles(self@, 0, epoch, no_pass(), *table);
            }
            match self.rebuild_freelist_for_reinit(epoch, table, pid) {
                Err(e) => {
                    return Err(e);
                },
                Ok(pass) => {
                    if pass.saw_live_transitional {
                        return Ok(ReinitStage::Rebuilding(epoch));
                    }
                    if !pass.saw_unpublished_free {
                        let generation: u64 = self.region_generation();
                        self.store_region_meta(RegionMeta::new(generation, WORKER_STATE_OFFLINE));
                        return Ok(ReinitStage::Finished);
                    }
                },
            }
        }
    }

    /// Announces a reset of this region, whose memory is mapped with `len`
    /// bytes at `base`. Nobody can lease or publish a slot from then on.
    pub fn begin_reinit(
        &mut self,
        process: &mut ProcessContext,
        base: usize,
        len: usize,
        layout: TransportRegionLayout,
    ) -> (r: Result<ReinitStage, ReinitError>)
        requires
            old(self)@.shaped(),
            reinit_refusal(base, len, old(self)@.header, layout) is None
                ==> old(self)@.meta.generation < REGION_META_MAX_GENERATION,
        ensures
            final(self)@.shaped(),
            r == match reinit_refusal(base, len, old(self)@.header, layout) {
                Some(e) => Err::<ReinitStage, ReinitError>(e),
                None => Ok(ReinitStage::Quiescing),
            },
            r is Err ==> final(self)@ == old(self)@ && final(process)@ == old(process)@,
            r is Ok ==> final(self)@ == old(self)@.reinit_begun() && final(process)@ == old(
                process,
            )@.after_reset(old(self)@.key, old(self)@.layout.slot_count),
    {
        let existing: TransportRegionLayout = match self.attach(base, len) {
            Ok(l) => l,
            Err(e) => {
                return Err(ReinitError::InvalidExistingRegion(e));
            },
        };
        if existing != layout {
            return Err(ReinitError::LayoutMismatch { existing, requested: layout });
        }
        let next_generation: u64 = self.next_region_generation();
        process.reset_worker_owner_registry(self.region_key(), self.slot_count());
        self.store_worker_pid(0);
        self.store_region_meta(RegionMeta::new(next_generation, WORKER_STATE_REINITING));
        Ok(ReinitStage::Quiescing)
    }

    /// Runs a reset as far as it can without waiting for a live process.
    pub fn resume_reinit(&mut self, stage: ReinitStage, table: &LivenessTable, pid: i32) -> (r: Result<
        ReinitStage,
        ReinitError,
    >)
        requires
            old(self)@.shaped(),
            stage is Quiescing ==> old(self)@.freelist_epoch < SLOT_META_MAX_LEASE_EPOCH,
            stage matches ReinitStage::Rebuilding(epoch) ==> epoch == old(self)@.freelist_epoch,
        ensures
            (final(self)@, r) == old(self)@.reinit_resumed(stage, *table),
            final(self)@.shaped(),
    {
        match stage {
            ReinitStage::Finished => Ok(ReinitStage::Finished),
            ReinitStage::Rebuilding(epoch) => self.rebuild_until_settled(epoch, table, pid),
            ReinitStage::Quiescing => {
                match self.quiesce_slots_for_reinit(table) {
                    Err(e) => {
                        return Err(e);
                    },
                    Ok(pass) => {
                        if pass.saw_live_transitional {
                            return Ok(ReinitStage::Quiescing);
                        }
                    },
                }
                let ghost quiet = self@;
                let epoch: u64 = self.rotate_freelist_epoch_for_reinit();
                self.reset_freelist_empty();
                assert(self@ =~= quiet.stack_renewed());
                self.rebuild_until_settled(epoch, table, pid)
            },
        }
    }

    /// Resets this region in place. Where a live process is between two steps,
    /// the reset stops there and is taken up again with [`Self::resume_reinit`].
    pub fn reinit_in_place(
        &mut self,
        process: &mut ProcessContext,
        base: usize,
        len: usize,
        layout: TransportRegionLayout,
        table: &LivenessTable,
    ) -> (r: Result<ReinitStage, ReinitError>)
        requires
            old(self)@.shaped(),
            reinit_refusal(base, len, old(self)@.header, layout) is None
                ==> old(self)@.meta.generation < REGION_META_MAX_GENERATION
                && old(self)@.freelist_epoch < SLOT_META_MAX_LEASE_EPOCH,
        ensures
            final(self)@.shaped(),
            reinit_refusal(base, len, old(self)@.header, layout) matches Some(e) ==> r == Err::<
                ReinitStage,
                ReinitError,
            >(e) && final(self)@ == old(self)@ && final(process)@ == old(process)@,
            reinit_refusal(base, len, old(self)@.header, layout) is None ==> (final(self)@, r)
                == old(self)@.reinit_begun().reinit_resumed(ReinitStage::Quiescing, *table)
                && final(process)@ == old(process)@.after_reset(
                old(self)@.key,
                old(self)@.layout.slot_count,
            ),
    {
        let stage: ReinitStage = match self.begin_reinit(process, base, len, layout) {
            Ok(s) => s,
            Err(e) => {
                return Err(e);
            },
        };
        self.resume_reinit(stage, table, process.current_process_pid())
    }
}

/// Why a region cannot be reset to a layout, if so.
pub open spec fn reinit_refusal(
    base: usize,
    len: usize,
    header: RegionHeader,
    layout: TransportRegionLayout,
) -> Option<ReinitError> {
    let existing = layout_of(
        header.slot_count,
        header.backend_to_worker_cap as usize,
        header.worker_to_backend_cap as usize,
    );
    match attach_error(base, len, header) {
        Some(e) => Some(ReinitError::InvalidExistingRegion(e)),
        None => if existing != layout {
            Some(ReinitError::LayoutMismatch { existing, requested: layout })
        } else {
            None
        },
    }
}

} // verus!
