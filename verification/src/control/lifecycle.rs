//! Who owns a slot, and what a change of the worker generation does to it.
//!
//! A leased slot is owned by its backend, by the worker, or by both. Whoever
//! lets go last empties the slot and publishes its token. A generation change
//! is a hard boundary: every lease and claim of an older generation is stale
//! from then on.

use super::error::{LeaseError, ProbeFailure, SlotAccessError, WorkerLifecycleError};
use super::meta::{
    backend_bit, lemma_owner_bits, pending_bit, worker_bit, LeaseIncarnation, RegionMeta,
    RegionWord, SlotMeta, SlotWord, LEASE_STATE_LEASED, OWNER_ANY_WORKER, OWNER_BACKEND,
    OWNER_WORKER, OWNER_WORKER_PENDING, REGION_META_MAX_GENERATION, WORKER_STATE_OFFLINE,
    WORKER_STATE_ONLINE, WORKER_STATE_RESTARTING,
};
use super::process::LivenessTable;
use super::region::{RegionSnapshot, RegionState, SlotSnapshot, SlotState, TransportRegion};
use super::registry::{held_count, ProcessContext};
use vstd::prelude::*;

verus! {

/// What clearing owner bits did.
#[derive(Clone, Copy, Debug, PartialEq, Eq, Structural)]
pub struct OwnerMutationResult {
    pub changed: bool,
    pub remaining_mask: u32,
}

impl RegionState {
    /// The region after owner bits were cleared in a slot that is leased under
    /// this incarnation. Every other slot stays as it is.
    pub open spec fn owners_cleared(
        self,
        id: int,
        incarnation: LeaseIncarnation,
        clear_bits: u32,
    ) -> (RegionState, OwnerMutationResult) {
        let owners = self.slots[id].meta.owners;
        let remaining = owners & !clear_bits;
        if !self.slots[id].leased_as(incarnation) || remaining == owners {
            (self, OwnerMutationResult { changed: false, remaining_mask: owners })
        } else {
            (
                self.with_meta(id, SlotWord { owners: remaining, ..self.slots[id].meta }),
                OwnerMutationResult { changed: true, remaining_mask: remaining },
            )
        }
    }

    /// The region after a leased slot that nobody owns was emptied and
    /// published; says whether it was such a slot.
    pub open spec fn finalized(self, id: int, incarnation: LeaseIncarnation, pid: i32) -> (
        RegionState,
        bool,
    ) {
        if self.slots[id].leased_as(incarnation) && self.slots[id].meta.owners == 0 {
            (self.with_emptied(id).published(id, pid).0, true)
        } else {
            (self, false)
        }
    }

    /// The region after a change of owners was followed up.
    pub open spec fn followed_up(
        self,
        id: int,
        incarnation: LeaseIncarnation,
        mutation: OwnerMutationResult,
        pid: i32,
    ) -> RegionState {
        if mutation.changed && mutation.remaining_mask == 0 {
            self.finalized(id, incarnation, pid).0
        } else {
            self
        }
    }

    /// The region after the worker let go of a slot.
    pub open spec fn worker_released(self, id: int, incarnation: LeaseIncarnation, pid: i32) -> RegionState {
        let (cleared, mutation) = self.owners_cleared(id, incarnation, OWNER_WORKER);
        cleared.followed_up(id, incarnation, mutation, pid)
    }

    /// The region after the backend bit of a slot was cleared because its
    /// backend let go or died.
    pub open spec fn backend_detached(self, id: int, incarnation: LeaseIncarnation, pid: i32) -> RegionState {
        let (cleared, mutation) = self.owners_cleared(id, incarnation, OWNER_BACKEND);
        cleared.with_backend_pid(id, 0).followed_up(id, incarnation, mutation, pid)
    }

    /// The region after the owner of a lease was reaped if it is dead; says
    /// whether it was.
    pub open spec fn reaped(
        self,
        id: int,
        incarnation: LeaseIncarnation,
        table: LivenessTable,
        pid: i32,
    ) -> (RegionState, Result<bool, ProbeFailure>) {
        if !self.slots[id].leased_as(incarnation) || !backend_bit(self.slots[id].meta.owners) {
            (self, Ok(false))
        } else {
            match table.says(self.slots[id].backend_pid) {
                Err(failure) => (self, Err(failure)),
                Ok(true) => (self, Ok(false)),
                Ok(false) => (self.backend_detached(id, incarnation, pid), Ok(true)),
            }
        }
    }

    /// The region after one slot was looked at by the reaper of the current
    /// generation.
    pub open spec fn reaped_one(self, id: int, table: LivenessTable, pid: i32) -> (
        RegionState,
        Result<bool, ProbeFailure>,
    ) {
        let slot = self.slots[id];
        if slot.meta.state != LEASE_STATE_LEASED || slot.generation != self.meta.generation
            || slot.meta.epoch == 0 {
            (self, Ok(false))
        } else {
            self.reaped(
                id,
                LeaseIncarnation { generation: slot.generation, lease_epoch: slot.meta.epoch },
                table,
                pid,
            )
        }
    }

    /// The region after the slots from `from` on were looked at by the reaper,
    /// with whether anything was reaped and the first failed probe.
    pub open spec fn reaped_from(
        self,
        from: int,
        reaped_any: bool,
        first: Option<(u32, ProbeFailure)>,
        table: LivenessTable,
        pid: i32,
    ) -> (RegionState, bool, Option<(u32, ProbeFailure)>)
        decreases self.slots.len() - from,
        when 0 <= from
        via RegionState::reaped_from_decreases
    {
        if from >= self.slots.len() {
            (self, reaped_any, first)
        } else {
            let (next, r) = self.reaped_one(from, table, pid);
            next.reaped_from(
                from + 1,
                reaped_any || r == Ok::<bool, ProbeFailure>(true),
                match r {
                    Err(failure) => if first is None {
                        Some((from as u32, failure))
                    } else {
                        first
                    },
                    Ok(_) => first,
                },
                table,
                pid,
            )
        }
    }

    #[via_fn]
    proof fn reaped_from_decreases(
        self,
        from: int,
        reaped_any: bool,
        first: Option<(u32, ProbeFailure)>,
        table: LivenessTable,
        pid: i32,
    ) {
    }

    /// Outcome of the reaper over the whole region. A failed probe counts only
    /// where nothing was reaped.
    pub open spec fn dead_reaped(self, table: LivenessTable, pid: i32) -> (
        RegionState,
        Result<bool, (u32, ProbeFailure)>,
    ) {
        if self.meta.generation == 0 {
            (self, Ok(false))
        } else {
            let (next, any, first) = self.reaped_from(0, false, None, table, pid);
            if any {
                (next, Ok(true))
            } else {
                match first {
                    Some(failed) => (next, Err(failed)),
                    None => (next, Ok(false)),
                }
            }
        }
    }

    /// The region after one slot of an older generation was swept: a dead
    /// backend is reaped, worker bits go, and an ownerless slot is freed.
    pub open spec fn swept_one(self, id: int, generation: u64, table: LivenessTable, pid: i32) -> RegionState {
        let slot = self.slots[id];
        let incarnation = LeaseIncarnation {
            generation: slot.generation,
            lease_epoch: slot.meta.epoch,
        };
        if slot.generation == 0 || slot.generation == generation || slot.meta.epoch == 0 {
            self
        } else {
            let next = if backend_bit(slot.meta.owners) {
                self.reaped(id, incarnation, table, pid).0
            } else {
                self
            };
            let owners = next.slots[id].meta.owners;
            if !worker_bit(owners) && !pending_bit(owners) {
                if owners == 0 && next.slots[id].meta.state == LEASE_STATE_LEASED {
                    next.finalized(id, incarnation, pid).0
                } else {
                    next
                }
            } else {
                let (cleared, mutation) = next.owners_cleared(id, incarnation, OWNER_ANY_WORKER);
                cleared.followed_up(id, incarnation, mutation, pid)
            }
        }
    }

    /// The region after the slots from `from` on were swept.
    pub open spec fn swept_from(self, from: int, generation: u64, table: LivenessTable, pid: i32) -> RegionState
        decreases self.slots.len() - from,
        when 0 <= from
        via RegionState::swept_from_decreases
    {
        if from >= self.slots.len() {
            self
        } else {
            self.swept_one(from, generation, table, pid).swept_from(
                from + 1,
                generation,
                table,
                pid,
            )
        }
    }

    #[via_fn]
    proof fn swept_from_decreases(self, from: int, generation: u64, table: LivenessTable, pid: i32) {
    }

    /// The region with the next generation announced and no worker in it.
    pub open spec fn generation_begun(self, worker_state: u32) -> RegionState {
        self.with_worker_pid(0).with_region_meta((self.meta.generation + 1) as u64, worker_state)
    }

    /// The region after a worker generation was put online.
    pub open spec fn activated(self, worker_pid: i32, table: LivenessTable, pid: i32) -> RegionState {
        let generation = (self.meta.generation + 1) as u64;
        self.generation_begun(WORKER_STATE_RESTARTING).swept_from(
            0,
            generation,
            table,
            pid,
        ).with_worker_pid(worker_pid).with_region_meta(generation, WORKER_STATE_ONLINE)
    }
}

/// Why a backend lease is no longer good, if so.
pub open spec fn lease_verdict(
    region: RegionWord,
    slot: SlotState,
    slot_id: u32,
    incarnation: LeaseIncarnation,
    active: bool,
) -> Option<LeaseError> {
    let released = LeaseError::Released { slot_id, claimed_generation: incarnation.generation };
    if !active {
        Some(released)
    } else if region.generation != incarnation.generation {
        Some(
            LeaseError::StaleGeneration {
                slot_id,
                claimed_generation: incarnation.generation,
                current_generation: region.generation,
            },
        )
    } else if slot.meta.state != LEASE_STATE_LEASED || slot.generation != incarnation.generation {
        Some(released)
    } else if slot.meta.epoch != incarnation.lease_epoch {
        Some(
            LeaseError::StaleLeaseEpoch {
                slot_id,
                claimed_generation: incarnation.generation,
                claimed_lease_epoch: incarnation.lease_epoch,
                current_lease_epoch: slot.meta.epoch,
            },
        )
    } else if !backend_bit(slot.meta.owners) {
        Some(released)
    } else {
        None
    }
}

/// Why a worker's claim is no longer good, if so. The slot counts only where
/// the region is online in the claim's generation.
pub open spec fn access_verdict(
    region: RegionWord,
    slot_count: u32,
    slot: SlotState,
    slot_id: u32,
    incarnation: LeaseIncarnation,
    attached: bool,
) -> Option<SlotAccessError> {
    let released = SlotAccessError::Released {
        slot_id,
        claimed_generation: incarnation.generation,
    };
    if !attached {
        Some(released)
    } else if region.generation != incarnation.generation {
        Some(
            SlotAccessError::StaleGeneration {
                slot_id,
                claimed_generation: incarnation.generation,
                current_generation: region.generation,
            },
        )
    } else if !region.online() {
        Some(SlotAccessError::WorkerOffline)
    } else if slot_id >= slot_count {
        Some(SlotAccessError::BadSlotId { slot_id, slot_count })
    } else if slot.meta.state != LEASE_STATE_LEASED || slot.generation != incarnation.generation {
        Some(released)
    } else if slot.meta.epoch != incarnation.lease_epoch {
        Some(
            SlotAccessError::StaleLeaseEpoch {
                slot_id,
                claimed_generation: incarnation.generation,
                claimed_lease_epoch: incarnation.lease_epoch,
                current_lease_epoch: slot.meta.epoch,
            },
        )
    } else if !worker_bit(slot.meta.owners) || !backend_bit(slot.meta.owners) {
        Some(released)
    } else {
        None
    }
}

/// Judges a backend lease by what was read of the region and its slot.
pub fn judge_lease(
    region: RegionSnapshot,
    slot: SlotSnapshot,
    slot_id: u32,
    incarnation: LeaseIncarnation,
    active: bool,
) -> (r: Result<(), LeaseError>)
    ensures
        forall|state: SlotState| #[trigger]
            slot.shows(state) ==> r == match lease_verdict(
                region.word(),
                state,
                slot_id,
                incarnation,
                active,
            ) {
                Some(e) => Err::<(), LeaseError>(e),
                None => Ok(()),
            },
{
    if !active {
        return Err(
            LeaseError::Released { slot_id, claimed_generation: incarnation.generation },
        );
    }
    if region.generation != incarnation.generation {
        return Err(
            LeaseError::StaleGeneration {
                slot_id,
                claimed_generation: incarnation.generation,
                current_generation: region.generation,
            },
        );
    }
    if !slot.slot_meta.is_leased() || slot.slot_generation != incarnation.generation {
        return Err(
            LeaseError::Released { slot_id, claimed_generation: incarnation.generation },
        );
    }
    if slot.slot_meta.lease_epoch() != incarnation.lease_epoch {
        return Err(
            LeaseError::StaleLeaseEpoch {
                slot_id,
                claimed_generation: incarnation.generation,
                claimed_lease_epoch: incarnation.lease_epoch,
                current_lease_epoch: slot.slot_meta.lease_epoch(),
            },
        );
    }
    if !slot.slot_meta.has_backend_owner() {
        return Err(
            LeaseError::Released { slot_id, claimed_generation: incarnation.generation },
        );
    }
    Ok(())
}

/// Judges a worker's claim by what was read of an online region's slot.
pub fn judge_worker_slot(slot: SlotSnapshot, slot_id: u32, incarnation: LeaseIncarnation) -> (r:
    Result<(), SlotAccessError>)
    ensures
        forall|state: SlotState, region: RegionWord, slot_count: u32|
            slot.shows(state) && region.generation == incarnation.generation && region.online()
                && slot_id < slot_count ==> r == match #[trigger] access_verdict(
                region,
                slot_count,
                state,
                slot_id,
                incarnation,
                true,
            ) {
                Some(e) => Err::<(), SlotAccessError>(e),
                None => Ok(()),
            },
{
    if !slot.slot_meta.is_leased() || slot.slot_generation != incarnation.generation {
        return Err(
            SlotAccessError::Released { slot_id, claimed_generation: incarnation.generation },
        );
    }
    if slot.slot_meta.lease_epoch() != incarnation.lease_epoch {
        return Err(
            SlotAccessError::StaleLeaseEpoch {
                slot_id,
                claimed_generation: incarnation.generation,
                claimed_lease_epoch: incarnation.lease_epoch,
                current_lease_epoch: slot.slot_meta.lease_epoch(),
            },
        );
    }
    if !slot.slot_meta.has_worker_owner() || !slot.slot_meta.has_backend_owner() {
        return Err(
            SlotAccessError::Released { slot_id, claimed_generation: incarnation.generation },
        );
    }
    Ok(())
}

impl TransportRegion {
    /// Clears owner bits in a slot that is leased under this incarnation.
    pub fn clear_owner_bits_if_matching(
        &mut self,
        slot_id: u32,
        incarnation: LeaseIncarnation,
        clear_bits: u32,
    ) -> (r: OwnerMutationResult)
        requires
            old(self)@.shaped(),
            old(self)@.has_slot(slot_id),
            clear_bits == OWNER_BACKEND || clear_bits == OWNER_WORKER || clear_bits
                == OWNER_WORKER_PENDING || clear_bits == OWNER_ANY_WORKER,
        ensures
            (final(self)@, r) == old(self)@.owners_cleared(
                slot_id as int,
                incarnation,
                clear_bits,
            ),
            final(self)@.shaped(),
    {
        let snapshot: SlotSnapshot = self.load_slot_snapshot(slot_id);
        let current: SlotMeta = snapshot.slot_meta;
        let owners: u32 = current.owner_mask();
        if snapshot.slot_generation != incarnation.generation || !current.is_leased()
            || current.lease_epoch() != incarnation.lease_epoch {
            return OwnerMutationResult { changed: false, remaining_mask: owners };
        }
        proof {
            lemma_owner_bits(owners);
        }
        let remaining_mask: u32 = owners & !clear_bits;
        if remaining_mask == owners {
            return OwnerMutationResult { changed: false, remaining_mask };
        }
        self.store_slot_meta(slot_id, current.with_owner_mask(remaining_mask));
        OwnerMutationResult { changed: true, remaining_mask }
    }

    /// Empties and publishes a leased slot that nobody owns any more.
    pub fn try_finalize_slot(&mut self, slot_id: u32, incarnation: LeaseIncarnation, pid: i32) -> (r:
        bool)
        requires
            old(self)@.shaped(),
            old(self)@.has_slot(slot_id),
        ensures
            (final(self)@, r) == old(self)@.finalized(slot_id as int, incarnation, pid),
            final(self)@.shaped(),
    {
        let snapshot: SlotSnapshot = self.load_slot_snapshot(slot_id);
        if !snapshot.matches_incarnation(incarnation) {
            return false;
        }
        if !snapshot.slot_meta.is_leased() || !snapshot.slot_meta.is_ownerless() {
            return false;
        }
        self.empty_slot(slot_id);
        let _ = self.publish_free_slot(slot_id, pid);
        true
    }

    /// Frees the slot if a change of owners left it without one.
    pub fn finalize_if_ownerless(
        &mut self,
        slot_id: u32,
        incarnation: LeaseIncarnation,
        mutation: OwnerMutationResult,
        pid: i32,
    )
        requires
            old(self)@.shaped(),
            old(self)@.has_slot(slot_id),
        ensures
            final(self)@ == old(self)@.followed_up(slot_id as int, incarnation, mutation, pid),
            final(self)@.shaped(),
    {
        if mutation.changed && mutation.remaining_mask == 0 {
            let _ = self.try_finalize_slot(slot_id, incarnation, pid);
        }
    }

    /// Lets go of a slot that the worker holds under this incarnation.
    pub fn release_worker_slot(&mut self, slot_id: u32, incarnation: LeaseIncarnation, pid: i32)
        requires
            old(self)@.shaped(),
            old(self)@.has_slot(slot_id),
        ensures
            final(self)@ == old(self)@.worker_released(slot_id as int, incarnation, pid),
            final(self)@.shaped(),
    {
        let mutation: OwnerMutationResult = self.clear_owner_bits_if_matching(
            slot_id,
            incarnation,
            OWNER_WORKER,
        );
        if !mutation.changed {
            return;
        }
        self.finalize_if_ownerless(slot_id, incarnation, mutation, pid);
    }

    /// Reaps the backend of a lease if it is dead.
    pub fn reap_dead_backend_owner(
        &mut self,
        slot_id: u32,
        incarnation: LeaseIncarnation,
        table: &LivenessTable,
        pid: i32,
    ) -> (r: Result<bool, ProbeFailure>)
        requires
            old(self)@.shaped(),
            old(self)@.has_slot(slot_id),
        ensures
            (final(self)@, r) == old(self)@.reaped(slot_id as int, incarnation, *table, pid),
            final(self)@.shaped(),
    {
        let snapshot: SlotSnapshot = self.load_slot_snapshot(slot_id);
        if !snapshot.slot_meta.is_leased() || !snapshot.matches_incarnation(incarnation) {
            return Ok(false);
        }
        if !snapshot.slot_meta.has_backend_owner() {
            return Ok(false);
        }
        match table.probe(snapshot.backend_pid) {
            Err(failure) => {
                return Err(failure);
            },
            Ok(true) => {
                return Ok(false);
            },
            Ok(false) => {},
        }
        let mutation: OwnerMutationResult = self.clear_owner_bits_if_matching(
            slot_id,
            incarnation,
            OWNER_BACKEND,
        );
        proof {
            super::meta::lemma_slot_meta_unpack(snapshot.slot_meta);
            lemma_owner_bits(snapshot.slot_meta@.owners);
        }
        if !mutation.changed {
            return Ok(false);
        }
        self.store_backend_pid(slot_id, 0);
        self.finalize_if_ownerless(slot_id, incarnation, mutation, pid);
        Ok(true)
    }

    /// Reaps the dead backends of the current generation. A failed probe is
    /// reported only where nothing was reaped.
    pub fn reap_current_generation_dead_backend_slots(&mut self, table: &LivenessTable, pid: i32) -> (r:
        Result<bool, (u32, ProbeFailure)>)
        requires
            old(self)@.shaped(),
        ensures
            (final(self)@, r) == old(self)@.dead_reaped(*table, pid),
            final(self)@.shaped(),
            final(self)@.same_frame(old(self)@),
    {
        let generation: u64 = self.region_generation();
        if generation == 0 {
            return Ok(false);
        }
        let mut reaped_any: bool = false;
        let mut first_err: Option<(u32, ProbeFailure)> = None;
        let slot_count: u32 = self.slot_count();
        let mut slot_id: u32 = 0;
        while slot_id < slot_count
            invariant
                slot_id <= slot_count,
                slot_count == self@.slots.len(),
                self@.shaped(),
                self@.same_frame(old(self)@),
                generation == self@.meta.generation,
                self@.reaped_from(slot_id as int, reaped_any, first_err, *table, pid) == old(
                    self,
                )@.reaped_from(0, false, None, *table, pid),
            decreases slot_count - slot_id,
        {
            let ghost before = self@;
            let snapshot: SlotSnapshot = self.load_slot_snapshot(slot_id);
            if snapshot.slot_meta.is_leased() && snapshot.slot_generation == generation
                && snapshot.slot_meta.lease_epoch() != 0 {
                let incarnation: LeaseIncarnation = LeaseIncarnation::new(
                    generation,
                    snapshot.slot_meta.lease_epoch(),
                );
                match self.reap_dead_backend_owner(slot_id, incarnation, table, pid) {
                    Ok(true) => {
                        reaped_any = true;
                    },
                    Ok(false) => {},
                    Err(failure) => {
                        if first_err.is_none() {
                            first_err = Some((slot_id, failure));
                        }
                    },
                }
            }
            slot_id = slot_id + 1;
        }
        if reaped_any {
            return Ok(true);
        }
        match first_err {
            Some(failed) => Err(failed),
            None => Ok(false),
        }
    }

    /// Sweeps one slot of an older generation.
    fn sweep_slot(&mut self, slot_id: u32, generation: u64, table: &LivenessTable, pid: i32)
        requires
            old(self)@.shaped(),
            old(self)@.has_slot(slot_id),
        ensures
            final(self)@ == old(self)@.swept_one(slot_id as int, generation, *table, pid),
            final(self)@.shaped(),
            final(self)@.same_frame(old(self)@),
    {
        let mut snapshot: SlotSnapshot = self.load_slot_snapshot(slot_id);
        if snapshot.slot_generation == 0 || snapshot.slot_generation == generation {
            return;
        }
        let incarnation: LeaseIncarnation = LeaseIncarnation::new(
            snapshot.slot_generation,
            snapshot.slot_meta.lease_epoch(),
        );
        if incarnation.lease_epoch == 0 {
            return;
        }
        if snapshot.slot_meta.has_backend_owner() {
            let _ = self.reap_dead_backend_owner(slot_id, incarnation, table, pid);
            snapshot = self.load_slot_snapshot(slot_id);
        }
        if !snapshot.slot_meta.has_any_worker_owner() {
            if snapshot.slot_meta.is_ownerless() && snapshot.slot_meta.is_leased() {
                let _ = self.try_finalize_slot(slot_id, incarnation, pid);
            }
            return;
        }
        let mutation: OwnerMutationResult = self.clear_owner_bits_if_matching(
            slot_id,
            incarnation,
            OWNER_ANY_WORKER,
        );
        self.finalize_if_ownerless(slot_id, incarnation, mutation, pid);
    }

    /// Sweeps every slot of an older generation.
    pub fn sweep_old_generation_slots(&mut self, generation: u64, table: &LivenessTable, pid: i32)
        requires
            old(self)@.shaped(),
        ensures
            final(self)@ == old(self)@.swept_from(0, generation, *table, pid),
            final(self)@.shaped(),
            final(self)@.same_frame(old(self)@),
    {
        let slot_count: u32 = self.slot_count();
        let mut slot_id: u32 = 0;
        while slot_id < slot_count
            invariant
                slot_id <= slot_count,
                slot_count == self@.slots.len(),
                self@.shaped(),
                self@.same_frame(old(self)@),
                self@.swept_from(slot_id as int, generation, *table, pid) == old(self)@.swept_from(
                    0,
                    generation,
                    *table,
                    pid,
                ),
            decreases slot_count - slot_id,
        {
            self.sweep_slot(slot_id, generation, table, pid);
            slot_id = slot_id + 1;
        }
    }

    /// This process holds no slot of the region as its worker.
    pub fn ensure_no_live_local_worker_slots(&self, process: &ProcessContext) -> (r: Result<
        (),
        WorkerLifecycleError,
    >)
        ensures
            r == match lifecycle_error(self@, process@) {
                Some(e) => Err::<(), WorkerLifecycleError>(e),
                None => Ok(()),
            },
    {
        let live_slots: usize = process.local_worker_owner_count(
            self.region_key(),
            self.slot_count(),
        );
        if live_slots != 0 {
            return Err(WorkerLifecycleError::HandlesAlive { live_slots });
        }
        Ok(())
    }

    /// Announces the next generation and sweeps what older ones left behind.
    /// The region is not online yet.
    pub fn begin_worker_generation(&mut self, process: &ProcessContext, table: &LivenessTable) -> (r:
        Result<u64, WorkerLifecycleError>)
        requires
            old(self)@.shaped(),
            lifecycle_error(old(self)@, process@) is None ==> old(self)@.meta.generation
                < REGION_META_MAX_GENERATION,
        ensures
            final(self)@.shaped(),
            r == match lifecycle_error(old(self)@, process@) {
                Some(e) => Err::<u64, WorkerLifecycleError>(e),
                None => Ok((old(self)@.meta.generation + 1) as u64),
            },
            r is Err ==> final(self)@ == old(self)@,
            r matches Ok(generation) ==> final(self)@ == old(self)@.generation_begun(
                WORKER_STATE_RESTARTING,
            ).swept_from(0, generation, *table, process@.pid) && final(self)@.meta.generation
                == generation,
    {
        match self.ensure_no_live_local_worker_slots(process) {
            Ok(()) => {},
            Err(e) => {
                return Err(e);
            },
        }
        let new_generation: u64 = self.next_region_generation();
        self.store_worker_pid(0);
        self.store_region_meta(RegionMeta::new(new_generation, WORKER_STATE_RESTARTING));
        self.sweep_old_generation_slots(new_generation, table, process.current_process_pid());
        Ok(new_generation)
    }

    /// Puts an announced generation online.
    pub fn finish_worker_generation(&mut self, generation: u64, worker_pid: i32)
        requires
            old(self)@.shaped(),
            generation <= REGION_META_MAX_GENERATION,
        ensures
            final(self)@.shaped(),
            final(self)@ == old(self)@.with_worker_pid(worker_pid).with_region_meta(
                generation,
                WORKER_STATE_ONLINE,
            ),
    {
        self.store_worker_pid(worker_pid);
        self.store_region_meta(RegionMeta::new(generation, WORKER_STATE_ONLINE));
    }

    /// Publishes a fresh worker generation and returns its number.
    pub fn activate_worker_generation(
        &mut self,
        worker_pid: i32,
        process: &ProcessContext,
        table: &LivenessTable,
    ) -> (r: Result<u64, WorkerLifecycleError>)
        requires
            old(self)@.shaped(),
            lifecycle_error(old(self)@, process@) is None ==> old(self)@.meta.generation
                < REGION_META_MAX_GENERATION,
        ensures
            final(self)@.shaped(),
            r == match lifecycle_error(old(self)@, process@) {
                Some(e) => Err::<u64, WorkerLifecycleError>(e),
                None => Ok((old(self)@.meta.generation + 1) as u64),
            },
            r is Err ==> final(self)@ == old(self)@,
            r is Ok ==> final(self)@ == old(self)@.activated(worker_pid, *table, process@.pid),
    {
        let generation: u64 = match self.begin_worker_generation(process, table) {
            Ok(g) => g,
            Err(e) => {
                return Err(e);
            },
        };
        self.finish_worker_generation(generation, worker_pid);
        Ok(generation)
    }

    /// Invalidates the current generation and leaves the transport offline.
    pub fn deactivate_worker_generation(&mut self, process: &ProcessContext) -> (r: Result<
        u64,
        WorkerLifecycleError,
    >)
        requires
            old(self)@.shaped(),
            lifecycle_error(old(self)@, process@) is None ==> old(self)@.meta.generation
                < REGION_META_MAX_GENERATION,
        ensures
            final(self)@.shaped(),
            r == match lifecycle_error(old(self)@, process@) {
                Some(e) => Err::<u64, WorkerLifecycleError>(e),
                None => Ok((old(self)@.meta.generation + 1) as u64),
            },
            r is Err ==> final(self)@ == old(self)@,
            r is Ok ==> final(self)@ == old(self)@.generation_begun(WORKER_STATE_OFFLINE),
    {
        match self.ensure_no_live_local_worker_slots(process) {
            Ok(()) => {},
            Err(e) => {
                return Err(e);
            },
        }
        let new_generation: u64 = self.next_region_generation();
        self.store_worker_pid(0);
        self.store_region_meta(RegionMeta::new(new_generation, WORKER_STATE_OFFLINE));
        Ok(new_generation)
    }

    /// Checks that a backend lease is still good.
    pub fn validate_lease(&self, slot_id: u32, incarnation: LeaseIncarnation, active: bool) -> (r:
        Result<(), LeaseError>)
        requires
            self@.has_slot(slot_id),
        ensures
            r == match lease_verdict(
                self@.meta,
                self@.slots[slot_id as int],
                slot_id,
                incarnation,
                active,
            ) {
                Some(e) => Err::<(), LeaseError>(e),
                None => Ok(()),
            },
    {
        judge_lease(
            self.load_region_snapshot(),
            self.load_slot_snapshot(slot_id),
            slot_id,
            incarnation,
            active,
        )
    }

    /// Checks that a worker's claim is still good.
    pub fn validate_worker_slot_access(
        &self,
        slot_id: u32,
        incarnation: LeaseIncarnation,
        attached: bool,
    ) -> (r: Result<(), SlotAccessError>)
        requires
            self@.shaped(),
        ensures
            r == match access_verdict(
                self@.meta,
                self@.layout.slot_count,
                self@.slots[slot_id as int],
                slot_id,
                incarnation,
                attached,
            ) {
                Some(e) => Err::<(), SlotAccessError>(e),
                None => Ok(()),
            },
    {
        if !attached {
            return Err(
                SlotAccessError::Released { slot_id, claimed_generation: incarnation.generation },
            );
        }
        let region: RegionSnapshot = self.load_region_snapshot();
        if region.generation != incarnation.generation {
            return Err(
                SlotAccessError::StaleGeneration {
                    slot_id,
                    claimed_generation: incarnation.generation,
                    current_generation: region.generation,
                },
            );
        }
        if !region.is_online() {
            return Err(SlotAccessError::WorkerOffline);
        }
        match self.slot_view(slot_id) {
            Ok(_) => {},
            Err(e) => {
                return Err(e);
            },
        }
        judge_worker_slot(self.load_slot_snapshot(slot_id), slot_id, incarnation)
    }
}

impl RegionState {
    /// The cells that slot operations leave alone are the same.
    pub open spec fn same_frame(self, other: RegionState) -> bool {
        &&& self.header == other.header
        &&& self.layout == other.layout
        &&& self.key == other.key
        &&& self.meta == other.meta
        &&& self.next_lease_epoch == other.next_lease_epoch
        &&& self.freelist_epoch == other.freelist_epoch
        &&& self.worker_pid == other.worker_pid
        &&& self.slots.len() == other.slots.len()
    }
}

/// Why a process cannot switch the worker generation, if so.
pub open spec fn lifecycle_error(
    region: RegionState,
    process: super::registry::ProcessState,
) -> Option<WorkerLifecycleError> {
    let live = held_count(process.owners(region.key, region.layout.slot_count));
    if live != 0 {
        Some(WorkerLifecycleError::HandlesAlive { live_slots: live as usize })
    } else {
        None
    }
}

} // verus!
