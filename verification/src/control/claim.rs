//! How the worker claims a leased slot.
//!
//! A claim looks at the slot, reaps a dead backend, marks the slot as claimed
//! with a pending bit, looks again, and then turns the pending bit into the
//! worker bit. Other processes may act between any two of these steps, so each
//! step judges what it finds and undoes the claim where it no longer holds.

use super::error::{ProbeFailure, SlotAccessError};
use super::lease::{BackendLeaseId, BackendLeaseSlot};
use super::lifecycle::OwnerMutationResult;
use super::meta::{
    backend_bit, leased_word, pending_bit, worker_bit, LeaseIncarnation, RegionWord, SlotMeta,
    LEASE_STATE_LEASED, OWNER_BACKEND, OWNER_BOTH, OWNER_CLAIM_PENDING, OWNER_WORKER_PENDING,
    WORKER_STATE_ONLINE,
};
use super::process::LivenessTable;
use super::region::{RegionSnapshot, RegionState, SlotSnapshot, SlotState, TransportRegion};
use super::registry::{ProcessContext, ProcessState};
use vstd::prelude::*;

verus! {

/// The incarnation under which the current lease of a slot can be claimed, or
/// why it cannot.
pub open spec fn claim_verdict(
    region: RegionWord,
    slot_count: u32,
    slot: SlotState,
    slot_id: u32,
) -> Result<LeaseIncarnation, SlotAccessError> {
    if !region.online() {
        Err(SlotAccessError::WorkerOffline)
    } else if slot_id >= slot_count {
        Err(SlotAccessError::BadSlotId { slot_id, slot_count })
    } else if slot.meta.state != LEASE_STATE_LEASED || slot.generation != region.generation
        || slot.meta.epoch == 0 || !backend_bit(slot.meta.owners) {
        Err(SlotAccessError::Released { slot_id, claimed_generation: region.generation })
    } else if worker_bit(slot.meta.owners) || pending_bit(slot.meta.owners) {
        Err(SlotAccessError::Busy { slot_id, claimed_generation: region.generation })
    } else {
        Ok(LeaseIncarnation { generation: region.generation, lease_epoch: slot.meta.epoch })
    }
}

/// The incarnation under which exactly this lease can be claimed, or why it
/// cannot.
pub open spec fn exact_claim_verdict(
    region: RegionWord,
    slot_count: u32,
    slot: SlotState,
    peer: BackendLeaseSlot,
) -> Result<LeaseIncarnation, SlotAccessError> {
    let slot_id = peer.slot_id;
    let claimed_generation = peer.lease_id.generation;
    if !region.online() {
        Err(SlotAccessError::WorkerOffline)
    } else if region.generation != claimed_generation {
        Err(
            SlotAccessError::StaleGeneration {
                slot_id,
                claimed_generation,
                current_generation: region.generation,
            },
        )
    } else if slot_id >= slot_count {
        Err(SlotAccessError::BadSlotId { slot_id, slot_count })
    } else if slot.meta.state != LEASE_STATE_LEASED || slot.generation != claimed_generation
        || slot.meta.epoch == 0 {
        Err(SlotAccessError::Released { slot_id, claimed_generation })
    } else if slot.meta.epoch != peer.lease_id.lease_epoch {
        Err(
            SlotAccessError::StaleLeaseEpoch {
                slot_id,
                claimed_generation,
                claimed_lease_epoch: peer.lease_id.lease_epoch,
                current_lease_epoch: slot.meta.epoch,
            },
        )
    } else if !backend_bit(slot.meta.owners) {
        Err(SlotAccessError::Released { slot_id, claimed_generation })
    } else if worker_bit(slot.meta.owners) || pending_bit(slot.meta.owners) {
        Err(SlotAccessError::Busy { slot_id, claimed_generation })
    } else {
        Ok(
            LeaseIncarnation {
                generation: claimed_generation,
                lease_epoch: peer.lease_id.lease_epoch,
            },
        )
    }
}

/// Why the slot word was not the one that a claim expected.
pub open spec fn claim_failure(
    region: RegionWord,
    slot: SlotState,
    slot_id: u32,
    incarnation: LeaseIncarnation,
) -> SlotAccessError {
    let claimed_generation = incarnation.generation;
    if region.generation != claimed_generation {
        SlotAccessError::StaleGeneration {
            slot_id,
            claimed_generation,
            current_generation: region.generation,
        }
    } else if !region.online() {
        SlotAccessError::WorkerOffline
    } else if slot.meta.state != LEASE_STATE_LEASED || slot.generation != claimed_generation {
        SlotAccessError::Released { slot_id, claimed_generation }
    } else if slot.meta.epoch != incarnation.lease_epoch {
        SlotAccessError::StaleLeaseEpoch {
            slot_id,
            claimed_generation,
            claimed_lease_epoch: incarnation.lease_epoch,
            current_lease_epoch: slot.meta.epoch,
        }
    } else if !backend_bit(slot.meta.owners) {
        SlotAccessError::Released { slot_id, claimed_generation }
    } else if worker_bit(slot.meta.owners) || pending_bit(slot.meta.owners) {
        SlotAccessError::Busy { slot_id, claimed_generation }
    } else {
        SlotAccessError::Released { slot_id, claimed_generation }
    }
}

/// Why a pending claim no longer holds, if so.
pub open spec fn recheck_verdict(
    region: RegionWord,
    slot: SlotState,
    slot_id: u32,
    incarnation: LeaseIncarnation,
) -> Option<SlotAccessError> {
    let claimed_generation = incarnation.generation;
    if region.generation != claimed_generation {
        Some(
            SlotAccessError::StaleGeneration {
                slot_id,
                claimed_generation,
                current_generation: region.generation,
            },
        )
    } else if region.worker_state != WORKER_STATE_ONLINE {
        Some(SlotAccessError::WorkerOffline)
    } else if slot.meta.epoch != incarnation.lease_epoch {
        Some(
            SlotAccessError::StaleLeaseEpoch {
                slot_id,
                claimed_generation,
                claimed_lease_epoch: incarnation.lease_epoch,
                current_lease_epoch: slot.meta.epoch,
            },
        )
    } else if slot.generation != claimed_generation || slot.meta.state != LEASE_STATE_LEASED
        || slot.meta.owners != OWNER_CLAIM_PENDING {
        Some(SlotAccessError::Released { slot_id, claimed_generation })
    } else {
        None
    }
}

/// The error for a probe that failed during a claim.
pub open spec fn probe_error(
    slot_id: u32,
    claimed_generation: u64,
    failure: ProbeFailure,
) -> SlotAccessError {
    SlotAccessError::BackendProbeFailed {
        slot_id,
        claimed_generation,
        error_kind: failure.error_kind,
        raw_os_error: failure.raw_os_error,
    }
}

/// Region and claiming process together.
#[verifier::ext_equal]
pub struct ClaimState {
    pub region: RegionState,
    pub process: ProcessState,
}

impl ClaimState {
    /// The process without its record of the claimed slot.
    pub open spec fn forgotten(self, id: u32, incarnation: LeaseIncarnation) -> ProcessState {
        self.process.after_remove(
            self.region.key,
            self.region.layout.slot_count,
            id as int,
            incarnation,
        ).0
    }

    /// Marks the slot as claimed: the process records it, and the pending bit
    /// goes into a slot that only its backend owns.
    pub open spec fn claim_reserved(self, id: u32, incarnation: LeaseIncarnation) -> (
        ClaimState,
        Result<(), SlotAccessError>,
    ) {
        let (recorded, fresh) = self.process.after_insert(
            self.region.key,
            self.region.layout.slot_count,
            id as int,
            incarnation,
        );
        if !fresh {
            (
                self,
                Err(
                    SlotAccessError::Busy {
                        slot_id: id,
                        claimed_generation: incarnation.generation,
                    },
                ),
            )
        } else if self.region.slots[id as int].meta == leased_word(
            incarnation.lease_epoch,
            OWNER_BACKEND,
        ) {
            (
                ClaimState {
                    region: self.region.with_meta(
                        id as int,
                        leased_word(incarnation.lease_epoch, OWNER_CLAIM_PENDING),
                    ),
                    process: recorded,
                },
                Ok(()),
            )
        } else {
            let claimed = ClaimState { process: recorded, ..self };
            (
                ClaimState { process: claimed.forgotten(id, incarnation), ..self },
                Err(
                    claim_failure(
                        self.region.meta,
                        self.region.slots[id as int],
                        id,
                        incarnation,
                    ),
                ),
            )
        }
    }

    /// Looks at a pending claim again and undoes it where it no longer holds
    /// or its backend is dead.
    pub open spec fn claim_rechecked(
        self,
        id: u32,
        incarnation: LeaseIncarnation,
        table: LivenessTable,
    ) -> (ClaimState, Result<(), SlotAccessError>) {
        let slot = self.region.slots[id as int];
        let undone = ClaimState {
            region: self.region.claim_rolled_back(id as int, incarnation, self.process.pid),
            process: self.forgotten(id, incarnation),
        };
        match recheck_verdict(self.region.meta, slot, id, incarnation) {
            Some(e) => (undone, Err(e)),
            None => match table.says(slot.backend_pid) {
                Ok(true) => (self, Ok(())),
                Ok(false) => (
                    ClaimState {
                        region: undone.region.reaped(
                            id as int,
                            incarnation,
                            table,
                            self.process.pid,
                        ).0,
                        ..undone
                    },
                    Err(
                        SlotAccessError::Released {
                            slot_id: id,
                            claimed_generation: incarnation.generation,
                        },
                    ),
                ),
                Err(failure) => (
                    undone,
                    Err(probe_error(id, incarnation.generation, failure)),
                ),
            },
        }
    }

    /// Turns a pending claim into a claim, or undoes it where the pending bit
    /// is gone.
    pub open spec fn claim_committed(self, id: u32, incarnation: LeaseIncarnation) -> (
        ClaimState,
        Result<LeaseIncarnation, SlotAccessError>,
    ) {
        if self.region.slots[id as int].meta == leased_word(
            incarnation.lease_epoch,
            OWNER_CLAIM_PENDING,
        ) {
            (
                ClaimState {
                    region: self.region.with_meta(
                        id as int,
                        leased_word(incarnation.lease_epoch, OWNER_BOTH),
                    ),
                    ..self
                },
                Ok(incarnation),
            )
        } else {
            let region = self.region.claim_rolled_back(id as int, incarnation, self.process.pid);
            (
                ClaimState { region, process: self.forgotten(id, incarnation) },
                Err(claim_failure(region.meta, region.slots[id as int], id, incarnation)),
            )
        }
    }

    /// All steps of a claim, given what the first look at the slot said.
    pub open spec fn claimed(
        self,
        verdict: Result<LeaseIncarnation, SlotAccessError>,
        id: u32,
        table: LivenessTable,
    ) -> (ClaimState, Result<LeaseIncarnation, SlotAccessError>) {
        match verdict {
            Err(e) => (self, Err(e)),
            Ok(incarnation) => {
                let (region, reaped) = self.region.reaped(
                    id as int,
                    incarnation,
                    table,
                    self.process.pid,
                );
                let looked = ClaimState { region, ..self };
                match reaped {
                    Ok(true) => (
                        looked,
                        Err(
                            SlotAccessError::Released {
                                slot_id: id,
                                claimed_generation: incarnation.generation,
                            },
                        ),
                    ),
                    Err(failure) => (
                        looked,
                        Err(probe_error(id, incarnation.generation, failure)),
                    ),
                    Ok(false) => {
                        let (reserved, r) = looked.claim_reserved(id, incarnation);
                        match r {
                            Err(e) => (reserved, Err(e)),
                            Ok(()) => {
                                let (rechecked, r) = reserved.claim_rechecked(
                                    id,
                                    incarnation,
                                    table,
                                );
                                match r {
                                    Err(e) => (rechecked, Err(e)),
                                    Ok(()) => rechecked.claim_committed(id, incarnation),
                                }
                            },
                        }
                    },
                }
            },
        }
    }
}

impl RegionState {
    /// The region after a pending claim was undone.
    pub open spec fn claim_rolled_back(self, id: int, incarnation: LeaseIncarnation, pid: i32) -> RegionState {
        let (cleared, mutation) = self.owners_cleared(id, incarnation, OWNER_WORKER_PENDING);
        cleared.followed_up(id, incarnation, mutation, pid)
    }
}

/// Decides whether the current lease of a slot can be claimed.
pub fn judge_claim(region: RegionSnapshot, slot: SlotSnapshot, slot_id: u32) -> (r: Result<
    LeaseIncarnation,
    SlotAccessError,
>)
    requires
        region.word().online(),
    ensures
        forall|state: SlotState, slot_count: u32|
            slot.shows(state) && slot_id < slot_count ==> r == #[trigger] claim_verdict(
                region.word(),
                slot_count,
                state,
                slot_id,
            ),
{
    let claimed_generation: u64 = region.generation;
    if !slot.slot_meta.is_leased() || slot.slot_generation != claimed_generation
        || slot.slot_meta.lease_epoch() == 0 {
        return Err(SlotAccessError::Released { slot_id, claimed_generation });
    }
    if !slot.slot_meta.has_backend_owner() {
        return Err(SlotAccessError::Released { slot_id, claimed_generation });
    }
    if slot.slot_meta.has_any_worker_owner() {
        return Err(SlotAccessError::Busy { slot_id, claimed_generation });
    }
    Ok(LeaseIncarnation::new(claimed_generation, slot.slot_meta.lease_epoch()))
}

/// Decides whether exactly this lease can be claimed.
pub fn judge_exact_claim(region: RegionSnapshot, slot: SlotSnapshot, peer: BackendLeaseSlot) -> (r:
    Result<LeaseIncarnation, SlotAccessError>)
    requires
        region.word().online(),
        region.generation == peer.lease_id.generation,
    ensures
        forall|state: SlotState, slot_count: u32|
            slot.shows(state) && peer.slot_id < slot_count ==> r == #[trigger] exact_claim_verdict(
                region.word(),
                slot_count,
                state,
                peer,
            ),
{
    let slot_id: u32 = peer.slot_id();
    let claimed: BackendLeaseId = peer.lease_id();
    let claimed_generation: u64 = claimed.generation();
    if !slot.slot_meta.is_leased() || slot.slot_generation != claimed_generation
        || slot.slot_meta.lease_epoch() == 0 {
        return Err(SlotAccessError::Released { slot_id, claimed_generation });
    }
    if slot.slot_meta.lease_epoch() != claimed.lease_epoch() {
        return Err(
            SlotAccessError::StaleLeaseEpoch {
                slot_id,
                claimed_generation,
                claimed_lease_epoch: claimed.lease_epoch(),
                current_lease_epoch: slot.slot_meta.lease_epoch(),
            },
        );
    }
    if !slot.slot_meta.has_backend_owner() {
        return Err(SlotAccessError::Released { slot_id, claimed_generation });
    }
    if slot.slot_meta.has_any_worker_owner() {
        return Err(SlotAccessError::Busy { slot_id, claimed_generation });
    }
    Ok(LeaseIncarnation::new(claimed_generation, claimed.lease_epoch()))
}

/// Says why the slot word was not the one that a claim expected.
pub fn classify_worker_claim_failure(
    region: RegionSnapshot,
    slot: SlotSnapshot,
    slot_id: u32,
    incarnation: LeaseIncarnation,
) -> (r: SlotAccessError)
    ensures
        forall|state: SlotState| #[trigger]
            slot.shows(state) ==> r == claim_failure(region.word(), state, slot_id, incarnation),
{
    let claimed_generation: u64 = incarnation.generation;
    if region.generation != claimed_generation {
        return SlotAccessError::StaleGeneration {
            slot_id,
            claimed_generation,
            current_generation: region.generation,
        };
    }
    if !region.is_online() {
        return SlotAccessError::WorkerOffline;
    }
    if !slot.slot_meta.is_leased() || slot.slot_generation != claimed_generation {
        return SlotAccessError::Released { slot_id, claimed_generation };
    }
    if slot.slot_meta.lease_epoch() != incarnation.lease_epoch {
        return SlotAccessError::StaleLeaseEpoch {
            slot_id,
            claimed_generation,
            claimed_lease_epoch: incarnation.lease_epoch,
            current_lease_epoch: slot.slot_meta.lease_epoch(),
        };
    }
    if !slot.slot_meta.has_backend_owner() {
        return SlotAccessError::Released { slot_id, claimed_generation };
    }
    if slot.slot_meta.has_any_worker_owner() {
        return SlotAccessError::Busy { slot_id, claimed_generation };
    }
    SlotAccessError::Released { slot_id, claimed_generation }
}

/// Decides whether a pending claim still holds.
pub fn judge_recheck(
    region: RegionSnapshot,
    slot: SlotSnapshot,
    slot_id: u32,
    incarnation: LeaseIncarnation,
) -> (r: Result<(), SlotAccessError>)
    ensures
        forall|state: SlotState| #[trigger]
            slot.shows(state) ==> r == match recheck_verdict(
                region.word(),
                state,
                slot_id,
                incarnation,
            ) {
                Some(e) => Err::<(), SlotAccessError>(e),
                None => Ok(()),
            },
{
    let claimed_generation: u64 = incarnation.generation;
    if region.generation != claimed_generation {
        return Err(
            SlotAccessError::StaleGeneration {
                slot_id,
                claimed_generation,
                current_generation: region.generation,
            },
        );
    }
    if region.worker_state != WORKER_STATE_ONLINE {
        return Err(SlotAccessError::WorkerOffline);
    }
    if slot.slot_meta.lease_epoch() != incarnation.lease_epoch {
        return Err(
            SlotAccessError::StaleLeaseEpoch {
                slot_id,
                claimed_generation,
                claimed_lease_epoch: incarnation.lease_epoch,
                current_lease_epoch: slot.slot_meta.lease_epoch(),
            },
        );
    }
    if slot.slot_generation != claimed_generation || !slot.slot_meta.is_leased()
        || slot.slot_meta.owner_mask() != OWNER_CLAIM_PENDING {
        return Err(SlotAccessError::Released { slot_id, claimed_generation });
    }
    Ok(())
}

impl TransportRegion {
    /// First look of a claim at the current lease of a slot.
    pub fn examine_worker_claim(&self, slot_id: u32) -> (r: Result<
        LeaseIncarnation,
        SlotAccessError,
    >)
        requires
            self@.shaped(),
        ensures
            r == claim_verdict(
                self@.meta,
                self@.layout.slot_count,
                self@.slots[slot_id as int],
                slot_id,
            ),
    {
        let region: RegionSnapshot = self.load_region_snapshot();
        if !region.is_online() {
            return Err(SlotAccessError::WorkerOffline);
        }
        match self.slot_view(slot_id) {
            Ok(_) => {},
            Err(e) => {
                return Err(e);
            },
        }
        judge_claim(region, self.load_slot_snapshot(slot_id), slot_id)
    }

    /// First look of a claim at one exact lease.
    pub fn examine_exact_claim(&self, peer: BackendLeaseSlot) -> (r: Result<
        LeaseIncarnation,
        SlotAccessError,
    >)
        requires
            self@.shaped(),
        ensures
            r == exact_claim_verdict(
                self@.meta,
                self@.layout.slot_count,
                self@.slots[peer.slot_id as int],
                peer,
            ),
    {
        let claimed: BackendLeaseId = peer.lease_id();
        let region: RegionSnapshot = self.load_region_snapshot();
        if !region.is_online() {
            return Err(SlotAccessError::WorkerOffline);
        }
        if region.generation != claimed.generation() {
            return Err(
                SlotAccessError::StaleGeneration {
                    slot_id: peer.slot_id(),
                    claimed_generation: claimed.generation(),
                    current_generation: region.generation,
                },
            );
        }
        match self.slot_view(peer.slot_id()) {
            Ok(_) => {},
            Err(e) => {
                return Err(e);
            },
        }
        judge_exact_claim(region, self.load_slot_snapshot(peer.slot_id()), peer)
    }

    /// The slot word is that of a lease with exactly these owners.
    fn slot_word_is(&self, slot_id: u32, lease_epoch: u64, owners: u32) -> (r: bool)
        requires
            self@.has_slot(slot_id),
        ensures
            r == (self@.slots[slot_id as int].meta == leased_word(lease_epoch, owners)),
    {
        let meta: SlotMeta = self.load_slot_snapshot(slot_id).slot_meta;
        meta.is_leased() && meta.lease_epoch() == lease_epoch && meta.owner_mask() == owners
    }

    /// Marks a slot as claimed by this process.
    pub fn reserve_worker_claim(
        &mut self,
        process: &mut ProcessContext,
        slot_id: u32,
        incarnation: LeaseIncarnation,
    ) -> (r: Result<(), SlotAccessError>)
        requires
            old(self)@.shaped(),
            old(self)@.has_slot(slot_id),
            old(process)@.attached(old(self)@.key, old(self)@.layout.slot_count) is Some,
        ensures
            final(self)@.shaped(),
            (ClaimState { region: final(self)@, process: final(process)@ }, r) == (ClaimState {
                region: old(self)@,
                process: old(process)@,
            }).claim_reserved(slot_id, incarnation),
    {
        let key: usize = self.region_key();
        let slot_count: u32 = self.slot_count();
        if !process.insert_local_worker_owner(key, slot_count, slot_id, incarnation) {
            return Err(
                SlotAccessError::Busy { slot_id, claimed_generation: incarnation.generation },
            );
        }
        if !self.slot_word_is(slot_id, incarnation.lease_epoch, OWNER_BACKEND) {
            let error: SlotAccessError = classify_worker_claim_failure(
                self.load_region_snapshot(),
                self.load_slot_snapshot(slot_id),
                slot_id,
                incarnation,
            );
            let _ = process.remove_local_worker_owner(key, slot_count, slot_id, incarnation);
            return Err(error);
        }
        let pending: SlotMeta = self.load_slot_snapshot(slot_id).slot_meta.with_owner_mask(
            OWNER_CLAIM_PENDING,
        );
        self.store_slot_meta(slot_id, pending);
        Ok(())
    }

    /// Undoes a pending claim.
    fn rollback_worker_claim(&mut self, slot_id: u32, incarnation: LeaseIncarnation, pid: i32)
        requires
            old(self)@.shaped(),
            old(self)@.has_slot(slot_id),
        ensures
            final(self)@ == old(self)@.claim_rolled_back(slot_id as int, incarnation, pid),
            final(self)@.shaped(),
            final(self)@.same_frame(old(self)@),
    {
        let mutation: OwnerMutationResult = self.clear_owner_bits_if_matching(
            slot_id,
            incarnation,
            OWNER_WORKER_PENDING,
        );
        self.finalize_if_ownerless(slot_id, incarnation, mutation, pid);
    }

    /// Looks at a pending claim of this process again.
    pub fn recheck_worker_claim(
        &mut self,
        process: &mut ProcessContext,
        slot_id: u32,
        incarnation: LeaseIncarnation,
        table: &LivenessTable,
    ) -> (r: Result<(), SlotAccessError>)
        requires
            old(self)@.shaped(),
            old(self)@.has_slot(slot_id),
        ensures
            final(self)@.shaped(),
            final(self)@.same_frame(old(self)@),
            (ClaimState { region: final(self)@, process: final(process)@ }, r) == (ClaimState {
                region: old(self)@,
                process: old(process)@,
            }).claim_rechecked(slot_id, incarnation, *table),
    {
        let key: usize = self.region_key();
        let slot_count: u32 = self.slot_count();
        let pid: i32 = process.current_process_pid();
        let slot: SlotSnapshot = self.load_slot_snapshot(slot_id);
        match judge_recheck(self.load_region_snapshot(), slot, slot_id, incarnation) {
            Ok(()) => {},
            Err(e) => {
                self.rollback_worker_claim(slot_id, incarnation, pid);
                let _ = process.remove_local_worker_owner(key, slot_count, slot_id, incarnation);
                return Err(e);
            },
        }
        match table.probe(slot.backend_pid) {
            Ok(true) => Ok(()),
            Ok(false) => {
                self.rollback_worker_claim(slot_id, incarnation, pid);
                let _ = self.reap_dead_backend_owner(slot_id, incarnation, table, pid);
                let _ = process.remove_local_worker_owner(key, slot_count, slot_id, incarnation);
                Err(
                    SlotAccessError::Released {
                        slot_id,
                        claimed_generation: incarnation.generation,
                    },
                )
            },
            Err(failure) => {
                self.rollback_worker_claim(slot_id, incarnation, pid);
                let _ = process.remove_local_worker_owner(key, slot_count, slot_id, incarnation);
                Err(
                    SlotAccessError::BackendProbeFailed {
                        slot_id,
                        claimed_generation: incarnation.generation,
                        error_kind: failure.error_kind,
                        raw_os_error: failure.raw_os_error,
                    },
                )
            },
        }
    }

    /// Turns a pending claim of this process into a claim.
    pub fn commit_worker_claim(
        &mut self,
        process: &mut ProcessContext,
        slot_id: u32,
        incarnation: LeaseIncarnation,
    ) -> (r: Result<LeaseIncarnation, SlotAccessError>)
        requires
            old(self)@.shaped(),
            old(self)@.has_slot(slot_id),
        ensures
            final(self)@.shaped(),
            (ClaimState { region: final(self)@, process: final(process)@ }, r) == (ClaimState {
                region: old(self)@,
                process: old(process)@,
            }).claim_committed(slot_id, incarnation),
    {
        let key: usize = self.region_key();
        let slot_count: u32 = self.slot_count();
        if !self.slot_word_is(slot_id, incarnation.lease_epoch, OWNER_CLAIM_PENDING) {
            let pid: i32 = process.current_process_pid();
            self.rollback_worker_claim(slot_id, incarnation, pid);
            let error: SlotAccessError = classify_worker_claim_failure(
                self.load_region_snapshot(),
                self.load_slot_snapshot(slot_id),
                slot_id,
                incarnation,
            );
            let _ = process.remove_local_worker_owner(key, slot_count, slot_id, incarnation);
            return Err(error);
        }
        let committed: SlotMeta = self.load_slot_snapshot(slot_id).slot_meta.with_owner_mask(
            OWNER_BOTH,
        );
        self.store_slot_meta(slot_id, committed);
        Ok(incarnation)
    }

    /// The steps of a claim after the first look at the slot.
    fn carry_out_claim(
        &mut self,
        process: &mut ProcessContext,
        slot_id: u32,
        verdict: Result<LeaseIncarnation, SlotAccessError>,
        table: &LivenessTable,
    ) -> (r: Result<LeaseIncarnation, SlotAccessError>)
        requires
            old(self)@.shaped(),
            verdict is Ok ==> old(self)@.has_slot(slot_id),
            old(process)@.attached(old(self)@.key, old(self)@.layout.slot_count) is Some,
        ensures
            final(self)@.shaped(),
            (ClaimState { region: final(self)@, process: final(process)@ }, r) == (ClaimState {
                region: old(self)@,
                process: old(process)@,
            }).claimed(verdict, slot_id, *table),
    {
        let incarnation: LeaseIncarnation = match verdict {
            Ok(i) => i,
            Err(e) => {
                return Err(e);
            },
        };
        let pid: i32 = process.current_process_pid();
        match self.reap_dead_backend_owner(slot_id, incarnation, table, pid) {
            Ok(true) => {
                return Err(
                    SlotAccessError::Released {
                        slot_id,
                        claimed_generation: incarnation.generation,
                    },
                );
            },
            Ok(false) => {},
            Err(failure) => {
                return Err(
                    SlotAccessError::BackendProbeFailed {
                        slot_id,
                        claimed_generation: incarnation.generation,
                        error_kind: failure.error_kind,
                        raw_os_error: failure.raw_os_error,
                    },
                );
            },
        }
        match self.reserve_worker_claim(process, slot_id, incarnation) {
            Ok(()) => {},
            Err(e) => {
                return Err(e);
            },
        }
        match self.recheck_worker_claim(process, slot_id, incarnation, table) {
            Ok(()) => {},
            Err(e) => {
                return Err(e);
            },
        }
        self.commit_worker_claim(process, slot_id, incarnation)
    }

    /// Claims the current lease of a slot for this process.
    pub fn claim_worker_slot(
        &mut self,
        process: &mut ProcessContext,
        slot_id: u32,
        table: &LivenessTable,
    ) -> (r: Result<LeaseIncarnation, SlotAccessError>)
        requires
            old(self)@.shaped(),
            old(process)@.attached(old(self)@.key, old(self)@.layout.slot_count) is Some,
        ensures
            final(self)@.shaped(),
            (ClaimState { region: final(self)@, process: final(process)@ }, r) == (ClaimState {
                region: old(self)@,
                process: old(process)@,
            }).claimed(
                claim_verdict(
                    old(self)@.meta,
                    old(self)@.layout.slot_count,
                    old(self)@.slots[slot_id as int],
                    slot_id,
                ),
                slot_id,
                *table,
            ),
    {
        let verdict: Result<LeaseIncarnation, SlotAccessError> = self.examine_worker_claim(
            slot_id,
        );
        self.carry_out_claim(process, slot_id, verdict, table)
    }

    /// Claims exactly this lease for this process.
    pub fn claim_worker_slot_for_backend_lease(
        &mut self,
        process: &mut ProcessContext,
        peer: BackendLeaseSlot,
        table: &LivenessTable,
    ) -> (r: Result<LeaseIncarnation, SlotAccessError>)
        requires
            old(self)@.shaped(),
            old(process)@.attached(old(self)@.key, old(self)@.layout.slot_count) is Some,
        ensures
            final(self)@.shaped(),
            (ClaimState { region: final(self)@, process: final(process)@ }, r) == (ClaimState {
                region: old(self)@,
                process: old(process)@,
            }).claimed(
                exact_claim_verdict(
                    old(self)@.meta,
                    old(self)@.layout.slot_count,
                    old(self)@.slots[peer.slot_id as int],
                    peer,
                ),
                peer.slot_id,
                *table,
            ),
    {
        let verdict: Result<LeaseIncarnation, SlotAccessError> = self.examine_exact_claim(peer);
        self.carry_out_claim(process, peer.slot_id(), verdict, table)
    }
}

} // verus!
