//! The backend's side: leasing a slot and talking to the worker through it.

use super::error::{AcquireError, BackendRxError, BackendTxError, LeaseError, NotifyError};
use super::lease::{lease_id, lease_id_of, BackendLeaseId, BackendLeaseSlot};
use super::lifecycle::{lease_verdict, OwnerMutationResult};
use super::meta::{
    backend_bit, free_word, leased_word, lemma_owner_bits, worker_bit, LeaseIncarnation, SlotMeta,
    LEASE_STATE_ACQUIRE_RESERVED, LEASE_STATE_FREE_POPPED, LEASE_STATE_LEASED, OWNER_BACKEND,
    SLOT_META_MAX_LEASE_EPOCH,
};
use super::process::LivenessTable;
use super::raw::{sent, taken, ControlRx, ControlTx, RingDirection};
use super::region::{received, RegionState, SlotSnapshot, SlotState, TransportRegion};
use super::registry::ProcessContext;
use super::ring::{outcome_of, CommitOutcome};
use vstd::prelude::*;

verus! {

impl RegionState {
    /// The region after a slot whose token was popped was reserved for a
    /// backend of `generation`.
    pub open spec fn popped_slot_reserved(self, id: u32, generation: u64, pid: i32) -> (
        RegionState,
        Result<u32, AcquireError>,
    ) {
        if !self.online_in(generation) {
            (self.acquire_aborted(id as int, pid).0, Err(AcquireError::WorkerOffline))
        } else {
            (self.reserved(id as int, self.freelist_epoch, pid).0, Ok(id))
        }
    }

    /// The region after a slot was reserved. Where no token is left, dead
    /// backends are reaped first.
    pub open spec fn backend_slot_reserved(
        self,
        generation: u64,
        table: LivenessTable,
        pid: i32,
    ) -> (RegionState, Result<u32, AcquireError>) {
        let (first, token) = self.token_taken(pid);
        match token {
            Some(id) => first.popped_slot_reserved(id, generation, pid),
            None => {
                let (reaped, r) = first.dead_reaped(table, pid);
                match r {
                    Err((slot_id, failure)) => (
                        reaped,
                        Err(
                            AcquireError::BackendProbeFailed {
                                slot_id,
                                error_kind: failure.error_kind,
                                raw_os_error: failure.raw_os_error,
                            },
                        ),
                    ),
                    Ok(_) => {
                        let (second, token) = reaped.token_taken(pid);
                        match token {
                            Some(id) => second.popped_slot_reserved(id, generation, pid),
                            None => (second, Err(AcquireError::Empty)),
                        }
                    },
                }
            },
        }
    }

    /// The region after a reserved slot was leased to the process `pid` under a
    /// fresh epoch. Fails where the reservation is gone.
    pub open spec fn lease_published(self, id: int, generation: u64, pid: i32) -> (
        RegionState,
        Option<LeaseIncarnation>,
    ) {
        let epoch = self.next_lease_epoch;
        let prepared = (RegionState { next_lease_epoch: (epoch + 1) as u64, ..self }).with_slot(
            id,
            SlotState { generation, backend_pid: pid, ..self.slots[id].cleared() },
        );
        if self.slots[id].meta == free_word(LEASE_STATE_ACQUIRE_RESERVED, 0) {
            (
                prepared.with_meta(id, leased_word(epoch, OWNER_BACKEND)),
                Some(LeaseIncarnation { generation, lease_epoch: epoch }),
            )
        } else {
            (prepared.acquire_aborted(id, pid).0, None)
        }
    }

    /// The region after a backend let go of its lease.
    pub open spec fn backend_released(self, id: int, incarnation: LeaseIncarnation, pid: i32) -> RegionState {
        if self.slots[id].leased_as(incarnation) && backend_bit(self.slots[id].meta.owners) {
            self.backend_detached(id, incarnation, pid)
        } else {
            self
        }
    }

    /// An acquisition gets as far as leasing a slot.
    pub open spec fn leases_slot(self, table: LivenessTable, pid: i32) -> bool {
        self.meta.online() && self.backend_slot_reserved(
            self.meta.generation,
            table,
            pid,
        ).1 is Ok
    }

    /// The region after a slot was leased, before the backend made sure that
    /// the worker is still online.
    pub open spec fn lease_begun(self, table: LivenessTable, pid: i32) -> (
        RegionState,
        Result<(u32, LeaseIncarnation), AcquireError>,
    ) {
        if !self.meta.online() {
            (self, Err(AcquireError::WorkerOffline))
        } else {
            let generation = self.meta.generation;
            let (reserved, r) = self.backend_slot_reserved(generation, table, pid);
            match r {
                Err(e) => (reserved, Err(e)),
                Ok(id) => {
                    let (leased, incarnation) = reserved.lease_published(
                        id as int,
                        generation,
                        pid,
                    );
                    match incarnation {
                        None => (leased, Err(AcquireError::WorkerOffline)),
                        Some(i) => (leased, Ok((id, i))),
                    }
                },
            }
        }
    }

    /// The region after a leased slot was confirmed or, where the worker left
    /// its generation, given back.
    pub open spec fn lease_confirmed(self, id: u32, incarnation: LeaseIncarnation, pid: i32) -> (
        RegionState,
        Result<(), AcquireError>,
    ) {
        if self.online_in(incarnation.generation) {
            (self, Ok(()))
        } else {
            (
                self.backend_released(id as int, incarnation, pid),
                Err(AcquireError::WorkerOffline),
            )
        }
    }

    /// The region after all steps of a lease.
    pub open spec fn lease_acquired(self, table: LivenessTable, pid: i32) -> (
        RegionState,
        Result<(u32, LeaseIncarnation), AcquireError>,
    ) {
        let (begun, r) = self.lease_begun(table, pid);
        match r {
            Err(e) => (begun, Err(e)),
            Ok((id, incarnation)) => {
                let (confirmed, r) = begun.lease_confirmed(id, incarnation, pid);
                match r {
                    Err(e) => (confirmed, Err(e)),
                    Ok(()) => (confirmed, Ok((id, incarnation))),
                }
            },
        }
    }
}

impl TransportRegion {
    /// Reserves a slot whose token was popped under `popped_epoch`, if the
    /// worker is still online in `generation`.
    fn reserve_popped(&mut self, slot_id: u32, popped_epoch: u64, generation: u64, pid: i32) -> (r:
        Result<u32, AcquireError>)
        requires
            old(self)@.shaped(),
            old(self)@.has_slot(slot_id),
            old(self)@.slots[slot_id as int].meta == free_word(
                LEASE_STATE_FREE_POPPED,
                popped_epoch,
            ),
            popped_epoch == old(self)@.freelist_epoch,
        ensures
            (final(self)@, r) == old(self)@.popped_slot_reserved(slot_id, generation, pid),
            final(self)@.shaped(),
            final(self)@.next_lease_epoch == old(self)@.next_lease_epoch,
            r matches Ok(id) ==> final(self)@.has_slot(id),
    {
        if !self.load_region_meta().is_online_generation(generation) {
            let _ = self.abort_reserved_slot_acquire(slot_id, pid);
            return Err(AcquireError::WorkerOffline);
        }
        let _ = self.reserve_popped_slot_for_acquire(slot_id, popped_epoch, pid);
        Ok(slot_id)
    }

    /// Reserves a slot for a backend of `generation`.
    pub fn reserve_backend_slot(&mut self, generation: u64, table: &LivenessTable, pid: i32) -> (r:
        Result<u32, AcquireError>)
        requires
            old(self)@.shaped(),
        ensures
            (final(self)@, r) == old(self)@.backend_slot_reserved(generation, *table, pid),
            final(self)@.shaped(),
            final(self)@.next_lease_epoch == old(self)@.next_lease_epoch,
            r matches Ok(id) ==> final(self)@.has_slot(id),
    {
        match self.pop_freelist_token_for_acquire(pid) {
            Ok((slot_id, popped_epoch)) => {
                return self.reserve_popped(slot_id, popped_epoch, generation, pid);
            },
            Err(_) => {},
        }
        match self.reap_current_generation_dead_backend_slots(table, pid) {
            Err((slot_id, failure)) => {
                return Err(
                    AcquireError::BackendProbeFailed {
                        slot_id,
                        error_kind: failure.error_kind,
                        raw_os_error: failure.raw_os_error,
                    },
                );
            },
            Ok(_) => {},
        }
        match self.pop_freelist_token_for_acquire(pid) {
            Ok((slot_id, popped_epoch)) => self.reserve_popped(
                slot_id,
                popped_epoch,
                generation,
                pid,
            ),
            Err(e) => Err(e),
        }
    }

    /// Leases a reserved slot to the process `pid`.
    pub fn publish_backend_lease(&mut self, slot_id: u32, generation: u64, pid: i32) -> (r: Option<
        LeaseIncarnation,
    >)
        requires
            old(self)@.shaped(),
            old(self)@.has_slot(slot_id),
            old(self)@.next_lease_epoch < SLOT_META_MAX_LEASE_EPOCH,
        ensures
            (final(self)@, r) == old(self)@.lease_published(slot_id as int, generation, pid),
            final(self)@.shaped(),
    {
        let lease_epoch: u64 = self.allocate_lease_epoch();
        self.clear_slot(slot_id);
        self.store_slot_generation(slot_id, generation);
        self.store_backend_pid(slot_id, pid);
        let current: SlotMeta = self.load_slot_snapshot(slot_id).slot_meta;
        let ghost prepared = (RegionState {
            next_lease_epoch: (lease_epoch + 1) as u64,
            ..old(self)@
        }).with_slot(
            slot_id as int,
            SlotState {
                generation,
                backend_pid: pid,
                ..old(self)@.slots[slot_id as int].cleared()
            },
        );
        assert(self@ =~= prepared);
        if !(current.is_acquire_reserved() && current.lease_epoch() == 0
            && current.is_ownerless()) {
            let _ = self.abort_reserved_slot_acquire(slot_id, pid);
            return None;
        }
        self.store_slot_meta(slot_id, SlotMeta::new(LEASE_STATE_LEASED, lease_epoch, OWNER_BACKEND));
        Some(LeaseIncarnation::new(generation, lease_epoch))
    }
}

/// Process-local backend lease for one raw transport slot in one worker generation.
#[derive(Clone, Copy, Debug, PartialEq, Eq, Structural)]
pub struct BackendSlotLease {
    pub incarnation: LeaseIncarnation,
    pub slot_id: u32,
    pub active: bool,
}

/// Backend-owned sender for the backend-to-worker ring.
#[derive(Clone, Copy, Debug, PartialEq, Eq, Structural)]
pub struct BackendTx {
    pub lease: BackendSlotLease,
    pub inner: ControlTx,
}

/// Backend-owned receiver for the worker-to-backend ring.
#[derive(Clone, Copy, Debug, PartialEq, Eq, Structural)]
pub struct BackendRx {
    pub lease: BackendSlotLease,
    pub inner: ControlRx,
}

impl BackendSlotLease {
    /// The lease that a slot and an incarnation give.
    pub open spec fn of(slot_id: u32, incarnation: LeaseIncarnation) -> BackendSlotLease {
        BackendSlotLease { incarnation, slot_id, active: true }
    }

    /// Why this lease is no longer good, if so.
    pub open spec fn verdict(self, region: RegionState) -> Option<LeaseError> {
        lease_verdict(
            region.meta,
            region.slots[self.slot_id as int],
            self.slot_id,
            self.incarnation,
            self.active,
        )
    }

    /// Leases a slot. The lease is not good before [`Self::confirm_acquire`].
    pub fn begin_acquire(
        region: &mut TransportRegion,
        process: &ProcessContext,
        table: &LivenessTable,
    ) -> (r: Result<Self, AcquireError>)
        requires
            old(region)@.shaped(),
            old(region)@.leases_slot(*table, process@.pid) ==> old(region)@.next_lease_epoch
                < SLOT_META_MAX_LEASE_EPOCH,
        ensures
            final(region)@.shaped(),
            final(region)@ == old(region)@.lease_begun(*table, process@.pid).0,
            r == match old(region)@.lease_begun(*table, process@.pid).1 {
                Ok((slot_id, incarnation)) => Ok::<Self, AcquireError>(
                    Self::of(slot_id, incarnation),
                ),
                Err(e) => Err(e),
            },
            r matches Ok(lease) ==> final(region)@.has_slot(lease.slot_id),
    {
        let pid: i32 = process.current_process_pid();
        let generation: u64 = region.region_generation();
        if !region.load_region_meta().is_online_generation(generation) {
            return Err(AcquireError::WorkerOffline);
        }
        let slot_id: u32 = match region.reserve_backend_slot(generation, table, pid) {
            Ok(id) => id,
            Err(e) => {
                return Err(e);
            },
        };
        match region.publish_backend_lease(slot_id, generation, pid) {
            None => Err(AcquireError::WorkerOffline),
            Some(incarnation) => Ok(BackendSlotLease { incarnation, slot_id, active: true }),
        }
    }

    /// Makes sure that the worker did not leave its generation while the slot
    /// was being leased.
    pub fn confirm_acquire(&mut self, region: &mut TransportRegion, process: &ProcessContext) -> (r:
        Result<(), AcquireError>)
        requires
            old(self).active,
            old(region)@.shaped(),
            old(region)@.has_slot(old(self).slot_id),
        ensures
            final(region)@.shaped(),
            (final(region)@, r) == old(region)@.lease_confirmed(
                old(self).slot_id,
                old(self).incarnation,
                process@.pid,
            ),
            *final(self) == (BackendSlotLease { active: r is Ok, ..*old(self) }),
    {
        if !region.load_region_meta().is_online_generation(self.incarnation.generation) {
            self.release(region, process);
            return Err(AcquireError::WorkerOffline);
        }
        Ok(())
    }

    /// Acquires one backend slot from the currently active worker generation.
    pub fn acquire(
        region: &mut TransportRegion,
        process: &ProcessContext,
        table: &LivenessTable,
    ) -> (r: Result<Self, AcquireError>)
        requires
            old(region)@.shaped(),
            old(region)@.leases_slot(*table, process@.pid) ==> old(region)@.next_lease_epoch
                < SLOT_META_MAX_LEASE_EPOCH,
        ensures
            final(region)@.shaped(),
            final(region)@ == old(region)@.lease_acquired(*table, process@.pid).0,
            r == match old(region)@.lease_acquired(*table, process@.pid).1 {
                Ok((slot_id, incarnation)) => Ok::<Self, AcquireError>(
                    Self::of(slot_id, incarnation),
                ),
                Err(e) => Err(e),
            },
            r matches Ok(lease) ==> final(region)@.has_slot(lease.slot_id),
    {
        let mut lease: BackendSlotLease = match BackendSlotLease::begin_acquire(
            region,
            process,
            table,
        ) {
            Ok(l) => l,
            Err(e) => {
                return Err(e);
            },
        };
        match lease.confirm_acquire(region, process) {
            Ok(()) => Ok(lease),
            Err(e) => Err(e),
        }
    }

    pub fn generation(&self) -> (r: u64)
        ensures
            r == self.incarnation.generation,
    {
        self.incarnation.generation
    }

    pub fn backend_lease_id(&self) -> (r: BackendLeaseId)
        ensures
            r == lease_id_of(self.incarnation),
    {
        lease_id(self.incarnation)
    }

    pub fn backend_lease_slot(&self) -> (r: BackendLeaseSlot)
        ensures
            r == (BackendLeaseSlot {
                slot_id: self.slot_id,
                lease_id: lease_id_of(self.incarnation),
            }),
    {
        BackendLeaseSlot::new(self.slot_id, self.backend_lease_id())
    }

    pub fn slot_id(&self) -> (r: u32)
        ensures
            r == self.slot_id,
    {
        self.slot_id
    }

    pub fn backend_pid(&self, region: &TransportRegion) -> (r: i32)
        requires
            region@.has_slot(self.slot_id),
        ensures
            r == region@.slots[self.slot_id as int].backend_pid,
    {
        region.load_slot_snapshot(self.slot_id).backend_pid
    }

    /// Return whether a worker-side handle is still attached to this lease.
    pub fn worker_attached(&self, region: &TransportRegion) -> (r: bool)
        requires
            region@.has_slot(self.slot_id),
        ensures
            r == (self.active && region@.slots[self.slot_id as int].leased_as(self.incarnation)
                && worker_bit(region@.slots[self.slot_id as int].meta.owners)),
    {
        if !self.active {
            return false;
        }
        let slot: SlotSnapshot = region.load_slot_snapshot(self.slot_id);
        if slot.slot_generation != self.incarnation.generation {
            return false;
        }
        slot.slot_meta.is_leased() && slot.slot_meta.lease_epoch() == self.incarnation.lease_epoch
            && slot.slot_meta.has_worker_owner()
    }

    /// Releases the leased slot. The slot only returns to the freelist after
    /// both backend and worker owners have detached.
    pub fn release(&mut self, region: &mut TransportRegion, process: &ProcessContext)
        requires
            old(region)@.shaped(),
            old(region)@.has_slot(old(self).slot_id),
        ensures
            final(region)@.shaped(),
            final(region)@ == if old(self).active {
                old(region)@.backend_released(
                    old(self).slot_id as int,
                    old(self).incarnation,
                    process@.pid,
                )
            } else {
                old(region)@
            },
            *final(self) == (BackendSlotLease { active: false, ..*old(self) }),
    {
        if !self.active {
            return;
        }
        self.active = false;
        let slot: SlotSnapshot = region.load_slot_snapshot(self.slot_id);
        if slot.slot_generation != self.incarnation.generation {
            return;
        }
        if !slot.slot_meta.has_backend_owner() {
            return;
        }
        let mutation: OwnerMutationResult = region.clear_owner_bits_if_matching(
            self.slot_id,
            self.incarnation,
            OWNER_BACKEND,
        );
        proof {
            super::meta::lemma_slot_meta_unpack(slot.slot_meta);
            lemma_owner_bits(slot.slot_meta@.owners);
        }
        if !mutation.changed {
            return;
        }
        region.store_backend_pid(self.slot_id, 0);
        region.finalize_if_ownerless(
            self.slot_id,
            self.incarnation,
            mutation,
            process.current_process_pid(),
        );
    }

    pub fn to_worker_tx(&self) -> (r: BackendTx)
        ensures
            r.lease == *self,
            r.inner == (ControlTx { slot_id: self.slot_id, direction: RingDirection::ToWorker }),
    {
        BackendTx {
            lease: *self,
            inner: ControlTx { slot_id: self.slot_id, direction: RingDirection::ToWorker },
        }
    }

    pub fn from_worker_rx(&self) -> (r: BackendRx)
        ensures
            r.lease == *self,
            r.inner == (ControlRx { slot_id: self.slot_id, direction: RingDirection::ToBackend }),
    {
        BackendRx {
            lease: *self,
            inner: ControlRx { slot_id: self.slot_id, direction: RingDirection::ToBackend },
        }
    }

    /// Checks that this lease is still good.
    pub fn validate(&self, region: &TransportRegion) -> (r: Result<(), LeaseError>)
        requires
            region@.has_slot(self.slot_id),
        ensures
            r == match self.verdict(region@) {
                Some(e) => Err::<(), LeaseError>(e),
                None => Ok(()),
            },
    {
        region.validate_lease(self.slot_id, self.incarnation, self.active)
    }
}

impl BackendTx {
    /// Copies one frame into the backend-to-worker ring. The lease is checked
    /// before and after: a frame may have been published although the lease
    /// turned out to be stale afterwards.
    pub fn send_frame(
        &self,
        region: &mut TransportRegion,
        payload: &[u8],
        signal: Result<bool, NotifyError>,
    ) -> (r: Result<CommitOutcome, BackendTxError>)
        requires
            old(region)@.shaped(),
            old(region)@.has_slot(self.lease.slot_id),
            self.inner.slot_id == self.lease.slot_id,
        ensures
            final(region)@.shaped(),
            r == match self.lease.verdict(old(region)@) {
                Some(e) => Err::<CommitOutcome, BackendTxError>(BackendTxError::Lease(e)),
                None => match old(region)@.ring(
                    self.lease.slot_id as int,
                    self.inner.direction,
                ).send_error(payload@.len() as int) {
                    Some(e) => Err(BackendTxError::Ring(e)),
                    None => Ok(outcome_of(signal)),
                },
            },
            r is Err ==> final(region)@ == old(region)@,
            r is Ok ==> sent(
                old(region)@,
                self.lease.slot_id as int,
                self.inner.direction,
                payload@,
                final(region)@,
            ),
    {
        match self.lease.validate(region) {
            Ok(()) => {},
            Err(e) => {
                return Err(BackendTxError::Lease(e));
            },
        }
        let outcome: CommitOutcome = match self.inner.send_frame(region, payload, signal) {
            Ok(o) => o,
            Err(e) => {
                return Err(BackendTxError::Ring(e));
            },
        };
        match self.lease.validate(region) {
            Ok(()) => Ok(outcome),
            Err(e) => Err(BackendTxError::Lease(e)),
        }
    }
}

impl BackendRx {
    /// Copies the next worker-to-backend frame into `dst`. The lease is checked
    /// before and after.
    pub fn recv_frame_into(&self, region: &mut TransportRegion, dst: &mut [u8]) -> (r: Result<
        Option<usize>,
        BackendRxError,
    >)
        requires
            old(region)@.shaped(),
            old(region)@.has_slot(self.lease.slot_id),
            self.inner.slot_id == self.lease.slot_id,
        ensures
            final(region)@.shaped(),
            self.lease.verdict(old(region)@) matches Some(e) ==> r == Err::<
                Option<usize>,
                BackendRxError,
            >(BackendRxError::Lease(e)) && final(dst)@ == old(dst)@,
            self.lease.verdict(old(region)@) is None ==> match r {
                Err(BackendRxError::Lease(_)) => false,
                Err(BackendRxError::Ring(e)) => received(
                    old(region)@.ring(self.lease.slot_id as int, self.inner.direction),
                    old(dst)@,
                    Err(e),
                    final(dst)@,
                ),
                Ok(n) => received(
                    old(region)@.ring(self.lease.slot_id as int, self.inner.direction),
                    old(dst)@,
                    Ok(n),
                    final(dst)@,
                ),
            },
            !(r matches Ok(Some(_))) ==> final(region)@ == old(region)@,
            r matches Ok(Some(n)) ==> taken(
                old(region)@,
                self.lease.slot_id as int,
                self.inner.direction,
                n as int,
                final(region)@,
            ),
    {
        match self.lease.validate(region) {
            Ok(()) => {},
            Err(e) => {
                return Err(BackendRxError::Lease(e));
            },
        }
        let n: Option<usize> = match self.inner.recv_frame_into(region, dst) {
            Ok(n) => n,
            Err(e) => {
                return Err(BackendRxError::Ring(e));
            },
        };
        match self.lease.validate(region) {
            Ok(()) => Ok(n),
            Err(e) => Err(BackendRxError::Lease(e)),
        }
    }
}

} // verus!
