//! The worker's side: generations, finding traffic, and claimed slots.

use super::claim::{claim_verdict, exact_claim_verdict, ClaimState};
use super::error::{
    NotifyError, SlotAccessError, WorkerAttachError, WorkerLifecycleError, WorkerRxError,
    WorkerTxError,
};
use super::lease::{lease_id, lease_id_of, BackendLeaseId, BackendLeaseSlot};
use super::lifecycle::{access_verdict, lifecycle_error};
use super::meta::{
    pending_bit, worker_bit, LeaseIncarnation, LEASE_STATE_LEASED, REGION_META_MAX_GENERATION,
    WORKER_STATE_OFFLINE,
};
use super::process::LivenessTable;
use super::raw::{sent, taken, ControlRx, ControlTx, RingDirection};
use super::region::{received, RegionState, SlotSnapshot, SlotState, TransportRegion};
use super::registry::{held_slots, ProcessContext};
use super::ring::{outcome_of, pending_frame, CommitOutcome};
use vstd::prelude::*;

verus! {

/// A slot that is leased in `generation`, that no worker claims, and that has
/// traffic for the worker.
pub open spec fn slot_ready(slot: SlotState, generation: u64) -> bool {
    &&& slot.meta.state == LEASE_STATE_LEASED
    &&& slot.generation == generation
    &&& !worker_bit(slot.meta.owners)
    &&& !pending_bit(slot.meta.owners)
    &&& slot.to_worker_ready || pending_frame(slot.to_worker)
}

impl RegionState {
    /// The first ready slot from `from` on; the number of slots if none is.
    pub open spec fn first_ready(self, generation: u64, from: int) -> int
        decreases self.slots.len() - from,
    {
        if from >= self.slots.len() {
            self.slots.len() as int
        } else if slot_ready(self.slots[from], generation) {
            from
        } else {
            self.first_ready(generation, from + 1)
        }
    }

    /// The slot that a search for traffic gives, and where the search stands
    /// afterwards. Nothing is found unless the worker is online in `generation`.
    pub open spec fn ready_step(self, generation: u64, from: u32) -> (u32, Option<u32>) {
        if from >= self.slots.len() || !self.online_in(generation) {
            (from, None)
        } else {
            let found = self.first_ready(generation, from as int);
            if found < self.slots.len() {
                ((found + 1) as u32, Some(found as u32))
            } else {
                (self.slots.len() as u32, None)
            }
        }
    }

    /// The region after the worker let go of several slots.
    pub open spec fn workers_released(
        self,
        owned: Seq<(u32, LeaseIncarnation)>,
        pid: i32,
    ) -> RegionState
        decreases owned.len(),
    {
        if owned.len() == 0 {
            self
        } else {
            self.workers_released(owned.drop_last(), pid).worker_released(
                owned.last().0 as int,
                owned.last().1,
                pid,
            )
        }
    }
}

/// What [`RegionState::first_ready`] finds is the first ready slot.
pub proof fn lemma_first_ready(v: RegionState, generation: u64, from: int)
    requires
        0 <= from <= v.slots.len(),
    ensures
        from <= v.first_ready(generation, from) <= v.slots.len(),
        v.first_ready(generation, from) < v.slots.len() ==> slot_ready(
            v.slots[v.first_ready(generation, from)],
            generation,
        ),
        forall|i: int|
            from <= i < v.first_ready(generation, from) ==> !slot_ready(
                #[trigger] v.slots[i],
                generation,
            ),
    decreases v.slots.len() - from,
{
    if from < v.slots.len() && !slot_ready(v.slots[from], generation) {
        lemma_first_ready(v, generation, from + 1);
    }
}

/// Slots that a registry holds are slots of its region.
pub proof fn lemma_held_slots_in_range(owners: Seq<LeaseIncarnation>)
    requires
        owners.len() <= u32::MAX,
    ensures
        forall|i: int|
            0 <= i < held_slots(owners).len() ==> (#[trigger] held_slots(owners)[i]).0
                < owners.len(),
    decreases owners.len(),
{
    if owners.len() > 0 {
        lemma_held_slots_in_range(owners.drop_last());
        let shorter = held_slots(owners.drop_last());
        assert forall|i: int| 0 <= i < held_slots(owners).len() implies (#[trigger] held_slots(
            owners,
        )[i]).0 < owners.len() by {
            if i < shorter.len() {
                assert(held_slots(owners)[i] == shorter[i]);
            }
        }
    }
}

impl TransportRegion {
    /// The next slot with traffic for the worker, in `generation` from `next` on.
    fn next_ready(&self, generation: u64, start: u32) -> (r: (u32, Option<u32>))
        requires
            self@.shaped(),
            generation != 0,
        ensures
            r == self@.ready_step(generation, start),
    {
        let mut next: u32 = start;
        let slot_count: u32 = self.slot_count();
        while next < slot_count
            invariant
                self@.shaped(),
                slot_count == self@.slots.len(),
                generation != 0,
                start <= next,
                next > start ==> self@.online_in(generation),
                next == start || next <= slot_count,
                next > start ==> self@.first_ready(generation, next as int)
                    == self@.first_ready(generation, start as int),
            decreases slot_count - next,
        {
            if !self.load_region_meta().is_online_generation(generation) {
                return (next, None);
            }
            let slot_id: u32 = next;
            next = next + 1;
            let slot: SlotSnapshot = self.load_slot_snapshot(slot_id);
            if slot.slot_meta.lease_state() != LEASE_STATE_LEASED {
                continue;
            }
            if slot.slot_generation != generation {
                continue;
            }
            if slot.slot_meta.has_any_worker_owner() {
                continue;
            }
            if self.has_worker_traffic(slot_id) {
                return (next, Some(slot_id));
            }
        }
        (next, None)
    }

    /// Lets go of every slot that this process holds as a worker.
    pub fn release_owned_worker_slots_for_exit(&mut self, process: &mut ProcessContext)
        requires
            old(self)@.shaped(),
        ensures
            final(self)@.shaped(),
            final(self)@ == old(self)@.workers_released(
                held_slots(
                    old(process)@.owners(old(self)@.key, old(self)@.layout.slot_count),
                ),
                old(process)@.pid,
            ),
            final(process)@ == old(process)@.after_take(
                old(self)@.key,
                old(self)@.layout.slot_count,
            ),
    {
        let key: usize = self.region_key();
        let slot_count: u32 = self.slot_count();
        let pid: i32 = process.current_process_pid();
        let ghost owners = process@.owners(key, slot_count);
        proof {
            super::registry::lemma_found_registry(
                process@.registries,
                process@.pid,
                key,
                slot_count,
            );
            lemma_held_slots_in_range(owners);
        }
        let owned: Vec<(u32, LeaseIncarnation)> = process.take_local_worker_owners(
            key,
            slot_count,
        );
        let mut i: usize = 0;
        while i < owned.len()
            invariant
                i <= owned@.len(),
                self@.shaped(),
                self@.layout == old(self)@.layout,
                owned@ == held_slots(owners),
                forall|j: int| 0 <= j < owned@.len() ==> (#[trigger] owned@[j]).0
                    < self@.slots.len(),
                self@ == old(self)@.workers_released(owned@.take(i as int), pid),
            decreases owned.len() - i,
        {
            let (slot_id, incarnation) = owned[i];
            assert(owned@[i as int].0 < self@.slots.len());
            self.release_worker_slot(slot_id, incarnation, pid);
            assert(owned@.take(i + 1).drop_last() =~= owned@.take(i as int));
            assert(owned@.take(i + 1).last() == owned@[i as int]);
            i = i + 1;
        }
        assert(owned@.take(owned@.len() as int) =~= owned@);
    }
}

/// Worker-side process-local attachment to the transport region.
#[derive(Clone, Copy, Debug, PartialEq, Eq, Structural)]
pub struct WorkerTransport {
    pub region_key: usize,
    pub slot_count: u32,
}

/// Raw worker-side view over one leased slot in the current generation.
#[derive(Clone, Copy, Debug, PartialEq, Eq, Structural)]
pub struct WorkerSlot {
    pub incarnation: LeaseIncarnation,
    pub slot_id: u32,
    pub attached: bool,
}

/// Walk over backend slots that currently have pending backend-to-worker
/// traffic in the current generation.
#[derive(Clone, Copy, Debug, PartialEq, Eq, Structural)]
pub struct ReadySlots {
    pub generation: u64,
    pub next: u32,
}

/// Walk over backend lease peers that currently have pending backend-to-worker
/// traffic in the current generation.
#[derive(Clone, Copy, Debug, PartialEq, Eq, Structural)]
pub struct ReadyBackendLeases {
    pub generation: u64,
    pub next: u32,
}

/// Worker-owned sender for the worker-to-backend ring.
#[derive(Clone, Copy, Debug, PartialEq, Eq, Structural)]
pub struct WorkerTx {
    pub slot: WorkerSlot,
    pub inner: ControlTx,
}

/// Worker-owned receiver for the backend-to-worker ring.
#[derive(Clone, Copy, Debug, PartialEq, Eq, Structural)]
pub struct WorkerRx {
    pub slot: WorkerSlot,
    pub inner: ControlRx,
}

/// The lease peer that the search for traffic gives.
pub open spec fn ready_peer(region: RegionState, generation: u64, found: Option<u32>) -> Option<
    BackendLeaseSlot,
> {
    match found {
        None => None,
        Some(slot_id) => Some(
            BackendLeaseSlot {
                slot_id,
                lease_id: BackendLeaseId {
                    generation,
                    lease_epoch: region.slots[slot_id as int].meta.epoch,
                },
            },
        ),
    }
}

impl WorkerTransport {
    /// This handle belongs to the region.
    pub open spec fn of(self, region: RegionState) -> bool {
        self.region_key == region.key && self.slot_count == region.layout.slot_count
    }

    /// Attaches a worker-side process-local handle to the transport region.
    ///
    /// A worker process may attach several handles to one region, and to
    /// several regions. Each region gets its own record of held slots.
    pub fn attach(region: &TransportRegion, process: &mut ProcessContext) -> (r: Result<
        Self,
        WorkerAttachError,
    >)
        ensures
            r matches Ok(worker) && worker.of(region@),
            final(process)@ == old(process)@.after_attach(region@.key, region@.layout.slot_count),
            final(process)@.attached(region@.key, region@.layout.slot_count) is Some,
    {
        let region_key: usize = region.region_key();
        let slot_count: u32 = region.slot_count();
        match process.install_or_get_worker_owner_registry(region_key, slot_count) {
            Ok(()) => Ok(WorkerTransport { region_key, slot_count }),
            Err(e) => Err(e),
        }
    }

    /// Updates the published worker PID hint without switching generations.
    pub fn set_worker_pid(&self, region: &mut TransportRegion, pid: i32)
        requires
            old(region)@.shaped(),
        ensures
            final(region)@ == old(region)@.with_worker_pid(pid),
            final(region)@.shaped(),
    {
        region.store_worker_pid(pid);
    }

    /// Clears the published worker PID hint without changing worker liveness.
    pub fn clear_worker_pid(&self, region: &mut TransportRegion)
        requires
            old(region)@.shaped(),
        ensures
            final(region)@ == old(region)@.with_worker_pid(0),
            final(region)@.shaped(),
    {
        region.store_worker_pid(0);
    }

    /// Publishes a fresh online worker generation.
    pub fn activate_generation(
        &self,
        region: &mut TransportRegion,
        pid: i32,
        process: &ProcessContext,
        table: &LivenessTable,
    ) -> (r: Result<u64, WorkerLifecycleError>)
        requires
            old(region)@.shaped(),
            lifecycle_error(old(region)@, process@) is None ==> old(region)@.meta.generation
                < REGION_META_MAX_GENERATION,
        ensures
            final(region)@.shaped(),
            r == match lifecycle_error(old(region)@, process@) {
                Some(e) => Err::<u64, WorkerLifecycleError>(e),
                None => Ok((old(region)@.meta.generation + 1) as u64),
            },
            r is Err ==> final(region)@ == old(region)@,
            r is Ok ==> final(region)@ == old(region)@.activated(pid, *table, process@.pid),
    {
        region.activate_worker_generation(pid, process, table)
    }

    /// Invalidates the current generation and leaves the transport offline.
    pub fn deactivate_generation(&self, region: &mut TransportRegion, process: &ProcessContext) -> (r:
        Result<u64, WorkerLifecycleError>)
        requires
            old(region)@.shaped(),
            lifecycle_error(old(region)@, process@) is None ==> old(region)@.meta.generation
                < REGION_META_MAX_GENERATION,
        ensures
            final(region)@.shaped(),
            r == match lifecycle_error(old(region)@, process@) {
                Some(e) => Err::<u64, WorkerLifecycleError>(e),
                None => Ok((old(region)@.meta.generation + 1) as u64),
            },
            r is Err ==> final(region)@ == old(region)@,
            r is Ok ==> final(region)@ == old(region)@.generation_begun(WORKER_STATE_OFFLINE),
    {
        region.deactivate_worker_generation(process)
    }

    /// Releases all worker-owned slots that this process recorded.
    pub fn release_owned_slots_for_exit(
        &self,
        region: &mut TransportRegion,
        process: &mut ProcessContext,
    )
        requires
            old(region)@.shaped(),
        ensures
            final(region)@.shaped(),
            final(region)@ == old(region)@.workers_released(
                held_slots(
                    old(process)@.owners(old(region)@.key, old(region)@.layout.slot_count),
                ),
                old(process)@.pid,
            ),
            final(process)@ == old(process)@.after_take(
                old(region)@.key,
                old(region)@.layout.slot_count,
            ),
    {
        region.release_owned_worker_slots_for_exit(process);
    }

    /// Claims the current lease of a slot.
    pub fn slot_unchecked(
        &self,
        region: &mut TransportRegion,
        process: &mut ProcessContext,
        slot_id: u32,
        table: &LivenessTable,
    ) -> (r: Result<WorkerSlot, SlotAccessError>)
        requires
            old(region)@.shaped(),
            old(process)@.attached(old(region)@.key, old(region)@.layout.slot_count) is Some,
        ensures
            final(region)@.shaped(),
            ({
                let (after, claim) = (ClaimState {
                    region: old(region)@,
                    process: old(process)@,
                }).claimed(
                    claim_verdict(
                        old(region)@.meta,
                        old(region)@.layout.slot_count,
                        old(region)@.slots[slot_id as int],
                        slot_id,
                    ),
                    slot_id,
                    *table,
                );
                &&& final(region)@ == after.region
                &&& final(process)@ == after.process
                &&& r == match claim {
                    Ok(incarnation) => Ok::<WorkerSlot, SlotAccessError>(
                        WorkerSlot { incarnation, slot_id, attached: true },
                    ),
                    Err(e) => Err(e),
                }
            }),
    {
        match region.claim_worker_slot(process, slot_id, table) {
            Ok(incarnation) => Ok(WorkerSlot { incarnation, slot_id, attached: true }),
            Err(e) => Err(e),
        }
    }

    pub fn ready_slots(&self, region: &TransportRegion) -> (r: ReadySlots)
        ensures
            r == (ReadySlots { generation: region@.meta.generation, next: 0 }),
    {
        ReadySlots { generation: region.region_generation(), next: 0 }
    }

    pub fn ready_backend_leases(&self, region: &TransportRegion) -> (r: ReadyBackendLeases)
        ensures
            r == (ReadyBackendLeases { generation: region@.meta.generation, next: 0 }),
    {
        ReadyBackendLeases { generation: region.region_generation(), next: 0 }
    }

    /// Return the next backend lease peer with pending inbound traffic.
    ///
    /// The caller owns `cursor` and resets it to `0` for each new poll pass.
    pub fn next_ready_backend_lease(&self, region: &TransportRegion, cursor: &mut u32) -> (r: Option<
        BackendLeaseSlot,
    >)
        requires
            region@.shaped(),
        ensures
            region@.meta.generation == 0 ==> r is None && *final(cursor) == *old(cursor),
            region@.meta.generation != 0 ==> ({
                let (next, found) = region@.ready_step(region@.meta.generation, *old(cursor));
                *final(cursor) == next && r == ready_peer(
                    region@,
                    region@.meta.generation,
                    found,
                )
            }),
    {
        let mut walk: ReadyBackendLeases = ReadyBackendLeases {
            generation: region.region_generation(),
            next: *cursor,
        };
        let found: Option<BackendLeaseSlot> = walk.next(region);
        *cursor = walk.next;
        found
    }

    /// Claims exactly this lease.
    pub fn slot_for_backend_lease(
        &self,
        region: &mut TransportRegion,
        process: &mut ProcessContext,
        peer: BackendLeaseSlot,
        table: &LivenessTable,
    ) -> (r: Result<WorkerSlot, SlotAccessError>)
        requires
            old(region)@.shaped(),
            old(process)@.attached(old(region)@.key, old(region)@.layout.slot_count) is Some,
        ensures
            final(region)@.shaped(),
            ({
                let (after, claim) = (ClaimState {
                    region: old(region)@,
                    process: old(process)@,
                }).claimed(
                    exact_claim_verdict(
                        old(region)@.meta,
                        old(region)@.layout.slot_count,
                        old(region)@.slots[peer.slot_id as int],
                        peer,
                    ),
                    peer.slot_id,
                    *table,
                );
                &&& final(region)@ == after.region
                &&& final(process)@ == after.process
                &&& r == match claim {
                    Ok(incarnation) => Ok::<WorkerSlot, SlotAccessError>(
                        WorkerSlot { incarnation, slot_id: peer.slot_id, attached: true },
                    ),
                    Err(e) => Err(e),
                }
            }),
    {
        match region.claim_worker_slot_for_backend_lease(process, peer, table) {
            Ok(incarnation) => Ok(
                WorkerSlot { incarnation, slot_id: peer.slot_id(), attached: true },
            ),
            Err(e) => Err(e),
        }
    }
}

impl ReadySlots {
    /// The next slot with traffic for the worker.
    pub fn next(&mut self, region: &TransportRegion) -> (r: Option<u32>)
        requires
            region@.shaped(),
        ensures
            final(self).generation == old(self).generation,
            old(self).generation == 0 ==> r is None && final(self).next == old(self).next,
            old(self).generation != 0 ==> (final(self).next, r) == region@.ready_step(
                old(self).generation,
                old(self).next,
            ),
    {
        if self.generation == 0 {
            return None;
        }
        let (next, found) = region.next_ready(self.generation, self.next);
        self.next = next;
        found
    }
}

impl ReadyBackendLeases {
    /// The next lease peer with traffic for the worker.
    pub fn next(&mut self, region: &TransportRegion) -> (r: Option<BackendLeaseSlot>)
        requires
            region@.shaped(),
        ensures
            final(self).generation == old(self).generation,
            old(self).generation == 0 ==> r is None && final(self).next == old(self).next,
            old(self).generation != 0 ==> ({
                let (next, found) = region@.ready_step(old(self).generation, old(self).next);
                final(self).next == next && r == ready_peer(region@, old(self).generation, found)
            }),
    {
        if self.generation == 0 {
            return None;
        }
        proof {
            if self.next <= region@.slots.len() {
                lemma_first_ready(region@, self.generation, self.next as int);
            }
        }
        let (next, found) = region.next_ready(self.generation, self.next);
        self.next = next;
        match found {
            None => None,
            Some(slot_id) => {
                let epoch: u64 = region.load_slot_snapshot(slot_id).slot_meta.lease_epoch();
                Some(
                    BackendLeaseSlot::new(slot_id, BackendLeaseId::new(self.generation, epoch)),
                )
            },
        }
    }
}

impl WorkerSlot {
    /// Why this claim is no longer good, if so.
    pub open spec fn verdict(self, region: RegionState) -> Option<SlotAccessError> {
        access_verdict(
            region.meta,
            region.layout.slot_count,
            region.slots[self.slot_id as int],
            self.slot_id,
            self.incarnation,
            self.attached,
        )
    }

    pub fn backend_lease_id(&self) -> (r: BackendLeaseId)
        ensures
            r == lease_id_of(self.incarnation),
    {
        lease_id(self.incarnation)
    }

    pub fn backend_lease_slot(&self) -> (r: BackendLeaseSlot)
        ensures
            r == (BackendLeaseSlot {
                slot_id: self.slot_id,
                lease_id: lease_id_of(self.incarnation),
            }),
    {
        BackendLeaseSlot::new(self.slot_id, self.backend_lease_id())
    }

    pub fn generation(&self) -> (r: u64)
        ensures
            r == self.incarnation.generation,
    {
        self.incarnation.generation
    }

    pub fn slot_id(&self) -> (r: u32)
        ensures
            r == self.slot_id,
    {
        self.slot_id
    }

    pub fn backend_pid(&self, region: &TransportRegion) -> (r: i32)
        requires
            region@.has_slot(self.slot_id),
        ensures
            r == region@.slots[self.slot_id as int].backend_pid,
    {
        region.load_slot_snapshot(self.slot_id).backend_pid
    }

    /// Checks that this claim is still good.
    pub fn validate_current_access(&self, region: &TransportRegion) -> (r: Result<
        (),
        SlotAccessError,
    >)
        requires
            region@.shaped(),
        ensures
            r == match self.verdict(region@) {
                Some(e) => Err::<(), SlotAccessError>(e),
                None => Ok(()),
            },
    {
        region.validate_worker_slot_access(self.slot_id, self.incarnation, self.attached)
    }

    pub fn from_backend_rx(&self, region: &TransportRegion) -> (r: Result<
        WorkerRx,
        SlotAccessError,
    >)
        requires
            region@.shaped(),
        ensures
            r == match self.verdict(region@) {
                Some(e) => Err::<WorkerRx, SlotAccessError>(e),
                None => Ok(
                    WorkerRx {
                        slot: *self,
                        inner: ControlRx {
                            slot_id: self.slot_id,
                            direction: RingDirection::ToWorker,
                        },
                    },
                ),
            },
    {
        match self.validate_current_access(region) {
            Ok(()) => Ok(
                WorkerRx {
                    slot: *self,
                    inner: ControlRx {
                        slot_id: self.slot_id,
                        direction: RingDirection::ToWorker,
                    },
                },
            ),
            Err(e) => Err(e),
        }
    }

    pub fn to_backend_tx(&self, region: &TransportRegion) -> (r: Result<WorkerTx, SlotAccessError>)
        requires
            region@.shaped(),
        ensures
            r == match self.verdict(region@) {
                Some(e) => Err::<WorkerTx, SlotAccessError>(e),
                None => Ok(
                    WorkerTx {
                        slot: *self,
                        inner: ControlTx {
                            slot_id: self.slot_id,
                            direction: RingDirection::ToBackend,
                        },
                    },
                ),
            },
    {
        match self.validate_current_access(region) {
            Ok(()) => Ok(
                WorkerTx {
                    slot: *self,
                    inner: ControlTx {
                        slot_id: self.slot_id,
                        direction: RingDirection::ToBackend,
                    },
                },
            ),
            Err(e) => Err(e),
        }
    }

    /// Lets go of the claimed slot. Only the process that still records the
    /// slot under this incarnation changes the region.
    pub fn release(&mut self, region: &mut TransportRegion, process: &mut ProcessContext)
        requires
            old(region)@.shaped(),
            old(region)@.has_slot(old(self).slot_id),
        ensures
            final(region)@.shaped(),
            *final(self) == (WorkerSlot { attached: false, ..*old(self) }),
            !old(self).attached ==> final(region)@ == old(region)@ && final(process)@
                == old(process)@,
            old(self).attached ==> ({
                let (after, held) = old(process)@.after_remove(
                    old(region)@.key,
                    old(region)@.layout.slot_count,
                    old(self).slot_id as int,
                    old(self).incarnation,
                );
                &&& final(process)@ == after
                &&& final(region)@ == if held {
                    old(region)@.worker_released(
                        old(self).slot_id as int,
                        old(self).incarnation,
                        old(process)@.pid,
                    )
                } else {
                    old(region)@
                }
            }),
    {
        if !self.attached {
            return;
        }
        self.attached = false;
        let key: usize = region.region_key();
        let slot_count: u32 = region.slot_count();
        let pid: i32 = process.current_process_pid();
        if process.remove_local_worker_owner(key, slot_count, self.slot_id, self.incarnation) {
            region.release_worker_slot(self.slot_id, self.incarnation, pid);
        }
    }
}

impl WorkerTx {
    /// Copies one frame into the worker-to-backend ring. The claim is checked
    /// before and after.
    pub fn send_frame(
        &self,
        region: &mut TransportRegion,
        payload: &[u8],
        signal: Result<bool, NotifyError>,
    ) -> (r: Result<CommitOutcome, WorkerTxError>)
        requires
            old(region)@.shaped(),
            self.inner.slot_id == self.slot.slot_id,
        ensures
            final(region)@.shaped(),
            r == match self.slot.verdict(old(region)@) {
                Some(e) => Err::<CommitOutcome, WorkerTxError>(WorkerTxError::Slot(e)),
                None => match old(region)@.ring(
                    self.slot.slot_id as int,
                    self.inner.direction,
                ).send_error(payload@.len() as int) {
                    Some(e) => Err(WorkerTxError::Ring(e)),
                    None => Ok(outcome_of(signal)),
                },
            },
            r is Err ==> final(region)@ == old(region)@,
            r is Ok ==> sent(
                old(region)@,
                self.slot.slot_id as int,
                self.inner.direction,
                payload@,
                final(region)@,
            ),
    {
        match self.slot.validate_current_access(region) {
            Ok(()) => {},
            Err(e) => {
                return Err(WorkerTxError::Slot(e));
            },
        }
        let outcome: CommitOutcome = match self.inner.send_frame(region, payload, signal) {
            Ok(o) => o,
            Err(e) => {
                return Err(WorkerTxError::Ring(e));
            },
        };
        match self.slot.validate_current_access(region) {
            Ok(()) => Ok(outcome),
            Err(e) => Err(WorkerTxError::Slot(e)),
        }
    }
}

impl WorkerRx {
    /// Copies the next backend-to-worker frame into `dst`. The claim is checked
    /// before and after.
    pub fn recv_frame_into(&self, region: &mut TransportRegion, dst: &mut [u8]) -> (r: Result<
        Option<usize>,
        WorkerRxError,
    >)
        requires
            old(region)@.shaped(),
            self.inner.slot_id == self.slot.slot_id,
        ensures
            final(region)@.shaped(),
            self.slot.verdict(old(region)@) matches Some(e) ==> r == Err::<
                Option<usize>,
                WorkerRxError,
            >(WorkerRxError::Slot(e)) && final(dst)@ == old(dst)@,
            self.slot.verdict(old(region)@) is None ==> match r {
                Err(WorkerRxError::Slot(_)) => false,
                Err(WorkerRxError::Ring(e)) => received(
                    old(region)@.ring(self.slot.slot_id as int, self.inner.direction),
                    old(dst)@,
                    Err(e),
                    final(dst)@,
                ),
                Ok(n) => received(
                    old(region)@.ring(self.slot.slot_id as int, self.inner.direction),
                    old(dst)@,
                    Ok(n),
                    final(dst)@,
                ),
            },
            !(r matches Ok(Some(_))) ==> final(region)@ == old(region)@,
            r matches Ok(Some(n)) ==> taken(
                old(region)@,
                self.slot.slot_id as int,
                self.inner.direction,
                n as int,
                final(region)@,
            ),
    {
        match self.slot.validate_current_access(region) {
            Ok(()) => {},
            Err(e) => {
                return Err(WorkerRxError::Slot(e));
            },
        }
        let n: Option<usize> = match self.inner.recv_frame_into(region, dst) {
            Ok(n) => n,
            Err(e) => {
                return Err(WorkerRxError::Ring(e));
            },
        };
        match self.slot.validate_current_access(region) {
            Ok(()) => Ok(n),
            Err(e) => Err(WorkerRxError::Slot(e)),
        }
    }
}

} // verus!
