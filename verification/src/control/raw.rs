//! The two ends of one ring direction, without any lease check.

use super::error::{NotifyError, RxError, TxError};
use super::region::{
    received, received_by_backend, received_by_worker, sent_to_backend, sent_to_worker,
    RegionState, TransportRegion,
};
use super::ring::{outcome_of, CommitOutcome, RingState};
use vstd::prelude::*;

verus! {

/// One of the two rings of a slot.
#[derive(Clone, Copy, Debug, PartialEq, Eq, Structural)]
pub enum RingDirection {
    ToWorker,
    ToBackend,
}

impl RegionState {
    /// The ring of a slot in one direction.
    pub open spec fn ring(self, id: int, direction: RingDirection) -> RingState {
        match direction {
            RingDirection::ToWorker => self.slots[id].to_worker,
            RingDirection::ToBackend => self.slots[id].to_backend,
        }
    }
}

/// `after` is `before` with one more frame in one direction of a slot.
pub open spec fn sent(
    before: RegionState,
    id: int,
    direction: RingDirection,
    payload: Seq<u8>,
    after: RegionState,
) -> bool {
    match direction {
        RingDirection::ToWorker => sent_to_worker(before, id, payload, after),
        RingDirection::ToBackend => sent_to_backend(before, id, payload, after),
    }
}

/// `after` is `before` without the first frame in one direction of a slot.
pub open spec fn taken(
    before: RegionState,
    id: int,
    direction: RingDirection,
    len: int,
    after: RegionState,
) -> bool {
    match direction {
        RingDirection::ToWorker => received_by_worker(before, id, len, after),
        RingDirection::ToBackend => received_by_backend(before, id, len, after),
    }
}

/// Low-level framed transport sender for one ring direction.
#[derive(Clone, Copy, Debug, PartialEq, Eq, Structural)]
pub struct ControlTx {
    pub slot_id: u32,
    pub direction: RingDirection,
}

/// Low-level framed transport receiver for one ring direction.
#[derive(Clone, Copy, Debug, PartialEq, Eq, Structural)]
pub struct ControlRx {
    pub slot_id: u32,
    pub direction: RingDirection,
}

impl ControlTx {
    /// The process that a published frame is announced to.
    pub fn peer_pid(&self, region: &TransportRegion) -> (r: i32)
        requires
            region@.has_slot(self.slot_id),
        ensures
            r == match self.direction {
                RingDirection::ToWorker => region@.worker_pid,
                RingDirection::ToBackend => region@.slots[self.slot_id as int].backend_pid,
            },
    {
        match self.direction {
            RingDirection::ToWorker => region.load_worker_pid(),
            RingDirection::ToBackend => region.load_slot_snapshot(self.slot_id).backend_pid,
        }
    }

    /// Copies one payload into the ring and publishes it as a frame. `signal`
    /// is the answer to the signal that goes to the peer once the frame stands
    /// on the ring.
    pub fn send_frame(
        &self,
        region: &mut TransportRegion,
        payload: &[u8],
        signal: Result<bool, NotifyError>,
    ) -> (r: Result<CommitOutcome, TxError>)
        requires
            old(region)@.shaped(),
            old(region)@.has_slot(self.slot_id),
        ensures
            final(region)@.shaped(),
            r == match old(region)@.ring(self.slot_id as int, self.direction).send_error(
                payload@.len() as int,
            ) {
                Some(e) => Err::<CommitOutcome, TxError>(e),
                None => Ok(outcome_of(signal)),
            },
            r is Err ==> final(region)@ == old(region)@,
            r is Ok ==> sent(
                old(region)@,
                self.slot_id as int,
                self.direction,
                payload@,
                final(region)@,
            ),
    {
        match self.direction {
            RingDirection::ToWorker => region.send_to_worker(self.slot_id, payload, signal),
            RingDirection::ToBackend => region.send_to_backend(self.slot_id, payload, signal),
        }
    }
}

impl ControlRx {
    /// Copies the next queued frame into `dst` and consumes it.
    ///
    /// Returns `Ok(None)` when the ring is empty.
    pub fn recv_frame_into(&self, region: &mut TransportRegion, dst: &mut [u8]) -> (r: Result<
        Option<usize>,
        RxError,
    >)
        requires
            old(region)@.shaped(),
            old(region)@.has_slot(self.slot_id),
        ensures
            final(region)@.shaped(),
            received(
                old(region)@.ring(self.slot_id as int, self.direction),
                old(dst)@,
                r,
                final(dst)@,
            ),
            !(r matches Ok(Some(_))) ==> final(region)@ == old(region)@,
            r matches Ok(Some(n)) ==> taken(
                old(region)@,
                self.slot_id as int,
                self.direction,
                n as int,
                final(region)@,
            ),
    {
        match self.direction {
            RingDirection::ToWorker => region.recv_for_worker(self.slot_id, dst),
            RingDirection::ToBackend => region.recv_for_backend(self.slot_id, dst),
        }
    }
}

} // verus!
