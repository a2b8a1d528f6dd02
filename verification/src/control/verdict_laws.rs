//! When a lease or a claim is good, and which refusal comes where it is not.

use super::backend::BackendSlotLease;
use super::claim::{claim_failure, claim_verdict, exact_claim_verdict, recheck_verdict};
use super::error::{LeaseError, SlotAccessError};
use super::lease::BackendLeaseSlot;
use super::lifecycle::{access_verdict, lease_verdict};
use super::meta::{
    backend_bit, pending_bit, worker_bit, LeaseIncarnation, RegionWord, LEASE_STATE_LEASED,
    WORKER_STATE_ONLINE,
};
use super::region::{RegionState, SlotState};
use super::ring::pending_frame;
use super::worker::{lemma_first_ready, ready_peer, slot_ready, WorkerSlot};
use vstd::prelude::*;

verus! {

/// The slot is leased as this incarnation says.
pub open spec fn is_lease(slot: SlotState, incarnation: LeaseIncarnation) -> bool {
    slot.meta.state == LEASE_STATE_LEASED && slot.generation == incarnation.generation
        && slot.meta.epoch == incarnation.lease_epoch
}

/// A backend's lease is good exactly while it was not given up, the worker is in
/// the generation of the lease, and the slot is leased under it to a backend. A
/// lease of another generation is told so. One of this generation whose slot was
/// leased anew since is told both epochs, and any other is told that the slot was
/// let go.
pub proof fn law_lease_is_good_while_held(
    region: RegionWord,
    slot: SlotState,
    slot_id: u32,
    incarnation: LeaseIncarnation,
    active: bool,
)
    ensures
        ({
            let verdict = lease_verdict(region, slot, slot_id, incarnation, active);
            let claimed = incarnation.generation;
            let current = region.generation == claimed;
            let leased = slot.meta.state == LEASE_STATE_LEASED && slot.generation == claimed;
            let same = slot.meta.epoch == incarnation.lease_epoch;
            &&& verdict is None <==> active && current && is_lease(slot, incarnation)
                && backend_bit(slot.meta.owners)
            &&& active && !current <==> verdict == Some(
                LeaseError::StaleGeneration {
                    slot_id,
                    claimed_generation: claimed,
                    current_generation: region.generation,
                },
            )
            &&& active && current && leased && !same <==> verdict == Some(
                LeaseError::StaleLeaseEpoch {
                    slot_id,
                    claimed_generation: claimed,
                    claimed_lease_epoch: incarnation.lease_epoch,
                    current_lease_epoch: slot.meta.epoch,
                },
            )
            &&& verdict == Some(LeaseError::Released { slot_id, claimed_generation: claimed })
                <==> !active || current && (!leased || same && !backend_bit(slot.meta.owners))
        }),
{
}

/// A worker's claim is good exactly while it is attached, the worker is online in
/// the generation of the claim, and the slot is leased under it to a backend and
/// the worker together.
pub proof fn law_claim_is_good_while_held(
    region: RegionWord,
    slot_count: u32,
    slot: SlotState,
    slot_id: u32,
    incarnation: LeaseIncarnation,
    attached: bool,
)
    ensures
        ({
            let verdict = access_verdict(
                region,
                slot_count,
                slot,
                slot_id,
                incarnation,
                attached,
            );
            let claimed = incarnation.generation;
            let current = region.generation == claimed;
            let online = region.generation != 0 && region.worker_state == WORKER_STATE_ONLINE;
            let known = slot_id < slot_count;
            let leased = slot.meta.state == LEASE_STATE_LEASED && slot.generation == claimed;
            let same = slot.meta.epoch == incarnation.lease_epoch;
            let both = backend_bit(slot.meta.owners) && worker_bit(slot.meta.owners);
            let in_service = attached && current && online && known;
            &&& verdict is None <==> in_service && is_lease(slot, incarnation) && both
            &&& verdict == Some(
                SlotAccessError::StaleGeneration {
                    slot_id,
                    claimed_generation: claimed,
                    current_generation: region.generation,
                },
            ) <==> attached && !current
            &&& verdict == Some(SlotAccessError::WorkerOffline) <==> attached && current && !online
            &&& verdict == Some(SlotAccessError::BadSlotId { slot_id, slot_count }) <==> attached
                && current && online && !known
            &&& verdict == Some(
                SlotAccessError::StaleLeaseEpoch {
                    slot_id,
                    claimed_generation: claimed,
                    claimed_lease_epoch: incarnation.lease_epoch,
                    current_lease_epoch: slot.meta.epoch,
                },
            ) <==> in_service && leased && !same
            &&& verdict == Some(SlotAccessError::Released { slot_id, claimed_generation: claimed })
                <==> !attached || in_service && (!leased || same && !both)
        }),
{
}

/// A worker that is online may claim a slot exactly if a backend of its
/// generation holds it and no worker does or is about to. It then claims the
/// lease that the slot has.
pub proof fn law_claimable_slots(
    region: RegionWord,
    slot_count: u32,
    slot: SlotState,
    slot_id: u32,
)
    requires
        slot.meta.epoch != 0,
    ensures
        ({
            let verdict = claim_verdict(region, slot_count, slot, slot_id);
            let online = region.generation != 0 && region.worker_state == WORKER_STATE_ONLINE;
            let known = slot_id < slot_count;
            let held = slot.meta.state == LEASE_STATE_LEASED && slot.generation
                == region.generation && backend_bit(slot.meta.owners);
            let worked = worker_bit(slot.meta.owners) || pending_bit(slot.meta.owners);
            &&& verdict is Ok <==> online && known && held && !worked
            &&& verdict matches Ok(incarnation) ==> is_lease(slot, incarnation)
                && incarnation.generation == region.generation
            &&& verdict == Err::<LeaseIncarnation, SlotAccessError>(SlotAccessError::WorkerOffline)
                <==> !online
            &&& verdict == Err::<LeaseIncarnation, SlotAccessError>(
                SlotAccessError::BadSlotId { slot_id, slot_count },
            ) <==> online && !known
            &&& verdict == Err::<LeaseIncarnation, SlotAccessError>(
                SlotAccessError::Released { slot_id, claimed_generation: region.generation },
            ) <==> online && known && !held
            &&& verdict == Err::<LeaseIncarnation, SlotAccessError>(
                SlotAccessError::Busy { slot_id, claimed_generation: region.generation },
            ) <==> online && known && held && worked
        }),
{
}

/// A worker that names the lease that it wants gets that lease or none: exactly
/// where it could claim the slot without naming one and the lease is the one that
/// the slot has.
pub proof fn law_named_lease_or_none(
    region: RegionWord,
    slot_count: u32,
    slot: SlotState,
    peer: BackendLeaseSlot,
)
    requires
        slot.meta.epoch != 0,
    ensures
        ({
            let verdict = exact_claim_verdict(region, slot_count, slot, peer);
            let named = LeaseIncarnation {
                generation: peer.lease_id.generation,
                lease_epoch: peer.lease_id.lease_epoch,
            };
            let slot_id = peer.slot_id;
            let online = region.generation != 0 && region.worker_state == WORKER_STATE_ONLINE;
            let current = region.generation == named.generation;
            let known = slot_id < slot_count;
            let leased = slot.meta.state == LEASE_STATE_LEASED && slot.generation
                == named.generation;
            let same = slot.meta.epoch == named.lease_epoch;
            let worked = worker_bit(slot.meta.owners) || pending_bit(slot.meta.owners);
            &&& verdict is Ok ==> verdict == Ok::<LeaseIncarnation, SlotAccessError>(named)
            &&& verdict is Ok <==> claim_verdict(region, slot_count, slot, slot_id) == Ok::<
                LeaseIncarnation,
                SlotAccessError,
            >(named)
            &&& verdict == Err::<LeaseIncarnation, SlotAccessError>(SlotAccessError::WorkerOffline)
                <==> !online
            &&& verdict == Err::<LeaseIncarnation, SlotAccessError>(
                SlotAccessError::StaleGeneration {
                    slot_id,
                    claimed_generation: named.generation,
                    current_generation: region.generation,
                },
            ) <==> online && !current
            &&& verdict == Err::<LeaseIncarnation, SlotAccessError>(
                SlotAccessError::BadSlotId { slot_id, slot_count },
            ) <==> online && current && !known
            &&& verdict == Err::<LeaseIncarnation, SlotAccessError>(
                SlotAccessError::StaleLeaseEpoch {
                    slot_id,
                    claimed_generation: named.generation,
                    claimed_lease_epoch: named.lease_epoch,
                    current_lease_epoch: slot.meta.epoch,
                },
            ) <==> online && current && known && leased && !same
            &&& verdict == Err::<LeaseIncarnation, SlotAccessError>(
                SlotAccessError::Released { slot_id, claimed_generation: named.generation },
            ) <==> online && current && known && (!leased || same && !backend_bit(
                slot.meta.owners,
            ))
            &&& verdict == Err::<LeaseIncarnation, SlotAccessError>(
                SlotAccessError::Busy { slot_id, claimed_generation: named.generation },
            ) <==> online && current && known && leased && same && backend_bit(slot.meta.owners)
                && worked
        }),
{
}

/// What a worker is told whose claim lost the race for a slot: what stands in its
/// way now.
pub proof fn law_lost_claim_is_told_why(
    region: RegionWord,
    slot: SlotState,
    slot_id: u32,
    incarnation: LeaseIncarnation,
)
    ensures
        ({
            let failure = claim_failure(region, slot, slot_id, incarnation);
            let claimed = incarnation.generation;
            let current = region.generation == claimed;
            let online = region.generation != 0 && region.worker_state == WORKER_STATE_ONLINE;
            let leased = slot.meta.state == LEASE_STATE_LEASED && slot.generation == claimed;
            let same = slot.meta.epoch == incarnation.lease_epoch;
            let worked = worker_bit(slot.meta.owners) || pending_bit(slot.meta.owners);
            &&& failure == (SlotAccessError::StaleGeneration {
                slot_id,
                claimed_generation: claimed,
                current_generation: region.generation,
            }) <==> !current
            &&& failure == SlotAccessError::WorkerOffline <==> current && !online
            &&& failure == (SlotAccessError::StaleLeaseEpoch {
                slot_id,
                claimed_generation: claimed,
                claimed_lease_epoch: incarnation.lease_epoch,
                current_lease_epoch: slot.meta.epoch,
            }) <==> current && online && leased && !same
            &&& failure == (SlotAccessError::Busy { slot_id, claimed_generation: claimed })
                <==> current && online && leased && same && backend_bit(slot.meta.owners) && worked
            &&& failure == (SlotAccessError::Released { slot_id, claimed_generation: claimed })
                <==> current && online && (!leased || same && (!backend_bit(slot.meta.owners)
                || !worked))
        }),
{
}

/// A claim under way stands exactly while the worker is online in its generation
/// and the slot is leased under it to the backend and that claim alone.
pub proof fn law_claim_under_way_stands(
    region: RegionWord,
    slot: SlotState,
    slot_id: u32,
    incarnation: LeaseIncarnation,
)
    requires
        slot.meta.owners < 8,
    ensures
        ({
            let verdict = recheck_verdict(region, slot, slot_id, incarnation);
            let claimed = incarnation.generation;
            let current = region.generation == claimed;
            let online = region.worker_state == WORKER_STATE_ONLINE;
            let same = slot.meta.epoch == incarnation.lease_epoch;
            let owners = slot.meta.owners;
            &&& verdict is None <==> current && online && is_lease(slot, incarnation)
                && backend_bit(owners) && pending_bit(owners) && !worker_bit(owners)
            &&& verdict == Some(
                SlotAccessError::StaleGeneration {
                    slot_id,
                    claimed_generation: claimed,
                    current_generation: region.generation,
                },
            ) <==> !current
            &&& verdict == Some(SlotAccessError::WorkerOffline) <==> current && !online
            &&& verdict == Some(
                SlotAccessError::StaleLeaseEpoch {
                    slot_id,
                    claimed_generation: claimed,
                    claimed_lease_epoch: incarnation.lease_epoch,
                    current_lease_epoch: slot.meta.epoch,
                },
            ) <==> current && online && !same
            &&& verdict is Some && current && online && same ==> verdict == Some(
                SlotAccessError::Released { slot_id, claimed_generation: claimed },
            )
        }),
{
}

/// What a handle of a backend or a worker is told is what its own slot, its own
/// lease and its own flag give.
pub proof fn law_handles_ask_for_themselves(
    lease: BackendSlotLease,
    claim: WorkerSlot,
    region: RegionState,
)
    ensures
        lease.verdict(region) is None <==> lease.active && region.meta.generation
            == lease.incarnation.generation && is_lease(
            region.slots[lease.slot_id as int],
            lease.incarnation,
        ) && backend_bit(region.slots[lease.slot_id as int].meta.owners),
        claim.verdict(region) is None <==> claim.attached && region.meta.generation
            == claim.incarnation.generation && region.meta.generation != 0
            && region.meta.worker_state == WORKER_STATE_ONLINE && claim.slot_id
            < region.layout.slot_count && is_lease(
            region.slots[claim.slot_id as int],
            claim.incarnation,
        ) && backend_bit(region.slots[claim.slot_id as int].meta.owners) && worker_bit(
            region.slots[claim.slot_id as int].meta.owners,
        ),
        ({
            let made = BackendSlotLease::of(lease.slot_id, lease.incarnation);
            made.active && made.slot_id == lease.slot_id && made.incarnation == lease.incarnation
        }),
{
}

/// A slot is ready exactly if it is leased in the generation, no worker has it or
/// is about to, and something waits on its ring towards the worker or was
/// announced there.
pub proof fn law_ready_slots(slot: SlotState, generation: u64)
    ensures
        slot_ready(slot, generation) <==> {
            &&& slot.meta.state == LEASE_STATE_LEASED
            &&& slot.generation == generation
            &&& slot.meta.owners / 2 % 2 == 0
            &&& slot.meta.owners / 4 % 2 == 0
            &&& (slot.to_worker_ready || pending_frame(slot.to_worker))
        },
{
}

/// A search for traffic gives the first ready slot from where it stands, and goes
/// on behind it. It finds nothing exactly if no slot from there on is ready or the
/// worker is not online in the generation; it passes over no ready slot.
pub proof fn law_search_passes_no_ready_slot(v: RegionState, generation: u64, from: u32)
    requires
        v.slots.len() <= u32::MAX,
    ensures
        ({
            let (next, found) = v.ready_step(generation, from);
            let online = v.meta.generation == generation && generation != 0 && v.meta.worker_state
                == WORKER_STATE_ONLINE;
            &&& found is None <==> !online || forall|i: int|
                from <= i < v.slots.len() ==> !slot_ready(#[trigger] v.slots[i], generation)
            &&& found matches Some(id) ==> {
                &&& from <= id < v.slots.len()
                &&& slot_ready(v.slots[id as int], generation)
                &&& forall|i: int|
                    from <= i < id ==> !slot_ready(#[trigger] v.slots[i], generation)
                &&& next == id + 1
            }
            &&& found is None && online && from < v.slots.len() ==> next == v.slots.len()
            &&& found is None && (!online || from >= v.slots.len()) ==> next == from
            &&& ready_peer(v, generation, found) is None <==> found is None
            &&& ready_peer(v, generation, found) matches Some(peer) ==> {
                &&& found == Some(peer.slot_id)
                &&& peer.lease_id.generation == generation
                &&& peer.lease_id.lease_epoch == v.slots[peer.slot_id as int].meta.epoch
            }
        }),
{
    if from < v.slots.len() {
        lemma_first_ready(v, generation, from as int);
    }
}

} // verus!
