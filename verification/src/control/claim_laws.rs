//! What a worker's claim comes to, step by step and as a whole.

use super::claim::{claim_failure, claim_verdict, recheck_verdict, ClaimState};
use super::error::{ProbeFailure, SlotAccessError};
use super::laws::{slot_sound, sound};
use super::meta::{
    lemma_owner_bits, no_incarnation, LeaseIncarnation, RegionMeta, SlotMeta,
    LEASE_STATE_FREE_PENDING, LEASE_STATE_FREE_POPPED, LEASE_STATE_FREE_PUBLISHED,
    LEASE_STATE_FREE_PUSHED, LEASE_STATE_LEASED,
};
use super::process::LivenessTable;
use super::region::RegionState;
use super::registry::{packed_owner, ProcessState};
use super::slot_laws::law_newest_record_counts;
use vstd::prelude::*;

verus! {

/// What a process has on record for a slot of a region.
pub open spec fn recorded(s: ClaimState, id: u32) -> LeaseIncarnation {
    s.process.owners(s.region.key, s.region.layout.slot_count)[id as int]
}

/// The process has a record for the region, and the slot is one of it.
pub open spec fn can_record(s: ClaimState, id: u32) -> bool {
    &&& s.process.attached(s.region.key, s.region.layout.slot_count) is Some
    &&& id < s.region.layout.slot_count
    &&& s.region.has_slot(id)
}

proof fn lemma_same_record(p: ProcessState, q: ProcessState, key: usize, count: u32)
    requires
        p.attached(key, count) is Some,
        q.pid == p.pid,
        q.registries.len() == p.registries.len(),
        forall|i: int|
            0 <= i < p.registries.len() ==> (#[trigger] q.registries[i]).owner_pid
                == p.registries[i].owner_pid && q.registries[i].region_key
                == p.registries[i].region_key && q.registries[i].owners.len()
                == p.registries[i].owners.len(),
    ensures
        q.attached(key, count) == p.attached(key, count),
{
    law_newest_record_counts(p.registries, p.pid, key, count);
    law_newest_record_counts(q.registries, q.pid, key, count);
    let at = p.attached(key, count)->0;
    assert(p.registries[at].matches(p.pid, key, count));
    assert(q.registries[at].matches(q.pid, key, count));
    let to = q.attached(key, count)->0;
    assert(q.registries[to].matches(q.pid, key, count));
    assert(p.registries[to].matches(p.pid, key, count));
}

/// The first step of a claim takes the slot exactly if the process has nothing on
/// record for it and it is leased to its backend alone, under the lease that is
/// claimed. The claim is then pending and on record. Otherwise nothing changes:
/// the worker is told that the slot is busy where something is on record, and what
/// stands in its way where not.
pub proof fn law_claim_takes_a_slot_of_its_backend(
    s: ClaimState,
    id: u32,
    incarnation: LeaseIncarnation,
)
    requires
        can_record(s, id),
        incarnation != no_incarnation(),
    ensures
        ({
            let (after, r) = s.claim_reserved(id, incarnation);
            let slot = s.region.slots[id as int];
            let free = recorded(s, id) == no_incarnation();
            let backends = slot.meta.state == LEASE_STATE_LEASED && slot.meta.epoch
                == incarnation.lease_epoch && slot.meta.owners == 1;
            &&& r is Ok <==> free && backends
            &&& r is Ok ==> {
                &&& after.region.slots[id as int].meta.state == LEASE_STATE_LEASED
                &&& after.region.slots[id as int].meta.epoch == slot.meta.epoch
                &&& after.region.slots[id as int].meta.owners == 5
                &&& after.region.slots[id as int].backend_pid == slot.backend_pid
                &&& after.region.freelist == s.region.freelist
                &&& recorded(after, id) == incarnation
            }
            &&& !free ==> r == Err::<(), SlotAccessError>(
                SlotAccessError::Busy { slot_id: id, claimed_generation: incarnation.generation },
            )
            &&& free && !backends ==> r == Err::<(), SlotAccessError>(
                claim_failure(s.region.meta, slot, id, incarnation),
            )
            &&& r is Err ==> after == s
        }),
{
    let key = s.region.key;
    let count = s.region.layout.slot_count;
    law_newest_record_counts(s.process.registries, s.process.pid, key, count);
    let (noted, fresh) = s.process.after_insert(key, count, id as int, incarnation);
    lemma_same_record(s.process, noted, key, count);
    if fresh {
        let at = s.process.attached(key, count)->0;
        let back = noted.after_remove(key, count, id as int, incarnation).0;
        assert(back.registries[at].owners =~= s.process.registries[at].owners);
        assert(back.registries =~= s.process.registries);
        assert(back == s.process);
    }
}

/// The second step lets a claim go on exactly if it still stands and its backend is
/// alive. Otherwise the claim is taken back, in the slot and on record; where the
/// backend is dead, the backend loses the slot, too.
pub proof fn law_claim_goes_on_with_a_live_backend(
    s: ClaimState,
    id: u32,
    incarnation: LeaseIncarnation,
    table: LivenessTable,
)
    requires
        can_record(s, id),
        recorded(s, id) == incarnation,
    ensures
        ({
            let (after, r) = s.claim_rechecked(id, incarnation, table);
            let slot = s.region.slots[id as int];
            let verdict = recheck_verdict(s.region.meta, slot, id, incarnation);
            let back = s.region.claim_rolled_back(id as int, incarnation, s.process.pid);
            &&& r is Ok <==> verdict is None && table.says(slot.backend_pid) == Ok::<
                bool,
                ProbeFailure,
            >(true)
            &&& r is Ok ==> after == s
            &&& r is Err ==> recorded(after, id) == no_incarnation()
            &&& verdict matches Some(e) ==> r == Err::<(), SlotAccessError>(e) && after.region
                == back
            &&& verdict is None && table.says(slot.backend_pid) == Ok::<bool, ProbeFailure>(false)
                ==> r == Err::<(), SlotAccessError>(
                SlotAccessError::Released {
                    slot_id: id,
                    claimed_generation: incarnation.generation,
                },
            ) && after.region == back.reaped(id as int, incarnation, table, s.process.pid).0
            &&& verdict is None ==> (table.says(slot.backend_pid) matches Err(failure) ==> r
                == Err::<(), SlotAccessError>(
                SlotAccessError::BackendProbeFailed {
                    slot_id: id,
                    claimed_generation: incarnation.generation,
                    error_kind: failure.error_kind,
                    raw_os_error: failure.raw_os_error,
                },
            ) && after.region == back)
        }),
{
    let key = s.region.key;
    let count = s.region.layout.slot_count;
    law_newest_record_counts(s.process.registries, s.process.pid, key, count);
    let left = s.process.after_remove(key, count, id as int, incarnation).0;
    lemma_same_record(s.process, left, key, count);
}

/// The last step makes the worker an owner beside the backend exactly if the slot
/// is leased under the claimed lease to the backend and the pending claim.
/// Otherwise the claim is taken back, in the slot and on record.
pub proof fn law_claim_ends_with_two_owners(
    s: ClaimState,
    id: u32,
    incarnation: LeaseIncarnation,
)
    requires
        can_record(s, id),
        recorded(s, id) == incarnation,
    ensures
        ({
            let (after, r) = s.claim_committed(id, incarnation);
            let slot = s.region.slots[id as int];
            let pending = slot.meta.state == LEASE_STATE_LEASED && slot.meta.epoch
                == incarnation.lease_epoch && slot.meta.owners == 5;
            &&& r is Ok <==> pending
            &&& r matches Ok(got) ==> {
                &&& got == incarnation
                &&& after.region.slots[id as int].meta.state == LEASE_STATE_LEASED
                &&& after.region.slots[id as int].meta.epoch == slot.meta.epoch
                &&& after.region.slots[id as int].meta.owners == 3
                &&& after.process == s.process
                &&& after.region.freelist == s.region.freelist
            }
            &&& r is Err ==> {
                &&& after.region == s.region.claim_rolled_back(
                    id as int,
                    incarnation,
                    s.process.pid,
                )
                &&& recorded(after, id) == no_incarnation()
                &&& r == Err::<LeaseIncarnation, SlotAccessError>(
                    claim_failure(
                        after.region.meta,
                        after.region.slots[id as int],
                        id,
                        incarnation,
                    ),
                )
            }
        }),
{
    let key = s.region.key;
    let count = s.region.layout.slot_count;
    law_newest_record_counts(s.process.registries, s.process.pid, key, count);
    let left = s.process.after_remove(key, count, id as int, incarnation).0;
    lemma_same_record(s.process, left, key, count);
    if s.claim_committed(id, incarnation).1 is Err {
        lemma_rolled_back_key(s.region, id as int, incarnation, s.process.pid);
    }
}

proof fn lemma_rolled_back_key(
    v: RegionState,
    id: int,
    incarnation: LeaseIncarnation,
    pid: i32,
)
    ensures
        v.claim_rolled_back(id, incarnation, pid).key == v.key,
        v.claim_rolled_back(id, incarnation, pid).layout == v.layout,
{
}

/// What a whole claim comes to on a slot that can be claimed: the slot, where its
/// backend is alive and the process has nothing on record for it. A dead backend
/// loses the slot instead, and the worker is told that it was let go; a backend of
/// which nothing could be learned leaves everything as it is, and so does a slot
/// that is on record.
pub proof fn law_whole_claim(
    s: ClaimState,
    id: u32,
    incarnation: LeaseIncarnation,
    table: LivenessTable,
)
    requires
        sound(s.region),
        can_record(s, id),
        claim_verdict(
            s.region.meta,
            s.region.layout.slot_count,
            s.region.slots[id as int],
            id,
        ) == Ok::<LeaseIncarnation, SlotAccessError>(incarnation),
    ensures
        ({
            let (after, r) = s.claimed(Ok(incarnation), id, table);
            let alive = table.says(s.region.slots[id as int].backend_pid);
            let free = recorded(s, id) == no_incarnation();
            &&& r is Ok <==> alive == Ok::<bool, ProbeFailure>(true) && free
            &&& r is Ok ==> {
                &&& recorded(after, id) == incarnation
                &&& after.region.slots[id as int].meta.owners == 3
                &&& after.region.slots[id as int].leased_as(incarnation)
            }
            &&& alive == Ok::<bool, ProbeFailure>(true) && !free ==> after == s && r == Err::<
                LeaseIncarnation,
                SlotAccessError,
            >(
                SlotAccessError::Busy { slot_id: id, claimed_generation: incarnation.generation },
            )
            &&& alive == Ok::<bool, ProbeFailure>(false) ==> r == Err::<
                LeaseIncarnation,
                SlotAccessError,
            >(
                SlotAccessError::Released {
                    slot_id: id,
                    claimed_generation: incarnation.generation,
                },
            ) && after.region.slots[id as int].meta.owners == 0
                && after.region.slots[id as int].meta.state != LEASE_STATE_LEASED && after.process
                == s.process
            &&& alive matches Err(failure) ==> after == s && r == Err::<
                LeaseIncarnation,
                SlotAccessError,
            >(
                SlotAccessError::BackendProbeFailed {
                    slot_id: id,
                    claimed_generation: incarnation.generation,
                    error_kind: failure.error_kind,
                    raw_os_error: failure.raw_os_error,
                },
            )
        }),
{
    let slot = s.region.slots[id as int];
    assert(slot_sound(slot, s.region));
    assert(slot.shaped(s.region.layout));
    lemma_owner_bits(slot.meta.owners);
    let alive = table.says(slot.backend_pid);
    assert(slot.meta.owners == 1);
    if alive == Ok::<bool, ProbeFailure>(true) {
        law_claim_takes_a_slot_of_its_backend(s, id, incarnation);
        let (held, r) = s.claim_reserved(id, incarnation);
        if r is Ok {
            assert(held.process.attached(s.region.key, s.region.layout.slot_count) is Some) by {
                law_newest_record_counts(
                    s.process.registries,
                    s.process.pid,
                    s.region.key,
                    s.region.layout.slot_count,
                );
                lemma_same_record(
                    s.process,
                    held.process,
                    s.region.key,
                    s.region.layout.slot_count,
                );
            }
            law_claim_goes_on_with_a_live_backend(held, id, incarnation, table);
            law_claim_ends_with_two_owners(held, id, incarnation);
        }
    }
}

/// A claim that is refused before it begins changes nothing.
pub proof fn law_refused_claim_changes_nothing(
    s: ClaimState,
    e: SlotAccessError,
    id: u32,
    table: LivenessTable,
)
    ensures
        s.claimed(Err(e), id, table) == (s, Err::<LeaseIncarnation, SlotAccessError>(e)),
{
}

/// A popped token is used exactly if its slot is free under the current epoch of
/// the stack: the slot is then marked as popped by the process that popped it. A
/// token that is no good is dropped, and the next one is popped.
pub proof fn law_good_tokens_are_used(v: RegionState, pid: i32)
    requires
        v.freelist.len() > 0,
        forall|i: int| 0 <= i < v.freelist.len() ==> v.freelist[i] < v.slots.len(),
    ensures
        ({
            let id = v.freelist.last();
            let word = v.slots[id as int].meta;
            let good = word.epoch == v.freelist_epoch && (word.state == LEASE_STATE_FREE_PUBLISHED
                || word.state == LEASE_STATE_FREE_PUSHED);
            let (w, token) = v.token_taken(pid);
            &&& good ==> {
                &&& token == Some(id)
                &&& w.freelist == v.freelist.drop_last()
                &&& w.slots[id as int].meta.state == LEASE_STATE_FREE_POPPED
                &&& w.slots[id as int].meta.epoch == v.freelist_epoch
                &&& w.slots[id as int].meta.owners == 0
                &&& w.slots[id as int].backend_pid == pid
                &&& forall|j: int|
                    0 <= j < v.slots.len() && j != id ==> #[trigger] w.slots[j] == v.slots[j]
            }
            &&& !good && word.state != LEASE_STATE_FREE_PENDING ==> (w, token)
                == v.without_top().token_taken(pid)
            &&& word.state == LEASE_STATE_FREE_PENDING ==> (w, token)
                == v.without_top().published(id as int, pid).0.token_taken(pid)
        }),
{
    assert(forall|i: int|
        0 <= i < v.without_top().freelist.len() ==> v.without_top().freelist[i] == v.freelist[i]);
}

/// The word of a slot holds its epoch above six bits, its state in the three bits
/// below, and its owners in the last three; the word of a region holds its
/// generation above two bits of the worker's state.
pub proof fn law_words_hold_their_parts(slot: SlotMeta, region: RegionMeta)
    ensures
        slot@.epoch * 64 + slot@.state * 8 + slot@.owners == slot.raw,
        slot@.state < 8,
        slot@.owners < 8,
        slot@.packed() == slot.raw,
        region@.generation * 4 + region@.worker_state == region.raw,
        region@.worker_state < 4,
        region@.packed() == region.raw,
{
}

/// A record of a claim keeps its generation and its lease epoch apart: different
/// claims have different records, and no claim is recorded as zero.
pub proof fn law_records_are_apart(a: LeaseIncarnation, b: LeaseIncarnation)
    ensures
        packed_owner(a) == packed_owner(b) <==> a == b,
        packed_owner(a) == 0 <==> a == no_incarnation(),
        packed_owner(a) / 0x1_0000_0000_0000_0000 == a.generation,
        packed_owner(a) % 0x1_0000_0000_0000_0000 == a.lease_epoch,
{
}

} // verus!
