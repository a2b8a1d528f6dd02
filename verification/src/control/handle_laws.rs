//! What the handles of backends and workers promise over several calls.

use super::error::{AcquireError, RxError, SlotAccessError, WorkerLifecycleError};
use super::laws::{
    law_detach_keeps_sound, law_release_waits_for_both, law_stale_handle_is_harmless, slot_sound,
    sound,
};
use super::lifecycle::{access_verdict, lease_verdict, lifecycle_error};
use super::meta::{
    lemma_owner_bits, no_incarnation, LeaseIncarnation, OWNER_BOTH, SLOT_META_MAX_LEASE_EPOCH,
};
use super::order_laws::{
    law_acquire_takes_top, law_detach_keeps_order, lemma_new_word_orderly, orderly,
};
use super::process::{signalled, KillAnswer};
use super::raw::{sent, RingDirection};
use super::region::{received, RegionState};
use super::registry::{
    find_registry, fresh_registry, held_count, lemma_found_registry, lemma_held_count_zero,
    lemma_update_keeps_found, ProcessState,
};
use super::ring::{outcome_of, CommitOutcome};
use super::supply_laws::{backends_alive, law_empty_stack_gives_nothing, nth_lease, Acquirer};
use super::traffic_laws::{law_first_frame_arrives, law_frames_queue_up};
use vstd::prelude::*;

verus! {

/// A lease that is released while the worker is attached keeps its slot away
/// from the free stack: the next acquisition finds no slot, and the worker finds
/// its claim released. Once the worker lets go as well, the next acquisition
/// gets this slot. A second release changes nothing, neither before nor after
/// the slot was leased again.
pub proof fn law_release_hands_the_slot_on(
    v: RegionState,
    id: u32,
    incarnation: LeaseIncarnation,
    pid: i32,
    worker: i32,
    next: Acquirer,
)
    requires
        orderly(v),
        v.meta.online(),
        v.freelist.len() == 0,
        v.next_lease_epoch < SLOT_META_MAX_LEASE_EPOCH,
        v.has_slot(id),
        incarnation.generation == v.meta.generation,
        v.slots[id as int].leased_as(incarnation),
        v.slots[id as int].meta.owners == OWNER_BOTH,
        backends_alive(v, next.table, id as int),
    ensures
        ({
            let released = v.backend_released(id as int, incarnation, pid);
            let freed = released.worker_released(id as int, incarnation, worker);
            let (leased, lease) = freed.lease_acquired(next.table, next.pid);
            &&& released.lease_acquired(next.table, next.pid) == (
                released,
                Err::<(u32, LeaseIncarnation), AcquireError>(AcquireError::Empty),
            )
            &&& access_verdict(
                released.meta,
                released.layout.slot_count,
                released.slots[id as int],
                id,
                incarnation,
                true,
            ) == Some(
                SlotAccessError::Released {
                    slot_id: id,
                    claimed_generation: incarnation.generation,
                },
            )
            &&& released.backend_released(id as int, incarnation, pid) == released
            &&& lease == Ok::<(u32, LeaseIncarnation), AcquireError>((id, nth_lease(v, 0)))
            &&& leased.backend_released(id as int, incarnation, pid) == leased
            &&& leased.worker_released(id as int, incarnation, worker) == leased
        }),
{
    let slot = v.slots[id as int];
    assert(slot.shaped(v.layout) && slot_sound(slot, v));
    lemma_owner_bits(OWNER_BOTH);
    law_detach_keeps_sound(v, id, incarnation, next.table, pid);
    law_detach_keeps_order(v, id, incarnation, next.table, pid);
    law_release_waits_for_both(v, id, incarnation, pid);
    let released = v.backend_released(id as int, incarnation, pid);
    assert(backends_alive(released, next.table, id as int));
    law_empty_stack_gives_nothing(released, next.table, next.pid, id as int);
    law_detach_keeps_sound(released, id, incarnation, next.table, worker);
    law_detach_keeps_order(released, id, incarnation, next.table, worker);
    law_release_waits_for_both(released, id, incarnation, worker);
    let freed = released.worker_released(id as int, incarnation, worker);
    assert(freed.freelist.last() == id);
    law_acquire_takes_top(freed, next.table, next.pid);
    let leased = freed.lease_acquired(next.table, next.pid).0;
    assert(!leased.slots[id as int].leased_as(incarnation));
    law_stale_handle_is_harmless(leased, id, incarnation, next.table, pid);
    law_stale_handle_is_harmless(leased, id, incarnation, next.table, worker);
}

/// The two regions are told apart by the processes that attach to them.
pub open spec fn apart(r1: RegionState, r2: RegionState) -> bool {
    r1.key != r2.key || r1.layout.slot_count != r2.layout.slot_count
}

/// A worker may attach to a region again and to another region. Attaching again
/// changes nothing. Attaching to another region changes nothing of what is
/// recorded here, so slots that are held here stop a generation switch here and
/// not there.
pub proof fn law_regions_are_recorded_apart(
    process: ProcessState,
    r1: RegionState,
    r2: RegionState,
)
    requires
        apart(r1, r2),
        process.attached(r1.key, r1.layout.slot_count) is Some,
    ensures
        process.after_attach(r1.key, r1.layout.slot_count) == process,
        ({
            let both = process.after_attach(r2.key, r2.layout.slot_count);
            &&& both.attached(r1.key, r1.layout.slot_count) is Some
            &&& both.attached(r2.key, r2.layout.slot_count) is Some
            &&& both.owners(r1.key, r1.layout.slot_count) == process.owners(
                r1.key,
                r1.layout.slot_count,
            )
            &&& lifecycle_error(r1, both) == lifecycle_error(r1, process)
            &&& process.attached(r2.key, r2.layout.slot_count) is None ==> lifecycle_error(
                r2,
                both,
            ) is None
        }),
        ({
            let live = held_count(process.owners(r1.key, r1.layout.slot_count));
            &&& live > 0 ==> lifecycle_error(r1, process) == Some(
                WorkerLifecycleError::HandlesAlive { live_slots: live as usize },
            )
            &&& live == 0 ==> lifecycle_error(r1, process) is None
        }),
{
    let key = r2.key;
    let slot_count = r2.layout.slot_count;
    if process.attached(key, slot_count) is None {
        let fresh = fresh_registry(process.pid, key, slot_count);
        assert(process.registries.push(fresh).drop_last() =~= process.registries);
        let both = process.after_attach(key, slot_count);
        lemma_found_registry(process.registries, process.pid, r1.key, r1.layout.slot_count);
        assert(find_registry(both.registries, process.pid, r1.key, r1.layout.slot_count)
            == find_registry(process.registries, process.pid, r1.key, r1.layout.slot_count));
        let none = fresh.owners;
        assert(both.owners(key, slot_count) == none);
        lemma_held_count_zero(none);
        assert(forall|i: int| 0 <= i < none.len() ==> none[i] == no_incarnation());
    }
}

/// Claiming a slot of one region, letting go of it and exiting change nothing of
/// what a process records of another region.
pub proof fn law_claims_elsewhere_are_not_recorded_here(
    process: ProcessState,
    r1: RegionState,
    r2: RegionState,
    id: u32,
    incarnation: LeaseIncarnation,
)
    requires
        apart(r1, r2),
        process.attached(r1.key, r1.layout.slot_count) is Some,
        process.attached(r2.key, r2.layout.slot_count) is Some,
        id < r2.layout.slot_count,
    ensures
        ({
            let claimed = process.after_insert(
                r2.key,
                r2.layout.slot_count,
                id as int,
                incarnation,
            ).0;
            let released = process.after_remove(
                r2.key,
                r2.layout.slot_count,
                id as int,
                incarnation,
            ).0;
            let exited = process.after_take(r2.key, r2.layout.slot_count);
            &&& lifecycle_error(r1, claimed) == lifecycle_error(r1, process)
            &&& lifecycle_error(r1, released) == lifecycle_error(r1, process)
            &&& lifecycle_error(r1, exited) == lifecycle_error(r1, process)
            &&& claimed.owners(r1.key, r1.layout.slot_count) == process.owners(
                r1.key,
                r1.layout.slot_count,
            )
            &&& released.owners(r1.key, r1.layout.slot_count) == process.owners(
                r1.key,
                r1.layout.slot_count,
            )
            &&& exited.owners(r1.key, r1.layout.slot_count) == process.owners(
                r1.key,
                r1.layout.slot_count,
            )
        }),
{
    let slot_count = r2.layout.slot_count;
    let at = process.attached(r2.key, slot_count)->0;
    lemma_found_registry(process.registries, process.pid, r1.key, r1.layout.slot_count);
    lemma_found_registry(process.registries, process.pid, r2.key, slot_count);
    let owners = process.registries[at].owners;
    lemma_other_registry(process, r1, at, owners.update(id as int, incarnation));
    lemma_other_registry(process, r1, at, owners.update(id as int, no_incarnation()));
    lemma_other_registry(
        process,
        r1,
        at,
        Seq::new(slot_count as nat, |i: int| no_incarnation()),
    );
}

proof fn lemma_other_registry(
    process: ProcessState,
    r1: RegionState,
    at: int,
    owners: Seq<LeaseIncarnation>,
)
    requires
        0 <= at < process.registries.len(),
        owners.len() == process.registries[at].owners.len(),
        process.attached(r1.key, r1.layout.slot_count) is Some,
        process.attached(r1.key, r1.layout.slot_count) != Some(at),
    ensures
        process.with_owners(at, owners).owners(r1.key, r1.layout.slot_count) == process.owners(
            r1.key,
            r1.layout.slot_count,
        ),
{
    lemma_found_registry(process.registries, process.pid, r1.key, r1.layout.slot_count);
    lemma_update_keeps_found(
        process.registries,
        at,
        owners,
        process.pid,
        r1.key,
        r1.layout.slot_count,
    );
}

/// Clearing the process id of the worker changes nothing but whom a sender
/// signals: the generation stays, the worker stays online, leases and claims
/// stay good, an acquisition gives what it would have given, and what is sent
/// still arrives, though the sender is told that its peer is missing.
pub proof fn law_cleared_pid_leaves_the_worker_online(
    v: RegionState,
    id: u32,
    incarnation: LeaseIncarnation,
    next: Acquirer,
    answer: KillAnswer,
)
    requires
        orderly(v),
        v.meta.online(),
        v.next_lease_epoch < SLOT_META_MAX_LEASE_EPOCH,
        v.freelist.len() > 0,
        v.has_slot(id),
    ensures
        ({
            let w = v.with_worker_pid(0);
            &&& w.meta == v.meta
            &&& orderly(w)
            &&& lease_verdict(w.meta, w.slots[id as int], id, incarnation, true) == lease_verdict(
                v.meta,
                v.slots[id as int],
                id,
                incarnation,
                true,
            )
            &&& access_verdict(
                w.meta,
                w.layout.slot_count,
                w.slots[id as int],
                id,
                incarnation,
                true,
            ) == access_verdict(
                v.meta,
                v.layout.slot_count,
                v.slots[id as int],
                id,
                incarnation,
                true,
            )
            &&& w.lease_acquired(next.table, next.pid).1 == v.lease_acquired(
                next.table,
                next.pid,
            ).1
            &&& w.lease_acquired(next.table, next.pid).1 is Ok
            &&& forall|direction: RingDirection|
                w.ring(id as int, direction) == #[trigger] v.ring(id as int, direction)
            &&& outcome_of(signalled(w.worker_pid, answer)) == CommitOutcome::PeerMissing
        }),
{
    let w = v.with_worker_pid(0);
    assert(sound(w)) by {
        assert forall|i: int| 0 <= i < w.slots.len() implies slot_sound(#[trigger] w.slots[i], w) by {
            assert(slot_sound(v.slots[i], v));
        }
    }
    lemma_new_word_orderly(v, w);
    law_acquire_takes_top(v, next.table, next.pid);
    law_acquire_takes_top(w, next.table, next.pid);
}

/// A frame that a backend sends after the process id of the worker was cleared
/// waits for the worker behind the frames before it, and the worker still
/// receives the first of them byte for byte.
pub proof fn law_frame_arrives_without_pid(
    v: RegionState,
    id: int,
    frames: Seq<Seq<u8>>,
    payload: Seq<u8>,
    after: RegionState,
    room: Seq<u8>,
    r: Result<Option<usize>, RxError>,
    filled: Seq<u8>,
)
    requires
        0 <= id < v.slots.len(),
        v.ring(id, RingDirection::ToWorker).holds(frames),
        v.ring(id, RingDirection::ToWorker).send_error(payload.len() as int) is None,
        sent(v.with_worker_pid(0), id, RingDirection::ToWorker, payload, after),
        frames.push(payload)[0].len() <= u32::MAX,
        frames.push(payload)[0].len() <= room.len(),
        received(after.ring(id, RingDirection::ToWorker), room, r, filled),
    ensures
        after.ring(id, RingDirection::ToWorker).holds(frames.push(payload)),
        r matches Ok(Some(n)) && n == frames.push(payload)[0].len() && filled.take(n as int)
            == frames.push(payload)[0],
{
    let w = v.with_worker_pid(0);
    law_frames_queue_up(w, id, RingDirection::ToWorker, frames, payload, after);
    law_first_frame_arrives(
        after,
        id,
        RingDirection::ToWorker,
        frames.push(payload),
        room,
        r,
        filled,
    );
}

} // verus!
