//! How frames travel between a backend and the worker.

use super::error::RxError;
use super::lifecycle::lease_verdict;
use super::meta::{pending_bit, worker_bit, LeaseIncarnation};
use super::raw::{sent, RingDirection};
use super::region::{received, RegionState};
use super::ring::{law_next_frame, law_publish_appends};
use super::worker::slot_ready;
use vstd::prelude::*;

verus! {

/// The direction against this one.
pub open spec fn opposite(direction: RingDirection) -> RingDirection {
    match direction {
        RingDirection::ToWorker => RingDirection::ToBackend,
        RingDirection::ToBackend => RingDirection::ToWorker,
    }
}

/// A frame that is sent waits behind the frames that were sent before it. The
/// other direction, the owners of the slot and every other slot stay as they
/// are.
pub proof fn law_frames_queue_up(
    v: RegionState,
    id: int,
    direction: RingDirection,
    frames: Seq<Seq<u8>>,
    payload: Seq<u8>,
    w: RegionState,
)
    requires
        0 <= id < v.slots.len(),
        v.ring(id, direction).holds(frames),
        v.ring(id, direction).send_error(payload.len() as int) is None,
        sent(v, id, direction, payload, w),
    ensures
        w.ring(id, direction).holds(frames.push(payload)),
        w.ring(id, opposite(direction)) == v.ring(id, opposite(direction)),
        w.slots[id].meta == v.slots[id].meta,
        w.slots[id].generation == v.slots[id].generation,
        forall|j: int| 0 <= j < v.slots.len() && j != id ==> #[trigger] w.slots[j] == v.slots[j],
        w.freelist == v.freelist,
{
    law_publish_appends(v.ring(id, direction), frames, payload, w.ring(id, direction));
}

/// Who receives from a ring that holds frames gets the first of them, byte for
/// byte, if there is room for it; otherwise the frame stays where it is, and the
/// error says how much room it needs.
pub proof fn law_first_frame_arrives(
    v: RegionState,
    id: int,
    direction: RingDirection,
    frames: Seq<Seq<u8>>,
    room: Seq<u8>,
    r: Result<Option<usize>, RxError>,
    filled: Seq<u8>,
)
    requires
        v.ring(id, direction).holds(frames),
        frames.len() > 0,
        frames[0].len() <= u32::MAX,
        received(v.ring(id, direction), room, r, filled),
    ensures
        frames[0].len() <= room.len() ==> (r matches Ok(Some(n)) && n == frames[0].len()
            && filled.take(n as int) == frames[0]),
        frames[0].len() > room.len() ==> r == Err::<Option<usize>, RxError>(
            RxError::BufferTooSmall {
                required: frames[0].len() as usize,
                available: room.len() as usize,
            },
        ) && filled == room,
{
    let ring = v.ring(id, direction);
    law_next_frame(ring, frames);
    if frames[0].len() <= room.len() {
        assert(filled.take(frames[0].len() as int) =~= frames[0]);
    }
}

/// A frame that a backend sends under a good lease makes its slot one that the
/// worker finds, as long as the worker has not claimed it.
pub proof fn law_sent_frame_is_found(
    v: RegionState,
    slot_id: u32,
    incarnation: LeaseIncarnation,
    payload: Seq<u8>,
    w: RegionState,
)
    requires
        v.has_slot(slot_id),
        lease_verdict(v.meta, v.slots[slot_id as int], slot_id, incarnation, true) is None,
        !worker_bit(v.slots[slot_id as int].meta.owners),
        !pending_bit(v.slots[slot_id as int].meta.owners),
        v.meta.online(),
        sent(v, slot_id as int, RingDirection::ToWorker, payload, w),
    ensures
        slot_ready(w.slots[slot_id as int], w.meta.generation),
        w.ready_step(w.meta.generation, slot_id) == ((slot_id + 1) as u32, Some(slot_id)),
{
}

} // verus!
