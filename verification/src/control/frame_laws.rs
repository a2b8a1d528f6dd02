//! What fits on a ring and into a mapping, and which refusal comes where
//! something does not.

use super::error::{AttachError, ConfigError, InitError, NotifyError, RxError, TxError};
use super::layout::{
    attach_error, config_error, header_of, init_error, layout_of, region_size_of, round_up_8,
    slot_stride_of, slots_offset_of, RegionHeader, TransportRegionLayout,
};
use super::raw::{sent, taken, RingDirection};
use super::region::{
    received_by_backend, received_by_worker, sent_to_backend, sent_to_worker, RegionState,
};
use super::ring::{
    lemma_prefix_round_trip, outcome_of, pending_frame, prefix_bytes, prefix_value, ring_size,
    CommitOutcome, RingState,
};
use vstd::prelude::*;

verus! {

/// The bytes in use on a ring are those from its head up to its tail, around the
/// end. One byte always stays unused.
pub proof fn law_ring_content(ring: RingState, i: int)
    requires
        ring.in_range(),
        0 <= i < ring.used(),
    ensures
        ring.used() == (ring.tail - ring.head) % ring.capacity(),
        ring.used() + ring.available() + 1 == ring.capacity(),
        ring.content().len() == ring.used(),
        ring.content()[i] == ring.bytes[(ring.head + i) % ring.capacity()],
{
    let capacity = ring.capacity();
    let difference = ring.tail - ring.head;
    if difference >= 0 {
        vstd::arithmetic::div_mod::lemma_small_mod(difference as nat, capacity as nat);
    } else {
        vstd::arithmetic::div_mod::lemma_mod_add_multiples_vanish(difference, capacity);
        vstd::arithmetic::div_mod::lemma_small_mod((difference + capacity) as nat, capacity as nat);
    }
    let place = ring.head + i;
    if place < capacity {
        vstd::arithmetic::div_mod::lemma_small_mod(place as nat, capacity as nat);
    } else {
        vstd::arithmetic::div_mod::lemma_mod_sub_multiples_vanish(place, capacity);
        vstd::arithmetic::div_mod::lemma_small_mod((place - capacity) as nat, capacity as nat);
    }
}

/// A frame goes onto a ring exactly if the ring is sound and its four bytes of
/// length and its payload fit beside what is in use. One that no ring of this
/// size could ever take is told the most that it could; one that has to wait is
/// told how much is free.
pub proof fn law_frame_goes_on_if_it_fits(ring: RingState, len: int)
    requires
        ring.sized(),
        0 <= len <= u32::MAX,
        ring.capacity() <= usize::MAX,
    ensures
        ring.send_error(len) is None <==> ring.in_range() && ring.used() + 4 + len + 1
            <= ring.capacity(),
        ring.send_error(len) matches Some(TxError::CorruptState { head, tail, capacity }) ==> {
            &&& head == ring.head
            &&& tail == ring.tail
            &&& capacity == ring.capacity()
        },
        (ring.send_error(len) matches Some(TxError::CorruptState { .. })) <==> !(ring.head
            < ring.capacity() && ring.tail < ring.capacity()),
        (ring.send_error(len) matches Some(TxError::PayloadTooLarge { .. })) <==> ring.in_range()
            && len + 5 > ring.capacity(),
        ring.send_error(len) matches Some(TxError::PayloadTooLarge { actual, maximum }) ==> actual
            == len && maximum == ring.capacity() - 5,
        (ring.send_error(len) matches Some(TxError::Full { .. })) <==> ring.in_range() && len + 5
            <= ring.capacity() && ring.used() + 4 + len + 1 > ring.capacity(),
        ring.send_error(len) matches Some(TxError::Full { required, available }) ==> required
            == len + 4 && available == ring.capacity() - ring.used() - 1,
{
}

/// A frame comes off a ring exactly if the ring is sound, holds one whole, and
/// there is room for its payload. A ring with nothing on it is no error.
pub proof fn law_frame_comes_off_if_whole(ring: RingState, room: int)
    requires
        ring.sized(),
        0 <= room <= usize::MAX,
        ring.used() <= usize::MAX,
        0 <= ring.next_len() <= u32::MAX,
    ensures
        (ring.recv_error(room) matches Some(RxError::CorruptState { .. })) <==> !(ring.head
            < ring.capacity() && ring.tail < ring.capacity()),
        ring.recv_error(room) matches Some(RxError::CorruptState { head, tail, capacity }) ==> {
            &&& head == ring.head
            &&& tail == ring.tail
            &&& capacity == ring.capacity()
        },
        ring.in_range() && ring.head == ring.tail ==> ring.recv_error(room) is None,
        (ring.recv_error(room) matches Some(RxError::CorruptFrameLen { .. })) <==> ring.in_range()
            && ring.head != ring.tail && ring.next_len() + 4 > ring.used(),
        ring.recv_error(room) matches Some(RxError::CorruptFrameLen {
            len,
            available,
            capacity,
        }) ==> {
            &&& len == ring.next_len()
            &&& available == ring.used()
            &&& capacity == ring.capacity()
        },
        (ring.recv_error(room) matches Some(RxError::BufferTooSmall { .. })) <==> ring.in_range()
            && ring.head != ring.tail && ring.next_len() + 4 <= ring.used() && ring.next_len()
            > room,
        ring.recv_error(room) matches Some(RxError::BufferTooSmall { required, available })
            ==> required == ring.next_len() && available == room,
{
}

/// Something waits on a ring unless the ring is sound and its head and tail are
/// the same.
pub proof fn law_something_waits(ring: RingState)
    ensures
        pending_frame(ring) <==> !(ring.head < ring.capacity() && ring.tail < ring.capacity())
            || ring.head != ring.tail,
{
}

/// Four bytes hold every length of 32 bits: different lengths have different
/// bytes, which read back as the length.
pub proof fn law_length_prefix(len: u32)
    ensures
        prefix_bytes(len).len() == 4,
        prefix_value(prefix_bytes(len)) == len,
        vstd::endian::endianness() is Little ==> prefix_bytes(len)[0] == len % 256
            && prefix_bytes(len)[3] == len / 0x100_0000,
        vstd::endian::endianness() is Big ==> prefix_bytes(len)[3] == len % 256
            && prefix_bytes(len)[0] == len / 0x100_0000,
{
    lemma_prefix_round_trip(len);
    assert((vstd::endian::endianness() is Little ==> prefix_bytes(len)[0] == len % 256
        && prefix_bytes(len)[3] == len / 0x100_0000) && (vstd::endian::endianness() is Big
        ==> prefix_bytes(len)[3] == len % 256 && prefix_bytes(len)[0] == len / 0x100_0000)) by {
        reveal(prefix_bytes);
    }
}

/// A published frame is announced, in its direction only, and nothing but that
/// ring and that flag changes.
pub proof fn law_sending_touches_one_direction(
    v: RegionState,
    id: int,
    payload: Seq<u8>,
    w: RegionState,
)
    requires
        0 <= id < v.slots.len(),
    ensures
        sent_to_worker(v, id, payload, w) ==> {
            &&& w.slots[id].to_worker_ready
            &&& w.slots[id].to_worker.content().len() == v.slots[id].to_worker.content().len() + 4
                + payload.len()
            &&& w.slots[id].to_backend == v.slots[id].to_backend
            &&& w.slots[id].to_backend_ready == v.slots[id].to_backend_ready
            &&& w.slots[id].meta == v.slots[id].meta
            &&& w.freelist == v.freelist
            &&& w.meta == v.meta
        },
        sent_to_backend(v, id, payload, w) ==> {
            &&& w.slots[id].to_backend_ready
            &&& w.slots[id].to_backend.content().len() == v.slots[id].to_backend.content().len() + 4
                + payload.len()
            &&& w.slots[id].to_worker == v.slots[id].to_worker
            &&& w.slots[id].to_worker_ready == v.slots[id].to_worker_ready
            &&& w.slots[id].meta == v.slots[id].meta
            &&& w.freelist == v.freelist
            &&& w.meta == v.meta
        },
{
    reveal(prefix_bytes);
}

/// Taking a frame off keeps the announcement exactly while something is left on
/// that ring, and changes nothing in the other direction.
pub proof fn law_receiving_touches_one_direction(
    v: RegionState,
    id: int,
    len: int,
    w: RegionState,
)
    requires
        0 <= id < v.slots.len(),
    ensures
        received_by_worker(v, id, len, w) ==> {
            &&& w.slots[id].to_worker_ready <==> v.slots[id].to_worker_ready
                && w.slots[id].to_worker.head != w.slots[id].to_worker.tail
            &&& w.slots[id].to_worker.tail == v.slots[id].to_worker.tail
            &&& w.slots[id].to_backend == v.slots[id].to_backend
            &&& w.slots[id].to_backend_ready == v.slots[id].to_backend_ready
            &&& w.slots[id].meta == v.slots[id].meta
        },
        received_by_backend(v, id, len, w) ==> {
            &&& w.slots[id].to_backend_ready <==> v.slots[id].to_backend_ready
                && w.slots[id].to_backend.head != w.slots[id].to_backend.tail
            &&& w.slots[id].to_backend.tail == v.slots[id].to_backend.tail
            &&& w.slots[id].to_worker == v.slots[id].to_worker
            &&& w.slots[id].to_worker_ready == v.slots[id].to_worker_ready
            &&& w.slots[id].meta == v.slots[id].meta
        },
{
}

/// Each direction of a slot is a ring of its own, and what is sent or taken in one
/// direction is sent or taken on that ring.
pub proof fn law_directions_are_rings_of_their_own(
    v: RegionState,
    id: int,
    payload: Seq<u8>,
    len: int,
    w: RegionState,
)
    ensures
        v.ring(id, RingDirection::ToWorker) == v.slots[id].to_worker,
        v.ring(id, RingDirection::ToBackend) == v.slots[id].to_backend,
        sent(v, id, RingDirection::ToWorker, payload, w) <==> sent_to_worker(v, id, payload, w),
        sent(v, id, RingDirection::ToBackend, payload, w) <==> sent_to_backend(v, id, payload, w),
        taken(v, id, RingDirection::ToWorker, len, w) <==> received_by_worker(v, id, len, w),
        taken(v, id, RingDirection::ToBackend, len, w) <==> received_by_backend(v, id, len, w),
{
}

/// A sender learns whether the peer was signalled, is missing, or could not be
/// signalled, and why.
pub proof fn law_signal_outcome(signal: Result<bool, NotifyError>)
    ensures
        outcome_of(signal) == CommitOutcome::Notified <==> signal == Ok::<bool, NotifyError>(true),
        outcome_of(signal) == CommitOutcome::PeerMissing <==> signal == Ok::<bool, NotifyError>(
            false,
        ),
        signal matches Err(e) ==> outcome_of(signal) == CommitOutcome::NotifyFailed(e),
{
}

/// Places in a region are rounded up to the next multiple of eight, and a ring
/// takes up the next multiple of four that holds its two indices and its bytes.
pub proof fn law_places_are_rounded_up(bytes: int, capacity: int)
    ensures
        round_up_8(bytes) % 8 == 0,
        bytes <= round_up_8(bytes) < bytes + 8,
        ring_size(capacity) % 4 == 0,
        8 + capacity <= ring_size(capacity) < 8 + capacity + 4,
{
}

/// The parts of a region lie one behind the other: its header and its free stack
/// before the first slot, each slot with its cells and both its rings, and the
/// last slot at its end. Slots start at multiples of eight.
pub proof fn law_parts_lie_apart(
    slot_count: u32,
    backend_to_worker_cap: usize,
    worker_to_backend_cap: usize,
    slot: int,
)
    requires
        0 <= slot < slot_count,
    ensures
        ({
            let start = slots_offset_of(slot_count as int);
            let stride = slot_stride_of(
                backend_to_worker_cap as int,
                worker_to_backend_cap as int,
            );
            let size = region_size_of(
                slot_count as int,
                backend_to_worker_cap as int,
                worker_to_backend_cap as int,
            );
            &&& start >= 64 + 8 + 4 * slot_count
            &&& stride >= 24 + ring_size(backend_to_worker_cap as int) + ring_size(
                worker_to_backend_cap as int,
            )
            &&& start % 8 == 0
            &&& stride % 8 == 0
            &&& start + slot_count * stride == size
            &&& start + slot * stride + stride <= size
        }),
{
    let stride = slot_stride_of(backend_to_worker_cap as int, worker_to_backend_cap as int);
    assert(slot * stride + stride <= slot_count * stride) by (nonlinear_arith)
        requires
            0 <= slot < slot_count,
            stride >= 0,
    ;
}

/// A region can be laid out exactly if both rings hold at least five bytes, their
/// sizes fit into 32 bits, and everything together fits into memory. The ring
/// towards the worker is looked at first.
pub proof fn law_layouts_that_exist(
    slot_count: u32,
    backend_to_worker_cap: usize,
    worker_to_backend_cap: usize,
)
    ensures
        ({
            let error = config_error(slot_count, backend_to_worker_cap, worker_to_backend_cap);
            let size = region_size_of(
                slot_count as int,
                backend_to_worker_cap as int,
                worker_to_backend_cap as int,
            );
            &&& error is None ==> {
                &&& 5 <= backend_to_worker_cap <= u32::MAX
                &&& 5 <= worker_to_backend_cap <= u32::MAX
                &&& size <= isize::MAX
            }
            &&& 5 <= backend_to_worker_cap <= u32::MAX && 5 <= worker_to_backend_cap <= u32::MAX
                && size <= isize::MAX && ring_size(backend_to_worker_cap as int) <= isize::MAX
                && ring_size(worker_to_backend_cap as int) <= isize::MAX ==> error is None
            &&& backend_to_worker_cap < 5 ==> error == Some(
                ConfigError::RingTooSmall { minimum: 5, actual: backend_to_worker_cap },
            )
            &&& backend_to_worker_cap > u32::MAX ==> error == Some(
                ConfigError::RingTooLarge {
                    maximum: u32::MAX as usize,
                    actual: backend_to_worker_cap,
                },
            )
            &&& 5 <= backend_to_worker_cap <= u32::MAX && ring_size(backend_to_worker_cap as int)
                <= isize::MAX ==> {
                &&& worker_to_backend_cap < 5 ==> error == Some(
                    ConfigError::RingTooSmall { minimum: 5, actual: worker_to_backend_cap },
                )
                &&& worker_to_backend_cap > u32::MAX ==> error == Some(
                    ConfigError::RingTooLarge {
                        maximum: u32::MAX as usize,
                        actual: worker_to_backend_cap,
                    },
                )
            }
            &&& error matches Some(e) ==> !(e is ZeroSlotCount)
        }),
{
}

/// A fresh region is set up exactly in a mapping that is aligned to eight bytes,
/// holds the whole region and holds none yet; the refusals are looked for in the
/// order layout, alignment, size, region.
pub proof fn law_mappings_that_can_be_set_up(
    base: usize,
    len: usize,
    existing_magic: u64,
    layout: TransportRegionLayout,
)
    requires
        layout.valid(),
    ensures
        ({
            let error = init_error(base, len, existing_magic, layout);
            let aligned = base % 8 == 0;
            let set_up = existing_magic == 0x4354_5241_4E53_5031;
            &&& error is None <==> aligned && len >= layout.size && !set_up
            &&& error == Some(InitError::BadAlignment { expected: 8, actual: base }) <==> !aligned
            &&& error == Some(InitError::RegionTooSmall { expected: layout.size, actual: len })
                <==> aligned && len < layout.size
            &&& error == Some(InitError::AlreadyInitialized) <==> aligned && len >= layout.size
                && set_up
        }),
{
}

/// A region is attached exactly where its header says that it is one of this
/// version, with slots, a layout that exists and the size of that layout, and
/// where the mapping is aligned and holds it.
pub proof fn law_regions_that_can_be_attached(base: usize, len: usize, header: RegionHeader)
    ensures
        ({
            let error = attach_error(base, len, header);
            let config = config_error(
                header.slot_count,
                header.backend_to_worker_cap as usize,
                header.worker_to_backend_cap as usize,
            );
            let size = region_size_of(
                header.slot_count as int,
                header.backend_to_worker_cap as int,
                header.worker_to_backend_cap as int,
            );
            let aligned = base % 8 == 0;
            let marked = header.magic == 0x4354_5241_4E53_5031;
            let current = header.version == 10;
            let readable = aligned && len >= 32 && marked && current;
            &&& error is None <==> readable && header.slot_count > 0 && config is None
                && header.region_size == size && len >= size
            &&& error == Some(AttachError::BadAlignment { expected: 8, actual: base })
                <==> !aligned
            &&& aligned && len < 32 ==> error == Some(
                AttachError::RegionTooSmall { expected: 32, actual: len },
            )
            &&& (error matches Some(AttachError::BadMagic { actual, .. }) && actual == header.magic)
                <==> aligned && len >= 32 && !marked
            &&& error == Some(
                AttachError::UnsupportedVersion { expected: 10, actual: header.version },
            ) <==> aligned && len >= 32 && marked && !current
            &&& readable && header.slot_count == 0 ==> error == Some(
                AttachError::InvalidConfig(ConfigError::ZeroSlotCount),
            )
            &&& readable && header.slot_count > 0 && config is Some ==> error == Some(
                AttachError::InvalidConfig(config->0),
            )
            &&& readable && header.slot_count > 0 && config is None && header.region_size != size
                ==> error == Some(
                AttachError::LayoutMismatch {
                    expected: size as usize,
                    actual: header.region_size as usize,
                },
            )
            &&& readable && header.slot_count > 0 && config is None && header.region_size == size
                && len < size ==> error == Some(
                AttachError::RegionTooSmall { expected: size as usize, actual: len },
            )
        }),
{
}

/// The header of a region says what its layout says.
pub proof fn law_header_says_the_layout(layout: TransportRegionLayout)
    requires
        layout.valid(),
    ensures
        header_of(layout).magic == 0x4354_5241_4E53_5031,
        header_of(layout).version == 10,
        header_of(layout).slot_count == layout.slot_count,
        header_of(layout).backend_to_worker_cap == layout.backend_to_worker_cap,
        header_of(layout).worker_to_backend_cap == layout.worker_to_backend_cap,
        header_of(layout).region_size == layout.size,
        layout.align == 8,
        layout == layout_of(
            layout.slot_count,
            layout.backend_to_worker_cap,
            layout.worker_to_backend_cap,
        ),
        layout.slot_count > 0,
{
}

} // verus!
