//! Single-producer, single-consumer byte ring that carries length-prefixed frames.
//!
//! A frame is four length bytes in the byte order of the machine, followed by its
//! payload. Both parts may wrap around the end of the buffer. One byte always
//! stays unused, so equal indices mean an empty ring.

use super::error::{ConfigError, NotifyError, RxError, TxError};
use vstd::endian::Endian;
use vstd::prelude::*;

verus! {

pub const FRAME_PREFIX_LEN: usize = 4;

pub const MIN_RING_CAPACITY: usize = 5;

/// Bytes that the two ring indices take in front of the data.
pub const RING_INDEX_BYTES: usize = 8;

/// Where the parts of a ring lie in shared memory.
#[derive(Clone, Copy, Debug, PartialEq, Eq, Structural)]
pub struct FramedRingLayout {
    pub size: usize,
    pub align: usize,
    pub head_offset: usize,
    pub tail_offset: usize,
    pub data_offset: usize,
    pub data_len: usize,
}

/// Size of a ring with `capacity` data bytes, padded to the index alignment.
pub open spec fn ring_size(capacity: int) -> int {
    (RING_INDEX_BYTES + capacity + 3) / 4 * 4
}

/// Computes the layout of a ring with `capacity` data bytes.
pub fn framed_ring_layout(capacity: usize) -> (r: Result<FramedRingLayout, ConfigError>)
    ensures
        r is Ok <==> MIN_RING_CAPACITY <= capacity <= u32::MAX && ring_size(capacity as int)
            <= isize::MAX,
        r matches Ok(l) ==> l == (FramedRingLayout {
            size: ring_size(capacity as int) as usize,
            align: 4,
            head_offset: 0,
            tail_offset: 4,
            data_offset: RING_INDEX_BYTES,
            data_len: capacity,
        }) && l.size == ring_size(capacity as int),
        r matches Err(e) ==> e == if capacity < MIN_RING_CAPACITY {
            ConfigError::RingTooSmall { minimum: MIN_RING_CAPACITY, actual: capacity }
        } else if capacity > u32::MAX {
            ConfigError::RingTooLarge { maximum: u32::MAX as usize, actual: capacity }
        } else {
            ConfigError::LayoutOverflow
        },
{
    if capacity < MIN_RING_CAPACITY {
        return Err(
            ConfigError::RingTooSmall { minimum: MIN_RING_CAPACITY, actual: capacity },
        );
    }
    if capacity > u32::MAX as usize {
        return Err(
            ConfigError::RingTooLarge { maximum: u32::MAX as usize, actual: capacity },
        );
    }
    let size: u64 = (RING_INDEX_BYTES as u64 + capacity as u64 + 3) / 4 * 4;
    if size > isize::MAX as u64 {
        return Err(ConfigError::LayoutOverflow);
    }
    Ok(
        FramedRingLayout {
            size: size as usize,
            align: 4,
            head_offset: 0,
            tail_offset: 4,
            data_offset: RING_INDEX_BYTES,
            data_len: capacity,
        },
    )
}

/// The four length bytes in front of a payload, in the byte order of the machine.
#[verifier::opaque]
pub open spec fn prefix_bytes(len: u32) -> Seq<u8> {
    match vstd::endian::endianness() {
        Endian::Little => seq![
            (len % 256) as u8,
            (len / 256 % 256) as u8,
            (len / 65536 % 256) as u8,
            (len / 16777216) as u8,
        ],
        Endian::Big => seq![
            (len / 16777216) as u8,
            (len / 65536 % 256) as u8,
            (len / 256 % 256) as u8,
            (len % 256) as u8,
        ],
    }
}

/// The length that four prefix bytes give on this machine.
#[verifier::opaque]
pub open spec fn prefix_value(b: Seq<u8>) -> int {
    match vstd::endian::endianness() {
        Endian::Little => b[0] + 256 * b[1] + 65536 * b[2] + 16777216 * b[3],
        Endian::Big => b[3] + 256 * b[2] + 65536 * b[1] + 16777216 * b[0],
    }
}

/// `u32::to_ne_bytes`: the four bytes of a number, the least significant one
/// first on a little-endian machine and last on a big-endian one.
#[verifier::external_body]
fn u32_to_ne_bytes(value: u32) -> (r: [u8; 4])
    ensures
        r@ == prefix_bytes(value),
{
    value.to_ne_bytes()
}

/// `u32::from_ne_bytes`: the number of four bytes, of which the first is the
/// least significant one on a little-endian machine and the most significant
/// one on a big-endian machine.
#[verifier::external_body]
fn u32_from_ne_bytes(bytes: [u8; 4]) -> (r: u32)
    ensures
        r == prefix_value(bytes@),
{
    u32::from_ne_bytes(bytes)
}

/// The prefix of a length reads back as that length.
pub proof fn lemma_prefix_round_trip(len: u32)
    ensures
        prefix_bytes(len).len() == 4,
        prefix_value(prefix_bytes(len)) == len,
{
    reveal(prefix_bytes);
    reveal(prefix_value);
}

/// One frame as it stands on the ring.
pub open spec fn frame_bytes(payload: Seq<u8>) -> Seq<u8> {
    prefix_bytes(payload.len() as u32) + payload
}

/// Several frames as they stand on the ring, the oldest first.
pub open spec fn frames_bytes(frames: Seq<Seq<u8>>) -> Seq<u8>
    decreases frames.len(),
{
    if frames.len() == 0 {
        Seq::empty()
    } else {
        frame_bytes(frames[0]) + frames_bytes(frames.drop_first())
    }
}

/// A ring index one step past the end comes back to the start.
pub open spec fn wrapped(index: int, capacity: int) -> int {
    if index >= capacity {
        index - capacity
    } else {
        index
    }
}

/// The buffer as read from `start` around to the byte before it.
pub open spec fn rotated(bytes: Seq<u8>, start: int) -> Seq<u8> {
    Seq::new(bytes.len(), |i: int| bytes[wrapped(start + i, bytes.len() as int)])
}

/// What a ring holds.
pub struct RingState {
    pub head: u32,
    pub tail: u32,
    pub bytes: Seq<u8>,
}

impl RingState {
    pub open spec fn capacity(self) -> int {
        self.bytes.len() as int
    }

    /// The capacity is one that a ring layout can have.
    pub open spec fn sized(self) -> bool {
        MIN_RING_CAPACITY <= self.capacity() <= u32::MAX
    }

    /// Both indices point into the buffer.
    pub open spec fn in_range(self) -> bool {
        self.head < self.capacity() && self.tail < self.capacity()
    }

    /// Bytes between the oldest byte and the next free one.
    pub open spec fn used(self) -> int {
        if self.tail >= self.head {
            self.tail - self.head
        } else {
            self.capacity() - (self.head - self.tail)
        }
    }

    /// Bytes that a producer may still write.
    pub open spec fn available(self) -> int {
        self.capacity() - self.used() - 1
    }

    /// The queued bytes, the oldest first.
    pub open spec fn content(self) -> Seq<u8> {
        rotated(self.bytes, self.head as int).take(self.used())
    }

    /// The ring holds exactly `frames`, the oldest first.
    pub open spec fn holds(self, frames: Seq<Seq<u8>>) -> bool {
        &&& self.sized()
        &&& self.in_range()
        &&& self.content() == frames_bytes(frames)
    }

    /// Longest payload that an empty ring takes.
    pub open spec fn max_payload(self) -> int {
        self.capacity() - FRAME_PREFIX_LEN - 1
    }

    /// The length that the bytes at the head give.
    pub open spec fn next_len(self) -> int {
        prefix_value(rotated(self.bytes, self.head as int).take(4))
    }

    /// Why a payload of `len` bytes cannot be sent, if so.
    pub open spec fn send_error(self, len: int) -> Option<TxError> {
        if !self.in_range() {
            Some(
                TxError::CorruptState {
                    head: self.head,
                    tail: self.tail,
                    capacity: self.capacity() as u32,
                },
            )
        } else if len > self.max_payload() {
            Some(
                TxError::PayloadTooLarge {
                    actual: len as usize,
                    maximum: self.max_payload() as usize,
                },
            )
        } else if FRAME_PREFIX_LEN + len > self.available() {
            Some(
                TxError::Full {
                    required: (FRAME_PREFIX_LEN + len) as usize,
                    available: self.available() as usize,
                },
            )
        } else {
            None
        }
    }

    /// Why the next frame cannot be received into `room` bytes, if so. An empty
    /// ring is no error.
    pub open spec fn recv_error(self, room: int) -> Option<RxError> {
        if !self.in_range() {
            Some(
                RxError::CorruptState {
                    head: self.head,
                    tail: self.tail,
                    capacity: self.capacity() as u32,
                },
            )
        } else if self.used() == 0 {
            None
        } else if FRAME_PREFIX_LEN + self.next_len() > self.used() {
            Some(
                RxError::CorruptFrameLen {
                    len: self.next_len() as u32,
                    available: self.used() as usize,
                    capacity: self.capacity() as u32,
                },
            )
        } else if self.next_len() > room {
            Some(
                RxError::BufferTooSmall {
                    required: self.next_len() as usize,
                    available: room as usize,
                },
            )
        } else {
            None
        }
    }
}

/// Indices of a ring at one moment.
#[derive(Clone, Copy, Debug, PartialEq, Eq, Structural)]
pub struct RingSnapshot {
    pub head: u32,
    pub tail: u32,
    pub capacity: u32,
}

impl RingSnapshot {
    pub open spec fn valid(self) -> bool {
        self.head < self.capacity && self.tail < self.capacity
    }

    pub open spec fn used(self) -> int {
        if self.tail >= self.head {
            self.tail - self.head
        } else {
            self.capacity - (self.head - self.tail)
        }
    }

    pub fn is_empty(self) -> (r: bool)
        ensures
            r == (self.head == self.tail),
    {
        self.head == self.tail
    }

    pub fn used_bytes(self) -> (r: usize)
        requires
            self.valid(),
        ensures
            r == self.used(),
            r < self.capacity,
    {
        if self.tail >= self.head {
            (self.tail - self.head) as usize
        } else {
            (self.capacity - (self.head - self.tail)) as usize
        }
    }

    pub fn available_bytes(self) -> (r: usize)
        requires
            self.valid(),
        ensures
            r == self.capacity - self.used() - 1,
    {
        self.capacity as usize - self.used_bytes() - 1
    }
}

/// Where the parts of a frame to be sent go.
#[derive(Clone, Copy, Debug, PartialEq, Eq, Structural)]
pub struct PublishPlan {
    pub payload_start: u32,
    pub publish_tail: u32,
    pub prefix_index: u32,
    pub prefix_value: u32,
}

/// Where the parts of the next frame to be received lie.
#[derive(Clone, Copy, Debug, PartialEq, Eq, Structural)]
pub struct ConsumePlan {
    pub len: u32,
    pub payload_start: u32,
    pub next_head: u32,
}

/// Brings an index that is less than twice the capacity back into the buffer.
pub fn wrap_index(index: u64, capacity: u32) -> (r: u32)
    requires
        index < 2 * capacity,
    ensures
        r == wrapped(index as int, capacity as int),
        r < capacity,
{
    if index >= capacity as u64 {
        (index - capacity as u64) as u32
    } else {
        index as u32
    }
}

/// Decides where a frame with `payload_len` payload bytes goes.
pub fn build_publish_plan(snapshot: RingSnapshot, payload_len: usize) -> (r: Result<
    PublishPlan,
    TxError,
>)
    requires
        snapshot.valid(),
        snapshot.capacity >= MIN_RING_CAPACITY,
    ensures
        r is Ok <==> payload_len <= snapshot.capacity - FRAME_PREFIX_LEN - 1 && FRAME_PREFIX_LEN
            + payload_len <= snapshot.capacity - snapshot.used() - 1,
        r matches Ok(p) ==> p.prefix_index == snapshot.tail && p.prefix_value == payload_len
            && p.payload_start == wrapped(
            snapshot.tail + FRAME_PREFIX_LEN,
            snapshot.capacity as int,
        ) && p.publish_tail == wrapped(
            snapshot.tail + FRAME_PREFIX_LEN + payload_len,
            snapshot.capacity as int,
        ),
        r matches Err(e) ==> e == if payload_len > snapshot.capacity - FRAME_PREFIX_LEN - 1 {
            TxError::PayloadTooLarge {
                actual: payload_len,
                maximum: (snapshot.capacity - FRAME_PREFIX_LEN - 1) as usize,
            }
        } else {
            TxError::Full {
                required: (FRAME_PREFIX_LEN + payload_len) as usize,
                available: (snapshot.capacity - snapshot.used() - 1) as usize,
            }
        },
{
    let max_payload: usize = snapshot.capacity as usize - FRAME_PREFIX_LEN - 1;
    if payload_len > max_payload {
        return Err(TxError::PayloadTooLarge { actual: payload_len, maximum: max_payload });
    }
    let required: usize = FRAME_PREFIX_LEN + payload_len;
    let available: usize = snapshot.available_bytes();
    if required > available {
        return Err(TxError::Full { required, available });
    }
    Ok(
        PublishPlan {
            prefix_index: snapshot.tail,
            prefix_value: payload_len as u32,
            payload_start: wrap_index(
                snapshot.tail as u64 + FRAME_PREFIX_LEN as u64,
                snapshot.capacity,
            ),
            publish_tail: wrap_index(snapshot.tail as u64 + required as u64, snapshot.capacity),
        },
    )
}

/// Decides where the next frame lies, given the length that its prefix holds
/// and the room for its payload.
pub fn build_consume_plan(snapshot: RingSnapshot, len: u32, room: usize) -> (r: Result<
    ConsumePlan,
    RxError,
>)
    requires
        snapshot.valid(),
        snapshot.capacity >= MIN_RING_CAPACITY,
    ensures
        r is Ok <==> FRAME_PREFIX_LEN + len <= snapshot.used() && len <= room,
        r matches Ok(p) ==> p.len == len && p.payload_start == wrapped(
            snapshot.head + FRAME_PREFIX_LEN,
            snapshot.capacity as int,
        ) && p.next_head == wrapped(
            snapshot.head + FRAME_PREFIX_LEN + len,
            snapshot.capacity as int,
        ),
        r matches Err(e) ==> e == if FRAME_PREFIX_LEN + len > snapshot.used() {
            RxError::CorruptFrameLen {
                len,
                available: snapshot.used() as usize,
                capacity: snapshot.capacity,
            }
        } else {
            RxError::BufferTooSmall { required: len as usize, available: room }
        },
{
    let available: usize = snapshot.used_bytes();
    let frame_len: u64 = FRAME_PREFIX_LEN as u64 + len as u64;
    if frame_len > available as u64 {
        return Err(
            RxError::CorruptFrameLen { len, available, capacity: snapshot.capacity },
        );
    }
    if len as usize > room {
        return Err(RxError::BufferTooSmall { required: len as usize, available: room });
    }
    Ok(
        ConsumePlan {
            len,
            payload_start: wrap_index(
                snapshot.head as u64 + FRAME_PREFIX_LEN as u64,
                snapshot.capacity,
            ),
            next_head: wrap_index(snapshot.head as u64 + frame_len, snapshot.capacity),
        },
    )
}

/// The ready flag after a consumer moved the head to `next_head` and found the
/// ring drained. The tail is read once before the flag is cleared and once
/// after: a frame published in between raises the flag again.
pub fn ready_after_consume(
    ready: bool,
    next_head: u32,
    tail_after_head: u32,
    tail_after_clear: u32,
) -> (r: bool)
    ensures
        r == if tail_after_head != next_head {
            ready
        } else {
            tail_after_clear != next_head
        },
{
    if tail_after_head != next_head {
        return ready;
    }
    tail_after_clear != next_head
}

/// Outcome of publishing one frame and optionally signaling the peer.
#[derive(Clone, Copy, Debug, PartialEq, Eq, Structural)]
pub enum CommitOutcome {
    Notified,
    PeerMissing,
    NotifyFailed(NotifyError),
}

/// What the answer to a signal means for the sender of a published frame.
pub fn commit_outcome(signal: Result<bool, NotifyError>) -> (r: CommitOutcome)
    ensures
        r == outcome_of(signal),
{
    match signal {
        Ok(true) => CommitOutcome::Notified,
        Ok(false) => CommitOutcome::PeerMissing,
        Err(err) => CommitOutcome::NotifyFailed(err),
    }
}

pub open spec fn outcome_of(signal: Result<bool, NotifyError>) -> CommitOutcome {
    match signal {
        Ok(true) => CommitOutcome::Notified,
        Ok(false) => CommitOutcome::PeerMissing,
        Err(err) => CommitOutcome::NotifyFailed(err),
    }
}

/// A framed ring with its buffer.
#[derive(Debug)]
pub struct FramedRing {
    pub head: u32,
    pub tail: u32,
    pub data: Vec<u8>,
}

impl View for FramedRing {
    type V = RingState;

    open spec fn view(&self) -> RingState {
        RingState { head: self.head, tail: self.tail, bytes: self.data@ }
    }
}

/// Writes `src` into the buffer from `start` on, around its end.
fn write_bytes_wrapped(data: &mut Vec<u8>, start: u32, src: &[u8])
    requires
        start < old(data)@.len() <= u32::MAX,
        src@.len() <= old(data)@.len(),
    ensures
        final(data)@.len() == old(data)@.len(),
        rotated(final(data)@, start as int) == src@ + rotated(old(data)@, start as int).skip(
            src@.len() as int,
        ),
{
    let capacity: u32 = data.len() as u32;
    let ghost before = data@;
    let mut i: usize = 0;
    while i < src.len()
        invariant
            capacity == data@.len(),
            before.len() == data@.len(),
            start < capacity,
            i <= src@.len() <= capacity,
            rotated(data@, start as int) == src@.take(i as int) + rotated(
                before,
                start as int,
            ).skip(i as int),
        decreases src.len() - i,
    {
        let at: u32 = wrap_index(start as u64 + i as u64, capacity);
        let ghost prev = data@;
        data.set(at as usize, src[i]);
        proof {
            let next = src@.take(i + 1) + rotated(before, start as int).skip(i + 1);
            assert forall|j: int| 0 <= j < capacity implies rotated(data@, start as int)[j]
                == next[j] by {
                assert(rotated(prev, start as int)[j] == (src@.take(i as int) + rotated(
                    before,
                    start as int,
                ).skip(i as int))[j]);
            }
            assert(rotated(data@, start as int) =~= next);
        }
        i = i + 1;
    }
    assert(src@.take(src@.len() as int) =~= src@);
}

/// Reads the four bytes at `index` as a length.
fn read_u32_wrapped(data: &Vec<u8>, index: u32) -> (r: u32)
    requires
        index < data@.len() <= u32::MAX,
        data@.len() >= MIN_RING_CAPACITY,
    ensures
        r == prefix_value(rotated(data@, index as int).take(4)),
{
    let capacity: u32 = data.len() as u32;
    let bytes: [u8; 4] = [
        data[index as usize],
        data[wrap_index(index as u64 + 1, capacity) as usize],
        data[wrap_index(index as u64 + 2, capacity) as usize],
        data[wrap_index(index as u64 + 3, capacity) as usize],
    ];
    assert(bytes@ =~= rotated(data@, index as int).take(4));
    u32_from_ne_bytes(bytes)
}

/// Reads `len` bytes from `start` on into the front of `dst`.
fn read_bytes_wrapped(data: &Vec<u8>, start: u32, len: usize, dst: &mut [u8])
    requires
        start < data@.len() <= u32::MAX,
        len <= old(dst)@.len(),
        len <= data@.len(),
    ensures
        final(dst)@ == rotated(data@, start as int).take(len as int) + old(dst)@.skip(len as int),
{
    let capacity: u32 = data.len() as u32;
    let ghost before = dst@;
    let mut i: usize = 0;
    while i < len
        invariant
            capacity == data@.len(),
            start < capacity,
            i <= len <= before.len(),
            len <= capacity,
            dst@ == rotated(data@, start as int).take(i as int) + before.skip(i as int),
        decreases len - i,
    {
        let at: u32 = wrap_index(start as u64 + i as u64, capacity);
        dst[i] = data[at as usize];
        assert(dst@ =~= rotated(data@, start as int).take(i + 1) + before.skip(i + 1));
        i = i + 1;
    }
}

impl FramedRing {
    /// An empty ring with `capacity` zero bytes.
    pub fn init_empty(capacity: usize) -> (r: Self)
        ensures
            r@.head == 0,
            r@.tail == 0,
            r@.bytes == Seq::new(capacity as nat, |i: int| 0u8),
    {
        let data: Vec<u8> = vec![0u8; capacity];
        assert(data@ =~= Seq::new(capacity as nat, |i: int| 0u8));
        FramedRing { head: 0, tail: 0, data }
    }

    pub fn capacity(&self) -> (r: u32)
        requires
            self@.sized(),
        ensures
            r == self@.capacity(),
    {
        self.data.len() as u32
    }

    /// Drops everything that is queued.
    pub fn clear(&mut self)
        ensures
            final(self)@ == (RingState { head: old(self)@.tail, ..old(self)@ }),
    {
        self.head = self.tail;
    }

    /// Something is queued, or the indices are corrupt.
    pub fn has_pending_frame(&self) -> (r: bool)
        requires
            self@.sized(),
        ensures
            r == pending_frame(self@),
    {
        let capacity: u32 = self.capacity();
        self.head >= capacity || self.tail >= capacity || self.head != self.tail
    }

    /// The indices, if they point into the buffer.
    fn head_tail_checked(&self) -> (r: Option<RingSnapshot>)
        requires
            self@.sized(),
        ensures
            r is Some <==> self@.in_range(),
            r matches Some(s) ==> s.valid() && s.head == self.head && s.tail == self.tail
                && s.capacity == self@.capacity() && s.used() == self@.used(),
    {
        let capacity: u32 = self.capacity();
        if self.head >= capacity || self.tail >= capacity {
            return None;
        }
        Some(RingSnapshot { head: self.head, tail: self.tail, capacity })
    }

    /// Puts one frame on the ring and raises the ready flag. Nothing changes
    /// when the frame does not fit.
    pub fn publish_frame(&mut self, ready_flag: &mut bool, payload: &[u8]) -> (r: Result<
        (),
        TxError,
    >)
        requires
            old(self)@.sized(),
        ensures
            r == match old(self)@.send_error(payload@.len() as int) {
                Some(e) => Err::<(), TxError>(e),
                None => Ok(()),
            },
            r is Err ==> final(self)@ == old(self)@ && *final(ready_flag) == *old(ready_flag),
            r is Ok ==> published(old(self)@, payload@, final(self)@) && *final(ready_flag),
    {
        let snapshot: RingSnapshot = match self.head_tail_checked() {
            Some(s) => s,
            None => {
                return Err(
                    TxError::CorruptState {
                        head: self.head,
                        tail: self.tail,
                        capacity: self.capacity(),
                    },
                );
            },
        };
        let plan: PublishPlan = match build_publish_plan(snapshot, payload.len()) {
            Ok(p) => p,
            Err(e) => {
                return Err(e);
            },
        };
        let len: u32 = plan.prefix_value;
        let prefix: [u8; 4] = u32_to_ne_bytes(len);
        let ghost b0 = self.data@;
        write_bytes_wrapped(&mut self.data, plan.prefix_index, &prefix);
        let ghost b1 = self.data@;
        write_bytes_wrapped(&mut self.data, plan.payload_start, payload);
        self.tail = plan.publish_tail;
        *ready_flag = true;
        proof {
            lemma_published(
                old(self)@,
                b1,
                self@,
                plan.prefix_index as int,
                plan.payload_start as int,
                payload@,
            );
        }
        Ok(())
    }

    /// Copies one payload into the ring and publishes it as a frame. `signal`
    /// is the answer to the signal that goes to the peer once the frame stands
    /// on the ring.
    pub fn send_frame(
        &mut self,
        ready_flag: &mut bool,
        payload: &[u8],
        signal: Result<bool, NotifyError>,
    ) -> (r: Result<CommitOutcome, TxError>)
        requires
            old(self)@.sized(),
        ensures
            r == match old(self)@.send_error(payload@.len() as int) {
                Some(e) => Err::<CommitOutcome, TxError>(e),
                None => Ok(outcome_of(signal)),
            },
            r is Err ==> final(self)@ == old(self)@ && *final(ready_flag) == *old(ready_flag),
            r is Ok ==> published(old(self)@, payload@, final(self)@) && *final(ready_flag),
    {
        match self.publish_frame(ready_flag, payload) {
            Ok(()) => Ok(commit_outcome(signal)),
            Err(e) => Err(e),
        }
    }

    /// Copies the next frame into `dst` and takes it off the ring. The ready
    /// flag falls when this drains the ring.
    pub fn recv_frame_into(&mut self, ready_flag: &mut bool, dst: &mut [u8]) -> (r: Result<
        Option<usize>,
        RxError,
    >)
        requires
            old(self)@.sized(),
        ensures
            r matches Err(e) ==> old(self)@.recv_error(old(dst)@.len() as int) == Some(e),
            r is Ok ==> old(self)@.recv_error(old(dst)@.len() as int) is None,
            r is Ok ==> (r->Ok_0 is None <==> old(self)@.used() == 0),
            !(r matches Ok(Some(_))) ==> final(self)@ == old(self)@ && final(dst)@ == old(dst)@
                && *final(ready_flag) == *old(ready_flag),
            r matches Ok(Some(n)) ==> n == old(self)@.next_len() && consumed(
                old(self)@,
                n as int,
                final(self)@,
            ) && final(dst)@ == old(self)@.content().subrange(4, 4 + n) + old(dst)@.skip(n as int)
                && *final(ready_flag) == (*old(ready_flag) && final(self)@.used() != 0),
    {
        let snapshot: RingSnapshot = match self.head_tail_checked() {
            Some(s) => s,
            None => {
                return Err(
                    RxError::CorruptState {
                        head: self.head,
                        tail: self.tail,
                        capacity: self.capacity(),
                    },
                );
            },
        };
        if snapshot.is_empty() {
            return Ok(None);
        }
        let len: u32 = read_u32_wrapped(&self.data, snapshot.head);
        let plan: ConsumePlan = match build_consume_plan(snapshot, len, dst.len()) {
            Ok(p) => p,
            Err(e) => {
                return Err(e);
            },
        };
        read_bytes_wrapped(&self.data, plan.payload_start, plan.len as usize, dst);
        self.head = plan.next_head;
        if plan.next_head == snapshot.tail {
            *ready_flag = ready_after_consume(*ready_flag, plan.next_head, self.tail, self.tail);
        }
        proof {
            let before = old(self)@;
            lemma_consumed(before, len as int, self@);
            assert(rotated(before.bytes, plan.payload_start as int).take(len as int)
                =~= before.content().subrange(4, 4 + len));
        }
        Ok(Some(plan.len as usize))
    }
}

/// Something is queued, or the indices are corrupt.
pub open spec fn pending_frame(ring: RingState) -> bool {
    !ring.in_range() || ring.head != ring.tail
}

/// `after` is `before` with one more frame at its end.
pub open spec fn published(before: RingState, payload: Seq<u8>, after: RingState) -> bool {
    &&& after.capacity() == before.capacity()
    &&& after.in_range()
    &&& after.head == before.head
    &&& after.used() == before.used() + FRAME_PREFIX_LEN + payload.len()
    &&& after.content() == before.content() + frame_bytes(payload)
}

/// `after` is `before` without its first frame, whose payload has `len` bytes.
pub open spec fn consumed(before: RingState, len: int, after: RingState) -> bool {
    &&& after.bytes == before.bytes
    &&& after.in_range()
    &&& after.tail == before.tail
    &&& after.used() == before.used() - FRAME_PREFIX_LEN - len
    &&& after.content() == before.content().skip(FRAME_PREFIX_LEN + len)
}

proof fn lemma_published(
    before: RingState,
    mid: Seq<u8>,
    after: RingState,
    prefix_index: int,
    payload_start: int,
    payload: Seq<u8>,
)
    requires
        before.sized(),
        before.in_range(),
        before.send_error(payload.len() as int) is None,
        prefix_index == before.tail,
        payload_start == wrapped(before.tail + 4, before.capacity()),
        mid.len() == before.capacity(),
        after.bytes.len() == before.capacity(),
        rotated(mid, prefix_index) == prefix_bytes(payload.len() as u32) + rotated(
            before.bytes,
            prefix_index,
        ).skip(4),
        rotated(after.bytes, payload_start) == payload + rotated(mid, payload_start).skip(
            payload.len() as int,
        ),
        after.head == before.head,
        after.tail == wrapped(before.tail + 4 + payload.len(), before.capacity()),
    ensures
        published(before, payload, after),
{
    let cap = before.capacity();
    let n = payload.len() as int;
    let used = before.used();
    let frame = frame_bytes(payload);
    assert(after.used() == used + 4 + n);
    let want = before.content() + frame;
    lemma_prefix_round_trip(payload.len() as u32);
    assert(after.content().len() == want.len());
    assert forall|i: int| 0 <= i < after.used() implies after.content()[i] == want[i] by {
        let k = wrapped(before.head + i, cap);
        if i < used {
            let from_payload = cap - 4 - used + i;
            assert(k == wrapped(payload_start + from_payload, cap));
            assert(rotated(after.bytes, payload_start)[from_payload] == after.bytes[k]);
            assert(rotated(mid, payload_start)[from_payload] == mid[k]);
            let from_prefix = cap - used + i;
            assert(k == wrapped(prefix_index + from_prefix, cap));
            assert(rotated(mid, prefix_index)[from_prefix] == mid[k]);
            assert(rotated(before.bytes, prefix_index)[from_prefix] == before.bytes[k]);
        } else if i < used + 4 {
            let from_payload = cap - 4 + (i - used);
            assert(k == wrapped(payload_start + from_payload, cap));
            assert(rotated(after.bytes, payload_start)[from_payload] == after.bytes[k]);
            assert(rotated(mid, payload_start)[from_payload] == mid[k]);
            assert(k == wrapped(prefix_index + (i - used), cap));
            assert(rotated(mid, prefix_index)[i - used] == mid[k]);
        } else {
            let at = i - used - 4;
            assert(k == wrapped(payload_start + at, cap));
            assert(rotated(after.bytes, payload_start)[at] == after.bytes[k]);
        }
    }
    assert(after.content() =~= want);
}

proof fn lemma_consumed(before: RingState, len: int, after: RingState)
    requires
        before.sized(),
        before.in_range(),
        0 <= len,
        4 + len <= before.used(),
        after.bytes == before.bytes,
        after.tail == before.tail,
        after.head == wrapped(before.head + 4 + len, before.capacity()),
    ensures
        consumed(before, len, after),
{
    let cap = before.capacity();
    assert(after.used() == before.used() - 4 - len);
    assert forall|i: int| 0 <= i < after.used() implies after.content()[i]
        == before.content().skip(4 + len)[i] by {
        assert(wrapped(after.head + i, cap) == wrapped(before.head + 4 + len + i, cap));
    }
    assert(after.content() =~= before.content().skip(4 + len));
}

/// Frames put on a ring one after the other stand there one after the other.
pub proof fn lemma_frames_push(frames: Seq<Seq<u8>>, payload: Seq<u8>)
    ensures
        frames_bytes(frames.push(payload)) == frames_bytes(frames) + frame_bytes(payload),
    decreases frames.len(),
{
    let longer = frames.push(payload);
    if frames.len() == 0 {
        assert(longer.drop_first() =~= Seq::<Seq<u8>>::empty());
        assert(longer[0] == payload);
        assert(frames_bytes(Seq::<Seq<u8>>::empty()) =~= Seq::<u8>::empty());
        assert(frames_bytes(longer) =~= frame_bytes(payload));
    } else {
        lemma_frames_push(frames.drop_first(), payload);
        assert(longer.drop_first() =~= frames.drop_first().push(payload));
        assert(frames_bytes(longer) =~= frames_bytes(frames) + frame_bytes(payload));
    }
}

/// A ring is a queue, at its back: publishing a payload on a ring that holds
/// `frames` leaves it holding `frames` and then the payload.
pub proof fn law_publish_appends(
    before: RingState,
    frames: Seq<Seq<u8>>,
    payload: Seq<u8>,
    after: RingState,
)
    requires
        before.holds(frames),
        before.send_error(payload.len() as int) is None,
        published(before, payload, after),
    ensures
        after.holds(frames.push(payload)),
{
    lemma_frames_push(frames, payload);
}

/// A ring is a queue, at its front: a ring that holds a first frame gives back
/// exactly its payload, and then holds the rest.
pub proof fn law_consume_takes_first(
    before: RingState,
    frames: Seq<Seq<u8>>,
    room: int,
    after: RingState,
)
    requires
        before.holds(frames),
        frames.len() > 0,
        frames[0].len() <= u32::MAX,
        frames[0].len() <= room,
        consumed(before, before.next_len(), after),
    ensures
        before.recv_error(room) is None,
        before.next_len() == frames[0].len(),
        before.content().subrange(4, 4 + before.next_len()) == frames[0],
        after.holds(frames.drop_first()),
{
    law_next_frame(before, frames);
    lemma_prefix_round_trip(frames[0].len() as u32);
    lemma_skip_appended(frame_bytes(frames[0]), frames_bytes(frames.drop_first()));
    assert(frame_bytes(frames[0]).len() == 4 + frames[0].len());
    assert(after.content() == frames_bytes(frames.drop_first()));
}

proof fn lemma_skip_appended(front: Seq<u8>, back: Seq<u8>)
    ensures
        (front + back).skip(front.len() as int) == back,
{
    assert((front + back).skip(front.len() as int) =~= back);
}

/// The bytes at the head of a ring that holds a frame give its length, and its
/// payload follows.
pub proof fn law_next_frame(ring: RingState, frames: Seq<Seq<u8>>)
    requires
        ring.holds(frames),
        frames.len() > 0,
        frames[0].len() <= u32::MAX,
    ensures
        ring.used() >= FRAME_PREFIX_LEN + frames[0].len(),
        ring.next_len() == frames[0].len(),
        ring.content().subrange(4, 4 + ring.next_len()) == frames[0],
{
    let first = frame_bytes(frames[0]);
    let content = ring.content();
    lemma_prefix_round_trip(frames[0].len() as u32);
    assert(content == first + frames_bytes(frames.drop_first()));
    assert(content.len() == ring.used());
    assert(rotated(ring.bytes, ring.head as int).take(4) =~= content.take(4));
    assert(content.take(4) =~= prefix_bytes(frames[0].len() as u32));
    assert(content.subrange(4, 4int + frames[0].len()) =~= frames[0]);
}

/// An empty ring holds no frame, whatever its indices are.
pub proof fn law_cleared_ring_is_empty(ring: RingState)
    requires
        ring.sized(),
        ring.in_range(),
        ring.head == ring.tail,
    ensures
        ring.holds(Seq::empty()),
{
    assert(ring.content() =~= Seq::<u8>::empty());
}

/// A drained ring takes every payload that its layout admits, wherever its
/// indices stand.
pub proof fn law_drained_ring_takes_max_payload(ring: RingState, len: int)
    requires
        ring.sized(),
        ring.in_range(),
        ring.head == ring.tail,
        0 <= len <= ring.max_payload(),
    ensures
        ring.send_error(len) is None,
{
}

} // verus!
