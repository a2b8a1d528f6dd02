//! Session order and how much fits into one frame.

use vstd::prelude::*;

verus! {

/// Bytes unavailable for payload data because framed rings reserve a four-byte
/// prefix plus one extra byte to distinguish empty from full.
pub const CONTROL_TRANSPORT_PAYLOAD_OVERHEAD: usize = 5;

/// Minimum ring capacity towards the worker on dedicated scan slots.
pub const MIN_SCAN_BACKEND_TO_WORKER_RING_CAPACITY: usize = 256;

/// Minimum ring capacity towards the backend on dedicated scan slots.
pub const MIN_SCAN_WORKER_TO_BACKEND_RING_CAPACITY: usize = 256;

/// Maximum UTF-8 byte length of the text of a failed scan.
pub const MAX_SCAN_FAILURE_MESSAGE_LEN: usize = 220;

/// The largest payload that fits into a ring with the given data capacity.
pub fn max_message_len_for_ring_capacity(capacity: usize) -> (r: usize)
    ensures
        r == if capacity >= CONTROL_TRANSPORT_PAYLOAD_OVERHEAD {
            capacity - CONTROL_TRANSPORT_PAYLOAD_OVERHEAD
        } else {
            0
        },
{
    capacity.saturating_sub(CONTROL_TRANSPORT_PAYLOAD_OVERHEAD)
}

/// How an incoming session compares to the local current one.
#[derive(Clone, Copy, Debug, PartialEq, Eq, Structural)]
pub enum SessionDisposition {
    /// The incoming message targets the current execution.
    Current,
    /// The incoming message belongs to an older execution.
    Stale,
    /// The incoming message belongs to a newer execution.
    Future,
}

/// Classify an incoming session against the local current one.
pub fn classify_session(current: u64, incoming: u64) -> (r: SessionDisposition)
    ensures
        r == SessionDisposition::Current <==> incoming == current,
        r == SessionDisposition::Stale <==> incoming < current,
        r == SessionDisposition::Future <==> incoming > current,
{
    if incoming == current {
        SessionDisposition::Current
    } else if incoming < current {
        SessionDisposition::Stale
    } else {
        SessionDisposition::Future
    }
}

/// The largest message of a ring is the longest payload that the ring takes.
pub proof fn law_max_message_is_max_payload(ring: crate::control::ring::RingState)
    requires
        ring.sized(),
    ensures
        ring.max_payload() == ring.capacity() - CONTROL_TRANSPORT_PAYLOAD_OVERHEAD,
{
}

} // verus!
