//! Which fault of a set or a message is told, where there are several.

use super::codec::{
    backend_execution_fault, backend_scan_fault, encoded_into, worker_scan_fault, written,
};
use super::error::{DecodeFault, EncodeError};
use super::message::{BackendExecutionMessage, BackendScanMessage, WorkerScanMessage};
use super::scan::{
    ProducerDescriptorWire, ProducerRole, ProducerSetError, ScanChannelDescriptorWire,
    ScanChannelSetError,
};
use super::sets::{channel_decode_fault, channels_encode_error, producer_decode_fault};
use super::validation::{
    channel_set_fault, observe_step, observed, producer_fault_at, producer_fault_from,
    producer_set_fault, ScanChannelValidationState,
};
use vstd::prelude::*;
use vstd::utf8::encode_utf8;

verus! {

/// Two of the first `n` producers lead, the second of them being the last.
pub open spec fn second_leader(producers: Seq<ProducerDescriptorWire>, i: int) -> bool {
    producers[i].role == ProducerRole::Leader && exists|j: int|
        0 <= j < i && (#[trigger] producers[j]).role == ProducerRole::Leader
}

/// The id of the producer occurs before it.
pub open spec fn repeated_id(producers: Seq<ProducerDescriptorWire>, i: int) -> bool {
    exists|j: int|
        0 <= j < i && (#[trigger] producers[j]).producer_id == producers[i].producer_id
}

proof fn lemma_first_fault(producers: Seq<ProducerDescriptorWire>, from: int, i: int)
    requires
        0 <= from <= i < producers.len(),
        forall|j: int|
            from <= j < i ==> !second_leader(producers, j) && !repeated_id(producers, j),
        second_leader(producers, i) || repeated_id(producers, i),
    ensures
        producer_fault_from(producers, from) == producer_fault_at(producers, i),
        producer_fault_at(producers, i) is Some,
    decreases i - from,
{
    if from < i {
        assert(!second_leader(producers, from) && !repeated_id(producers, from));
        lemma_first_fault(producers, from + 1, i);
    }
}

/// Of a list of producers that is no set, the first producer with which something
/// is wrong is told: that it leads beside another, or else that its id was there
/// before. An empty list is told so.
pub proof fn law_first_bad_producer_is_told(producers: Seq<ProducerDescriptorWire>, i: int)
    requires
        0 <= i < producers.len(),
        forall|j: int| 0 <= j < i ==> !second_leader(producers, j) && !repeated_id(producers, j),
        second_leader(producers, i) || repeated_id(producers, i),
    ensures
        producer_set_fault(producers) == Some(
            if second_leader(producers, i) {
                ProducerSetError::MultipleLeaders
            } else {
                ProducerSetError::DuplicateProducerId { producer_id: producers[i].producer_id }
            },
        ),
        producer_set_fault(Seq::empty()) == Some(ProducerSetError::EmptyProducerSet),
{
    lemma_first_fault(producers, 0, i);
}

/// What one more channel is told: that it is the one before it, that it comes
/// before it, that the scan which it ends has no leader, or that its scan has two;
/// in this order. A channel that is told nothing becomes the one before the next.
pub proof fn law_channels_are_looked_at_one_by_one(
    state: ScanChannelValidationState,
    channel: ScanChannelDescriptorWire,
)
    ensures
        ({
            let r = observe_step(state, channel);
            let key = (channel.scan_id, channel.producer_id);
            let same = state.previous == Some(key);
            let before = state.previous matches Some((scan_id, producer_id)) && (channel.scan_id
                < scan_id || channel.scan_id == scan_id && channel.producer_id < producer_id);
            let new_scan = state.current_scan_id != Some(channel.scan_id);
            let leaderless = new_scan && state.current_scan_id is Some && !state.leader_seen;
            let second = !new_scan && state.leader_seen && channel.role == ProducerRole::Leader;
            &&& r is Ok <==> !same && !before && !leaderless && !second
            &&& r == Err::<ScanChannelValidationState, ScanChannelSetError>(
                ScanChannelSetError::DuplicateProducer {
                    scan_id: channel.scan_id,
                    producer_id: channel.producer_id,
                },
            ) <==> same
            &&& (r matches Err(ScanChannelSetError::ChannelOutOfOrder { .. })) <==> !same && before
            &&& r matches Err(ScanChannelSetError::ChannelOutOfOrder {
                previous_scan_id,
                previous_producer_id,
                current_scan_id,
                current_producer_id,
            }) ==> {
                &&& state.previous == Some((previous_scan_id, previous_producer_id))
                &&& current_scan_id == channel.scan_id
                &&& current_producer_id == channel.producer_id
            }
            &&& (r matches Err(ScanChannelSetError::MissingLeader { scan_id })
                && state.current_scan_id == Some(scan_id)) <==> !same && !before && leaderless
            &&& r == Err::<ScanChannelValidationState, ScanChannelSetError>(
                ScanChannelSetError::MultipleLeaders { scan_id: channel.scan_id },
            ) <==> !same && !before && !leaderless && second
            &&& r matches Ok(next) ==> {
                &&& next.previous == Some(key)
                &&& next.current_scan_id == Some(channel.scan_id)
                &&& next.leader_seen <==> channel.role == ProducerRole::Leader || !new_scan
                    && state.leader_seen
            }
        }),
{
}

/// The channels are looked at from the first on, and the first fault is told; the
/// last scan needs a leader, too.
pub proof fn law_first_bad_channel_is_told(channels: Seq<ScanChannelDescriptorWire>, n: int)
    requires
        0 < n <= channels.len(),
    ensures
        observed(channels, 0) == Ok::<ScanChannelValidationState, ScanChannelSetError>(
            ScanChannelValidationState {
                previous: None,
                current_scan_id: None,
                leader_seen: false,
            },
        ),
        observed(channels, n - 1) matches Ok(state) ==> observed(channels, n) == observe_step(
            state,
            channels[n - 1],
        ),
        observed(channels, n) matches Err(e) ==> channel_set_fault(channels) == Some(e),
        observed(channels, channels.len() as int) matches Ok(state) ==> channel_set_fault(channels)
            == if state.current_scan_id is Some && !state.leader_seen {
            Some(ScanChannelSetError::MissingLeader { scan_id: state.current_scan_id->0 })
        } else {
            None
        },
        channel_set_fault(Seq::empty()) is None,
    decreases channels.len() - n,
{
    if n < channels.len() {
        law_first_bad_channel_is_told(channels, n + 1);
    }
}

/// A set that is read and is none is refused for what is wrong with it.
pub proof fn law_set_faults_are_told_as_they_are(
    producers: ProducerSetError,
    channels: ScanChannelSetError,
)
    ensures
        producers is EmptyProducerSet <==> producer_decode_fault(producers)
            == DecodeFault::EmptyProducerSet,
        producers is MultipleLeaders <==> producer_decode_fault(producers)
            == DecodeFault::MultipleLeaders,
        producers matches ProducerSetError::DuplicateProducerId { producer_id }
            ==> producer_decode_fault(producers) == (DecodeFault::DuplicateProducerId {
            producer_id,
        }),
        channels matches ScanChannelSetError::DuplicateProducer { scan_id, producer_id }
            ==> channel_decode_fault(channels) == (DecodeFault::DuplicateScanProducer {
            scan_id,
            producer_id,
        }),
        channels matches ScanChannelSetError::ChannelOutOfOrder {
            previous_scan_id,
            previous_producer_id,
            current_scan_id,
            current_producer_id,
        } ==> channel_decode_fault(channels) == (DecodeFault::ScanChannelOutOfOrder {
            previous_scan_id,
            previous_producer_id,
            current_scan_id,
            current_producer_id,
        }),
        channels matches ScanChannelSetError::MultipleLeaders { scan_id } ==> channel_decode_fault(
            channels,
        ) == (DecodeFault::MultipleScanChannelLeaders { scan_id }),
        channels matches ScanChannelSetError::MissingLeader { scan_id } ==> channel_decode_fault(
            channels,
        ) == (DecodeFault::MissingScanChannelLeader { scan_id }),
{
}

/// A message is encoded unless it starts an execution with channels that are no
/// set, or it tells a failure in too many bytes, or it holds more than any list
/// can.
pub proof fn law_messages_that_cannot_be_encoded(
    start: BackendExecutionMessage,
    scan: WorkerScanMessage,
    terminal: BackendScanMessage,
)
    ensures
        backend_execution_fault(start) matches Some(e) ==> (start matches
            BackendExecutionMessage::StartExecution { scans, .. } && channels_encode_error(scans)
            == Some(e)),
        start matches BackendExecutionMessage::StartExecution { scans, .. } ==> {
            &&& channel_set_fault(scans) matches Some(e) ==> backend_execution_fault(start) == Some(
                EncodeError::ScanChannels(e),
            )
            &&& channel_set_fault(scans) is None && scans.len() <= u32::MAX
                ==> backend_execution_fault(start) is None
        },
        worker_scan_fault(scan) is Some <==> (scan matches WorkerScanMessage::OpenScan {
            producers,
            ..
        } && producers.len() > u32::MAX),
        backend_scan_fault(terminal) is Some <==> (terminal matches BackendScanMessage::ScanFailed {
            message,
            ..
        } && encode_utf8(message).len() > 220),
        terminal matches BackendScanMessage::ScanFailed { message, .. } ==> {
            let len = encode_utf8(message).len();
            220 < len <= usize::MAX ==> backend_scan_fault(terminal) == Some(
                EncodeError::ScanFailureMessageTooLong { actual: len as usize, maximum: 220 },
            )
        },
{
}

/// Encoding into a buffer fills its front and leaves the rest, or leaves all of it
/// where the message does not fit or cannot be encoded.
pub proof fn law_buffers_are_filled_from_the_front(
    r: Result<usize, EncodeError>,
    before: Seq<u8>,
    after: Seq<u8>,
    fault: Option<EncodeError>,
    bytes: Seq<u8>,
)
    requires
        encoded_into(r, before, after, fault, bytes),
        before.len() <= usize::MAX,
        bytes.len() <= usize::MAX,
    ensures
        after.len() == before.len(),
        r is Ok <==> fault is None && bytes.len() <= before.len(),
        r matches Ok(n) ==> n == bytes.len() && after.take(n as int) == bytes && after.skip(
            n as int,
        ) == before.skip(n as int),
        r is Err ==> after == before,
        fault matches Some(e) ==> r == Err::<usize, EncodeError>(e),
        fault is None && bytes.len() > before.len() ==> r == Err::<usize, EncodeError>(
            EncodeError::BufferTooSmall {
                expected: bytes.len() as usize,
                actual: before.len() as usize,
            },
        ),
{
    if r is Ok {
        let n = bytes.len() as int;
        assert(after.take(n) =~= bytes);
        assert(after.skip(n) =~= before.skip(n));
    }
}

/// Writing to a sink puts the bytes behind what is there.
pub proof fn law_sinks_grow_at_the_end(
    r: Result<(), EncodeError>,
    before: Seq<u8>,
    after: Seq<u8>,
    fault: Option<EncodeError>,
    bytes: Seq<u8>,
)
    requires
        written(r, before, after, fault, bytes),
    ensures
        r is Ok <==> fault is None,
        r is Ok ==> after.len() == before.len() + bytes.len(),
        r is Ok ==> after.take(before.len() as int) == before,
        r is Ok ==> after.skip(before.len() as int) == bytes,
        fault matches Some(e) ==> r == Err::<(), EncodeError>(e),
{
    if r is Ok {
        assert(after.take(before.len() as int) =~= before);
        assert(after.skip(before.len() as int) =~= bytes);
    }
}

} // verus!
