//! Errors of the worker.

use crate::control::error::{SlotAccessError, WorkerRxError, WorkerTxError};
use crate::filter::pool::RuntimeFilterPoolAttachError;
use crate::protocol::error::{DecodeError, EncodeError};
use crate::protocol::scan::ProducerSetError;
use crate::text::{append_decimal, decimal, owned};
use vstd::prelude::*;
use vstd::string::StringExecFns;

verus! {

/// Errors of the worker.
#[derive(Debug, PartialEq, Eq)]
pub enum WorkerRuntimeError {
    /// The peer, or a caller, broke the rules of the protocol.
    ProtocolViolation(String),
    /// A ring of the transport is too small for scans.
    ScanTransportRingTooSmall { direction: &'static str, required: usize, actual: usize },
    /// Scratch storage is shorter than the longest frame.
    ControlFrameCapacityTooSmall { required: usize, actual: usize },
    /// A message does not fit into scratch storage.
    ControlFrameTooLarge,
    /// No dedicated scan peer was published for a scan.
    MissingScanPeer { scan_id: u64 },
    /// A plan node was used in a way that it does not offer.
    Plan(String),
    /// A plan node failed.
    Execution(String),
    /// A message could not be decoded.
    Decode(DecodeError),
    /// A message could not be encoded.
    Encode(EncodeError),
    /// Producers do not form a set.
    Producers(ProducerSetError),
    /// A claimed slot is no longer good.
    Slot(SlotAccessError),
    /// A frame could not be sent.
    Send(WorkerTxError),
    /// A frame could not be received.
    Receive(WorkerRxError),
    /// A filter pool refused a request.
    FilterPool(RuntimeFilterPoolAttachError),
}

/// The error says that the protocol was broken, in these words.
pub open spec fn violates(error: WorkerRuntimeError, text: Seq<char>) -> bool {
    error matches WorkerRuntimeError::ProtocolViolation(words) && words@ == text
}

/// The text of a scan without a peer.
pub open spec fn missing_peer_text(scan_id: u64) -> Seq<char> {
    "no dedicated scan peer was published for scan_id "@ + decimal(scan_id as nat)
}

/// What to tell of a scan without a peer.
pub fn missing_peer_message(scan_id: u64) -> (r: String)
    ensures
        r@ == missing_peer_text(scan_id),
{
    let mut r: String = owned("no dedicated scan peer was published for scan_id ");
    append_decimal(&mut r, scan_id);
    r
}

} // verus!
