//! Opening a scan: the control message that names its producers.

use super::error::WorkerRuntimeError;
use super::scan_exec::ScanProducerPeer;
use crate::protocol::codec::{
    encode_worker_scan_to_backend_into, encoded_len_worker_scan_to_backend, worker_scan_bytes,
    worker_scan_fault,
};
use crate::protocol::codec_laws::{law_worker_scan_round_trip, opens_valid_set};
use crate::protocol::error::DecodeFault;
use crate::protocol::message::{WorkerScanMessage, WorkerScanToBackend};
use crate::protocol::scan::ProducerDescriptorWire;
use crate::protocol::sets::ScanFlowDescriptor;
use crate::protocol::validation::{law_producer_set, producer_set_fault};
use vstd::prelude::*;

verus! {

/// Names one logical scan of one session.
#[derive(Clone, Copy, Debug, PartialEq, Eq, Structural)]
pub struct FlowId {
    pub session_epoch: u64,
    pub scan_id: u64,
}

/// Parameters required to open one worker-side logical scan stream.
#[derive(Debug, PartialEq, Eq)]
pub struct ScanFlowOpen {
    pub session_epoch: u64,
    pub scan_id: u64,
    pub page_kind: u16,
    pub page_flags: u16,
    pub producers: Vec<ScanProducerPeer>,
}

/// One observable step of a scan. A batch itself travels beside its step.
#[derive(Debug, PartialEq, Eq)]
pub enum ScanFlowDriverStep {
    Idle,
    Batch { flow: FlowId, producer_id: u16 },
    LogicalEof { flow: FlowId },
    LogicalError { flow: FlowId, producer_id: u16, message: String },
}

/// What the scan's flow answers to a frame or a terminal of one producer. A page
/// itself travels beside its step.
#[derive(Debug, PartialEq, Eq)]
pub enum WorkerStep {
    Idle,
    Page { flow: FlowId, producer_id: u16 },
    LogicalEof { flow: FlowId },
    LogicalError { flow: FlowId, producer_id: u16, message: String },
}

/// The step of a scan that an answer of its flow is.
pub open spec fn driver_step(step: WorkerStep) -> ScanFlowDriverStep {
    match step {
        WorkerStep::Idle => ScanFlowDriverStep::Idle,
        WorkerStep::Page { flow, producer_id } => ScanFlowDriverStep::Batch { flow, producer_id },
        WorkerStep::LogicalEof { flow } => ScanFlowDriverStep::LogicalEof { flow },
        WorkerStep::LogicalError { flow, producer_id, message } => {
            ScanFlowDriverStep::LogicalError { flow, producer_id, message }
        },
    }
}

/// Worker-side scan flow helper. It does no input or output: callers send the
/// returned `OpenScan` control payload on the active slots, then hand in what the
/// flow answers as frames arrive.
#[derive(Clone, Copy, Debug, PartialEq, Eq, Structural)]
pub struct ScanFlowDriver {
    pub flow: FlowId,
}

impl ScanFlowDriver {
    /// Open one scan and return its control payload.
    pub fn open(open: &ScanFlowOpen) -> (r: (Self, OpenScanControl))
        ensures
            r.0.flow == (FlowId { session_epoch: open.session_epoch, scan_id: open.scan_id }),
            r.1@ == (WorkerScanMessage::OpenScan {
                session_epoch: open.session_epoch,
                scan_id: open.scan_id,
                page_kind: open.page_kind,
                page_flags: open.page_flags,
                producers: declared(open.producers@),
            }),
    {
        (ScanFlowDriver { flow: open.flow() }, open.control())
    }

    /// Flow identity owned by this driver.
    pub fn flow(&self) -> (r: FlowId)
        ensures
            r == self.flow,
    {
        self.flow
    }

    /// The step that the flow's answer to a page frame is.
    pub fn accept_page_frame(&self, step: WorkerStep) -> (r: ScanFlowDriverStep)
        ensures
            r == driver_step(step),
    {
        match step {
            WorkerStep::Idle => ScanFlowDriverStep::Idle,
            WorkerStep::Page { flow, producer_id } => {
                ScanFlowDriverStep::Batch { flow, producer_id }
            },
            WorkerStep::LogicalEof { flow } => ScanFlowDriverStep::LogicalEof { flow },
            WorkerStep::LogicalError { flow, producer_id, message } => {
                ScanFlowDriverStep::LogicalError { flow, producer_id, message }
            },
        }
    }

    /// The step that the flow's answer to the end of a producer is. The end of a
    /// producer yields no page.
    pub fn accept_producer_eof(&self, step: WorkerStep) -> (r: ScanFlowDriverStep)
        requires
            step !is Page,
        ensures
            r == driver_step(step),
            r !is Batch,
    {
        self.accept_page_frame(step)
    }

    /// The step that the flow's answer to a failed producer is: the scan fails.
    pub fn accept_producer_error(&self, step: WorkerStep) -> (r: ScanFlowDriverStep)
        requires
            step is LogicalError,
        ensures
            r == driver_step(step),
            r is LogicalError,
    {
        self.accept_page_frame(step)
    }
}

/// Encoder for a worker `OpenScan` control payload.
#[derive(Debug, PartialEq, Eq)]
pub struct OpenScanControl {
    pub session_epoch: u64,
    pub scan_id: u64,
    pub page_kind: u16,
    pub page_flags: u16,
    pub producers: Vec<ProducerDescriptorWire>,
}

/// The producers that peers stand for.
pub open spec fn declared(peers: Seq<ScanProducerPeer>) -> Seq<ProducerDescriptorWire> {
    peers.map_values(
        |p: ScanProducerPeer| ProducerDescriptorWire { producer_id: p.producer_id, role: p.role },
    )
}

impl ScanFlowOpen {
    /// Build one scan-open descriptor with all declared producers.
    pub fn new(
        session_epoch: u64,
        scan_id: u64,
        page_kind: u16,
        page_flags: u16,
        producers: Vec<ScanProducerPeer>,
    ) -> (r: Self)
        ensures
            r == (ScanFlowOpen { session_epoch, scan_id, page_kind, page_flags, producers }),
    {
        ScanFlowOpen { session_epoch, scan_id, page_kind, page_flags, producers }
    }

    /// The scan that is opened.
    pub fn flow(&self) -> (r: FlowId)
        ensures
            r == (FlowId { session_epoch: self.session_epoch, scan_id: self.scan_id }),
    {
        FlowId { session_epoch: self.session_epoch, scan_id: self.scan_id }
    }

    /// The control message that opens the scan: it names every producer, in
    /// order.
    pub fn control(&self) -> (r: OpenScanControl)
        ensures
            r@ == (WorkerScanMessage::OpenScan {
                session_epoch: self.session_epoch,
                scan_id: self.scan_id,
                page_kind: self.page_kind,
                page_flags: self.page_flags,
                producers: declared(self.producers@),
            }),
    {
        let mut producers: Vec<ProducerDescriptorWire> = Vec::new();
        let mut i: usize = 0;
        while i < self.producers.len()
            invariant
                i <= self.producers@.len(),
                producers@ == declared(self.producers@.take(i as int)),
            decreases self.producers.len() - i,
        {
            let peer: ScanProducerPeer = self.producers[i];
            producers.push(
                ProducerDescriptorWire { producer_id: peer.producer_id, role: peer.role },
            );
            assert(producers@ =~= declared(self.producers@.take(i + 1)));
            i = i + 1;
        }
        assert(self.producers@.take(self.producers@.len() as int) =~= self.producers@);
        OpenScanControl {
            session_epoch: self.session_epoch,
            scan_id: self.scan_id,
            page_kind: self.page_kind,
            page_flags: self.page_flags,
            producers,
        }
    }
}

impl View for OpenScanControl {
    type V = WorkerScanMessage;

    open spec fn view(&self) -> WorkerScanMessage {
        WorkerScanMessage::OpenScan {
            session_epoch: self.session_epoch,
            scan_id: self.scan_id,
            page_kind: self.page_kind,
            page_flags: self.page_flags,
            producers: self.producers@,
        }
    }
}

/// What encoding a message into scratch storage gives.
pub open spec fn control_encoded(
    r: Result<usize, WorkerRuntimeError>,
    message: WorkerScanMessage,
    before: Seq<u8>,
    after: Seq<u8>,
) -> bool {
    let bytes = worker_scan_bytes(message);
    if bytes.len() > before.len() {
        r == Err::<usize, WorkerRuntimeError>(WorkerRuntimeError::ControlFrameTooLarge) && after
            == before
    } else {
        r == Ok::<usize, WorkerRuntimeError>(bytes.len() as usize) && after == bytes
            + before.skip(bytes.len() as int)
    }
}

impl OpenScanControl {
    /// Encode this `OpenScan` message into caller-provided scratch storage.
    pub fn encode_into(&self, dst: &mut [u8]) -> (r: Result<usize, WorkerRuntimeError>)
        ensures
            match producer_set_fault(self.producers@) {
                Some(e) => r == Err::<usize, WorkerRuntimeError>(WorkerRuntimeError::Producers(e))
                    && final(dst)@ == old(dst)@,
                None => control_encoded(r, self@, old(dst)@, final(dst)@),
            },
    {
        let scan = match ScanFlowDescriptor::new(
            self.page_kind,
            self.page_flags,
            self.producers.as_slice(),
        ) {
            Ok(scan) => scan,
            Err(e) => {
                return Err(WorkerRuntimeError::Producers(e));
            },
        };
        proof {
            lemma_sets_are_small(self.producers@);
        }
        let message = WorkerScanToBackend::OpenScan {
            session_epoch: self.session_epoch,
            scan_id: self.scan_id,
            scan,
        };
        assert(message@ == self@);
        encode_scan_control(message, dst)
    }
}

/// Encodes a message of worker scan control into scratch storage.
pub fn encode_scan_control(message: WorkerScanToBackend<'_>, dst: &mut [u8]) -> (r: Result<
    usize,
    WorkerRuntimeError,
>)
    requires
        worker_scan_fault(message@) is None,
    ensures
        control_encoded(r, message@, old(dst)@, final(dst)@),
{
    let needed: usize = encoded_len_worker_scan_to_backend(message);
    if needed > dst.len() {
        return Err(WorkerRuntimeError::ControlFrameTooLarge);
    }
    match encode_worker_scan_to_backend_into(message, dst) {
        Ok(written) => Ok(written),
        Err(e) => Err(WorkerRuntimeError::Encode(e)),
    }
}

/// A set of producers has at most one producer per id.
proof fn lemma_sets_are_small(producers: Seq<ProducerDescriptorWire>)
    requires
        producer_set_fault(producers) is None,
    ensures
        producers.len() <= 0x1_0000,
{
    law_producer_set(producers);
    let ids = producers.map_values(|p: ProducerDescriptorWire| p.producer_id as int);
    assert(ids.no_duplicates()) by {
        assert forall|i: int, j: int|
            0 <= i < ids.len() && 0 <= j < ids.len() && i != j implies ids[i] != ids[j] by {
            if i < j {
                assert(producers[i].producer_id != producers[j].producer_id);
            } else {
                assert(producers[j].producer_id != producers[i].producer_id);
            }
        }
    }
    ids.unique_seq_to_set();
    vstd::set_lib::lemma_int_range(0, 0x1_0000);
    let all = vstd::set_lib::set_int_range(0, 0x1_0000);
    assert(ids.to_set().subset_of(all)) by {
        assert forall|id: int| ids.to_set().contains(id) implies all.contains(id) by {
            let i = choose|i: int| 0 <= i < ids.len() && ids[i] == id;
            assert(ids[i] == producers[i].producer_id as int);
        }
    }
    vstd::set_lib::lemma_len_subset(ids.to_set(), all);
}

/// What opens a scan on the backend is what the worker declared: the encoded
/// control message decodes to the scan's identity and all its producers.
pub proof fn law_open_scan_reaches_backend(message: WorkerScanMessage)
    requires
        message is OpenScan,
        opens_valid_set(message),
    ensures
        crate::protocol::codec::parse_worker_scan(worker_scan_bytes(message)) == Ok::<
            WorkerScanMessage,
            DecodeFault,
        >(message),
{
    match message {
        WorkerScanMessage::OpenScan { producers, .. } => {
            lemma_sets_are_small(producers);
        },
        _ => {},
    }
    law_worker_scan_round_trip(message);
}

} // verus!
