//! Scans over the control transport.
//!
//! One loop per opened scan sends `OpenScan` to every producer, polls the
//! producers for frames, and sends `CancelScan` if it ends early. What it does
//! next is decided here; receiving, decoding of pages, sleeping and delivering
//! are done by its caller.

use super::error::{violates, WorkerRuntimeError};
use super::scan_exec::OpenScanRequest;
use super::scan_flow_driver::{encode_scan_control, OpenScanControl, ScanFlowDriverStep};
use crate::control::error::{NotifyError, WorkerTxError};
use crate::control::raw::{sent, RingDirection};
use crate::control::region::{RegionState, TransportRegion};
use crate::control::worker::{WorkerSlot, WorkerTx};
use crate::metrics::descriptor::MetricId;
use crate::metrics::region::{elapsed, MetricsState, PageDescriptor, PageDirection, RuntimeMetrics};
use crate::protocol::codec::{
    decode_backend_scan_to_worker, decode_runtime_message_family, parse_backend_scan,
    worker_scan_bytes,
};
use crate::protocol::envelope::parse_runtime_header;
use crate::protocol::error::{DecodeError, DecodeFault};
use crate::protocol::message::{
    BackendScanMessage, BackendScanToWorkerRef, RuntimeMessageFamily, WorkerScanMessage,
    WorkerScanToBackend,
};
use crate::protocol::session::{
    MIN_SCAN_BACKEND_TO_WORKER_RING_CAPACITY, MIN_SCAN_WORKER_TO_BACKEND_RING_CAPACITY,
};
use crate::protocol::validation::producer_set_fault;
use crate::text::{append_decimal, decimal, owned};
use vstd::prelude::*;
use vstd::slice::slice_subrange;
use vstd::string::StringExecFns;

verus! {

/// Transport-backed source of scans.
#[derive(Clone, Copy, Debug, PartialEq, Eq)]
pub struct TransportScanBatchSource {
    pub control_frame_capacity: usize,
}

/// Why a transport cannot carry scans, if so.
pub open spec fn scan_rings_fault(inbound: usize, outbound: usize) -> Option<
    (Seq<char>, usize, usize),
> {
    if inbound < MIN_SCAN_BACKEND_TO_WORKER_RING_CAPACITY {
        Some(("backend_to_worker"@, MIN_SCAN_BACKEND_TO_WORKER_RING_CAPACITY, inbound))
    } else if outbound < MIN_SCAN_WORKER_TO_BACKEND_RING_CAPACITY {
        Some(("worker_to_backend"@, MIN_SCAN_WORKER_TO_BACKEND_RING_CAPACITY, outbound))
    } else {
        None
    }
}

impl TransportScanBatchSource {
    /// Build one scan source over a region. Its rings must hold the messages of
    /// scans, and scratch storage every frame of the inbound ring.
    pub fn new(region: &TransportRegion, control_frame_capacity: usize) -> (r: Result<
        Self,
        WorkerRuntimeError,
    >)
        ensures
            ({
                let inbound = region@.layout.backend_to_worker_cap;
                let outbound = region@.layout.worker_to_backend_cap;
                match scan_rings_fault(inbound, outbound) {
                    Some((name, least, found)) => r matches Err(
                        WorkerRuntimeError::ScanTransportRingTooSmall { direction, required, actual },
                    ) && direction@ == name && required == least && actual == found,
                    None => if control_frame_capacity < inbound {
                        r == Err::<Self, WorkerRuntimeError>(
                            WorkerRuntimeError::ControlFrameCapacityTooSmall {
                                required: inbound,
                                actual: control_frame_capacity,
                            },
                        )
                    } else {
                        r == Ok::<Self, WorkerRuntimeError>(
                            TransportScanBatchSource { control_frame_capacity },
                        )
                    },
                }
            }),
    {
        let inbound: usize = region.backend_to_worker_capacity();
        if inbound < MIN_SCAN_BACKEND_TO_WORKER_RING_CAPACITY {
            return Err(
                WorkerRuntimeError::ScanTransportRingTooSmall {
                    direction: "backend_to_worker",
                    required: MIN_SCAN_BACKEND_TO_WORKER_RING_CAPACITY,
                    actual: inbound,
                },
            );
        }
        let outbound: usize = region.worker_to_backend_capacity();
        if outbound < MIN_SCAN_WORKER_TO_BACKEND_RING_CAPACITY {
            return Err(
                WorkerRuntimeError::ScanTransportRingTooSmall {
                    direction: "worker_to_backend",
                    required: MIN_SCAN_WORKER_TO_BACKEND_RING_CAPACITY,
                    actual: outbound,
                },
            );
        }
        if control_frame_capacity < inbound {
            return Err(
                WorkerRuntimeError::ControlFrameCapacityTooSmall {
                    required: inbound,
                    actual: control_frame_capacity,
                },
            );
        }
        Ok(TransportScanBatchSource { control_frame_capacity })
    }
}

/// What arrived on a scan peer.
#[derive(Clone, Copy, Debug, PartialEq, Eq)]
pub enum ScanInbound<'a> {
    /// A scan terminal.
    Control(BackendScanToWorkerRef<'a>),
    /// The header of an issued page.
    Issued,
}

/// The name of a message family.
pub open spec fn family_name(family: RuntimeMessageFamily) -> Seq<char> {
    match family {
        RuntimeMessageFamily::BackendExecutionToWorker => "BackendExecutionToWorker"@,
        RuntimeMessageFamily::WorkerExecutionToBackend => "WorkerExecutionToBackend"@,
        RuntimeMessageFamily::WorkerScanToBackend => "WorkerScanToBackend"@,
        RuntimeMessageFamily::BackendScanToWorker => "BackendScanToWorker"@,
    }
}

/// The text of a message of a family that has no place on a scan peer.
pub open spec fn wrong_family_text(family: RuntimeMessageFamily) -> Seq<char> {
    "unexpected runtime family "@ + family_name(family) + " on dedicated scan peer"@
}

fn wrong_family(family: RuntimeMessageFamily) -> (r: WorkerRuntimeError)
    ensures
        violates(r, wrong_family_text(family)),
{
    let name: &'static str = match family {
        RuntimeMessageFamily::BackendExecutionToWorker => "BackendExecutionToWorker",
        RuntimeMessageFamily::WorkerExecutionToBackend => "WorkerExecutionToBackend",
        RuntimeMessageFamily::WorkerScanToBackend => "WorkerScanToBackend",
        RuntimeMessageFamily::BackendScanToWorker => "BackendScanToWorker",
    };
    let mut text: String = owned("unexpected runtime family ");
    text.append(name);
    text.append(" on dedicated scan peer");
    WorkerRuntimeError::ProtocolViolation(text)
}

/// Bytes that are not a message of this protocol may be the header of an issued
/// page.
pub open spec fn may_be_issued(fault: DecodeFault) -> bool {
    fault is InvalidMagic || fault is UnsupportedVersion || fault is TruncatedEnvelope
}

/// What bytes on a scan peer are.
pub open spec fn inbound_as<'a>(
    r: Result<ScanInbound<'a>, WorkerRuntimeError>,
    bytes: Seq<u8>,
    is_issued: bool,
) -> bool {
    match parse_runtime_header(bytes) {
        Ok((header, _)) => if header.family == RuntimeMessageFamily::BackendScanToWorker {
            match parse_backend_scan(bytes) {
                Ok(message) => r matches Ok(ScanInbound::Control(control)) && control@ == message,
                Err(fault) => r matches Err(WorkerRuntimeError::Decode(e)) && e@ == fault,
            }
        } else {
            r matches Err(e) && violates(e, wrong_family_text(header.family))
        },
        Err(fault) => if may_be_issued(fault) && is_issued {
            r matches Ok(ScanInbound::Issued)
        } else {
            r matches Err(WorkerRuntimeError::Decode(e)) && e@ == fault
        },
    }
}

/// Tells scan terminals and issued pages apart. `is_issued` says whether the
/// bytes can be read as the header of an issued page; it counts only where they
/// are no message of this protocol.
pub fn decode_scan_inbound<'a>(bytes: &'a [u8], is_issued: bool) -> (r: Result<
    ScanInbound<'a>,
    WorkerRuntimeError,
>)
    ensures
        inbound_as(r, bytes@, is_issued),
{
    match decode_runtime_message_family(bytes) {
        Ok(RuntimeMessageFamily::BackendScanToWorker) => match decode_backend_scan_to_worker(
            bytes,
        ) {
            Ok(control) => Ok(ScanInbound::Control(control)),
            Err(e) => Err(WorkerRuntimeError::Decode(e)),
        },
        Ok(other) => Err(wrong_family(other)),
        Err(e) => {
            let page: bool = match &e {
                DecodeError::InvalidMagic { .. } => true,
                DecodeError::UnsupportedVersion { .. } => true,
                DecodeError::TruncatedEnvelope { .. } => true,
                _ => false,
            };
            if page && is_issued {
                Ok(ScanInbound::Issued)
            } else {
                Err(WorkerRuntimeError::Decode(e))
            }
        },
    }
}

/// The text of a terminal of another scan.
pub open spec fn wrong_terminal_text(
    session_epoch: u64,
    scan_id: u64,
    expected_epoch: u64,
    expected_scan: u64,
) -> Seq<char> {
    "scan terminal targeted session_epoch="@ + decimal(session_epoch as nat) + ", scan_id="@
        + decimal(scan_id as nat) + "; expected session_epoch="@ + decimal(expected_epoch as nat)
        + ", scan_id="@ + decimal(expected_scan as nat)
}

/// Makes sure that a terminal is for this scan.
pub fn validate_scan_terminal(request: &OpenScanRequest, session_epoch: u64, scan_id: u64) -> (r:
    Result<(), WorkerRuntimeError>)
    ensures
        session_epoch == request.session_epoch && scan_id == request.scan_id ==> r is Ok,
        !(session_epoch == request.session_epoch && scan_id == request.scan_id) ==> (r matches Err(
            e,
        ) && violates(
            e,
            wrong_terminal_text(session_epoch, scan_id, request.session_epoch, request.scan_id),
        )),
{
    if session_epoch != request.session_epoch || scan_id != request.scan_id {
        let mut text: String = owned("scan terminal targeted session_epoch=");
        append_decimal(&mut text, session_epoch);
        text.append(", scan_id=");
        append_decimal(&mut text, scan_id);
        text.append("; expected session_epoch=");
        append_decimal(&mut text, request.session_epoch);
        text.append(", scan_id=");
        append_decimal(&mut text, request.scan_id);
        return Err(WorkerRuntimeError::ProtocolViolation(text));
    }
    Ok(())
}

/// What a scan terminal means for the scan.
#[derive(Debug, PartialEq, Eq)]
pub enum ProducerOutcome {
    /// The producer is done.
    Eof { producer_id: u16 },
    /// The producer failed.
    Failed { producer_id: u16, message: String },
}

/// The outcome says what the terminal says.
pub open spec fn outcome_as(outcome: ProducerOutcome, terminal: BackendScanMessage) -> bool {
    match terminal {
        BackendScanMessage::ScanFinished { producer_id, .. } => outcome
            == ProducerOutcome::Eof { producer_id },
        BackendScanMessage::ScanFailed { producer_id: failed, message: text, .. } => {
            outcome matches ProducerOutcome::Failed { producer_id, message } && producer_id
                == failed && message@ == text
        },
    }
}

/// The scan that a terminal is for.
pub open spec fn terminal_target(terminal: BackendScanMessage) -> (u64, u64) {
    match terminal {
        BackendScanMessage::ScanFinished { session_epoch, scan_id, .. } => {
            (session_epoch, scan_id)
        },
        BackendScanMessage::ScanFailed { session_epoch, scan_id, .. } => (session_epoch, scan_id),
    }
}

/// Turns a terminal into the outcome of a producer, if it is for this scan.
pub fn control_to_outcome(request: &OpenScanRequest, control: BackendScanToWorkerRef<'_>) -> (r:
    Result<ProducerOutcome, WorkerRuntimeError>)
    ensures
        terminal_target(control@) == (request.session_epoch, request.scan_id) ==> (r matches Ok(
            outcome,
        ) && outcome_as(outcome, control@)),
        terminal_target(control@) != (request.session_epoch, request.scan_id) ==> (r matches Err(
            e,
        ) && violates(
            e,
            wrong_terminal_text(
                terminal_target(control@).0,
                terminal_target(control@).1,
                request.session_epoch,
                request.scan_id,
            ),
        )),
{
    match control {
        BackendScanToWorkerRef::ScanFinished { session_epoch, scan_id, producer_id } => {
            match validate_scan_terminal(request, session_epoch, scan_id) {
                Ok(()) => Ok(ProducerOutcome::Eof { producer_id }),
                Err(e) => Err(e),
            }
        },
        BackendScanToWorkerRef::ScanFailed { session_epoch, scan_id, producer_id, message } => {
            match validate_scan_terminal(request, session_epoch, scan_id) {
                Ok(()) => Ok(ProducerOutcome::Failed { producer_id, message: owned(message) }),
                Err(e) => Err(e),
            }
        },
    }
}

/// What is to be done with a step of the scan.
#[derive(Clone, Copy, Debug, PartialEq, Eq, Structural)]
pub enum ForwardAction {
    /// Nothing came out.
    Nothing,
    /// Deliver the batch; go on.
    DeliverBatch,
    /// Close the scan; it is over.
    Close,
    /// Deliver the error, then close the scan; it is over.
    DeliverErrorAndClose,
}

/// What a step asks for.
pub open spec fn forward_of(step: ScanFlowDriverStep) -> ForwardAction {
    match step {
        ScanFlowDriverStep::Idle => ForwardAction::Nothing,
        ScanFlowDriverStep::Batch { .. } => ForwardAction::DeliverBatch,
        ScanFlowDriverStep::LogicalEof { .. } => ForwardAction::Close,
        ScanFlowDriverStep::LogicalError { .. } => ForwardAction::DeliverErrorAndClose,
    }
}

/// Decides what is done with a step, and whether the scan is over with it.
pub fn forward_driver_step(step: &ScanFlowDriverStep) -> (r: (ForwardAction, bool))
    ensures
        r.0 == forward_of(*step),
        r.1 == (*step is LogicalEof || *step is LogicalError),
{
    match step {
        ScanFlowDriverStep::Idle => (ForwardAction::Nothing, false),
        ScanFlowDriverStep::Batch { .. } => (ForwardAction::DeliverBatch, false),
        ScanFlowDriverStep::LogicalEof { .. } => (ForwardAction::Close, true),
        ScanFlowDriverStep::LogicalError { .. } => (ForwardAction::DeliverErrorAndClose, true),
    }
}

/// The text of a scan without producers.
pub open spec fn no_producers_text(scan_id: u64) -> Seq<char> {
    "scan_id "@ + decimal(scan_id as nat) + " has no declared scan producers"@
}

/// The text of a scan whose producers and streams differ in number.
pub open spec fn stream_count_text(scan_id: u64, streams: nat, producers: nat) -> Seq<char> {
    "scan_id "@ + decimal(scan_id as nat) + " has "@ + decimal(streams)
        + " producer ingress streams for "@ + decimal(producers) + " declared producers"@
}

/// Where the loop of a scan stands.
#[derive(Clone, Copy, Debug, PartialEq, Eq, Structural)]
pub enum ScanPhase {
    /// A round over the producers is about to begin.
    RoundStart,
    /// Producer `index` is next; `any_frame` says whether one before it had a
    /// frame in this round.
    Polling { index: usize, any_frame: bool },
    /// No producer had a frame.
    Waiting,
    /// The scan is over; `terminal` says whether it came to its end.
    Ended { terminal: bool },
    /// The loop ended with an error.
    Failed,
}

/// What the loop does next.
#[derive(Clone, Copy, Debug, PartialEq, Eq, Structural)]
pub enum ScanLoopAction {
    /// Look whether the stream was dropped.
    CheckStop,
    /// Receive from a producer and handle the frame, if there is one.
    Poll { index: usize },
    /// Sleep until the next round.
    Sleep,
    /// Nothing is left to do.
    Finish,
    /// Cancel the scan with every producer, then abort it.
    CancelAndAbort,
}

/// What came of it.
#[derive(Clone, Copy, Debug, PartialEq, Eq, Structural)]
pub enum ScanLoopEvent {
    /// The stream was dropped.
    StopRequested,
    /// The stream is still there.
    KeepGoing,
    /// The producer had no frame.
    NoFrame,
    /// The producer's frame was handled; `terminal` says whether the scan is
    /// over with it.
    FrameHandled { terminal: bool },
    /// The sleep is over.
    Slept,
    /// Something failed.
    Failure,
}

/// The next producer, or the end of the round.
pub open spec fn after_producer(producers: usize, index: usize, any_frame: bool) -> ScanPhase {
    if index + 1 < producers {
        ScanPhase::Polling { index: (index + 1) as usize, any_frame }
    } else if any_frame {
        ScanPhase::RoundStart
    } else {
        ScanPhase::Waiting
    }
}

/// Where an event leads. An event that the phase does not wait for changes
/// nothing.
pub open spec fn next_phase(producers: usize, phase: ScanPhase, event: ScanLoopEvent) -> ScanPhase {
    match (phase, event) {
        (ScanPhase::Ended { .. }, _) => phase,
        (ScanPhase::Failed, _) => phase,
        (_, ScanLoopEvent::Failure) => ScanPhase::Failed,
        (ScanPhase::RoundStart, ScanLoopEvent::StopRequested) => ScanPhase::Ended {
            terminal: false,
        },
        (ScanPhase::RoundStart, ScanLoopEvent::KeepGoing) => ScanPhase::Polling {
            index: 0,
            any_frame: false,
        },
        (ScanPhase::Polling { index, any_frame }, ScanLoopEvent::NoFrame) => after_producer(
            producers,
            index,
            any_frame,
        ),
        (ScanPhase::Polling { index, .. }, ScanLoopEvent::FrameHandled { terminal }) => {
            if terminal {
                ScanPhase::Ended { terminal: true }
            } else {
                after_producer(producers, index, true)
            }
        },
        (ScanPhase::Waiting, ScanLoopEvent::Slept) => ScanPhase::RoundStart,
        _ => phase,
    }
}

/// What a phase asks for. A scan that came to its end is left alone, one that
/// was stopped is cancelled, and one that failed is left to its error.
pub open spec fn action_in(phase: ScanPhase) -> ScanLoopAction {
    match phase {
        ScanPhase::RoundStart => ScanLoopAction::CheckStop,
        ScanPhase::Polling { index, .. } => ScanLoopAction::Poll { index },
        ScanPhase::Waiting => ScanLoopAction::Sleep,
        ScanPhase::Ended { terminal } => if terminal {
            ScanLoopAction::Finish
        } else {
            ScanLoopAction::CancelAndAbort
        },
        ScanPhase::Failed => ScanLoopAction::Finish,
    }
}

/// The loop of one scan.
#[derive(Clone, Copy, Debug, PartialEq, Eq)]
pub struct ScanLoop {
    pub producers: usize,
    pub phase: ScanPhase,
}

impl ScanLoop {
    /// There are producers, and the one that is next is one of them.
    pub open spec fn wf(self) -> bool {
        &&& self.producers > 0
        &&& self.phase matches ScanPhase::Polling { index, .. } ==> index < self.producers
    }

    /// Begins the loop of a scan: there must be producers, and one ingress
    /// stream for each.
    pub fn start(request: &OpenScanRequest, streams: usize) -> (r: Result<Self, WorkerRuntimeError>)
        ensures
            request.producers@.len() == 0 ==> (r matches Err(e) && violates(
                e,
                no_producers_text(request.scan_id),
            )),
            request.producers@.len() > 0 && streams != request.producers@.len() ==> (r matches Err(
                e,
            ) && violates(
                e,
                stream_count_text(
                    request.scan_id,
                    streams as nat,
                    request.producers@.len(),
                ),
            )),
            request.producers@.len() > 0 && streams == request.producers@.len() ==> (r matches Ok(
                scan,
            ) && scan.wf() && scan == (ScanLoop {
                producers: streams,
                phase: ScanPhase::RoundStart,
            })),
    {
        let producers: usize = request.producers.len();
        if producers == 0 {
            let mut text: String = owned("scan_id ");
            append_decimal(&mut text, request.scan_id);
            text.append(" has no declared scan producers");
            return Err(WorkerRuntimeError::ProtocolViolation(text));
        }
        if streams != producers {
            let mut text: String = owned("scan_id ");
            append_decimal(&mut text, request.scan_id);
            text.append(" has ");
            append_decimal(&mut text, streams as u64);
            text.append(" producer ingress streams for ");
            append_decimal(&mut text, producers as u64);
            text.append(" declared producers");
            return Err(WorkerRuntimeError::ProtocolViolation(text));
        }
        Ok(ScanLoop { producers, phase: ScanPhase::RoundStart })
    }

    /// What to do next.
    pub fn action(&self) -> (r: ScanLoopAction)
        ensures
            r == action_in(self.phase),
    {
        match self.phase {
            ScanPhase::RoundStart => ScanLoopAction::CheckStop,
            ScanPhase::Polling { index, .. } => ScanLoopAction::Poll { index },
            ScanPhase::Waiting => ScanLoopAction::Sleep,
            ScanPhase::Ended { terminal: true } => ScanLoopAction::Finish,
            ScanPhase::Ended { terminal: false } => ScanLoopAction::CancelAndAbort,
            ScanPhase::Failed => ScanLoopAction::Finish,
        }
    }

    /// Takes what came of it.
    pub fn advance(&mut self, event: ScanLoopEvent)
        requires
            old(self).wf(),
        ensures
            final(self).wf(),
            final(self).producers == old(self).producers,
            final(self).phase == next_phase(old(self).producers, old(self).phase, event),
    {
        let next: ScanPhase = match (self.phase, event) {
            (ScanPhase::Ended { .. }, _) => self.phase,
            (ScanPhase::Failed, _) => self.phase,
            (_, ScanLoopEvent::Failure) => ScanPhase::Failed,
            (ScanPhase::RoundStart, ScanLoopEvent::StopRequested) => ScanPhase::Ended {
                terminal: false,
            },
            (ScanPhase::RoundStart, ScanLoopEvent::KeepGoing) => ScanPhase::Polling {
                index: 0,
                any_frame: false,
            },
            (ScanPhase::Polling { index, any_frame }, ScanLoopEvent::NoFrame) => {
                self.next_producer(index, any_frame)
            },
            (ScanPhase::Polling { index, .. }, ScanLoopEvent::FrameHandled { terminal }) => {
                if terminal {
                    ScanPhase::Ended { terminal: true }
                } else {
                    self.next_producer(index, true)
                }
            },
            (ScanPhase::Waiting, ScanLoopEvent::Slept) => ScanPhase::RoundStart,
            _ => self.phase,
        };
        self.phase = next;
    }

    fn next_producer(&self, index: usize, any_frame: bool) -> (r: ScanPhase)
        requires
            index < self.producers,
        ensures
            r == after_producer(self.producers, index, any_frame),
    {
        if index + 1 < self.producers {
            ScanPhase::Polling { index: index + 1, any_frame }
        } else if any_frame {
            ScanPhase::RoundStart
        } else {
            ScanPhase::Waiting
        }
    }
}

/// Encodes `OpenScan` and puts it on the ring towards the backend.
pub fn send_open_scan(
    region: &mut TransportRegion,
    slot: &WorkerSlot,
    control: &OpenScanControl,
    scratch: &mut [u8],
    signal: Result<bool, NotifyError>,
) -> (r: Result<(), WorkerRuntimeError>)
    requires
        old(region)@.shaped(),
    ensures
        final(region)@.shaped(),
        final(scratch)@.len() == old(scratch)@.len(),
        match producer_set_fault(control.producers@) {
            Some(e) => r == Err::<(), WorkerRuntimeError>(WorkerRuntimeError::Producers(e))
                && final(region)@ == old(region)@,
            None => scan_control_sent(
                r,
                *slot,
                control@,
                old(scratch)@.len() as int,
                old(region)@,
                final(region)@,
            ),
        },
{
    let written: usize = match control.encode_into(scratch) {
        Ok(written) => written,
        Err(e) => {
            return Err(e);
        },
    };
    assert(scratch@.len() == scratch.len());
    assert(scratch@.take(written as int) =~= worker_scan_bytes(control@));
    send_scratch(region, slot, scratch, written, signal)
}

/// Encodes `CancelScan` and puts it on the ring towards the backend.
pub fn send_cancel_scan(
    region: &mut TransportRegion,
    slot: &WorkerSlot,
    session_epoch: u64,
    scan_id: u64,
    scratch: &mut [u8],
    signal: Result<bool, NotifyError>,
) -> (r: Result<(), WorkerRuntimeError>)
    requires
        old(region)@.shaped(),
    ensures
        final(region)@.shaped(),
        final(scratch)@.len() == old(scratch)@.len(),
        scan_control_sent(
            r,
            *slot,
            WorkerScanMessage::CancelScan { session_epoch, scan_id },
            old(scratch)@.len() as int,
            old(region)@,
            final(region)@,
        ),
{
    let message = WorkerScanToBackend::CancelScan { session_epoch, scan_id };
    let written: usize = match encode_scan_control(message, scratch) {
        Ok(written) => written,
        Err(e) => {
            return Err(e);
        },
    };
    assert(scratch@.len() == scratch.len());
    assert(scratch@.take(written as int) =~= worker_scan_bytes(message@));
    send_scratch(region, slot, scratch, written, signal)
}

/// What sending a message of scan control gives: the message is the next frame
/// on the ring towards the backend, or nothing has changed.
pub open spec fn scan_control_sent(
    r: Result<(), WorkerRuntimeError>,
    slot: WorkerSlot,
    message: WorkerScanMessage,
    room: int,
    before: RegionState,
    after: RegionState,
) -> bool {
    let bytes = worker_scan_bytes(message);
    if bytes.len() > room {
        r == Err::<(), WorkerRuntimeError>(WorkerRuntimeError::ControlFrameTooLarge) && after
            == before
    } else {
        frame_sent(r, slot, bytes, before, after)
    }
}

/// What sending a frame towards the backend gives.
pub open spec fn frame_sent(
    r: Result<(), WorkerRuntimeError>,
    slot: WorkerSlot,
    bytes: Seq<u8>,
    before: RegionState,
    after: RegionState,
) -> bool {
    let id = slot.slot_id as int;
    match slot.verdict(before) {
        Some(e) => r == Err::<(), WorkerRuntimeError>(WorkerRuntimeError::Slot(e)) && after
            == before,
        None => match before.ring(id, RingDirection::ToBackend).send_error(bytes.len() as int) {
            Some(e) => r == Err::<(), WorkerRuntimeError>(
                WorkerRuntimeError::Send(WorkerTxError::Ring(e)),
            ) && after == before,
            None => r is Ok && sent(before, id, RingDirection::ToBackend, bytes, after),
        },
    }
}

fn send_scratch(
    region: &mut TransportRegion,
    slot: &WorkerSlot,
    scratch: &[u8],
    written: usize,
    signal: Result<bool, NotifyError>,
) -> (r: Result<(), WorkerRuntimeError>)
    requires
        old(region)@.shaped(),
        written <= scratch@.len(),
    ensures
        final(region)@.shaped(),
        frame_sent(r, *slot, scratch@.take(written as int), old(region)@, final(region)@),
{
    let tx: WorkerTx = match slot.to_backend_tx(region) {
        Ok(tx) => tx,
        Err(e) => {
            return Err(WorkerRuntimeError::Slot(e));
        },
    };
    let payload: &[u8] = slice_subrange(scratch, 0, written);
    assert(payload@ =~= scratch@.take(written as int));
    match tx.send_frame(region, payload, signal) {
        Ok(_) => Ok(()),
        Err(e) => Err(WorkerRuntimeError::Send(e)),
    }
}

impl MetricsState {
    /// Metrics after a page was received at `read_ns`: how long it was under
    /// way is counted if its stamp tells.
    pub open spec fn page_received(self, page: Option<PageDescriptor>, read_ns: u64) -> MetricsState {
        match page {
            Some(descriptor) => match self.observed(
                PageDirection::BackendToWorker,
                descriptor,
                read_ns,
            ) {
                Some(observation) => self.added(
                    MetricId::ScanB2wWaitNs,
                    observation.wait_ns,
                ).added(MetricId::ScanB2wWaitTotal, 1),
                None => self,
            },
            None => self,
        }
    }

    /// Metrics after a page was read.
    pub open spec fn page_read(self, start_ns: u64, end_ns: u64) -> MetricsState {
        let timed = if start_ns == 0 {
            self
        } else {
            self.added(MetricId::ScanPageReadNs, elapsed(end_ns, start_ns))
        };
        timed.added(MetricId::ScanPagesReadTotal, 1)
    }

    /// Metrics after a batch was delivered.
    pub open spec fn batch_delivered(
        self,
        send_start: u64,
        send_end: u64,
        delivery_start: Option<u64>,
    ) -> MetricsState {
        let delivered = self.added(
            MetricId::ScanBatchSendNs,
            elapsed(send_end, send_start),
        ).added(MetricId::ScanBatchSendTotal, 1);
        match delivery_start {
            Some(start) => delivered.added(
                MetricId::ScanBatchDeliveryNs,
                elapsed(send_end, start),
            ).added(MetricId::ScanBatchDeliveryTotal, 1),
            None => delivered,
        }
    }

    /// Metrics after the loop slept.
    pub open spec fn slept(self, start_ns: u64, end_ns: u64) -> MetricsState {
        self.added(MetricId::ScanIdleSleepNs, elapsed(end_ns, start_ns)).added(
            MetricId::ScanIdleSleepTotal,
            1,
        )
    }
}

/// Counts how long a received page was under way.
pub fn record_page_received(
    metrics: &mut RuntimeMetrics,
    page: Option<PageDescriptor>,
    frame_read_ns: u64,
)
    requires
        old(metrics).wf(),
    ensures
        final(metrics).wf(),
        final(metrics)@ == old(metrics)@.page_received(page, frame_read_ns),
{
    match page {
        Some(descriptor) => match metrics.observe_page_at(
            PageDirection::BackendToWorker,
            descriptor,
            frame_read_ns,
        ) {
            Some(observation) => {
                metrics.add(MetricId::ScanB2wWaitNs, observation.wait_ns);
                metrics.increment(MetricId::ScanB2wWaitTotal);
            },
            None => {},
        },
        None => {},
    }
}

/// Counts a page that was read.
pub fn record_page_read(metrics: &mut RuntimeMetrics, read_start_ns: u64, now_ns: u64)
    requires
        old(metrics).wf(),
    ensures
        final(metrics).wf(),
        final(metrics)@ == old(metrics)@.page_read(read_start_ns, now_ns),
{
    metrics.add_elapsed(MetricId::ScanPageReadNs, read_start_ns, now_ns);
    metrics.increment(MetricId::ScanPagesReadTotal);
}

/// Counts a batch that was delivered.
pub fn record_batch_delivered(
    metrics: &mut RuntimeMetrics,
    send_start_ns: u64,
    send_end_ns: u64,
    delivery_start_ns: Option<u64>,
)
    requires
        old(metrics).wf(),
    ensures
        final(metrics).wf(),
        final(metrics)@ == old(metrics)@.batch_delivered(
            send_start_ns,
            send_end_ns,
            delivery_start_ns,
        ),
{
    metrics.add(MetricId::ScanBatchSendNs, send_end_ns.saturating_sub(send_start_ns));
    metrics.increment(MetricId::ScanBatchSendTotal);
    match delivery_start_ns {
        Some(start_ns) => {
            metrics.add(MetricId::ScanBatchDeliveryNs, send_end_ns.saturating_sub(start_ns));
            metrics.increment(MetricId::ScanBatchDeliveryTotal);
        },
        None => {},
    }
}

/// Counts a sleep of the loop.
pub fn record_idle_sleep(metrics: &mut RuntimeMetrics, idle_start_ns: u64, idle_end_ns: u64)
    requires
        old(metrics).wf(),
    ensures
        final(metrics).wf(),
        final(metrics)@ == old(metrics)@.slept(idle_start_ns, idle_end_ns),
{
    metrics.add(MetricId::ScanIdleSleepNs, idle_end_ns.saturating_sub(idle_start_ns));
    metrics.increment(MetricId::ScanIdleSleepTotal);
}

/// Where several events lead, one after the other.
pub open spec fn run(producers: usize, phase: ScanPhase, events: Seq<ScanLoopEvent>) -> ScanPhase
    decreases events.len(),
{
    if events.len() == 0 {
        phase
    } else {
        next_phase(producers, run(producers, phase, events.drop_last()), events.last())
    }
}

/// What polling one producer can bring without ending the scan.
pub open spec fn is_poll_answer(event: ScanLoopEvent) -> bool {
    event == ScanLoopEvent::NoFrame || event == (ScanLoopEvent::FrameHandled { terminal: false })
}

proof fn lemma_round(producers: usize, answers: Seq<ScanLoopEvent>)
    requires
        0 < producers,
        answers.len() < producers,
        forall|i: int| 0 <= i < answers.len() ==> is_poll_answer(#[trigger] answers[i]),
    ensures
        run(producers, ScanPhase::Polling { index: 0, any_frame: false }, answers)
            == (ScanPhase::Polling {
            index: answers.len() as usize,
            any_frame: exists|i: int|
                0 <= i < answers.len() && #[trigger] answers[i] != ScanLoopEvent::NoFrame,
        }),
    decreases answers.len(),
{
    if answers.len() > 0 {
        let before = answers.drop_last();
        lemma_round(producers, before);
        let n = before.len() as int;
        assert(answers.last() == answers[n]);
        let any_before = exists|i: int|
            0 <= i < before.len() && #[trigger] before[i] != ScanLoopEvent::NoFrame;
        let any = exists|i: int|
            0 <= i < answers.len() && #[trigger] answers[i] != ScanLoopEvent::NoFrame;
        if any_before {
            let i = choose|i: int|
                0 <= i < before.len() && #[trigger] before[i] != ScanLoopEvent::NoFrame;
            assert(answers[i] != ScanLoopEvent::NoFrame);
        }
        if any {
            let i = choose|i: int|
                0 <= i < answers.len() && #[trigger] answers[i] != ScanLoopEvent::NoFrame;
            if i < n {
                assert(before[i] != ScanLoopEvent::NoFrame);
            }
        }
        assert(is_poll_answer(answers[n]));
        assert(any == (any_before || answers[n] != ScanLoopEvent::NoFrame));
    }
}

/// A round polls every producer once, in order. It ends in a sleep exactly if no
/// producer had a frame.
pub proof fn law_round_polls_every_producer(producers: usize, answers: Seq<ScanLoopEvent>)
    requires
        0 < producers,
        answers.len() == producers,
        forall|i: int| 0 <= i < answers.len() ==> is_poll_answer(#[trigger] answers[i]),
    ensures
        forall|i: int|
            0 <= i < producers ==> action_in(
                run(
                    producers,
                    ScanPhase::Polling { index: 0, any_frame: false },
                    #[trigger] answers.take(i),
                ),
            ) == (ScanLoopAction::Poll { index: i as usize }),
        action_in(run(producers, ScanPhase::Polling { index: 0, any_frame: false }, answers))
            == if forall|i: int|
            0 <= i < answers.len() ==> #[trigger] answers[i] == ScanLoopEvent::NoFrame {
            ScanLoopAction::Sleep
        } else {
            ScanLoopAction::CheckStop
        },
{
    assert forall|i: int| 0 <= i < producers implies action_in(
        run(
            producers,
            ScanPhase::Polling { index: 0, any_frame: false },
            #[trigger] answers.take(i),
        ),
    ) == (ScanLoopAction::Poll { index: i as usize }) by {
        assert forall|j: int| 0 <= j < i implies is_poll_answer(
            #[trigger] answers.take(i)[j],
        ) by {
            assert(is_poll_answer(answers[j]));
        }
        lemma_round(producers, answers.take(i));
    }
    let before = answers.drop_last();
    let n = before.len() as int;
    assert forall|j: int| 0 <= j < n implies is_poll_answer(#[trigger] before[j]) by {
        assert(is_poll_answer(answers[j]));
    }
    lemma_round(producers, before);
    assert(is_poll_answer(answers[n]));
    let any_before = exists|i: int|
        0 <= i < before.len() && #[trigger] before[i] != ScanLoopEvent::NoFrame;
    let quiet = forall|i: int|
        0 <= i < answers.len() ==> #[trigger] answers[i] == ScanLoopEvent::NoFrame;
    if any_before {
        let i = choose|i: int|
            0 <= i < before.len() && #[trigger] before[i] != ScanLoopEvent::NoFrame;
        assert(answers[i] != ScanLoopEvent::NoFrame);
    } else {
        assert forall|i: int| 0 <= i < n implies #[trigger] answers[i]
            == ScanLoopEvent::NoFrame by {
            assert(before[i] == ScanLoopEvent::NoFrame);
        }
    }
    assert(quiet == (!any_before && answers[n] == ScanLoopEvent::NoFrame));
}

/// A scan is cancelled exactly if its stream was dropped before the scan came to
/// its end: a scan that ended or failed stays as it is, and only a dropped
/// stream leads to cancellation.
pub proof fn law_cancel_only_when_dropped(producers: usize, phase: ScanPhase, event: ScanLoopEvent)
    ensures
        action_in(next_phase(producers, phase, event)) == ScanLoopAction::CancelAndAbort <==> (
        action_in(phase) == ScanLoopAction::CancelAndAbort || phase == ScanPhase::RoundStart
            && event == ScanLoopEvent::StopRequested),
        phase is Ended || phase is Failed ==> next_phase(producers, phase, event) == phase,
{
}

} // verus!
