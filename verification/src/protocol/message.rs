//! Message families and the messages of each.
//!
//! Execution control and scan control are separate families:
//!
//! - backend-to-worker execution control is carried only on the primary slot
//! - backend-to-worker scan terminals are carried only on dedicated scan slots
//! - worker-to-backend execution control is carried only on the primary slot
//! - worker-to-backend scan control is carried only on dedicated scan slots

use super::error::DecodeError;
use super::scan::{PlanFlowDescriptor, ProducerDescriptorWire, ScanChannelDescriptorWire};
use super::sets::{ScanChannelSet, ScanChannelSetRef, ScanFlowDescriptor, ScanFlowDescriptorRef};
use vstd::prelude::*;

verus! {

/// Message family carried in the envelope.
#[derive(Clone, Copy, Debug, PartialEq, Eq, Structural)]
pub enum RuntimeMessageFamily {
    /// Backend execution control sent to the worker on the primary slot.
    BackendExecutionToWorker,
    /// Worker execution control sent back to the backend on the primary slot.
    WorkerExecutionToBackend,
    /// Worker scan control sent back to the backend on dedicated scan slots.
    WorkerScanToBackend,
    /// Backend scan terminal signals sent to the worker on dedicated scan slots.
    BackendScanToWorker,
}

/// The byte that stands for a family.
pub open spec fn family_byte(family: RuntimeMessageFamily) -> u8 {
    match family {
        RuntimeMessageFamily::BackendExecutionToWorker => 1,
        RuntimeMessageFamily::WorkerExecutionToBackend => 2,
        RuntimeMessageFamily::WorkerScanToBackend => 3,
        RuntimeMessageFamily::BackendScanToWorker => 4,
    }
}

/// The family that a byte stands for.
pub open spec fn family_of(byte: u8) -> Option<RuntimeMessageFamily> {
    if byte == 1 {
        Some(RuntimeMessageFamily::BackendExecutionToWorker)
    } else if byte == 2 {
        Some(RuntimeMessageFamily::WorkerExecutionToBackend)
    } else if byte == 3 {
        Some(RuntimeMessageFamily::WorkerScanToBackend)
    } else if byte == 4 {
        Some(RuntimeMessageFamily::BackendScanToWorker)
    } else {
        None
    }
}

impl RuntimeMessageFamily {
    /// The byte that stands for this family.
    pub fn code(self) -> (r: u8)
        ensures
            r == family_byte(self),
    {
        match self {
            RuntimeMessageFamily::BackendExecutionToWorker => 1,
            RuntimeMessageFamily::WorkerExecutionToBackend => 2,
            RuntimeMessageFamily::WorkerScanToBackend => 3,
            RuntimeMessageFamily::BackendScanToWorker => 4,
        }
    }

    /// The family that a byte stands for.
    pub fn try_from(value: u8) -> (r: Result<Self, DecodeError>)
        ensures
            match family_of(value) {
                Some(family) => r == Ok::<Self, DecodeError>(family),
                None => r == Err::<Self, DecodeError>(
                    DecodeError::UnexpectedMessageFamily { actual: value },
                ),
            },
    {
        match value {
            1 => Ok(RuntimeMessageFamily::BackendExecutionToWorker),
            2 => Ok(RuntimeMessageFamily::WorkerExecutionToBackend),
            3 => Ok(RuntimeMessageFamily::WorkerScanToBackend),
            4 => Ok(RuntimeMessageFamily::BackendScanToWorker),
            actual => Err(DecodeError::UnexpectedMessageFamily { actual }),
        }
    }
}

/// Failure codes of the control plane.
#[derive(Clone, Copy, Debug, PartialEq, Eq, Structural)]
pub enum ExecutionFailureCode {
    /// Execution was cancelled explicitly.
    Cancelled,
    /// The peer violated the protocol.
    ProtocolViolation,
    /// Transport restarted while the execution was in flight.
    TransportRestarted,
    /// Execution failed locally for an internal reason.
    Internal,
}

/// The byte that stands for a failure code.
pub open spec fn failure_byte(code: ExecutionFailureCode) -> u8 {
    match code {
        ExecutionFailureCode::Cancelled => 1,
        ExecutionFailureCode::ProtocolViolation => 2,
        ExecutionFailureCode::TransportRestarted => 3,
        ExecutionFailureCode::Internal => 4,
    }
}

/// The failure code that a byte stands for.
pub open spec fn failure_of(byte: u8) -> Option<ExecutionFailureCode> {
    if byte == 1 {
        Some(ExecutionFailureCode::Cancelled)
    } else if byte == 2 {
        Some(ExecutionFailureCode::ProtocolViolation)
    } else if byte == 3 {
        Some(ExecutionFailureCode::TransportRestarted)
    } else if byte == 4 {
        Some(ExecutionFailureCode::Internal)
    } else {
        None
    }
}

impl ExecutionFailureCode {
    /// The byte that stands for this code.
    pub fn code(self) -> (r: u8)
        ensures
            r == failure_byte(self),
    {
        match self {
            ExecutionFailureCode::Cancelled => 1,
            ExecutionFailureCode::ProtocolViolation => 2,
            ExecutionFailureCode::TransportRestarted => 3,
            ExecutionFailureCode::Internal => 4,
        }
    }

    /// The failure code that a byte stands for.
    pub fn try_from(value: u8) -> (r: Result<Self, DecodeError>)
        ensures
            match failure_of(value) {
                Some(code) => r == Ok::<Self, DecodeError>(code),
                None => r == Err::<Self, DecodeError>(
                    DecodeError::InvalidFailureCode { actual: value },
                ),
            },
    {
        match value {
            1 => Ok(ExecutionFailureCode::Cancelled),
            2 => Ok(ExecutionFailureCode::ProtocolViolation),
            3 => Ok(ExecutionFailureCode::TransportRestarted),
            4 => Ok(ExecutionFailureCode::Internal),
            actual => Err(DecodeError::InvalidFailureCode { actual }),
        }
    }
}

/// Query-scoped execution options captured by the backend at start.
#[derive(Clone, Copy, Debug, PartialEq, Eq, Structural)]
pub struct ExecutionOptionsWire {
    pub scan_batch_channel_capacity: u32,
    pub scan_idle_poll_interval_us: u32,
    pub runtime_filter_enabled: bool,
}

impl Default for ExecutionOptionsWire {
    fn default() -> (r: Self)
        ensures
            r == (ExecutionOptionsWire {
                scan_batch_channel_capacity: 8,
                scan_idle_poll_interval_us: 100,
                runtime_filter_enabled: false,
            }),
    {
        ExecutionOptionsWire {
            scan_batch_channel_capacity: 8,
            scan_idle_poll_interval_us: 100,
            runtime_filter_enabled: false,
        }
    }
}

/// What a message of backend execution control says.
pub enum BackendExecutionMessage {
    StartExecution {
        session_epoch: u64,
        plan: PlanFlowDescriptor,
        options: ExecutionOptionsWire,
        scans: Seq<ScanChannelDescriptorWire>,
    },
    CancelExecution { session_epoch: u64 },
    FailExecution { session_epoch: u64, code: ExecutionFailureCode, detail: Option<u64> },
}

impl BackendExecutionMessage {
    /// The session that the message belongs to.
    pub open spec fn epoch(self) -> u64 {
        match self {
            BackendExecutionMessage::StartExecution { session_epoch, .. } => session_epoch,
            BackendExecutionMessage::CancelExecution { session_epoch } => session_epoch,
            BackendExecutionMessage::FailExecution { session_epoch, .. } => session_epoch,
        }
    }
}

/// Encode-side backend execution control messages carried on the primary slot.
#[derive(Clone, Copy, Debug, PartialEq, Eq)]
pub enum BackendExecutionToWorker<'a> {
    /// Start one execution with its plan descriptor and published scan channels.
    StartExecution {
        session_epoch: u64,
        plan: PlanFlowDescriptor,
        options: ExecutionOptionsWire,
        scans: ScanChannelSet<'a>,
    },
    /// Cancel one execution identified by `session_epoch`.
    CancelExecution { session_epoch: u64 },
    /// Fail one execution identified by `session_epoch`.
    FailExecution { session_epoch: u64, code: ExecutionFailureCode, detail: Option<u64> },
}

impl<'a> View for BackendExecutionToWorker<'a> {
    type V = BackendExecutionMessage;

    open spec fn view(&self) -> BackendExecutionMessage {
        match *self {
            BackendExecutionToWorker::StartExecution { session_epoch, plan, options, scans } => {
                BackendExecutionMessage::StartExecution {
                    session_epoch,
                    plan,
                    options,
                    scans: scans.channels@,
                }
            },
            BackendExecutionToWorker::CancelExecution { session_epoch } => {
                BackendExecutionMessage::CancelExecution { session_epoch }
            },
            BackendExecutionToWorker::FailExecution { session_epoch, code, detail } => {
                BackendExecutionMessage::FailExecution { session_epoch, code, detail }
            },
        }
    }
}

impl<'a> BackendExecutionToWorker<'a> {
    /// Return the `session_epoch` targeted by this message.
    pub fn session_epoch(self) -> (r: u64)
        ensures
            r == self@.epoch(),
    {
        match self {
            BackendExecutionToWorker::StartExecution { session_epoch, .. } => session_epoch,
            BackendExecutionToWorker::CancelExecution { session_epoch } => session_epoch,
            BackendExecutionToWorker::FailExecution { session_epoch, .. } => session_epoch,
        }
    }
}

/// Decode-side borrowed backend execution control messages.
#[derive(Clone, Copy, Debug, PartialEq, Eq)]
pub enum BackendExecutionToWorkerRef<'a> {
    /// Borrowed `StartExecution` view with validated borrowed scan-channel set.
    StartExecution {
        session_epoch: u64,
        plan: PlanFlowDescriptor,
        options: ExecutionOptionsWire,
        scans: ScanChannelSetRef<'a>,
    },
    /// Borrowed `CancelExecution` view.
    CancelExecution { session_epoch: u64 },
    /// Borrowed `FailExecution` view.
    FailExecution { session_epoch: u64, code: ExecutionFailureCode, detail: Option<u64> },
}

impl<'a> View for BackendExecutionToWorkerRef<'a> {
    type V = BackendExecutionMessage;

    open spec fn view(&self) -> BackendExecutionMessage {
        match *self {
            BackendExecutionToWorkerRef::StartExecution {
                session_epoch,
                plan,
                options,
                scans,
            } => BackendExecutionMessage::StartExecution {
                session_epoch,
                plan,
                options,
                scans: scans.list(),
            },
            BackendExecutionToWorkerRef::CancelExecution { session_epoch } => {
                BackendExecutionMessage::CancelExecution { session_epoch }
            },
            BackendExecutionToWorkerRef::FailExecution { session_epoch, code, detail } => {
                BackendExecutionMessage::FailExecution { session_epoch, code, detail }
            },
        }
    }
}

impl<'a> BackendExecutionToWorkerRef<'a> {
    /// The borrowed set was checked.
    pub open spec fn wf(self) -> bool {
        self matches BackendExecutionToWorkerRef::StartExecution { scans, .. } ==> scans.wf()
    }

    /// Return the `session_epoch` targeted by this message.
    pub fn session_epoch(self) -> (r: u64)
        ensures
            r == self@.epoch(),
    {
        match self {
            BackendExecutionToWorkerRef::StartExecution { session_epoch, .. } => session_epoch,
            BackendExecutionToWorkerRef::CancelExecution { session_epoch } => session_epoch,
            BackendExecutionToWorkerRef::FailExecution { session_epoch, .. } => session_epoch,
        }
    }
}

/// Execution-level worker-to-backend control sent only on the primary slot.
#[derive(Clone, Copy, Debug, PartialEq, Eq)]
pub enum WorkerExecutionToBackend {
    /// Mark one execution as complete.
    CompleteExecution { session_epoch: u64 },
    /// Mark one execution as failed.
    FailExecution { session_epoch: u64, code: ExecutionFailureCode, detail: Option<u64> },
}

impl WorkerExecutionToBackend {
    /// The session that the message belongs to.
    pub open spec fn epoch(self) -> u64 {
        match self {
            WorkerExecutionToBackend::CompleteExecution { session_epoch } => session_epoch,
            WorkerExecutionToBackend::FailExecution { session_epoch, .. } => session_epoch,
        }
    }

    /// Return the `session_epoch` targeted by this message.
    pub fn session_epoch(self) -> (r: u64)
        ensures
            r == self.epoch(),
    {
        match self {
            WorkerExecutionToBackend::CompleteExecution { session_epoch } => session_epoch,
            WorkerExecutionToBackend::FailExecution { session_epoch, .. } => session_epoch,
        }
    }
}

/// What a message of worker scan control says.
pub enum WorkerScanMessage {
    OpenScan {
        session_epoch: u64,
        scan_id: u64,
        page_kind: u16,
        page_flags: u16,
        producers: Seq<ProducerDescriptorWire>,
    },
    CancelScan { session_epoch: u64, scan_id: u64 },
}

impl WorkerScanMessage {
    /// The session that the message belongs to.
    pub open spec fn epoch(self) -> u64 {
        match self {
            WorkerScanMessage::OpenScan { session_epoch, .. } => session_epoch,
            WorkerScanMessage::CancelScan { session_epoch, .. } => session_epoch,
        }
    }
}

/// Scan-level worker-to-backend control sent only on dedicated scan slots.
#[derive(Clone, Copy, Debug, PartialEq, Eq)]
pub enum WorkerScanToBackend<'a> {
    /// Open one scan identified by `scan_id`.
    OpenScan { session_epoch: u64, scan_id: u64, scan: ScanFlowDescriptor<'a> },
    /// Cancel one scan identified by `scan_id`.
    CancelScan { session_epoch: u64, scan_id: u64 },
}

impl<'a> View for WorkerScanToBackend<'a> {
    type V = WorkerScanMessage;

    open spec fn view(&self) -> WorkerScanMessage {
        match *self {
            WorkerScanToBackend::OpenScan { session_epoch, scan_id, scan } => {
                WorkerScanMessage::OpenScan {
                    session_epoch,
                    scan_id,
                    page_kind: scan.page_kind,
                    page_flags: scan.page_flags,
                    producers: scan.producers@,
                }
            },
            WorkerScanToBackend::CancelScan { session_epoch, scan_id } => {
                WorkerScanMessage::CancelScan { session_epoch, scan_id }
            },
        }
    }
}

impl<'a> WorkerScanToBackend<'a> {
    /// Return the `session_epoch` targeted by this message.
    pub fn session_epoch(self) -> (r: u64)
        ensures
            r == self@.epoch(),
    {
        match self {
            WorkerScanToBackend::OpenScan { session_epoch, .. } => session_epoch,
            WorkerScanToBackend::CancelScan { session_epoch, .. } => session_epoch,
        }
    }
}

/// Borrowed decode-side scan-level worker-to-backend control.
#[derive(Clone, Copy, Debug, PartialEq, Eq)]
pub enum WorkerScanToBackendRef<'a> {
    /// Borrowed `OpenScan` view with validated borrowed producer set.
    OpenScan { session_epoch: u64, scan_id: u64, scan: ScanFlowDescriptorRef<'a> },
    /// Borrowed `CancelScan` view.
    CancelScan { session_epoch: u64, scan_id: u64 },
}

impl<'a> View for WorkerScanToBackendRef<'a> {
    type V = WorkerScanMessage;

    open spec fn view(&self) -> WorkerScanMessage {
        match *self {
            WorkerScanToBackendRef::OpenScan { session_epoch, scan_id, scan } => {
                WorkerScanMessage::OpenScan {
                    session_epoch,
                    scan_id,
                    page_kind: scan.page_kind,
                    page_flags: scan.page_flags,
                    producers: scan.producers.list(),
                }
            },
            WorkerScanToBackendRef::CancelScan { session_epoch, scan_id } => {
                WorkerScanMessage::CancelScan { session_epoch, scan_id }
            },
        }
    }
}

impl<'a> WorkerScanToBackendRef<'a> {
    /// The borrowed set was checked.
    pub open spec fn wf(self) -> bool {
        self matches WorkerScanToBackendRef::OpenScan { scan, .. } ==> scan.producers.wf()
    }

    /// Return the `session_epoch` targeted by this message.
    pub fn session_epoch(self) -> (r: u64)
        ensures
            r == self@.epoch(),
    {
        match self {
            WorkerScanToBackendRef::OpenScan { session_epoch, .. } => session_epoch,
            WorkerScanToBackendRef::CancelScan { session_epoch, .. } => session_epoch,
        }
    }
}

/// What a scan terminal says.
pub enum BackendScanMessage {
    ScanFinished { session_epoch: u64, scan_id: u64, producer_id: u16 },
    ScanFailed { session_epoch: u64, scan_id: u64, producer_id: u16, message: Seq<char> },
}

impl BackendScanMessage {
    /// The session that the message belongs to.
    pub open spec fn epoch(self) -> u64 {
        match self {
            BackendScanMessage::ScanFinished { session_epoch, .. } => session_epoch,
            BackendScanMessage::ScanFailed { session_epoch, .. } => session_epoch,
        }
    }
}

/// Scan-level backend-to-worker terminal control carried only on dedicated scan slots.
#[derive(Clone, Copy, Debug, PartialEq, Eq)]
pub enum BackendScanToWorker<'a> {
    /// One producer reached logical EOF.
    ScanFinished { session_epoch: u64, scan_id: u64, producer_id: u16 },
    /// One producer failed and terminated the logical scan. The text is bounded
    /// in length, so that the terminal fits into one frame.
    ScanFailed { session_epoch: u64, scan_id: u64, producer_id: u16, message: &'a str },
}

impl<'a> View for BackendScanToWorker<'a> {
    type V = BackendScanMessage;

    open spec fn view(&self) -> BackendScanMessage {
        match *self {
            BackendScanToWorker::ScanFinished { session_epoch, scan_id, producer_id } => {
                BackendScanMessage::ScanFinished { session_epoch, scan_id, producer_id }
            },
            BackendScanToWorker::ScanFailed { session_epoch, scan_id, producer_id, message } => {
                BackendScanMessage::ScanFailed {
                    session_epoch,
                    scan_id,
                    producer_id,
                    message: message@,
                }
            },
        }
    }
}

impl<'a> BackendScanToWorker<'a> {
    /// Return the `session_epoch` targeted by this message.
    pub fn session_epoch(self) -> (r: u64)
        ensures
            r == self@.epoch(),
    {
        match self {
            BackendScanToWorker::ScanFinished { session_epoch, .. } => session_epoch,
            BackendScanToWorker::ScanFailed { session_epoch, .. } => session_epoch,
        }
    }
}

/// Borrowed decode-side scan-level backend-to-worker terminal control.
#[derive(Clone, Copy, Debug, PartialEq, Eq)]
pub enum BackendScanToWorkerRef<'a> {
    /// Borrowed `ScanFinished` view.
    ScanFinished { session_epoch: u64, scan_id: u64, producer_id: u16 },
    /// Borrowed `ScanFailed` view.
    ScanFailed { session_epoch: u64, scan_id: u64, producer_id: u16, message: &'a str },
}

impl<'a> View for BackendScanToWorkerRef<'a> {
    type V = BackendScanMessage;

    open spec fn view(&self) -> BackendScanMessage {
        match *self {
            BackendScanToWorkerRef::ScanFinished { session_epoch, scan_id, producer_id } => {
                BackendScanMessage::ScanFinished { session_epoch, scan_id, producer_id }
            },
            BackendScanToWorkerRef::ScanFailed {
                session_epoch,
                scan_id,
                producer_id,
                message,
            } => BackendScanMessage::ScanFailed {
                session_epoch,
                scan_id,
                producer_id,
                message: message@,
            },
        }
    }
}

impl<'a> BackendScanToWorkerRef<'a> {
    /// Return the `session_epoch` targeted by this message.
    pub fn session_epoch(self) -> (r: u64)
        ensures
            r == self@.epoch(),
    {
        match self {
            BackendScanToWorkerRef::ScanFinished { session_epoch, .. } => session_epoch,
            BackendScanToWorkerRef::ScanFailed { session_epoch, .. } => session_epoch,
        }
    }
}

} // verus!
