//! Encoding and decoding of messages.

use super::envelope::{
    decode_runtime_header, expect_runtime_family, header_bytes, parse_runtime_header,
    write_runtime_header_to, BACKEND_EXECUTION_CANCEL_TAG, BACKEND_EXECUTION_FAIL_TAG,
    BACKEND_EXECUTION_START_TAG, BACKEND_SCAN_FAILED_TAG, BACKEND_SCAN_FINISHED_TAG,
    WORKER_EXECUTION_COMPLETE_TAG, WORKER_EXECUTION_FAIL_TAG, WORKER_SCAN_CANCEL_TAG,
    WORKER_SCAN_OPEN_TAG,
};
use super::error::{parsed_as, DecodeError, DecodeFault, EncodeError};
use super::message::{
    failure_byte, failure_of, family_byte, BackendExecutionMessage, BackendExecutionToWorker,
    BackendExecutionToWorkerRef, BackendScanMessage, BackendScanToWorker, BackendScanToWorkerRef,
    ExecutionFailureCode, ExecutionOptionsWire, RuntimeMessageFamily, WorkerExecutionToBackend,
    WorkerScanMessage, WorkerScanToBackend, WorkerScanToBackendRef,
};
use super::msgpack::{
    optional_u64_bytes, parse_optional_u64, parse_str, parse_u16, parse_u32, parse_u64, parse_u8,
    read_optional_u64_from, read_str_from, read_u16_from, read_u32_from, read_u64_from,
    read_u8_from, str_bytes, uint_bytes, write_optional_u64_to, write_str_to, write_u16_to,
    write_u32_to, write_u64_to, write_u8_to, MARKER_U16, MARKER_U32, MARKER_U64, MARKER_U8,
};
use super::scan::PlanFlowDescriptor;
use super::session::MAX_SCAN_FAILURE_MESSAGE_LEN;
use super::set_reading::{decode_producer_set_ref, decode_scan_channel_set_ref};
use super::sets::{
    channel_set_bytes, channels_encode_error, parse_channel_set, parse_producer_set,
    producer_set_bytes, write_producer_slice_to, write_scan_channel_slice_to,
    ScanFlowDescriptorRef,
};
use vstd::prelude::*;
use vstd::utf8::{decode_utf8, encode_utf8};

verus! {

/// Bytes of a message that starts an execution, up to its scan channels.
pub const START_EXECUTION_FIXED_LEN: usize = 44;

/// Bytes of a message that opens a scan, up to its producers.
pub const OPEN_SCAN_FIXED_LEN: usize = 32;

/// A 64-bit integer.
pub open spec fn u64_bytes(value: u64) -> Seq<u8> {
    uint_bytes(MARKER_U64, value as nat, 8)
}

/// A 16-bit integer.
pub open spec fn u16_bytes(value: u16) -> Seq<u8> {
    uint_bytes(MARKER_U16, value as nat, 2)
}

/// The fields of a plan descriptor.
pub open spec fn plan_bytes(plan: PlanFlowDescriptor) -> Seq<u8> {
    u64_bytes(plan.plan_id) + (u16_bytes(plan.page_kind) + u16_bytes(plan.page_flags))
}

/// The fields of execution options.
pub open spec fn options_bytes(options: ExecutionOptionsWire) -> Seq<u8> {
    uint_bytes(MARKER_U32, options.scan_batch_channel_capacity as nat, 4) + (uint_bytes(
        MARKER_U32,
        options.scan_idle_poll_interval_us as nat,
        4,
    ) + uint_bytes(MARKER_U8, if options.runtime_filter_enabled {
        1
    } else {
        0
    }, 1))
}

/// The fields of a failure.
pub open spec fn failure_bytes(code: ExecutionFailureCode, detail: Option<u64>) -> Seq<u8> {
    uint_bytes(MARKER_U8, failure_byte(code) as nat, 1) + optional_u64_bytes(detail)
}

/// The fields that every scan terminal has.
pub open spec fn terminal_bytes(session_epoch: u64, scan_id: u64, producer_id: u16) -> Seq<u8> {
    u64_bytes(session_epoch) + (u64_bytes(scan_id) + u16_bytes(producer_id))
}

/// The bytes of a message of backend execution control.
pub open spec fn backend_execution_bytes(message: BackendExecutionMessage) -> Seq<u8> {
    let family = RuntimeMessageFamily::BackendExecutionToWorker;
    match message {
        BackendExecutionMessage::StartExecution { session_epoch, plan, options, scans } => {
            header_bytes(family, BACKEND_EXECUTION_START_TAG) + (u64_bytes(session_epoch) + (
            plan_bytes(plan) + (options_bytes(options) + channel_set_bytes(scans))))
        },
        BackendExecutionMessage::CancelExecution { session_epoch } => {
            header_bytes(family, BACKEND_EXECUTION_CANCEL_TAG) + u64_bytes(session_epoch)
        },
        BackendExecutionMessage::FailExecution { session_epoch, code, detail } => {
            header_bytes(family, BACKEND_EXECUTION_FAIL_TAG) + (u64_bytes(session_epoch)
                + failure_bytes(code, detail))
        },
    }
}

/// The bytes of a message of worker execution control.
pub open spec fn worker_execution_bytes(message: WorkerExecutionToBackend) -> Seq<u8> {
    let family = RuntimeMessageFamily::WorkerExecutionToBackend;
    match message {
        WorkerExecutionToBackend::CompleteExecution { session_epoch } => {
            header_bytes(family, WORKER_EXECUTION_COMPLETE_TAG) + u64_bytes(session_epoch)
        },
        WorkerExecutionToBackend::FailExecution { session_epoch, code, detail } => {
            header_bytes(family, WORKER_EXECUTION_FAIL_TAG) + (u64_bytes(session_epoch)
                + failure_bytes(code, detail))
        },
    }
}

/// The bytes of a message of worker scan control.
pub open spec fn worker_scan_bytes(message: WorkerScanMessage) -> Seq<u8> {
    let family = RuntimeMessageFamily::WorkerScanToBackend;
    match message {
        WorkerScanMessage::OpenScan { session_epoch, scan_id, page_kind, page_flags, producers } => {
            header_bytes(family, WORKER_SCAN_OPEN_TAG) + (u64_bytes(session_epoch) + (u64_bytes(
                scan_id,
            ) + (u16_bytes(page_kind) + (u16_bytes(page_flags) + producer_set_bytes(producers)))))
        },
        WorkerScanMessage::CancelScan { session_epoch, scan_id } => {
            header_bytes(family, WORKER_SCAN_CANCEL_TAG) + (u64_bytes(session_epoch) + u64_bytes(
                scan_id,
            ))
        },
    }
}

/// The bytes of a scan terminal.
pub open spec fn backend_scan_bytes(message: BackendScanMessage) -> Seq<u8> {
    let family = RuntimeMessageFamily::BackendScanToWorker;
    match message {
        BackendScanMessage::ScanFinished { session_epoch, scan_id, producer_id } => {
            header_bytes(family, BACKEND_SCAN_FINISHED_TAG) + terminal_bytes(
                session_epoch,
                scan_id,
                producer_id,
            )
        },
        BackendScanMessage::ScanFailed { session_epoch, scan_id, producer_id, message } => {
            header_bytes(family, BACKEND_SCAN_FAILED_TAG) + (terminal_bytes(
                session_epoch,
                scan_id,
                producer_id,
            ) + str_bytes(encode_utf8(message)))
        },
    }
}

/// Why a message of backend execution control cannot be encoded, if so.
pub open spec fn backend_execution_fault(message: BackendExecutionMessage) -> Option<EncodeError> {
    match message {
        BackendExecutionMessage::StartExecution { scans, .. } => channels_encode_error(scans),
        _ => None,
    }
}

/// Why a message of worker scan control cannot be encoded, if so.
pub open spec fn worker_scan_fault(message: WorkerScanMessage) -> Option<EncodeError> {
    match message {
        WorkerScanMessage::OpenScan { producers, .. } => if producers.len() > u32::MAX {
            Some(EncodeError::TooManyProducers { count: producers.len() as usize })
        } else {
            None
        },
        _ => None,
    }
}

/// Why a scan terminal cannot be encoded, if so.
pub open spec fn backend_scan_fault(message: BackendScanMessage) -> Option<EncodeError> {
    match message {
        BackendScanMessage::ScanFailed { message, .. } => {
            let len = encode_utf8(message).len();
            if len > MAX_SCAN_FAILURE_MESSAGE_LEN {
                Some(
                    EncodeError::ScanFailureMessageTooLong {
                        actual: len as usize,
                        maximum: MAX_SCAN_FAILURE_MESSAGE_LEN,
                    },
                )
            } else {
                None
            }
        },
        _ => None,
    }
}

/// What writing bytes to the end of a sink gives.
pub open spec fn written(
    r: Result<(), EncodeError>,
    before: Seq<u8>,
    after: Seq<u8>,
    fault: Option<EncodeError>,
    bytes: Seq<u8>,
) -> bool {
    match fault {
        Some(e) => r == Err::<(), EncodeError>(e),
        None => r is Ok && after == before + bytes,
    }
}

/// What encoding into a buffer gives: the bytes at its front and their number,
/// or an error, with the buffer unchanged.
pub open spec fn encoded_into(
    r: Result<usize, EncodeError>,
    before: Seq<u8>,
    after: Seq<u8>,
    fault: Option<EncodeError>,
    bytes: Seq<u8>,
) -> bool {
    match fault {
        Some(e) => r == Err::<usize, EncodeError>(e) && after == before,
        None => if before.len() < bytes.len() {
            r == Err::<usize, EncodeError>(
                EncodeError::BufferTooSmall {
                    expected: bytes.len() as usize,
                    actual: before.len() as usize,
                },
            ) && after == before
        } else {
            r == Ok::<usize, EncodeError>(bytes.len() as usize) && after == bytes + before.skip(
                bytes.len() as int,
            )
        },
    }
}

/// Puts encoded bytes at the front of a buffer that is long enough.
fn encode_into_with_len(encoded: &Vec<u8>, out: &mut [u8]) -> (r: Result<usize, EncodeError>)
    ensures
        encoded_into(r, old(out)@, final(out)@, None, encoded@),
{
    if out.len() < encoded.len() {
        return Err(
            EncodeError::BufferTooSmall { expected: encoded.len(), actual: out.len() },
        );
    }
    let ghost before = out@;
    let mut i: usize = 0;
    assert(out@ =~= encoded@.take(0) + before.skip(0));
    while i < encoded.len()
        invariant
            i <= encoded@.len() <= before.len(),
            out@ == encoded@.take(i as int) + before.skip(i as int),
        decreases encoded.len() - i,
    {
        out[i] = encoded[i];
        assert(out@ =~= encoded@.take(i + 1) + before.skip(i + 1));
        i = i + 1;
    }
    assert(encoded@.take(encoded@.len() as int) =~= encoded@);
    Ok(encoded.len())
}

fn write_failure(sink: &mut Vec<u8>, code: ExecutionFailureCode, detail: Option<u64>)
    ensures
        final(sink)@ == old(sink)@ + failure_bytes(code, detail),
{
    write_u8_to(sink, code.code());
    write_optional_u64_to(sink, detail);
    assert(sink@ =~= old(sink)@ + failure_bytes(code, detail));
}

fn write_plan(sink: &mut Vec<u8>, plan: PlanFlowDescriptor)
    ensures
        final(sink)@ == old(sink)@ + plan_bytes(plan),
{
    write_u64_to(sink, plan.plan_id);
    write_u16_to(sink, plan.page_kind);
    write_u16_to(sink, plan.page_flags);
    assert(sink@ =~= old(sink)@ + plan_bytes(plan));
}

fn write_options(sink: &mut Vec<u8>, options: ExecutionOptionsWire)
    ensures
        final(sink)@ == old(sink)@ + options_bytes(options),
{
    write_u32_to(sink, options.scan_batch_channel_capacity);
    write_u32_to(sink, options.scan_idle_poll_interval_us);
    let enabled: u8 = if options.runtime_filter_enabled {
        1
    } else {
        0
    };
    write_u8_to(sink, enabled);
    assert(sink@ =~= old(sink)@ + options_bytes(options));
}

fn write_terminal(sink: &mut Vec<u8>, session_epoch: u64, scan_id: u64, producer_id: u16)
    ensures
        final(sink)@ == old(sink)@ + terminal_bytes(session_epoch, scan_id, producer_id),
{
    write_u64_to(sink, session_epoch);
    write_u64_to(sink, scan_id);
    write_u16_to(sink, producer_id);
    assert(sink@ =~= old(sink)@ + terminal_bytes(session_epoch, scan_id, producer_id));
}

/// Writes one backend-execution control message.
fn encode_backend_execution_to_worker_to(
    message: BackendExecutionToWorker<'_>,
    sink: &mut Vec<u8>,
) -> (r: Result<(), EncodeError>)
    ensures
        written(
            r,
            old(sink)@,
            final(sink)@,
            backend_execution_fault(message@),
            backend_execution_bytes(message@),
        ),
{
    let family = RuntimeMessageFamily::BackendExecutionToWorker;
    match message {
        BackendExecutionToWorker::StartExecution { session_epoch, plan, options, scans } => {
            write_runtime_header_to(sink, family, BACKEND_EXECUTION_START_TAG);
            write_u64_to(sink, session_epoch);
            write_plan(sink, plan);
            write_options(sink, options);
            match write_scan_channel_slice_to(sink, scans.channels()) {
                Ok(()) => {},
                Err(e) => {
                    return Err(e);
                },
            }
        },
        BackendExecutionToWorker::CancelExecution { session_epoch } => {
            write_runtime_header_to(sink, family, BACKEND_EXECUTION_CANCEL_TAG);
            write_u64_to(sink, session_epoch);
        },
        BackendExecutionToWorker::FailExecution { session_epoch, code, detail } => {
            write_runtime_header_to(sink, family, BACKEND_EXECUTION_FAIL_TAG);
            write_u64_to(sink, session_epoch);
            write_failure(sink, code, detail);
        },
    }
    assert(sink@ =~= old(sink)@ + backend_execution_bytes(message@));
    Ok(())
}

/// Writes one worker-execution control message.
fn encode_worker_execution_to_backend_to(message: WorkerExecutionToBackend, sink: &mut Vec<u8>)
    ensures
        final(sink)@ == old(sink)@ + worker_execution_bytes(message),
{
    let family = RuntimeMessageFamily::WorkerExecutionToBackend;
    match message {
        WorkerExecutionToBackend::CompleteExecution { session_epoch } => {
            write_runtime_header_to(sink, family, WORKER_EXECUTION_COMPLETE_TAG);
            write_u64_to(sink, session_epoch);
        },
        WorkerExecutionToBackend::FailExecution { session_epoch, code, detail } => {
            write_runtime_header_to(sink, family, WORKER_EXECUTION_FAIL_TAG);
            write_u64_to(sink, session_epoch);
            write_failure(sink, code, detail);
        },
    }
    assert(sink@ =~= old(sink)@ + worker_execution_bytes(message));
}

/// Writes one worker-scan control message.
fn encode_worker_scan_to_backend_to(message: WorkerScanToBackend<'_>, sink: &mut Vec<u8>) -> (r:
    Result<(), EncodeError>)
    ensures
        written(
            r,
            old(sink)@,
            final(sink)@,
            worker_scan_fault(message@),
            worker_scan_bytes(message@),
        ),
{
    let family = RuntimeMessageFamily::WorkerScanToBackend;
    match message {
        WorkerScanToBackend::OpenScan { session_epoch, scan_id, scan } => {
            write_runtime_header_to(sink, family, WORKER_SCAN_OPEN_TAG);
            write_u64_to(sink, session_epoch);
            write_u64_to(sink, scan_id);
            write_u16_to(sink, scan.page_kind);
            write_u16_to(sink, scan.page_flags);
            match write_producer_slice_to(sink, scan.producers()) {
                Ok(()) => {},
                Err(e) => {
                    return Err(e);
                },
            }
        },
        WorkerScanToBackend::CancelScan { session_epoch, scan_id } => {
            write_runtime_header_to(sink, family, WORKER_SCAN_CANCEL_TAG);
            write_u64_to(sink, session_epoch);
            write_u64_to(sink, scan_id);
        },
    }
    assert(sink@ =~= old(sink)@ + worker_scan_bytes(message@));
    Ok(())
}

/// Writes one backend-scan terminal message.
fn encode_backend_scan_to_worker_to(message: BackendScanToWorker<'_>, sink: &mut Vec<u8>) -> (r:
    Result<(), EncodeError>)
    ensures
        written(
            r,
            old(sink)@,
            final(sink)@,
            backend_scan_fault(message@),
            backend_scan_bytes(message@),
        ),
{
    let family = RuntimeMessageFamily::BackendScanToWorker;
    match message {
        BackendScanToWorker::ScanFinished { session_epoch, scan_id, producer_id } => {
            write_runtime_header_to(sink, family, BACKEND_SCAN_FINISHED_TAG);
            write_terminal(sink, session_epoch, scan_id, producer_id);
        },
        BackendScanToWorker::ScanFailed { session_epoch, scan_id, producer_id, message: text } => {
            let len: usize = text.as_bytes().len();
            if len > MAX_SCAN_FAILURE_MESSAGE_LEN {
                return Err(
                    EncodeError::ScanFailureMessageTooLong {
                        actual: len,
                        maximum: MAX_SCAN_FAILURE_MESSAGE_LEN,
                    },
                );
            }
            write_runtime_header_to(sink, family, BACKEND_SCAN_FAILED_TAG);
            write_terminal(sink, session_epoch, scan_id, producer_id);
            write_str_to(sink, text);
        },
    }
    assert(sink@ =~= old(sink)@ + backend_scan_bytes(message@));
    Ok(())
}

/// Return the exact encoded length of one backend-execution control message.
pub fn encoded_len_backend_execution_to_worker(message: BackendExecutionToWorker<'_>) -> (r: usize)
    requires
        backend_execution_fault(message@) is None,
    ensures
        r == backend_execution_bytes(message@).len(),
{
    let mut encoded: Vec<u8> = Vec::new();
    let _ = encode_backend_execution_to_worker_to(message, &mut encoded);
    encoded.len()
}

/// Return the exact encoded length of one worker-execution control message.
pub fn encoded_len_worker_execution_to_backend(message: WorkerExecutionToBackend) -> (r: usize)
    ensures
        r == worker_execution_bytes(message).len(),
{
    let mut encoded: Vec<u8> = Vec::new();
    encode_worker_execution_to_backend_to(message, &mut encoded);
    encoded.len()
}

/// Return the exact encoded length of one worker-scan control message.
pub fn encoded_len_worker_scan_to_backend(message: WorkerScanToBackend<'_>) -> (r: usize)
    requires
        worker_scan_fault(message@) is None,
    ensures
        r == worker_scan_bytes(message@).len(),
{
    let mut encoded: Vec<u8> = Vec::new();
    let _ = encode_worker_scan_to_backend_to(message, &mut encoded);
    encoded.len()
}

/// Return the exact encoded length of one backend-scan terminal message.
pub fn encoded_len_backend_scan_to_worker(message: BackendScanToWorker<'_>) -> (r: usize)
    requires
        backend_scan_fault(message@) is None,
    ensures
        r == backend_scan_bytes(message@).len(),
{
    let mut encoded: Vec<u8> = Vec::new();
    let _ = encode_backend_scan_to_worker_to(message, &mut encoded);
    encoded.len()
}

/// Encode one backend-execution control message into `out`.
pub fn encode_backend_execution_to_worker_into(
    message: BackendExecutionToWorker<'_>,
    out: &mut [u8],
) -> (r: Result<usize, EncodeError>)
    ensures
        encoded_into(
            r,
            old(out)@,
            final(out)@,
            backend_execution_fault(message@),
            backend_execution_bytes(message@),
        ),
{
    let mut encoded: Vec<u8> = Vec::new();
    match encode_backend_execution_to_worker_to(message, &mut encoded) {
        Ok(()) => {},
        Err(e) => {
            return Err(e);
        },
    }
    assert(encoded@ =~= backend_execution_bytes(message@));
    encode_into_with_len(&encoded, out)
}

/// Encode one worker-execution control message into `out`.
pub fn encode_worker_execution_to_backend_into(
    message: WorkerExecutionToBackend,
    out: &mut [u8],
) -> (r: Result<usize, EncodeError>)
    ensures
        encoded_into(r, old(out)@, final(out)@, None, worker_execution_bytes(message)),
{
    let mut encoded: Vec<u8> = Vec::new();
    encode_worker_execution_to_backend_to(message, &mut encoded);
    assert(encoded@ =~= worker_execution_bytes(message));
    encode_into_with_len(&encoded, out)
}

/// Encode one worker-scan control message into `out`.
pub fn encode_worker_scan_to_backend_into(message: WorkerScanToBackend<'_>, out: &mut [u8]) -> (r:
    Result<usize, EncodeError>)
    ensures
        encoded_into(
            r,
            old(out)@,
            final(out)@,
            worker_scan_fault(message@),
            worker_scan_bytes(message@),
        ),
{
    let mut encoded: Vec<u8> = Vec::new();
    match encode_worker_scan_to_backend_to(message, &mut encoded) {
        Ok(()) => {},
        Err(e) => {
            return Err(e);
        },
    }
    assert(encoded@ =~= worker_scan_bytes(message@));
    encode_into_with_len(&encoded, out)
}

/// Encode one backend-scan terminal message into `out`.
pub fn encode_backend_scan_to_worker_into(message: BackendScanToWorker<'_>, out: &mut [u8]) -> (r:
    Result<usize, EncodeError>)
    ensures
        encoded_into(
            r,
            old(out)@,
            final(out)@,
            backend_scan_fault(message@),
            backend_scan_bytes(message@),
        ),
{
    let mut encoded: Vec<u8> = Vec::new();
    match encode_backend_scan_to_worker_to(message, &mut encoded) {
        Ok(()) => {},
        Err(e) => {
            return Err(e);
        },
    }
    assert(encoded@ =~= backend_scan_bytes(message@));
    encode_into_with_len(&encoded, out)
}

/// The parse of an envelope of the expected family: the tag and what follows.
pub open spec fn parse_family(bytes: Seq<u8>, family: RuntimeMessageFamily) -> Result<
    (u8, Seq<u8>),
    DecodeFault,
> {
    match parse_runtime_header(bytes) {
        Err(fault) => Err(fault),
        Ok((header, rest)) => if header.family != family {
            Err(DecodeFault::UnexpectedMessageFamily { actual: family_byte(header.family) })
        } else {
            Ok((header.tag, rest))
        },
    }
}

/// The parse of the fields of a plan descriptor.
pub open spec fn parse_plan(source: Seq<u8>) -> Result<(PlanFlowDescriptor, Seq<u8>), DecodeFault> {
    match parse_u64(source) {
        Err(fault) => Err(fault),
        Ok((plan_id, s1)) => match parse_u16(s1) {
            Err(fault) => Err(fault),
            Ok((page_kind, s2)) => match parse_u16(s2) {
                Err(fault) => Err(fault),
                Ok((page_flags, s3)) => Ok(
                    (PlanFlowDescriptor { plan_id, page_kind, page_flags }, s3),
                ),
            },
        },
    }
}

/// The parse of the fields of execution options.
pub open spec fn parse_options(source: Seq<u8>) -> Result<
    (ExecutionOptionsWire, Seq<u8>),
    DecodeFault,
> {
    match parse_u32(source) {
        Err(fault) => Err(fault),
        Ok((scan_batch_channel_capacity, s1)) => match parse_u32(s1) {
            Err(fault) => Err(fault),
            Ok((scan_idle_poll_interval_us, s2)) => match parse_u8(s2) {
                Err(fault) => Err(fault),
                Ok((enabled, s3)) => Ok(
                    (
                        ExecutionOptionsWire {
                            scan_batch_channel_capacity,
                            scan_idle_poll_interval_us,
                            runtime_filter_enabled: enabled != 0,
                        },
                        s3,
                    ),
                ),
            },
        },
    }
}

/// The parse of the fields of a failure.
pub open spec fn parse_failure(source: Seq<u8>) -> Result<
    ((ExecutionFailureCode, Option<u64>), Seq<u8>),
    DecodeFault,
> {
    match parse_u8(source) {
        Err(fault) => Err(fault),
        Ok((byte, s1)) => match failure_of(byte) {
            None => Err(DecodeFault::InvalidFailureCode { actual: byte }),
            Some(code) => match parse_optional_u64(s1) {
                Err(fault) => Err(fault),
                Ok((detail, s2)) => Ok(((code, detail), s2)),
            },
        },
    }
}

/// The end of a message: nothing may follow it.
pub open spec fn at_end<T>(message: T, rest: Seq<u8>) -> Result<T, DecodeFault> {
    if rest.len() == 0 {
        Ok(message)
    } else {
        Err(DecodeFault::TrailingBytes { remaining: rest.len() as usize })
    }
}

/// What a message of backend execution control says behind its session.
pub open spec fn parse_backend_execution_body(
    tag: u8,
    session_epoch: u64,
    source: Seq<u8>,
) -> Result<BackendExecutionMessage, DecodeFault> {
    if tag == BACKEND_EXECUTION_START_TAG {
        match parse_plan(source) {
            Err(fault) => Err(fault),
            Ok((plan, s1)) => match parse_options(s1) {
                Err(fault) => Err(fault),
                Ok((options, s2)) => match parse_channel_set(s2) {
                    Err(fault) => Err(fault),
                    Ok((scans, s3)) => at_end(
                        BackendExecutionMessage::StartExecution {
                            session_epoch,
                            plan,
                            options,
                            scans,
                        },
                        s3,
                    ),
                },
            },
        }
    } else if tag == BACKEND_EXECUTION_CANCEL_TAG {
        at_end(BackendExecutionMessage::CancelExecution { session_epoch }, source)
    } else if tag == BACKEND_EXECUTION_FAIL_TAG {
        match parse_failure(source) {
            Err(fault) => Err(fault),
            Ok(((code, detail), s1)) => at_end(
                BackendExecutionMessage::FailExecution { session_epoch, code, detail },
                s1,
            ),
        }
    } else {
        Err(DecodeFault::UnexpectedTag { actual: tag })
    }
}

/// What the bytes of a message of backend execution control say.
pub open spec fn parse_backend_execution(bytes: Seq<u8>) -> Result<
    BackendExecutionMessage,
    DecodeFault,
> {
    match parse_family(bytes, RuntimeMessageFamily::BackendExecutionToWorker) {
        Err(fault) => Err(fault),
        Ok((tag, s1)) => match parse_u64(s1) {
            Err(fault) => Err(fault),
            Ok((session_epoch, s2)) => parse_backend_execution_body(tag, session_epoch, s2),
        },
    }
}

/// What the bytes of a message of worker execution control say.
pub open spec fn parse_worker_execution(bytes: Seq<u8>) -> Result<
    WorkerExecutionToBackend,
    DecodeFault,
> {
    match parse_family(bytes, RuntimeMessageFamily::WorkerExecutionToBackend) {
        Err(fault) => Err(fault),
        Ok((tag, s1)) => match parse_u64(s1) {
            Err(fault) => Err(fault),
            Ok((session_epoch, s2)) => if tag == WORKER_EXECUTION_COMPLETE_TAG {
                at_end(WorkerExecutionToBackend::CompleteExecution { session_epoch }, s2)
            } else if tag == WORKER_EXECUTION_FAIL_TAG {
                match parse_failure(s2) {
                    Err(fault) => Err(fault),
                    Ok(((code, detail), s3)) => at_end(
                        WorkerExecutionToBackend::FailExecution { session_epoch, code, detail },
                        s3,
                    ),
                }
            } else {
                Err(DecodeFault::UnexpectedTag { actual: tag })
            },
        },
    }
}

/// What an `OpenScan` says behind its session.
pub open spec fn parse_open_scan(session_epoch: u64, source: Seq<u8>) -> Result<
    WorkerScanMessage,
    DecodeFault,
> {
    match parse_u64(source) {
        Err(fault) => Err(fault),
        Ok((scan_id, s1)) => match parse_u16(s1) {
            Err(fault) => Err(fault),
            Ok((page_kind, s2)) => match parse_u16(s2) {
                Err(fault) => Err(fault),
                Ok((page_flags, s3)) => match parse_producer_set(s3) {
                    Err(fault) => Err(fault),
                    Ok((producers, s4)) => at_end(
                        WorkerScanMessage::OpenScan {
                            session_epoch,
                            scan_id,
                            page_kind,
                            page_flags,
                            producers,
                        },
                        s4,
                    ),
                },
            },
        },
    }
}

/// What the bytes of a message of worker scan control say.
pub open spec fn parse_worker_scan(bytes: Seq<u8>) -> Result<WorkerScanMessage, DecodeFault> {
    match parse_family(bytes, RuntimeMessageFamily::WorkerScanToBackend) {
        Err(fault) => Err(fault),
        Ok((tag, s1)) => match parse_u64(s1) {
            Err(fault) => Err(fault),
            Ok((session_epoch, s2)) => if tag == WORKER_SCAN_OPEN_TAG {
                parse_open_scan(session_epoch, s2)
            } else if tag == WORKER_SCAN_CANCEL_TAG {
                match parse_u64(s2) {
                    Err(fault) => Err(fault),
                    Ok((scan_id, s3)) => at_end(
                        WorkerScanMessage::CancelScan { session_epoch, scan_id },
                        s3,
                    ),
                }
            } else {
                Err(DecodeFault::UnexpectedTag { actual: tag })
            },
        },
    }
}

/// The parse of the fields that every scan terminal has.
pub open spec fn parse_terminal(source: Seq<u8>) -> Result<((u64, u64, u16), Seq<u8>), DecodeFault> {
    match parse_u64(source) {
        Err(fault) => Err(fault),
        Ok((session_epoch, s1)) => match parse_u64(s1) {
            Err(fault) => Err(fault),
            Ok((scan_id, s2)) => match parse_u16(s2) {
                Err(fault) => Err(fault),
                Ok((producer_id, s3)) => Ok(((session_epoch, scan_id, producer_id), s3)),
            },
        },
    }
}

/// What the bytes of a scan terminal say.
pub open spec fn parse_backend_scan(bytes: Seq<u8>) -> Result<BackendScanMessage, DecodeFault> {
    match parse_family(bytes, RuntimeMessageFamily::BackendScanToWorker) {
        Err(fault) => Err(fault),
        Ok((tag, s1)) => match parse_terminal(s1) {
            Err(fault) => Err(fault),
            Ok(((session_epoch, scan_id, producer_id), s2)) => if tag
                == BACKEND_SCAN_FINISHED_TAG {
                at_end(
                    BackendScanMessage::ScanFinished { session_epoch, scan_id, producer_id },
                    s2,
                )
            } else if tag == BACKEND_SCAN_FAILED_TAG {
                match parse_str(s2) {
                    Err(fault) => Err(fault),
                    Ok((text, s3)) => at_end(
                        BackendScanMessage::ScanFailed {
                            session_epoch,
                            scan_id,
                            producer_id,
                            message: decode_utf8(text),
                        },
                        s3,
                    ),
                }
            } else {
                Err(DecodeFault::UnexpectedTag { actual: tag })
            },
        },
    }
}

fn read_family<'a>(bytes: &'a [u8], family: RuntimeMessageFamily) -> (r: Result<
    (u8, &'a [u8]),
    DecodeError,
>)
    ensures
        parsed_as(r, parse_family(bytes@, family)),
{
    let (header, rest) = match decode_runtime_header(bytes) {
        Ok(read) => read,
        Err(e) => {
            return Err(e);
        },
    };
    match expect_runtime_family(header.family, family) {
        Ok(()) => Ok((header.tag, rest)),
        Err(e) => Err(e),
    }
}

fn read_plan<'a>(source: &'a [u8]) -> (r: Result<(PlanFlowDescriptor, &'a [u8]), DecodeError>)
    ensures
        parsed_as(r, parse_plan(source@)),
{
    let (plan_id, s1) = match read_u64_from(source) {
        Ok(read) => read,
        Err(e) => {
            return Err(e);
        },
    };
    let (page_kind, s2) = match read_u16_from(s1) {
        Ok(read) => read,
        Err(e) => {
            return Err(e);
        },
    };
    let (page_flags, s3) = match read_u16_from(s2) {
        Ok(read) => read,
        Err(e) => {
            return Err(e);
        },
    };
    Ok((PlanFlowDescriptor { plan_id, page_kind, page_flags }, s3))
}

fn read_options<'a>(source: &'a [u8]) -> (r: Result<(ExecutionOptionsWire, &'a [u8]), DecodeError>)
    ensures
        parsed_as(r, parse_options(source@)),
{
    let (scan_batch_channel_capacity, s1) = match read_u32_from(source) {
        Ok(read) => read,
        Err(e) => {
            return Err(e);
        },
    };
    let (scan_idle_poll_interval_us, s2) = match read_u32_from(s1) {
        Ok(read) => read,
        Err(e) => {
            return Err(e);
        },
    };
    let (enabled, s3) = match read_u8_from(s2) {
        Ok(read) => read,
        Err(e) => {
            return Err(e);
        },
    };
    Ok(
        (
            ExecutionOptionsWire {
                scan_batch_channel_capacity,
                scan_idle_poll_interval_us,
                runtime_filter_enabled: enabled != 0,
            },
            s3,
        ),
    )
}

fn read_failure<'a>(source: &'a [u8]) -> (r: Result<
    ((ExecutionFailureCode, Option<u64>), &'a [u8]),
    DecodeError,
>)
    ensures
        parsed_as(r, parse_failure(source@)),
{
    let (byte, s1) = match read_u8_from(source) {
        Ok(read) => read,
        Err(e) => {
            return Err(e);
        },
    };
    let code: ExecutionFailureCode = match ExecutionFailureCode::try_from(byte) {
        Ok(code) => code,
        Err(e) => {
            return Err(e);
        },
    };
    match read_optional_u64_from(s1) {
        Ok((detail, s2)) => Ok(((code, detail), s2)),
        Err(e) => Err(e),
    }
}

fn read_terminal<'a>(source: &'a [u8]) -> (r: Result<((u64, u64, u16), &'a [u8]), DecodeError>)
    ensures
        parsed_as(r, parse_terminal(source@)),
{
    let (session_epoch, s1) = match read_u64_from(source) {
        Ok(read) => read,
        Err(e) => {
            return Err(e);
        },
    };
    let (scan_id, s2) = match read_u64_from(s1) {
        Ok(read) => read,
        Err(e) => {
            return Err(e);
        },
    };
    match read_u16_from(s2) {
        Ok((producer_id, s3)) => Ok(((session_epoch, scan_id, producer_id), s3)),
        Err(e) => Err(e),
    }
}

fn ensure_no_trailing_bytes(remaining: &[u8]) -> (r: Result<(), DecodeError>)
    ensures
        remaining@.len() == 0 ==> r is Ok,
        remaining@.len() > 0 ==> r == Err::<(), DecodeError>(
            DecodeError::TrailingBytes { remaining: remaining@.len() as usize },
        ),
{
    if remaining.len() == 0 {
        return Ok(());
    }
    Err(DecodeError::TrailingBytes { remaining: remaining.len() })
}

/// Decode only the envelope and return its message family.
pub fn decode_runtime_message_family(bytes: &[u8]) -> (r: Result<
    RuntimeMessageFamily,
    DecodeError,
>)
    ensures
        match parse_runtime_header(bytes@) {
            Ok((header, _)) => r == Ok::<RuntimeMessageFamily, DecodeError>(header.family),
            Err(fault) => r matches Err(e) && e@ == fault,
        },
{
    match decode_runtime_header(bytes) {
        Ok((header, _)) => Ok(header.family),
        Err(e) => Err(e),
    }
}

/// Decode one borrowed backend-execution control message. The channels keep the
/// bytes that they have in the message.
pub fn decode_backend_execution_to_worker<'a>(bytes: &'a [u8]) -> (r: Result<
    BackendExecutionToWorkerRef<'a>,
    DecodeError,
>)
    ensures
        match parse_backend_execution(bytes@) {
            Ok(message) => r matches Ok(m) && m@ == message && m.wf(),
            Err(fault) => r matches Err(e) && e@ == fault,
        },
        r matches Ok(BackendExecutionToWorkerRef::StartExecution { scans, .. }) ==> scans.bytes@
            == bytes@.skip(START_EXECUTION_FIXED_LEN as int),
{
    let (tag, s1) = match read_family(bytes, RuntimeMessageFamily::BackendExecutionToWorker) {
        Ok(read) => read,
        Err(e) => {
            return Err(e);
        },
    };
    let (session_epoch, s2) = match read_u64_from(s1) {
        Ok(read) => read,
        Err(e) => {
            return Err(e);
        },
    };
    let (message, rest): (BackendExecutionToWorkerRef<'a>, &'a [u8]) = if tag
        == BACKEND_EXECUTION_START_TAG {
        let (plan, s3) = match read_plan(s2) {
            Ok(read) => read,
            Err(e) => {
                return Err(e);
            },
        };
        let (options, s4) = match read_options(s3) {
            Ok(read) => read,
            Err(e) => {
                return Err(e);
            },
        };
        let (scans, s5) = match decode_scan_channel_set_ref(s4) {
            Ok(read) => read,
            Err(e) => {
                return Err(e);
            },
        };
        proof {
            if s5@.len() == 0 {
                assert(s4@ =~= bytes@.skip(START_EXECUTION_FIXED_LEN as int));
                assert(scans.bytes@ =~= s4@);
            }
        }
        (
            BackendExecutionToWorkerRef::StartExecution { session_epoch, plan, options, scans },
            s5,
        )
    } else if tag == BACKEND_EXECUTION_CANCEL_TAG {
        (BackendExecutionToWorkerRef::CancelExecution { session_epoch }, s2)
    } else if tag == BACKEND_EXECUTION_FAIL_TAG {
        let ((code, detail), s3) = match read_failure(s2) {
            Ok(read) => read,
            Err(e) => {
                return Err(e);
            },
        };
        (BackendExecutionToWorkerRef::FailExecution { session_epoch, code, detail }, s3)
    } else {
        return Err(DecodeError::UnexpectedTag { actual: tag });
    };
    match ensure_no_trailing_bytes(rest) {
        Ok(()) => Ok(message),
        Err(e) => Err(e),
    }
}

/// Decode one worker-execution control message.
pub fn decode_worker_execution_to_backend(bytes: &[u8]) -> (r: Result<
    WorkerExecutionToBackend,
    DecodeError,
>)
    ensures
        match parse_worker_execution(bytes@) {
            Ok(message) => r == Ok::<WorkerExecutionToBackend, DecodeError>(message),
            Err(fault) => r matches Err(e) && e@ == fault,
        },
{
    let (tag, s1) = match read_family(bytes, RuntimeMessageFamily::WorkerExecutionToBackend) {
        Ok(read) => read,
        Err(e) => {
            return Err(e);
        },
    };
    let (session_epoch, s2) = match read_u64_from(s1) {
        Ok(read) => read,
        Err(e) => {
            return Err(e);
        },
    };
    let (message, rest) = if tag == WORKER_EXECUTION_COMPLETE_TAG {
        (WorkerExecutionToBackend::CompleteExecution { session_epoch }, s2)
    } else if tag == WORKER_EXECUTION_FAIL_TAG {
        let ((code, detail), s3) = match read_failure(s2) {
            Ok(read) => read,
            Err(e) => {
                return Err(e);
            },
        };
        (WorkerExecutionToBackend::FailExecution { session_epoch, code, detail }, s3)
    } else {
        return Err(DecodeError::UnexpectedTag { actual: tag });
    };
    match ensure_no_trailing_bytes(rest) {
        Ok(()) => Ok(message),
        Err(e) => Err(e),
    }
}

/// Decode one borrowed worker-scan control message. The producers keep the bytes
/// that they have in the message.
pub fn decode_worker_scan_to_backend<'a>(bytes: &'a [u8]) -> (r: Result<
    WorkerScanToBackendRef<'a>,
    DecodeError,
>)
    ensures
        match parse_worker_scan(bytes@) {
            Ok(message) => r matches Ok(m) && m@ == message && m.wf(),
            Err(fault) => r matches Err(e) && e@ == fault,
        },
        r matches Ok(WorkerScanToBackendRef::OpenScan { scan, .. }) ==> scan.producers.bytes@
            == bytes@.skip(OPEN_SCAN_FIXED_LEN as int),
{
    let (tag, s1) = match read_family(bytes, RuntimeMessageFamily::WorkerScanToBackend) {
        Ok(read) => read,
        Err(e) => {
            return Err(e);
        },
    };
    let (session_epoch, s2) = match read_u64_from(s1) {
        Ok(read) => read,
        Err(e) => {
            return Err(e);
        },
    };
    if tag != WORKER_SCAN_OPEN_TAG && tag != WORKER_SCAN_CANCEL_TAG {
        return Err(DecodeError::UnexpectedTag { actual: tag });
    }
    let (scan_id, s3) = match read_u64_from(s2) {
        Ok(read) => read,
        Err(e) => {
            return Err(e);
        },
    };
    let (message, rest): (WorkerScanToBackendRef<'a>, &'a [u8]) = if tag == WORKER_SCAN_OPEN_TAG {
        let (page_kind, s4) = match read_u16_from(s3) {
            Ok(read) => read,
            Err(e) => {
                return Err(e);
            },
        };
        let (page_flags, s5) = match read_u16_from(s4) {
            Ok(read) => read,
            Err(e) => {
                return Err(e);
            },
        };
        let (producers, s6) = match decode_producer_set_ref(s5) {
            Ok(read) => read,
            Err(e) => {
                return Err(e);
            },
        };
        proof {
            if s6@.len() == 0 {
                assert(s5@ =~= bytes@.skip(OPEN_SCAN_FIXED_LEN as int));
                assert(producers.bytes@ =~= s5@);
            }
        }
        let scan: ScanFlowDescriptorRef<'a> = ScanFlowDescriptorRef::new(
            page_kind,
            page_flags,
            producers,
        );
        (WorkerScanToBackendRef::OpenScan { session_epoch, scan_id, scan }, s6)
    } else {
        (WorkerScanToBackendRef::CancelScan { session_epoch, scan_id }, s3)
    };
    match ensure_no_trailing_bytes(rest) {
        Ok(()) => Ok(message),
        Err(e) => Err(e),
    }
}

/// Decode one borrowed backend-scan terminal message.
pub fn decode_backend_scan_to_worker<'a>(bytes: &'a [u8]) -> (r: Result<
    BackendScanToWorkerRef<'a>,
    DecodeError,
>)
    ensures
        match parse_backend_scan(bytes@) {
            Ok(message) => r matches Ok(m) && m@ == message,
            Err(fault) => r matches Err(e) && e@ == fault,
        },
{
    let (tag, s1) = match read_family(bytes, RuntimeMessageFamily::BackendScanToWorker) {
        Ok(read) => read,
        Err(e) => {
            return Err(e);
        },
    };
    let ((session_epoch, scan_id, producer_id), s2) = match read_terminal(s1) {
        Ok(read) => read,
        Err(e) => {
            return Err(e);
        },
    };
    let (message, rest): (BackendScanToWorkerRef<'a>, &'a [u8]) = if tag
        == BACKEND_SCAN_FINISHED_TAG {
        (BackendScanToWorkerRef::ScanFinished { session_epoch, scan_id, producer_id }, s2)
    } else if tag == BACKEND_SCAN_FAILED_TAG {
        let (text, s3) = match read_str_from(s2) {
            Ok(read) => read,
            Err(e) => {
                return Err(e);
            },
        };
        (
            BackendScanToWorkerRef::ScanFailed {
                session_epoch,
                scan_id,
                producer_id,
                message: text,
            },
            s3,
        )
    } else {
        return Err(DecodeError::UnexpectedTag { actual: tag });
    };
    match ensure_no_trailing_bytes(rest) {
        Ok(()) => Ok(message),
        Err(e) => Err(e),
    }
}

} // verus!
