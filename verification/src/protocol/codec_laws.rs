//! What holds between encoding and decoding.

use super::codec::{
    backend_execution_bytes, backend_execution_fault, backend_scan_bytes, backend_scan_fault,
    failure_bytes, options_bytes, parse_backend_execution, parse_backend_execution_body,
    parse_backend_scan, parse_failure, parse_family, parse_open_scan, parse_options, parse_plan,
    parse_terminal, parse_worker_execution, parse_worker_scan, plan_bytes, terminal_bytes,
    u16_bytes, u64_bytes, worker_execution_bytes, worker_scan_bytes, worker_scan_fault,
};
use super::envelope::{
    header_bytes, law_header_round_trip, BACKEND_EXECUTION_CANCEL_TAG, BACKEND_EXECUTION_FAIL_TAG,
    BACKEND_EXECUTION_START_TAG, BACKEND_SCAN_FAILED_TAG, BACKEND_SCAN_FINISHED_TAG,
    WORKER_EXECUTION_COMPLETE_TAG, WORKER_EXECUTION_FAIL_TAG, WORKER_SCAN_CANCEL_TAG,
    WORKER_SCAN_OPEN_TAG,
};
use super::error::DecodeFault;
use super::message::{
    failure_byte, family_byte, BackendExecutionMessage, BackendScanMessage, ExecutionFailureCode,
    ExecutionOptionsWire, RuntimeMessageFamily, WorkerExecutionToBackend, WorkerScanMessage,
};
use super::msgpack::{
    law_array_len_round_trip, law_integers_round_trip, law_optional_round_trip, law_str_round_trip,
    optional_u64_bytes, str_bytes, uint_bytes, MARKER_U32, MARKER_U8,
};
use super::scan::PlanFlowDescriptor;
use super::session::{
    CONTROL_TRANSPORT_PAYLOAD_OVERHEAD, MIN_SCAN_BACKEND_TO_WORKER_RING_CAPACITY,
    MIN_SCAN_WORKER_TO_BACKEND_RING_CAPACITY,
};
use super::set_reading::{
    law_channel_set_round_trip, law_producer_set_round_trip, lemma_add_assoc, lemma_list_lens,
};
use super::sets::{channel_set_bytes, producer_set_bytes};
use super::validation::producer_set_fault;
use vstd::prelude::*;
use vstd::utf8::{encode_utf8, encode_utf8_decode_utf8, encode_utf8_valid_utf8};

verus! {

proof fn lemma_plan_round_trip(plan: PlanFlowDescriptor, rest: Seq<u8>)
    ensures
        parse_plan(plan_bytes(plan) + rest) == Ok::<(PlanFlowDescriptor, Seq<u8>), DecodeFault>(
            (plan, rest),
        ),
{
    let r2 = u16_bytes(plan.page_flags) + rest;
    let r1 = u16_bytes(plan.page_kind) + r2;
    law_integers_round_trip(0, plan.page_flags, 0, 0, rest);
    law_integers_round_trip(0, plan.page_kind, 0, 0, r2);
    law_integers_round_trip(0, 0, 0, plan.plan_id, r1);
    assert(plan_bytes(plan) + rest =~= u64_bytes(plan.plan_id) + r1);
}

proof fn lemma_options_round_trip(options: ExecutionOptionsWire, rest: Seq<u8>)
    ensures
        parse_options(options_bytes(options) + rest) == Ok::<
            (ExecutionOptionsWire, Seq<u8>),
            DecodeFault,
        >((options, rest)),
{
    let enabled: u8 = if options.runtime_filter_enabled {
        1
    } else {
        0
    };
    let b0 = uint_bytes(MARKER_U32, options.scan_batch_channel_capacity as nat, 4);
    let b1 = uint_bytes(MARKER_U32, options.scan_idle_poll_interval_us as nat, 4);
    let b2 = uint_bytes(MARKER_U8, enabled as nat, 1);
    law_integers_round_trip(enabled, 0, 0, 0, rest);
    law_integers_round_trip(0, 0, options.scan_idle_poll_interval_us, 0, b2 + rest);
    law_integers_round_trip(0, 0, options.scan_batch_channel_capacity, 0, b1 + (b2 + rest));
    lemma_add_assoc(b0, b1 + b2, rest);
    lemma_add_assoc(b1, b2, rest);
}

proof fn lemma_failure_round_trip(code: ExecutionFailureCode, detail: Option<u64>, rest: Seq<u8>)
    ensures
        parse_failure(failure_bytes(code, detail) + rest) == Ok::<
            ((ExecutionFailureCode, Option<u64>), Seq<u8>),
            DecodeFault,
        >(((code, detail), rest)),
{
    let byte = failure_byte(code);
    let r1 = optional_u64_bytes(detail) + rest;
    law_integers_round_trip(byte, 0, 0, 0, r1);
    law_optional_round_trip(detail, rest);
    lemma_add_assoc(uint_bytes(MARKER_U8, byte as nat, 1), optional_u64_bytes(detail), rest);
}

proof fn lemma_terminal_round_trip(
    session_epoch: u64,
    scan_id: u64,
    producer_id: u16,
    rest: Seq<u8>,
)
    ensures
        parse_terminal(terminal_bytes(session_epoch, scan_id, producer_id) + rest) == Ok::<
            ((u64, u64, u16), Seq<u8>),
            DecodeFault,
        >(((session_epoch, scan_id, producer_id), rest)),
        terminal_bytes(session_epoch, scan_id, producer_id).len() == 21,
{
    let r2 = u16_bytes(producer_id) + rest;
    let r1 = u64_bytes(scan_id) + r2;
    law_integers_round_trip(0, producer_id, 0, 0, rest);
    law_integers_round_trip(0, 0, 0, scan_id, r2);
    law_integers_round_trip(0, 0, 0, session_epoch, r1);
    assert(terminal_bytes(session_epoch, scan_id, producer_id) + rest =~= u64_bytes(session_epoch)
        + r1);
}

proof fn lemma_no_rest(bytes: Seq<u8>)
    ensures
        bytes + Seq::<u8>::empty() == bytes,
{
    assert(bytes + Seq::<u8>::empty() =~= bytes);
}

/// A message of backend execution control that can be encoded decodes to
/// itself.
pub proof fn law_backend_execution_round_trip(message: BackendExecutionMessage)
    requires
        backend_execution_fault(message) is None,
    ensures
        parse_backend_execution(backend_execution_bytes(message)) == Ok::<
            BackendExecutionMessage,
            DecodeFault,
        >(message),
{
    let family = RuntimeMessageFamily::BackendExecutionToWorker;
    let none = Seq::<u8>::empty();
    match message {
        BackendExecutionMessage::StartExecution { session_epoch, plan, options, scans } => {
            let r3 = channel_set_bytes(scans);
            let r2 = options_bytes(options) + r3;
            let r1 = plan_bytes(plan) + r2;
            let r0 = u64_bytes(session_epoch) + r1;
            law_header_round_trip(family, BACKEND_EXECUTION_START_TAG, r0);
            law_integers_round_trip(0, 0, 0, session_epoch, r1);
            lemma_plan_round_trip(plan, r2);
            lemma_options_round_trip(options, r3);
            law_channel_set_round_trip(scans, none);
            lemma_no_rest(r3);
            assert(parse_backend_execution_body(BACKEND_EXECUTION_START_TAG, session_epoch, r1)
                == Ok::<BackendExecutionMessage, DecodeFault>(message));
        },
        BackendExecutionMessage::CancelExecution { session_epoch } => {
            let r0 = u64_bytes(session_epoch);
            law_header_round_trip(family, BACKEND_EXECUTION_CANCEL_TAG, r0);
            law_integers_round_trip(0, 0, 0, session_epoch, none);
            lemma_no_rest(r0);
        },
        BackendExecutionMessage::FailExecution { session_epoch, code, detail } => {
            let r1 = failure_bytes(code, detail);
            let r0 = u64_bytes(session_epoch) + r1;
            law_header_round_trip(family, BACKEND_EXECUTION_FAIL_TAG, r0);
            law_integers_round_trip(0, 0, 0, session_epoch, r1);
            lemma_failure_round_trip(code, detail, none);
            lemma_no_rest(r1);
        },
    }
}

/// A message of worker execution control decodes to itself.
pub proof fn law_worker_execution_round_trip(message: WorkerExecutionToBackend)
    ensures
        parse_worker_execution(worker_execution_bytes(message)) == Ok::<
            WorkerExecutionToBackend,
            DecodeFault,
        >(message),
{
    let family = RuntimeMessageFamily::WorkerExecutionToBackend;
    let none = Seq::<u8>::empty();
    match message {
        WorkerExecutionToBackend::CompleteExecution { session_epoch } => {
            let r0 = u64_bytes(session_epoch);
            law_header_round_trip(family, WORKER_EXECUTION_COMPLETE_TAG, r0);
            law_integers_round_trip(0, 0, 0, session_epoch, none);
            lemma_no_rest(r0);
        },
        WorkerExecutionToBackend::FailExecution { session_epoch, code, detail } => {
            let r1 = failure_bytes(code, detail);
            let r0 = u64_bytes(session_epoch) + r1;
            law_header_round_trip(family, WORKER_EXECUTION_FAIL_TAG, r0);
            law_integers_round_trip(0, 0, 0, session_epoch, r1);
            lemma_failure_round_trip(code, detail, none);
            lemma_no_rest(r1);
        },
    }
}

/// The producers of an opened scan form a set.
pub open spec fn opens_valid_set(message: WorkerScanMessage) -> bool {
    message matches WorkerScanMessage::OpenScan { producers, .. } ==> producer_set_fault(
        producers,
    ) is None
}

/// A message of worker scan control that can be encoded, and whose producers
/// form a set, decodes to itself.
pub proof fn law_worker_scan_round_trip(message: WorkerScanMessage)
    requires
        worker_scan_fault(message) is None,
        opens_valid_set(message),
    ensures
        parse_worker_scan(worker_scan_bytes(message)) == Ok::<WorkerScanMessage, DecodeFault>(
            message,
        ),
{
    let family = RuntimeMessageFamily::WorkerScanToBackend;
    let none = Seq::<u8>::empty();
    match message {
        WorkerScanMessage::OpenScan { session_epoch, scan_id, page_kind, page_flags, producers } => {
            let r4 = producer_set_bytes(producers);
            let r3 = u16_bytes(page_flags) + r4;
            let r2 = u16_bytes(page_kind) + r3;
            let r1 = u64_bytes(scan_id) + r2;
            let r0 = u64_bytes(session_epoch) + r1;
            law_header_round_trip(family, WORKER_SCAN_OPEN_TAG, r0);
            law_integers_round_trip(0, 0, 0, session_epoch, r1);
            law_integers_round_trip(0, 0, 0, scan_id, r2);
            law_integers_round_trip(0, page_kind, 0, 0, r3);
            law_integers_round_trip(0, page_flags, 0, 0, r4);
            law_producer_set_round_trip(producers, none);
            lemma_no_rest(r4);
            assert(parse_open_scan(session_epoch, r1) == Ok::<WorkerScanMessage, DecodeFault>(
                message,
            ));
        },
        WorkerScanMessage::CancelScan { session_epoch, scan_id } => {
            let r1 = u64_bytes(scan_id);
            let r0 = u64_bytes(session_epoch) + r1;
            law_header_round_trip(family, WORKER_SCAN_CANCEL_TAG, r0);
            law_integers_round_trip(0, 0, 0, session_epoch, r1);
            law_integers_round_trip(0, 0, 0, scan_id, none);
            lemma_no_rest(r1);
        },
    }
}

/// A scan terminal that can be encoded decodes to itself.
pub proof fn law_backend_scan_round_trip(message: BackendScanMessage)
    requires
        backend_scan_fault(message) is None,
    ensures
        parse_backend_scan(backend_scan_bytes(message)) == Ok::<BackendScanMessage, DecodeFault>(
            message,
        ),
{
    let family = RuntimeMessageFamily::BackendScanToWorker;
    let none = Seq::<u8>::empty();
    match message {
        BackendScanMessage::ScanFinished { session_epoch, scan_id, producer_id } => {
            let r0 = terminal_bytes(session_epoch, scan_id, producer_id);
            law_header_round_trip(family, BACKEND_SCAN_FINISHED_TAG, r0);
            lemma_terminal_round_trip(session_epoch, scan_id, producer_id, none);
            lemma_no_rest(r0);
        },
        BackendScanMessage::ScanFailed { session_epoch, scan_id, producer_id, message: text } => {
            let utf8 = encode_utf8(text);
            let r1 = str_bytes(utf8);
            let r0 = terminal_bytes(session_epoch, scan_id, producer_id) + r1;
            law_header_round_trip(family, BACKEND_SCAN_FAILED_TAG, r0);
            lemma_terminal_round_trip(session_epoch, scan_id, producer_id, r1);
            encode_utf8_valid_utf8(text);
            encode_utf8_decode_utf8(text);
            law_str_round_trip(utf8, none);
            lemma_no_rest(r1);
        },
    }
}

/// Every scan terminal that can be encoded fits into one frame of the smallest
/// ring towards the worker.
pub proof fn law_scan_terminal_fits(message: BackendScanMessage)
    requires
        backend_scan_fault(message) is None,
    ensures
        backend_scan_bytes(message).len() <= MIN_SCAN_BACKEND_TO_WORKER_RING_CAPACITY
            - CONTROL_TRANSPORT_PAYLOAD_OVERHEAD,
{
    let family = RuntimeMessageFamily::BackendScanToWorker;
    let none = Seq::<u8>::empty();
    match message {
        BackendScanMessage::ScanFinished { session_epoch, scan_id, producer_id } => {
            law_header_round_trip(family, BACKEND_SCAN_FINISHED_TAG, none);
            lemma_terminal_round_trip(session_epoch, scan_id, producer_id, none);
        },
        BackendScanMessage::ScanFailed { session_epoch, scan_id, producer_id, message: text } => {
            law_header_round_trip(family, BACKEND_SCAN_FAILED_TAG, none);
            lemma_terminal_round_trip(session_epoch, scan_id, producer_id, none);
            encode_utf8_valid_utf8(text);
            law_str_round_trip(encode_utf8(text), none);
        },
    }
}

/// Opening a scan with a leader and at most 32 workers fits into one frame of
/// the smallest ring towards the backend.
pub proof fn law_open_scan_fits(message: WorkerScanMessage)
    requires
        message matches WorkerScanMessage::OpenScan { producers, .. } ==> producers.len() <= 33,
    ensures
        worker_scan_bytes(message).len() <= MIN_SCAN_WORKER_TO_BACKEND_RING_CAPACITY
            - CONTROL_TRANSPORT_PAYLOAD_OVERHEAD,
{
    let family = RuntimeMessageFamily::WorkerScanToBackend;
    let none = Seq::<u8>::empty();
    match message {
        WorkerScanMessage::OpenScan { session_epoch, scan_id, page_kind, page_flags, producers } => {
            law_header_round_trip(family, WORKER_SCAN_OPEN_TAG, none);
            law_integers_round_trip(0, page_kind, 0, session_epoch, none);
            law_integers_round_trip(0, page_flags, 0, scan_id, none);
            law_array_len_round_trip(producers.len() as u32, none);
            lemma_list_lens(producers, Seq::empty());
        },
        WorkerScanMessage::CancelScan { session_epoch, scan_id } => {
            law_header_round_trip(family, WORKER_SCAN_CANCEL_TAG, none);
            law_integers_round_trip(0, 0, 0, session_epoch, none);
            law_integers_round_trip(0, 0, 0, scan_id, none);
        },
    }
}

/// A message of one family is refused by the decoders of the others: its
/// envelope says which family it is of.
pub proof fn law_other_family_is_refused(
    family: RuntimeMessageFamily,
    tag: u8,
    rest: Seq<u8>,
    expected: RuntimeMessageFamily,
)
    requires
        family != expected,
    ensures
        parse_family(header_bytes(family, tag) + rest, expected) == Err::<
            (u8, Seq<u8>),
            DecodeFault,
        >(DecodeFault::UnexpectedMessageFamily { actual: family_byte(family) }),
{
    law_header_round_trip(family, tag, rest);
}

} // verus!
