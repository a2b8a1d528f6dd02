//! Where each part of a message stands among its bytes.

use super::codec::{
    parse_backend_execution, parse_backend_scan, parse_worker_execution, parse_worker_scan,
};
use super::envelope::law_envelope_is_eight_bytes;
use super::error::DecodeFault;
use super::message::{
    failure_byte, failure_of, family_byte, family_of, BackendExecutionMessage,
    BackendExecutionToWorker, BackendExecutionToWorkerRef, BackendScanMessage, BackendScanToWorker,
    BackendScanToWorkerRef, ExecutionFailureCode, ExecutionOptionsWire, RuntimeMessageFamily,
    WorkerExecutionToBackend, WorkerScanMessage, WorkerScanToBackend, WorkerScanToBackendRef,
};
use super::msgpack::{
    parse_array_len, parse_optional_u64, parse_str, parse_str_len, parse_u16, parse_u32, parse_u64,
    parse_u8, parse_uint,
};
use super::scan::{
    role_byte, role_of, PlanFlowDescriptor, ProducerDescriptorWire, ProducerRole,
    ScanChannelDescriptorWire,
};
use super::sets::{
    lemma_plain_channels_len, lemma_plain_producers_len, parse_channel, parse_channel_set,
    parse_channels, parse_producer, parse_producer_set, parse_producers, plain_channels,
    plain_producers,
};
use super::validation::{observe_step, ScanChannelValidationState};
use crate::bytes::{be_value, lemma_be_value_bound, lemma_byte_bounds};
use vstd::prelude::*;
use vstd::utf8::{decode_utf8, valid_utf8};

verus! {

/// The number that stands at a place: a marker and `width` bytes, the highest
/// first. None, where another marker stands there or bytes are missing.
pub open spec fn number_at(bytes: Seq<u8>, at: int, marker: u8, width: nat) -> Option<nat> {
    if 0 <= at && at + 1 + width <= bytes.len() && bytes[at] == marker {
        Some(be_value(bytes.subrange(at + 1, at + 1 + width)))
    } else {
        None
    }
}

/// The bytes begin with the envelope of this family and tag.
pub open spec fn begins_with(bytes: Seq<u8>, family: u8, tag: u8) -> bool {
    &&& bytes.len() >= 8
    &&& bytes[0] == 0x50
    &&& bytes[1] == 0x46
    &&& bytes[2] == 0x52
    &&& bytes[3] == 0x32
    &&& bytes[4] == 0
    &&& bytes[5] == 4
    &&& bytes[6] == family
    &&& bytes[7] == tag
}

proof fn lemma_skip_skip(bytes: Seq<u8>, a: int, b: int)
    requires
        0 <= a,
        0 <= b,
        a + b <= bytes.len(),
    ensures
        bytes.skip(a).skip(b) == bytes.skip(a + b),
{
    assert(bytes.skip(a).skip(b) =~= bytes.skip(a + b));
}

proof fn lemma_uint_at(bytes: Seq<u8>, at: int, marker: u8, width: nat)
    requires
        0 <= at <= bytes.len(),
    ensures
        match parse_uint(bytes.skip(at), marker, width) {
            Ok((value, rest)) => number_at(bytes, at, marker, width) == Some(value) && at + 1
                + width <= bytes.len() && rest == bytes.skip(at + 1 + width),
            Err(_) => number_at(bytes, at, marker, width) is None,
        },
{
    let source = bytes.skip(at);
    if source.len() > 0 && source[0] == marker && source.skip(1).len() >= width {
        lemma_skip_skip(bytes, at, 1);
        lemma_skip_skip(bytes, at + 1, width as int);
        assert(source.skip(1).take(width as int) =~= bytes.subrange(at + 1, at + 1 + width));
    }
}

/// An integer is read exactly where its marker stands with all its bytes behind
/// it, and what comes behind them is left.
pub proof fn law_integers_stand_behind_their_markers(bytes: Seq<u8>, at: int)
    requires
        0 <= at <= bytes.len(),
    ensures
        match parse_u8(bytes.skip(at)) {
            Ok((value, rest)) => number_at(bytes, at, 0xcc, 1) == Some(value as nat) && rest
                == bytes.skip(at + 2) && at + 2 <= bytes.len(),
            Err(_) => number_at(bytes, at, 0xcc, 1) is None,
        },
        match parse_u16(bytes.skip(at)) {
            Ok((value, rest)) => number_at(bytes, at, 0xcd, 2) == Some(value as nat) && rest
                == bytes.skip(at + 3) && at + 3 <= bytes.len(),
            Err(_) => number_at(bytes, at, 0xcd, 2) is None,
        },
        match parse_u32(bytes.skip(at)) {
            Ok((value, rest)) => number_at(bytes, at, 0xce, 4) == Some(value as nat) && rest
                == bytes.skip(at + 5) && at + 5 <= bytes.len(),
            Err(_) => number_at(bytes, at, 0xce, 4) is None,
        },
        match parse_u64(bytes.skip(at)) {
            Ok((value, rest)) => number_at(bytes, at, 0xcf, 8) == Some(value as nat) && rest
                == bytes.skip(at + 9) && at + 9 <= bytes.len(),
            Err(_) => number_at(bytes, at, 0xcf, 8) is None,
        },
{
    lemma_uint_at(bytes, at, 0xcc, 1);
    lemma_uint_at(bytes, at, 0xcd, 2);
    lemma_uint_at(bytes, at, 0xce, 4);
    lemma_uint_at(bytes, at, 0xcf, 8);
    lemma_byte_bounds();
    if number_at(bytes, at, 0xcc, 1) is Some {
        lemma_be_value_bound(bytes.subrange(at + 1, at + 2));
    }
    if number_at(bytes, at, 0xcd, 2) is Some {
        lemma_be_value_bound(bytes.subrange(at + 1, at + 3));
    }
    if number_at(bytes, at, 0xce, 4) is Some {
        lemma_be_value_bound(bytes.subrange(at + 1, at + 5));
    }
    if number_at(bytes, at, 0xcf, 8) is Some {
        lemma_be_value_bound(bytes.subrange(at + 1, at + 9));
    }
}

/// An array of up to fifteen items says their number in its first byte; a longer
/// one says it in two or four bytes behind its marker.
pub proof fn law_array_headers(source: Seq<u8>)
    requires
        source.len() > 0,
    ensures
        0x90 <= source[0] <= 0x9f ==> parse_array_len(source) == Ok::<
            (nat, Seq<u8>),
            DecodeFault,
        >(((source[0] - 0x90) as nat, source.skip(1))),
        source[0] == 0xdc && source.len() >= 3 ==> (parse_array_len(source) matches Ok((n, rest))
            && n == source[1] * 256 + source[2] && rest == source.skip(3)),
        source[0] == 0xdd && source.len() >= 5 ==> (parse_array_len(source) matches Ok((n, rest))
            && n == be_value(source.subrange(1, 5)) && rest == source.skip(5)),
        !(0x90 <= source[0] <= 0x9f) && source[0] != 0xdc && source[0] != 0xdd ==> parse_array_len(
            source,
        ) is Err,
{
    if source[0] == 0xdc && source.len() >= 3 {
        lemma_skip_skip(source, 1, 2);
        let data = source.skip(1).take(2);
        reveal_with_fuel(be_value, 3);
        assert(data[0] == source[1] && data[1] == source[2]);
        assert(data.drop_last().drop_last() =~= Seq::<u8>::empty());
        assert(data.drop_last().last() == source[1]);
    }
    if source[0] == 0xdd && source.len() >= 5 {
        lemma_skip_skip(source, 1, 4);
        assert(source.skip(1).take(4) =~= source.subrange(1, 5));
    }
}

/// A text of less than 32 bytes says its length in its first byte; a longer one
/// says it in one, two or four bytes behind its marker. Its bytes come behind, and
/// have to be there and to be UTF-8.
pub proof fn law_texts_stand_behind_their_lengths(source: Seq<u8>)
    requires
        source.len() > 0,
    ensures
        0xa0 <= source[0] <= 0xbf ==> parse_str_len(source) == Ok::<(nat, Seq<u8>), DecodeFault>(
            ((source[0] - 0xa0) as nat, source.skip(1)),
        ),
        source[0] == 0xd9 && source.len() >= 2 ==> (parse_str_len(source) matches Ok((n, rest))
            && n == be_value(source.subrange(1, 2)) && rest == source.skip(2)),
        source[0] == 0xda && source.len() >= 3 ==> (parse_str_len(source) matches Ok((n, rest))
            && n == be_value(source.subrange(1, 3)) && rest == source.skip(3)),
        source[0] == 0xdb && source.len() >= 5 ==> (parse_str_len(source) matches Ok((n, rest))
            && n == be_value(source.subrange(1, 5)) && rest == source.skip(5)),
        !(0xa0 <= source[0] <= 0xbf) && !(0xd9 <= source[0] <= 0xdb) ==> parse_str_len(
            source,
        ) is Err,
        match parse_str_len(source) {
            Err(fault) => parse_str(source) == Err::<(Seq<u8>, Seq<u8>), DecodeFault>(fault),
            Ok((n, rest)) => {
                &&& parse_str(source) is Ok <==> rest.len() >= n && valid_utf8(rest.take(n as int))
                &&& parse_str(source) matches Ok((text, left)) ==> text.len() == n && text + left
                    == rest
            },
        },
{
    if source[0] == 0xd9 && source.len() >= 2 {
        lemma_skip_skip(source, 1, 1);
        assert(source.skip(1).take(1) =~= source.subrange(1, 2));
    }
    if source[0] == 0xda && source.len() >= 3 {
        lemma_skip_skip(source, 1, 2);
        assert(source.skip(1).take(2) =~= source.subrange(1, 3));
    }
    if source[0] == 0xdb && source.len() >= 5 {
        lemma_skip_skip(source, 1, 4);
        assert(source.skip(1).take(4) =~= source.subrange(1, 5));
    }
    if parse_str(source) is Ok {
        let (n, rest) = parse_str_len(source)->Ok_0;
        assert(rest.take(n as int) + rest.skip(n as int) =~= rest);
    }
}

/// A detail is nothing where the nil byte stands, a small number where a byte below
/// 128 stands, and otherwise a number of one, two, four or eight bytes behind its
/// marker. Anything else is refused.
pub proof fn law_details(source: Seq<u8>)
    requires
        source.len() > 0,
    ensures
        parse_optional_u64(source) matches Ok((None, rest)) ==> source[0] == 0xc0 && rest
            == source.skip(1),
        source[0] == 0xc0 ==> (parse_optional_u64(source) matches Ok((None, _))),
        source[0] <= 0x7f ==> parse_optional_u64(source) == Ok::<
            (Option<u64>, Seq<u8>),
            DecodeFault,
        >((Some(source[0] as u64), source.skip(1))),
        source[0] == 0xcf && source.len() >= 9 ==> (parse_optional_u64(source) matches Ok((
            Some(value),
            rest,
        )) && number_at(source, 0, 0xcf, 8) == Some(value as nat) && rest == source.skip(9)),
        source[0] == 0xce && source.len() >= 5 ==> (parse_optional_u64(source) matches Ok((
            Some(value),
            rest,
        )) && number_at(source, 0, 0xce, 4) == Some(value as nat) && rest == source.skip(5)),
        source[0] == 0xcd && source.len() >= 3 ==> (parse_optional_u64(source) matches Ok((
            Some(value),
            rest,
        )) && number_at(source, 0, 0xcd, 2) == Some(value as nat) && rest == source.skip(3)),
        source[0] == 0xcc && source.len() >= 2 ==> (parse_optional_u64(source) matches Ok((
            Some(value),
            rest,
        )) && number_at(source, 0, 0xcc, 1) == Some(value as nat) && rest == source.skip(2)),
        0x80 <= source[0] && source[0] != 0xc0 && !(0xcc <= source[0] <= 0xcf)
            ==> parse_optional_u64(source) is Err,
{
    assert(source.skip(0) =~= source);
    law_integers_stand_behind_their_markers(source, 0);
    lemma_uint_at(source, 0, 0xcc, 1);
    lemma_uint_at(source, 0, 0xcd, 2);
    lemma_uint_at(source, 0, 0xce, 4);
    lemma_uint_at(source, 0, 0xcf, 8);
}

/// The numbers of the families, the roles and the failure codes. No other byte
/// stands for any of them.
pub proof fn law_bytes_that_stand_for_something(
    family: RuntimeMessageFamily,
    role: ProducerRole,
    code: ExecutionFailureCode,
    byte: u8,
)
    ensures
        family_byte(RuntimeMessageFamily::BackendExecutionToWorker) == 1,
        family_byte(RuntimeMessageFamily::WorkerExecutionToBackend) == 2,
        family_byte(RuntimeMessageFamily::WorkerScanToBackend) == 3,
        family_byte(RuntimeMessageFamily::BackendScanToWorker) == 4,
        family_of(byte) == Some(family) <==> byte == family_byte(family),
        family_of(byte) is Some <==> 1 <= byte <= 4,
        role_byte(ProducerRole::Leader) == 1,
        role_byte(ProducerRole::Worker) == 2,
        role_of(byte) == Some(role) <==> byte == role_byte(role),
        role_of(byte) is Some <==> 1 <= byte <= 2,
        failure_byte(ExecutionFailureCode::Cancelled) == 1,
        failure_byte(ExecutionFailureCode::ProtocolViolation) == 2,
        failure_byte(ExecutionFailureCode::TransportRestarted) == 3,
        failure_byte(ExecutionFailureCode::Internal) == 4,
        failure_of(byte) == Some(code) <==> byte == failure_byte(code),
        failure_of(byte) is Some <==> 1 <= byte <= 4,
{
}

proof fn lemma_nothing_left(bytes: Seq<u8>, at: int)
    requires
        0 <= at <= bytes.len(),
    ensures
        bytes.skip(at).len() == bytes.len() - at,
        bytes.skip(at) == Seq::<u8>::empty() <==> at == bytes.len(),
{
    if at == bytes.len() {
        assert(bytes.skip(at) =~= Seq::<u8>::empty());
    }
}

/// Where the parts of a scan terminal stand: session, scan and producer behind the
/// envelope, and the text of a failure behind these.
pub proof fn law_scan_terminal_on_the_wire(
    bytes: Seq<u8>,
    session_epoch: u64,
    scan_id: u64,
    producer_id: u16,
    text: Seq<u8>,
)
    requires
        bytes.len() <= usize::MAX,
    ensures
        ({
            let target = number_at(bytes, 8, 0xcf, 8) == Some(session_epoch as nat) && number_at(
                bytes,
                17,
                0xcf,
                8,
            ) == Some(scan_id as nat) && number_at(bytes, 26, 0xcd, 2) == Some(producer_id as nat);
            &&& parse_backend_scan(bytes) == Ok::<BackendScanMessage, DecodeFault>(
                BackendScanMessage::ScanFinished { session_epoch, scan_id, producer_id },
            ) <==> begins_with(bytes, 4, 1) && target && bytes.len() == 29
            &&& begins_with(bytes, 4, 2) && target && parse_str(bytes.skip(29)) == Ok::<
                (Seq<u8>, Seq<u8>),
                DecodeFault,
            >((text, Seq::<u8>::empty())) ==> parse_backend_scan(bytes) == Ok::<
                BackendScanMessage,
                DecodeFault,
            >(
                BackendScanMessage::ScanFailed {
                    session_epoch,
                    scan_id,
                    producer_id,
                    message: decode_utf8(text),
                },
            )
            &&& begins_with(bytes, 4, bytes[7]) && bytes[7] != 1 && bytes[7] != 2 && target
                ==> parse_backend_scan(bytes) == Err::<BackendScanMessage, DecodeFault>(
                DecodeFault::UnexpectedTag { actual: bytes[7] },
            )
        }),
{
    law_envelope_is_eight_bytes(bytes);
    if begins_with(bytes, 4, bytes[7]) {
        law_integers_stand_behind_their_markers(bytes, 8);
        if number_at(bytes, 8, 0xcf, 8) is Some {
            law_integers_stand_behind_their_markers(bytes, 17);
            if number_at(bytes, 17, 0xcf, 8) is Some {
                law_integers_stand_behind_their_markers(bytes, 26);
                if number_at(bytes, 26, 0xcd, 2) is Some {
                    lemma_nothing_left(bytes, 29);
                }
            }
        }
    }
}

/// Where the parts of worker scan control stand: session and scan behind the
/// envelope, and, to open a scan, the kind and the flags of its pages and its
/// producers behind these.
pub proof fn law_scan_control_on_the_wire(
    bytes: Seq<u8>,
    session_epoch: u64,
    scan_id: u64,
    page_kind: u16,
    page_flags: u16,
    producers: Seq<ProducerDescriptorWire>,
)
    requires
        bytes.len() <= usize::MAX,
    ensures
        ({
            let target = number_at(bytes, 8, 0xcf, 8) == Some(session_epoch as nat) && number_at(
                bytes,
                17,
                0xcf,
                8,
            ) == Some(scan_id as nat);
            let pages = number_at(bytes, 26, 0xcd, 2) == Some(page_kind as nat) && number_at(
                bytes,
                29,
                0xcd,
                2,
            ) == Some(page_flags as nat);
            &&& parse_worker_scan(bytes) == Ok::<WorkerScanMessage, DecodeFault>(
                WorkerScanMessage::CancelScan { session_epoch, scan_id },
            ) <==> begins_with(bytes, 3, 2) && target && bytes.len() == 26
            &&& parse_worker_scan(bytes) == Ok::<WorkerScanMessage, DecodeFault>(
                WorkerScanMessage::OpenScan {
                    session_epoch,
                    scan_id,
                    page_kind,
                    page_flags,
                    producers,
                },
            ) <==> begins_with(bytes, 3, 1) && target && pages && parse_producer_set(
                bytes.skip(32),
            ) == Ok::<(Seq<ProducerDescriptorWire>, Seq<u8>), DecodeFault>(
                (producers, Seq::<u8>::empty()),
            )
            &&& begins_with(bytes, 3, bytes[7]) && bytes[7] != 1 && bytes[7] != 2 && target
                ==> parse_worker_scan(bytes) == Err::<WorkerScanMessage, DecodeFault>(
                DecodeFault::UnexpectedTag { actual: bytes[7] },
            )
        }),
{
    law_envelope_is_eight_bytes(bytes);
    if begins_with(bytes, 3, bytes[7]) {
        law_integers_stand_behind_their_markers(bytes, 8);
        if number_at(bytes, 8, 0xcf, 8) is Some {
            law_integers_stand_behind_their_markers(bytes, 17);
            if number_at(bytes, 17, 0xcf, 8) is Some {
                lemma_nothing_left(bytes, 26);
                law_integers_stand_behind_their_markers(bytes, 26);
                if number_at(bytes, 26, 0xcd, 2) is Some {
                    law_integers_stand_behind_their_markers(bytes, 29);
                    if number_at(bytes, 29, 0xcd, 2) is Some {
                        if parse_producer_set(bytes.skip(32)) is Ok {
                            let (_, rest) = parse_producer_set(bytes.skip(32))->Ok_0;
                            if rest.len() == 0 {
                                assert(rest =~= Seq::<u8>::empty());
                            }
                        }
                    }
                }
            }
        }
    }
}

/// Where the parts of worker execution control stand: the session behind the
/// envelope, and the code and the detail of a failure behind that.
pub proof fn law_worker_control_on_the_wire(
    bytes: Seq<u8>,
    session_epoch: u64,
    code: ExecutionFailureCode,
    detail: Option<u64>,
)
    requires
        bytes.len() <= usize::MAX,
    ensures
        ({
            let session = number_at(bytes, 8, 0xcf, 8) == Some(session_epoch as nat);
            &&& parse_worker_execution(bytes) == Ok::<WorkerExecutionToBackend, DecodeFault>(
                WorkerExecutionToBackend::CompleteExecution { session_epoch },
            ) <==> begins_with(bytes, 2, 1) && session && bytes.len() == 17
            &&& parse_worker_execution(bytes) == Ok::<WorkerExecutionToBackend, DecodeFault>(
                WorkerExecutionToBackend::FailExecution { session_epoch, code, detail },
            ) <==> begins_with(bytes, 2, 2) && session && number_at(bytes, 17, 0xcc, 1) == Some(
                failure_byte(code) as nat,
            ) && parse_optional_u64(bytes.skip(19)) == Ok::<(Option<u64>, Seq<u8>), DecodeFault>(
                (detail, Seq::<u8>::empty()),
            )
            &&& begins_with(bytes, 2, bytes[7]) && bytes[7] != 1 && bytes[7] != 2 && session
                ==> parse_worker_execution(bytes) == Err::<WorkerExecutionToBackend, DecodeFault>(
                DecodeFault::UnexpectedTag { actual: bytes[7] },
            )
        }),
{
    law_envelope_is_eight_bytes(bytes);
    if begins_with(bytes, 2, bytes[7]) {
        law_integers_stand_behind_their_markers(bytes, 8);
        if number_at(bytes, 8, 0xcf, 8) is Some {
            lemma_failure_at(bytes, 17, code, detail);
            lemma_nothing_left(bytes, 17);
        }
    }
}

proof fn lemma_failure_at(
    bytes: Seq<u8>,
    at: int,
    code: ExecutionFailureCode,
    detail: Option<u64>,
)
    requires
        0 <= at <= bytes.len(),
    ensures
        super::codec::parse_failure(bytes.skip(at)) == Ok::<
            ((ExecutionFailureCode, Option<u64>), Seq<u8>),
            DecodeFault,
        >(((code, detail), Seq::<u8>::empty())) <==> number_at(bytes, at, 0xcc, 1) == Some(
            failure_byte(code) as nat,
        ) && parse_optional_u64(bytes.skip(at + 2)) == Ok::<(Option<u64>, Seq<u8>), DecodeFault>(
            (detail, Seq::<u8>::empty()),
        ),
        super::codec::parse_failure(bytes.skip(at)) matches Ok((_, rest)) ==> (rest.len() == 0
            ==> rest == Seq::<u8>::empty()),
{
    law_integers_stand_behind_their_markers(bytes, at);
    let r = super::codec::parse_failure(bytes.skip(at));
    if r is Ok {
        let (_, rest) = r->Ok_0;
        if rest.len() == 0 {
            assert(rest =~= Seq::<u8>::empty());
        }
    }
}

/// Where the parts of backend execution control stand: the session behind the
/// envelope; to start, the plan, the kind and the flags of its pages, the options
/// and the channels of the scans behind that; to fail, the code and the detail.
pub proof fn law_backend_control_on_the_wire(
    bytes: Seq<u8>,
    session_epoch: u64,
    code: ExecutionFailureCode,
    detail: Option<u64>,
)
    requires
        bytes.len() <= usize::MAX,
    ensures
        ({
            let session = number_at(bytes, 8, 0xcf, 8) == Some(session_epoch as nat);
            &&& parse_backend_execution(bytes) == Ok::<BackendExecutionMessage, DecodeFault>(
                BackendExecutionMessage::CancelExecution { session_epoch },
            ) <==> begins_with(bytes, 1, 2) && session && bytes.len() == 17
            &&& parse_backend_execution(bytes) == Ok::<BackendExecutionMessage, DecodeFault>(
                BackendExecutionMessage::FailExecution { session_epoch, code, detail },
            ) <==> begins_with(bytes, 1, 3) && session && number_at(bytes, 17, 0xcc, 1) == Some(
                failure_byte(code) as nat,
            ) && parse_optional_u64(bytes.skip(19)) == Ok::<(Option<u64>, Seq<u8>), DecodeFault>(
                (detail, Seq::<u8>::empty()),
            )
            &&& begins_with(bytes, 1, bytes[7]) && !(1 <= bytes[7] <= 3) && session
                ==> parse_backend_execution(bytes) == Err::<BackendExecutionMessage, DecodeFault>(
                DecodeFault::UnexpectedTag { actual: bytes[7] },
            )
        }),
{
    law_envelope_is_eight_bytes(bytes);
    if begins_with(bytes, 1, bytes[7]) {
        law_integers_stand_behind_their_markers(bytes, 8);
        if number_at(bytes, 8, 0xcf, 8) is Some {
            lemma_failure_at(bytes, 17, code, detail);
            lemma_nothing_left(bytes, 17);
        }
    }
}

/// Where the parts of a message that starts an execution stand. A filter is
/// enabled by any byte that is not zero.
pub proof fn law_start_on_the_wire(
    bytes: Seq<u8>,
    session_epoch: u64,
    plan: PlanFlowDescriptor,
    options: ExecutionOptionsWire,
    scans: Seq<ScanChannelDescriptorWire>,
)
    requires
        bytes.len() <= usize::MAX,
    ensures
        parse_backend_execution(bytes) == Ok::<BackendExecutionMessage, DecodeFault>(
            BackendExecutionMessage::StartExecution { session_epoch, plan, options, scans },
        ) <==> {
            &&& begins_with(bytes, 1, 1)
            &&& number_at(bytes, 8, 0xcf, 8) == Some(session_epoch as nat)
            &&& number_at(bytes, 17, 0xcf, 8) == Some(plan.plan_id as nat)
            &&& number_at(bytes, 26, 0xcd, 2) == Some(plan.page_kind as nat)
            &&& number_at(bytes, 29, 0xcd, 2) == Some(plan.page_flags as nat)
            &&& number_at(bytes, 32, 0xce, 4) == Some(options.scan_batch_channel_capacity as nat)
            &&& number_at(bytes, 37, 0xce, 4) == Some(options.scan_idle_poll_interval_us as nat)
            &&& number_at(bytes, 42, 0xcc, 1) is Some
            &&& options.runtime_filter_enabled <==> number_at(bytes, 42, 0xcc, 1) != Some(0nat)
            &&& parse_channel_set(bytes.skip(44)) == Ok::<
                (Seq<ScanChannelDescriptorWire>, Seq<u8>),
                DecodeFault,
            >((scans, Seq::<u8>::empty()))
        },
{
    law_envelope_is_eight_bytes(bytes);
    if begins_with(bytes, 1, 1) {
        law_integers_stand_behind_their_markers(bytes, 8);
        if number_at(bytes, 8, 0xcf, 8) is Some {
            lemma_start_at(bytes, session_epoch, plan, options, scans);
        }
    } else if begins_with(bytes, 1, bytes[7]) {
        law_integers_stand_behind_their_markers(bytes, 8);
    }
}

proof fn lemma_start_at(
    bytes: Seq<u8>,
    session_epoch: u64,
    plan: PlanFlowDescriptor,
    options: ExecutionOptionsWire,
    scans: Seq<ScanChannelDescriptorWire>,
)
    requires
        17 <= bytes.len() <= usize::MAX,
    ensures
        super::codec::parse_backend_execution_body(1, session_epoch, bytes.skip(17)) == Ok::<
            BackendExecutionMessage,
            DecodeFault,
        >(
            BackendExecutionMessage::StartExecution { session_epoch, plan, options, scans },
        ) <==> {
            &&& number_at(bytes, 17, 0xcf, 8) == Some(plan.plan_id as nat)
            &&& number_at(bytes, 26, 0xcd, 2) == Some(plan.page_kind as nat)
            &&& number_at(bytes, 29, 0xcd, 2) == Some(plan.page_flags as nat)
            &&& number_at(bytes, 32, 0xce, 4) == Some(options.scan_batch_channel_capacity as nat)
            &&& number_at(bytes, 37, 0xce, 4) == Some(options.scan_idle_poll_interval_us as nat)
            &&& number_at(bytes, 42, 0xcc, 1) is Some
            &&& options.runtime_filter_enabled <==> number_at(bytes, 42, 0xcc, 1) != Some(0nat)
            &&& parse_channel_set(bytes.skip(44)) == Ok::<
                (Seq<ScanChannelDescriptorWire>, Seq<u8>),
                DecodeFault,
            >((scans, Seq::<u8>::empty()))
        },
{
    lemma_plan_at(bytes);
    if super::codec::parse_plan(bytes.skip(17)) is Ok {
        lemma_options_at(bytes);
        if number_at(bytes, 42, 0xcc, 1) is Some && parse_channel_set(bytes.skip(44)) is Ok {
            let (_, rest) = parse_channel_set(bytes.skip(44))->Ok_0;
            if rest.len() == 0 {
                assert(rest =~= Seq::<u8>::empty());
            }
        }
    }
}

proof fn lemma_plan_at(bytes: Seq<u8>)
    requires
        bytes.len() >= 17,
    ensures
        match super::codec::parse_plan(bytes.skip(17)) {
            Ok((plan, rest)) => {
                &&& number_at(bytes, 17, 0xcf, 8) == Some(plan.plan_id as nat)
                &&& number_at(bytes, 26, 0xcd, 2) == Some(plan.page_kind as nat)
                &&& number_at(bytes, 29, 0xcd, 2) == Some(plan.page_flags as nat)
                &&& rest == bytes.skip(32)
                &&& bytes.len() >= 32
            },
            Err(_) => number_at(bytes, 17, 0xcf, 8) is None || number_at(bytes, 26, 0xcd, 2) is None
                || number_at(bytes, 29, 0xcd, 2) is None,
        },
{
    law_integers_stand_behind_their_markers(bytes, 17);
    if number_at(bytes, 17, 0xcf, 8) is Some {
        law_integers_stand_behind_their_markers(bytes, 26);
        if number_at(bytes, 26, 0xcd, 2) is Some {
            law_integers_stand_behind_their_markers(bytes, 29);
        }
    }
}

proof fn lemma_options_at(bytes: Seq<u8>)
    requires
        bytes.len() >= 32,
    ensures
        match super::codec::parse_options(bytes.skip(32)) {
            Ok((options, rest)) => {
                &&& number_at(bytes, 32, 0xce, 4) == Some(
                    options.scan_batch_channel_capacity as nat,
                )
                &&& number_at(bytes, 37, 0xce, 4) == Some(options.scan_idle_poll_interval_us as nat)
                &&& number_at(bytes, 42, 0xcc, 1) is Some
                &&& options.runtime_filter_enabled <==> number_at(bytes, 42, 0xcc, 1) != Some(0nat)
                &&& rest == bytes.skip(44)
            },
            Err(_) => number_at(bytes, 32, 0xce, 4) is None || number_at(bytes, 37, 0xce, 4) is None
                || number_at(bytes, 42, 0xcc, 1) is None,
        },
{
    law_integers_stand_behind_their_markers(bytes, 32);
    if number_at(bytes, 32, 0xce, 4) is Some {
        law_integers_stand_behind_their_markers(bytes, 37);
        if number_at(bytes, 37, 0xce, 4) is Some {
            law_integers_stand_behind_their_markers(bytes, 42);
        }
    }
}

/// One producer is an array of two: its number, and its role.
pub proof fn law_producer_on_the_wire(
    source: Seq<u8>,
    producer: ProducerDescriptorWire,
    rest: Seq<u8>,
)
    requires
        source.len() > 0,
        source[0] == 0x92,
    ensures
        parse_producer(source) == Ok::<(ProducerDescriptorWire, Seq<u8>), DecodeFault>(
            (producer, rest),
        ) <==> {
            &&& number_at(source, 1, 0xcd, 2) == Some(producer.producer_id as nat)
            &&& number_at(source, 4, 0xcc, 1) == Some(role_byte(producer.role) as nat)
            &&& rest == source.skip(6)
        },
        number_at(source, 1, 0xcd, 2) is Some && (number_at(source, 4, 0xcc, 1) matches Some(code)
            && !(1 <= code <= 2)) ==> (parse_producer(source) matches Err(
            DecodeFault::InvalidProducerRole { actual },
        ) && number_at(source, 4, 0xcc, 1) == Some(actual as nat)),
{
    law_integers_stand_behind_their_markers(source, 1);
    if number_at(source, 1, 0xcd, 2) is Some {
        law_integers_stand_behind_their_markers(source, 4);
    }
}

/// One scan channel is an array of six: its scan, its producer, its role, and the
/// slot, the generation and the lease epoch of its peer.
pub proof fn law_channel_on_the_wire(
    source: Seq<u8>,
    channel: ScanChannelDescriptorWire,
    rest: Seq<u8>,
)
    requires
        source.len() > 0,
        source[0] == 0x96,
    ensures
        parse_channel(source) == Ok::<(ScanChannelDescriptorWire, Seq<u8>), DecodeFault>(
            (channel, rest),
        ) <==> {
            &&& number_at(source, 1, 0xcf, 8) == Some(channel.scan_id as nat)
            &&& number_at(source, 10, 0xcd, 2) == Some(channel.producer_id as nat)
            &&& number_at(source, 13, 0xcc, 1) == Some(role_byte(channel.role) as nat)
            &&& number_at(source, 15, 0xce, 4) == Some(channel.peer.slot_id as nat)
            &&& number_at(source, 20, 0xcf, 8) == Some(channel.peer.generation as nat)
            &&& number_at(source, 29, 0xcf, 8) == Some(channel.peer.lease_epoch as nat)
            &&& rest == source.skip(38)
        },
{
    reveal(parse_channel);
    law_integers_stand_behind_their_markers(source, 1);
    if number_at(source, 1, 0xcf, 8) is Some {
        law_integers_stand_behind_their_markers(source, 10);
        if number_at(source, 10, 0xcd, 2) is Some {
            law_integers_stand_behind_their_markers(source, 13);
            if number_at(source, 13, 0xcc, 1) is Some {
                law_integers_stand_behind_their_markers(source, 15);
                if number_at(source, 15, 0xce, 4) is Some {
                    law_integers_stand_behind_their_markers(source, 20);
                    if number_at(source, 20, 0xcf, 8) is Some {
                        law_integers_stand_behind_their_markers(source, 29);
                    }
                }
            }
        }
    }
}

/// Every message names its session right behind the envelope.
pub proof fn law_every_message_names_its_session(bytes: Seq<u8>)
    requires
        bytes.len() <= usize::MAX,
    ensures
        parse_backend_execution(bytes) matches Ok(message) ==> number_at(bytes, 8, 0xcf, 8) == Some(
            message.epoch() as nat,
        ),
        parse_worker_execution(bytes) matches Ok(message) ==> number_at(bytes, 8, 0xcf, 8) == Some(
            message.epoch() as nat,
        ),
        parse_worker_scan(bytes) matches Ok(message) ==> number_at(bytes, 8, 0xcf, 8) == Some(
            message.epoch() as nat,
        ),
        parse_backend_scan(bytes) matches Ok(message) ==> number_at(bytes, 8, 0xcf, 8) == Some(
            message.epoch() as nat,
        ),
{
    law_envelope_is_eight_bytes(bytes);
    if bytes.len() >= 8 {
        law_integers_stand_behind_their_markers(bytes, 8);
    }
}

proof fn lemma_producers_follow(source: Seq<u8>, n: nat, before: Seq<ProducerDescriptorWire>)
    ensures
        parse_producers(source, n, before) matches Ok((list, _)) ==> {
            &&& list.len() == before.len() + n
            &&& list.take(before.len() as int) == before
        },
    decreases n,
{
    if n > 0 {
        let r = parse_producer(source);
        if r is Ok {
            let (producer, rest) = r->Ok_0;
            let longer = before.push(producer);
            lemma_producers_follow(rest, (n - 1) as nat, longer);
            if parse_producers(source, n, before) is Ok {
                let (list, _) = parse_producers(source, n, before)->Ok_0;
                assert(list.take(before.len() as int) =~= list.take(
                    longer.len() as int,
                ).drop_last());
                assert(longer.drop_last() =~= before);
            }
        }
    } else {
        assert(before.take(before.len() as int) =~= before);
    }
}

/// A set of producers that is read holds as many as it says, in the order in which
/// they stand: the one that comes next is read behind those that were read.
pub proof fn law_producers_are_read_in_order(
    source: Seq<u8>,
    n: nat,
    before: Seq<ProducerDescriptorWire>,
)
    requires
        n > 0,
        parse_producers(source, n, before) is Ok,
    ensures
        ({
            let (list, left) = parse_producers(source, n, before)->Ok_0;
            &&& list.len() == before.len() + n
            &&& list.take(before.len() as int) == before
            &&& parse_producer(source) matches Ok((producer, rest)) && list[before.len() as int]
                == producer && parse_producers(rest, (n - 1) as nat, before.push(producer)) == Ok::<
                (Seq<ProducerDescriptorWire>, Seq<u8>),
                DecodeFault,
            >((list, left))
        }),
{
    lemma_producers_follow(source, n, before);
    let (producer, rest) = parse_producer(source)->Ok_0;
    let longer = before.push(producer);
    lemma_producers_follow(rest, (n - 1) as nat, longer);
    let (list, _) = parse_producers(source, n, before)->Ok_0;
    assert(list.take(longer.len() as int)[before.len() as int] == producer);
}

proof fn lemma_channels_follow(
    source: Seq<u8>,
    n: nat,
    before: Seq<ScanChannelDescriptorWire>,
    state: ScanChannelValidationState,
)
    ensures
        parse_channels(source, n, before, state) matches Ok((list, _)) ==> {
            &&& list.len() == before.len() + n
            &&& list.take(before.len() as int) == before
        },
    decreases n,
{
    if n > 0 {
        let r = parse_channel(source);
        if r is Ok {
            let (channel, rest) = r->Ok_0;
            let longer = before.push(channel);
            let step = observe_step(state, channel);
            if step is Ok {
                lemma_channels_follow(rest, (n - 1) as nat, longer, step->Ok_0);
                if parse_channels(source, n, before, state) is Ok {
                    let (list, _) = parse_channels(source, n, before, state)->Ok_0;
                    assert(list.take(before.len() as int) =~= list.take(
                        longer.len() as int,
                    ).drop_last());
                    assert(longer.drop_last() =~= before);
                }
            }
        }
    } else {
        assert(before.take(before.len() as int) =~= before);
    }
}

/// A set of scan channels that is read holds as many as it says, in the order in
/// which they stand.
pub proof fn law_channels_are_read_in_order(
    source: Seq<u8>,
    n: nat,
    before: Seq<ScanChannelDescriptorWire>,
    state: ScanChannelValidationState,
)
    requires
        n > 0,
        parse_channels(source, n, before, state) is Ok,
    ensures
        ({
            let (list, _) = parse_channels(source, n, before, state)->Ok_0;
            &&& list.len() == before.len() + n
            &&& list.take(before.len() as int) == before
            &&& parse_channel(source) matches Ok((channel, _)) && list[before.len() as int]
                == channel
        }),
{
    lemma_channels_follow(source, n, before, state);
    let (channel, rest) = parse_channel(source)->Ok_0;
    let longer = before.push(channel);
    let next = observe_step(state, channel)->Ok_0;
    lemma_channels_follow(rest, (n - 1) as nat, longer, next);
    let (list, _) = parse_channels(source, n, before, state)->Ok_0;
    assert(list.take(longer.len() as int)[before.len() as int] == channel);
}

/// A set that was read and is read again, item by item, gives the same items: the
/// next item is the one at the front of the bytes, and the others are behind it.
pub proof fn law_items_are_read_again(source: Seq<u8>, n: nat)
    requires
        n > 0,
    ensures
        plain_channels(source, 0) == Some(Seq::<ScanChannelDescriptorWire>::empty()),
        plain_producers(source, 0) == Some(Seq::<ProducerDescriptorWire>::empty()),
        plain_channels(source, n) matches Some(list) ==> {
            &&& list.len() == n
            &&& parse_channel(source) matches Ok((channel, rest)) && list[0] == channel
                && plain_channels(rest, (n - 1) as nat) == Some(list.drop_first())
        },
        plain_producers(source, n) matches Some(list) ==> {
            &&& list.len() == n
            &&& parse_producer(source) matches Ok((producer, rest)) && list[0] == producer
                && plain_producers(rest, (n - 1) as nat) == Some(list.drop_first())
        },
{
    lemma_plain_channels_len(source, n);
    lemma_plain_producers_len(source, n);
    if plain_channels(source, n) is Some {
        let (channel, rest) = parse_channel(source)->Ok_0;
        let tail = plain_channels(rest, (n - 1) as nat)->0;
        assert((seq![channel] + tail).drop_first() =~= tail);
    }
    if plain_producers(source, n) is Some {
        let (producer, rest) = parse_producer(source)->Ok_0;
        let tail = plain_producers(rest, (n - 1) as nat)->0;
        assert((seq![producer] + tail).drop_first() =~= tail);
    }
}

/// A message says what its own parts say.
pub proof fn law_messages_say_their_parts<'a>(
    execution: BackendExecutionToWorker<'a>,
    read_execution: BackendExecutionToWorkerRef<'a>,
    scan: WorkerScanToBackend<'a>,
    read_scan: WorkerScanToBackendRef<'a>,
    terminal: BackendScanToWorker<'a>,
    read_terminal: BackendScanToWorkerRef<'a>,
)
    ensures
        execution matches BackendExecutionToWorker::StartExecution {
            session_epoch,
            plan,
            options,
            scans,
        } ==> execution@ == (BackendExecutionMessage::StartExecution {
            session_epoch,
            plan,
            options,
            scans: scans.channels@,
        }),
        execution matches BackendExecutionToWorker::FailExecution { session_epoch, code, detail }
            ==> execution@ == (BackendExecutionMessage::FailExecution {
            session_epoch,
            code,
            detail,
        }),
        execution matches BackendExecutionToWorker::CancelExecution { session_epoch }
            ==> execution@ == (BackendExecutionMessage::CancelExecution { session_epoch }),
        read_execution matches BackendExecutionToWorkerRef::StartExecution {
            session_epoch,
            plan,
            options,
            scans,
        } ==> read_execution@ == (BackendExecutionMessage::StartExecution {
            session_epoch,
            plan,
            options,
            scans: scans.list(),
        }),
        read_execution matches BackendExecutionToWorkerRef::FailExecution {
            session_epoch,
            code,
            detail,
        } ==> read_execution@ == (BackendExecutionMessage::FailExecution {
            session_epoch,
            code,
            detail,
        }),
        read_execution matches BackendExecutionToWorkerRef::CancelExecution { session_epoch }
            ==> read_execution@ == (BackendExecutionMessage::CancelExecution { session_epoch }),
        scan matches WorkerScanToBackend::OpenScan { session_epoch, scan_id, scan: flow } ==> scan@
            == (WorkerScanMessage::OpenScan {
            session_epoch,
            scan_id,
            page_kind: flow.page_kind,
            page_flags: flow.page_flags,
            producers: flow.producers@,
        }),
        scan matches WorkerScanToBackend::CancelScan { session_epoch, scan_id } ==> scan@ == (
        WorkerScanMessage::CancelScan { session_epoch, scan_id }),
        read_scan matches WorkerScanToBackendRef::OpenScan { session_epoch, scan_id, scan: flow }
            ==> read_scan@ == (WorkerScanMessage::OpenScan {
            session_epoch,
            scan_id,
            page_kind: flow.page_kind,
            page_flags: flow.page_flags,
            producers: flow.producers.list(),
        }),
        read_scan matches WorkerScanToBackendRef::CancelScan { session_epoch, scan_id }
            ==> read_scan@ == (WorkerScanMessage::CancelScan { session_epoch, scan_id }),
        terminal matches BackendScanToWorker::ScanFinished { session_epoch, scan_id, producer_id }
            ==> terminal@ == (BackendScanMessage::ScanFinished {
            session_epoch,
            scan_id,
            producer_id,
        }),
        terminal matches BackendScanToWorker::ScanFailed {
            session_epoch,
            scan_id,
            producer_id,
            message,
        } ==> terminal@ == (BackendScanMessage::ScanFailed {
            session_epoch,
            scan_id,
            producer_id,
            message: message@,
        }),
        read_terminal matches BackendScanToWorkerRef::ScanFinished {
            session_epoch,
            scan_id,
            producer_id,
        } ==> read_terminal@ == (BackendScanMessage::ScanFinished {
            session_epoch,
            scan_id,
            producer_id,
        }),
        read_terminal matches BackendScanToWorkerRef::ScanFailed {
            session_epoch,
            scan_id,
            producer_id,
            message,
        } ==> read_terminal@ == (BackendScanMessage::ScanFailed {
            session_epoch,
            scan_id,
            producer_id,
            message: message@,
        }),
{
}

} // verus!
