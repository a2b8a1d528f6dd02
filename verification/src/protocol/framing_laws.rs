//! One frame holds one message: nothing may follow it, and no part of it will do.

use super::codec::{
    parse_backend_execution, parse_backend_scan, parse_failure, parse_family, parse_options,
    parse_plan, parse_terminal, parse_worker_execution, parse_worker_scan,
};
use super::error::DecodeFault;
use super::message::{
    BackendExecutionMessage, BackendScanMessage, RuntimeMessageFamily, WorkerExecutionToBackend,
    WorkerScanMessage,
};
use super::msgpack::{
    parse_array, parse_data, parse_optional_u64, parse_str, parse_u16, parse_u32, parse_u64,
    parse_u8, parse_uint, MARKER_U16, MARKER_U32, MARKER_U64, MARKER_U8,
};
use super::scan::{ProducerDescriptorWire, ScanChannelDescriptorWire};
use super::sets::{
    parse_channel, parse_channel_set, parse_channels, parse_peer, parse_producer,
    parse_producer_set, parse_producers,
};
use super::validation::{no_channel, observe_step, ScanChannelValidationState};
use vstd::prelude::*;

verus! {

/// A parser that takes a value from a source takes the same value from a longer
/// source, and leaves the rest with what is longer.
spec fn extends<T>(
    on_source: Result<(T, Seq<u8>), DecodeFault>,
    on_longer: Result<(T, Seq<u8>), DecodeFault>,
    extra: Seq<u8>,
) -> bool {
    on_source matches Ok((value, rest)) ==> on_longer == Ok::<(T, Seq<u8>), DecodeFault>(
        (value, rest + extra),
    )
}

proof fn lemma_data_extends(s: Seq<u8>, t: Seq<u8>, width: nat)
    ensures
        extends(parse_data(s, width), parse_data(s + t, width), t),
{
    if s.len() >= width {
        assert((s + t).take(width as int) =~= s.take(width as int));
        assert((s + t).skip(width as int) =~= s.skip(width as int) + t);
    }
}

proof fn lemma_uint_extends(s: Seq<u8>, t: Seq<u8>, marker: u8, width: nat)
    ensures
        extends(parse_uint(s, marker, width), parse_uint(s + t, marker, width), t),
{
    if s.len() > 0 {
        assert((s + t).skip(1) =~= s.skip(1) + t);
        lemma_data_extends(s.skip(1), t, width);
    }
}

proof fn lemma_integers_extend(s: Seq<u8>, t: Seq<u8>)
    ensures
        extends(parse_u8(s), parse_u8(s + t), t),
        extends(parse_u16(s), parse_u16(s + t), t),
        extends(parse_u32(s), parse_u32(s + t), t),
        extends(parse_u64(s), parse_u64(s + t), t),
{
    lemma_uint_extends(s, t, MARKER_U8, 1);
    lemma_uint_extends(s, t, MARKER_U16, 2);
    lemma_uint_extends(s, t, MARKER_U32, 4);
    lemma_uint_extends(s, t, MARKER_U64, 8);
}

proof fn lemma_array_extends(s: Seq<u8>, t: Seq<u8>)
    ensures
        extends(parse_array(s), parse_array(s + t), t),
{
    if s.len() > 0 {
        assert((s + t).skip(1) =~= s.skip(1) + t);
        lemma_data_extends(s.skip(1), t, 2);
        lemma_data_extends(s.skip(1), t, 4);
    }
}

proof fn lemma_optional_extends(s: Seq<u8>, t: Seq<u8>)
    ensures
        extends(parse_optional_u64(s), parse_optional_u64(s + t), t),
{
    if s.len() > 0 {
        assert((s + t).skip(1) =~= s.skip(1) + t);
        lemma_data_extends(s.skip(1), t, 1);
        lemma_data_extends(s.skip(1), t, 2);
        lemma_data_extends(s.skip(1), t, 4);
        lemma_data_extends(s.skip(1), t, 8);
    }
}

proof fn lemma_str_extends(s: Seq<u8>, t: Seq<u8>)
    ensures
        extends(parse_str(s), parse_str(s + t), t),
{
    if parse_str(s) is Ok {
        assert((s + t).skip(1) =~= s.skip(1) + t);
        lemma_data_extends(s.skip(1), t, 1);
        lemma_data_extends(s.skip(1), t, 2);
        lemma_data_extends(s.skip(1), t, 4);
        let (len, rest) = super::msgpack::parse_str_len(s)->Ok_0;
        assert((rest + t).take(len as int) =~= rest.take(len as int));
        assert((rest + t).skip(len as int) =~= rest.skip(len as int) + t);
    }
}

proof fn lemma_family_extends(s: Seq<u8>, t: Seq<u8>, family: RuntimeMessageFamily)
    ensures
        extends(parse_family(s, family), parse_family(s + t, family), t),
{
    if s.len() >= 8 {
        assert((s + t).take(4) =~= s.take(4));
        assert((s + t).subrange(4, 6) =~= s.subrange(4, 6));
        assert((s + t).skip(8) =~= s.skip(8) + t);
    }
}

proof fn lemma_plan_extends(s: Seq<u8>, t: Seq<u8>)
    ensures
        extends(parse_plan(s), parse_plan(s + t), t),
{
    lemma_integers_extend(s, t);
    if let Ok((_, s1)) = parse_u64(s) {
        lemma_integers_extend(s1, t);
        if let Ok((_, s2)) = parse_u16(s1) {
            lemma_integers_extend(s2, t);
        }
    }
}

proof fn lemma_options_extend(s: Seq<u8>, t: Seq<u8>)
    ensures
        extends(parse_options(s), parse_options(s + t), t),
{
    lemma_integers_extend(s, t);
    if let Ok((_, s1)) = parse_u32(s) {
        lemma_integers_extend(s1, t);
        if let Ok((_, s2)) = parse_u32(s1) {
            lemma_integers_extend(s2, t);
        }
    }
}

proof fn lemma_failure_extends(s: Seq<u8>, t: Seq<u8>)
    ensures
        extends(parse_failure(s), parse_failure(s + t), t),
{
    lemma_integers_extend(s, t);
    if let Ok((_, s1)) = parse_u8(s) {
        lemma_optional_extends(s1, t);
    }
}

proof fn lemma_terminal_extends(s: Seq<u8>, t: Seq<u8>)
    ensures
        extends(parse_terminal(s), parse_terminal(s + t), t),
{
    lemma_integers_extend(s, t);
    if let Ok((_, s1)) = parse_u64(s) {
        lemma_integers_extend(s1, t);
        if let Ok((_, s2)) = parse_u64(s1) {
            lemma_integers_extend(s2, t);
        }
    }
}

proof fn lemma_producer_extends(s: Seq<u8>, t: Seq<u8>)
    ensures
        extends(parse_producer(s), parse_producer(s + t), t),
{
    lemma_array_extends(s, t);
    if let Ok((_, s1)) = parse_array(s) {
        lemma_integers_extend(s1, t);
        if let Ok((_, s2)) = parse_u16(s1) {
            lemma_integers_extend(s2, t);
        }
    }
}

proof fn lemma_peer_extends(s: Seq<u8>, t: Seq<u8>)
    ensures
        extends(parse_peer(s), parse_peer(s + t), t),
{
    lemma_integers_extend(s, t);
    if let Ok((_, s1)) = parse_u32(s) {
        lemma_integers_extend(s1, t);
        if let Ok((_, s2)) = parse_u64(s1) {
            lemma_integers_extend(s2, t);
        }
    }
}

proof fn lemma_channel_extends(s: Seq<u8>, t: Seq<u8>)
    ensures
        extends(parse_channel(s), parse_channel(s + t), t),
{
    reveal(parse_channel);
    lemma_array_extends(s, t);
    if let Ok((_, s1)) = parse_array(s) {
        lemma_integers_extend(s1, t);
        if let Ok((_, s2)) = parse_u64(s1) {
            lemma_integers_extend(s2, t);
            if let Ok((_, s3)) = parse_u16(s2) {
                lemma_integers_extend(s3, t);
                if let Ok((_, s4)) = parse_u8(s3) {
                    lemma_peer_extends(s4, t);
                }
            }
        }
    }
}

proof fn lemma_producers_extend(
    s: Seq<u8>,
    t: Seq<u8>,
    n: nat,
    before: Seq<ProducerDescriptorWire>,
)
    ensures
        extends(parse_producers(s, n, before), parse_producers(s + t, n, before), t),
    decreases n,
{
    if n > 0 {
        lemma_producer_extends(s, t);
        if let Ok((producer, rest)) = parse_producer(s) {
            lemma_producers_extend(rest, t, (n - 1) as nat, before.push(producer));
        }
    }
}

proof fn lemma_channels_extend(
    s: Seq<u8>,
    t: Seq<u8>,
    n: nat,
    before: Seq<ScanChannelDescriptorWire>,
    state: ScanChannelValidationState,
)
    ensures
        extends(parse_channels(s, n, before, state), parse_channels(s + t, n, before, state), t),
    decreases n,
{
    if n > 0 {
        lemma_channel_extends(s, t);
        if let Ok((channel, rest)) = parse_channel(s) {
            if let Ok(next) = observe_step(state, channel) {
                lemma_channels_extend(rest, t, (n - 1) as nat, before.push(channel), next);
            }
        }
    }
}

proof fn lemma_producer_set_extends(s: Seq<u8>, t: Seq<u8>)
    ensures
        extends(parse_producer_set(s), parse_producer_set(s + t), t),
{
    lemma_array_extends(s, t);
    if let Ok((count, rest)) = parse_array(s) {
        lemma_producers_extend(rest, t, count as nat, Seq::empty());
    }
}

proof fn lemma_channel_set_extends(s: Seq<u8>, t: Seq<u8>)
    ensures
        extends(parse_channel_set(s), parse_channel_set(s + t), t),
{
    lemma_array_extends(s, t);
    if let Ok((count, rest)) = parse_array(s) {
        lemma_channels_extend(rest, t, count as nat, Seq::empty(), no_channel());
    }
}

/// The error for bytes behind a message.
pub open spec fn trailing(extra: Seq<u8>) -> DecodeFault {
    DecodeFault::TrailingBytes { remaining: extra.len() as usize }
}

/// Bytes behind a message of backend execution control are refused.
pub proof fn law_backend_execution_takes_nothing_more(bytes: Seq<u8>, extra: Seq<u8>)
    requires
        parse_backend_execution(bytes) is Ok,
        extra.len() > 0,
    ensures
        parse_backend_execution(bytes + extra) == Err::<BackendExecutionMessage, DecodeFault>(
            trailing(extra),
        ),
{
    lemma_family_extends(bytes, extra, RuntimeMessageFamily::BackendExecutionToWorker);
    let (tag, s1) = parse_family(bytes, RuntimeMessageFamily::BackendExecutionToWorker)->Ok_0;
    lemma_integers_extend(s1, extra);
    let s2 = parse_u64(s1)->Ok_0.1;
    lemma_plan_extends(s2, extra);
    lemma_failure_extends(s2, extra);
    if let Ok((_, s3)) = parse_plan(s2) {
        lemma_options_extend(s3, extra);
        if let Ok((_, s4)) = parse_options(s3) {
            lemma_channel_set_extends(s4, extra);
        }
    }
    assert(forall|s: Seq<u8>| s.len() == 0 ==> #[trigger] (s + extra) =~= extra);
}

/// Bytes behind a message of worker execution control are refused.
pub proof fn law_worker_execution_takes_nothing_more(bytes: Seq<u8>, extra: Seq<u8>)
    requires
        parse_worker_execution(bytes) is Ok,
        extra.len() > 0,
    ensures
        parse_worker_execution(bytes + extra) == Err::<WorkerExecutionToBackend, DecodeFault>(
            trailing(extra),
        ),
{
    lemma_family_extends(bytes, extra, RuntimeMessageFamily::WorkerExecutionToBackend);
    let (tag, s1) = parse_family(bytes, RuntimeMessageFamily::WorkerExecutionToBackend)->Ok_0;
    lemma_integers_extend(s1, extra);
    lemma_failure_extends(parse_u64(s1)->Ok_0.1, extra);
    assert(forall|s: Seq<u8>| s.len() == 0 ==> #[trigger] (s + extra) =~= extra);
}

/// Bytes behind a message of worker scan control are refused.
pub proof fn law_worker_scan_takes_nothing_more(bytes: Seq<u8>, extra: Seq<u8>)
    requires
        parse_worker_scan(bytes) is Ok,
        extra.len() > 0,
    ensures
        parse_worker_scan(bytes + extra) == Err::<WorkerScanMessage, DecodeFault>(trailing(extra)),
{
    lemma_family_extends(bytes, extra, RuntimeMessageFamily::WorkerScanToBackend);
    let (tag, s1) = parse_family(bytes, RuntimeMessageFamily::WorkerScanToBackend)->Ok_0;
    lemma_integers_extend(s1, extra);
    let s2 = parse_u64(s1)->Ok_0.1;
    lemma_integers_extend(s2, extra);
    if let Ok((_, s3)) = parse_u64(s2) {
        lemma_integers_extend(s3, extra);
        if let Ok((_, s4)) = parse_u16(s3) {
            lemma_integers_extend(s4, extra);
            if let Ok((_, s5)) = parse_u16(s4) {
                lemma_producer_set_extends(s5, extra);
            }
        }
    }
    assert(forall|s: Seq<u8>| s.len() == 0 ==> #[trigger] (s + extra) =~= extra);
}

/// Bytes behind a scan terminal are refused.
pub proof fn law_backend_scan_takes_nothing_more(bytes: Seq<u8>, extra: Seq<u8>)
    requires
        parse_backend_scan(bytes) is Ok,
        extra.len() > 0,
    ensures
        parse_backend_scan(bytes + extra) == Err::<BackendScanMessage, DecodeFault>(
            trailing(extra),
        ),
{
    lemma_family_extends(bytes, extra, RuntimeMessageFamily::BackendScanToWorker);
    let (tag, s1) = parse_family(bytes, RuntimeMessageFamily::BackendScanToWorker)->Ok_0;
    lemma_terminal_extends(s1, extra);
    lemma_str_extends(parse_terminal(s1)->Ok_0.1, extra);
    assert(forall|s: Seq<u8>| s.len() == 0 ==> #[trigger] (s + extra) =~= extra);
}

/// No decoder accepts a frame that was cut short.
pub proof fn law_cut_frames_are_refused(bytes: Seq<u8>, len: int)
    requires
        0 <= len < bytes.len(),
    ensures
        parse_backend_execution(bytes) is Ok ==> parse_backend_execution(bytes.take(len)) is Err,
        parse_worker_execution(bytes) is Ok ==> parse_worker_execution(bytes.take(len)) is Err,
        parse_worker_scan(bytes) is Ok ==> parse_worker_scan(bytes.take(len)) is Err,
        parse_backend_scan(bytes) is Ok ==> parse_backend_scan(bytes.take(len)) is Err,
{
    let front = bytes.take(len);
    let back = bytes.skip(len);
    assert(front + back =~= bytes);
    if parse_backend_execution(front) is Ok {
        law_backend_execution_takes_nothing_more(front, back);
    }
    if parse_worker_execution(front) is Ok {
        law_worker_execution_takes_nothing_more(front, back);
    }
    if parse_worker_scan(front) is Ok {
        law_worker_scan_takes_nothing_more(front, back);
    }
    if parse_backend_scan(front) is Ok {
        law_backend_scan_takes_nothing_more(front, back);
    }
}

} // verus!
