//! Reading sets of producers and of scan channels.
//!
//! A set that was read keeps the bytes that it took, and no others: a parser
//! looks only at what it takes, so those bytes alone hold the same set.

use super::error::{DecodeError, DecodeFault};
use super::msgpack::{
    array_len_bytes, law_array_len_round_trip, law_integers_round_trip, parse_array, parse_data,
    parse_u16, parse_u32, parse_u64, parse_u8, parse_uint, read_array_len_from, uint_bytes,
    MARKER_U16, MARKER_U32, MARKER_U64, MARKER_U8,
};
use super::scan::{
    role_byte, ProducerDescriptorWire, ProducerRole, ScanChannelDescriptorWire, ScanChannelSetError,
    PRODUCER_DESCRIPTOR_LEN, SCAN_CHANNEL_DESCRIPTOR_LEN,
};
use super::sets::{
    channel_bytes, channel_list_bytes, channel_set_bytes, map_channel_error, map_producer_error,
    parse_channel, parse_channel_set, parse_channels, parse_producer, parse_producer_set,
    parse_producers, plain_channels, plain_producers, producer_bytes, producer_list_bytes,
    producer_set_bytes, read_producer_descriptor_from, read_scan_channel_descriptor_from,
    ProducerSetRef, ScanChannelSetRef,
};
use super::validation::{
    channel_set_fault, finish_scan_channel_validation, ids_before, leader_before,
    lemma_observed_error_stays, no_channel, observe_producer, observe_scan_channel, observe_step,
    observed, producer_fault_at, producer_fault_from, producer_set_fault, ProducerIdBitmap,
    ScanChannelValidationState,
};
use vstd::prelude::*;
use vstd::slice::slice_subrange;

verus! {

/// Two byte sequences have the same first `k` bytes.
spec fn agree(s: Seq<u8>, t: Seq<u8>, k: int) -> bool {
    &&& 0 <= k <= s.len()
    &&& k <= t.len()
    &&& s.take(k) == t.take(k)
}

proof fn lemma_agree_skip(s: Seq<u8>, t: Seq<u8>, k: int, used: int)
    requires
        agree(s, t, k),
        0 <= used <= k,
    ensures
        agree(s.skip(used), t.skip(used), k - used),
        s.take(used) == t.take(used),
        used > 0 ==> s[0] == t[0],
{
    assert(s.take(used) =~= s.take(k).take(used));
    assert(t.take(used) =~= t.take(k).take(used));
    assert(s.skip(used).take(k - used) =~= s.take(k).skip(used));
    assert(t.skip(used).take(k - used) =~= t.take(k).skip(used));
    if used > 0 {
        assert(s[0] == s.take(k)[0]);
        assert(t[0] == t.take(k)[0]);
    }
}

proof fn lemma_data_local(s: Seq<u8>, t: Seq<u8>, width: nat, k: int)
    requires
        parse_data(s, width) is Ok,
        width <= k,
        agree(s, t, k),
    ensures
        parse_data(s, width) matches Ok((value, rest)) && rest == s.skip(width as int)
            && parse_data(t, width) == Ok::<(nat, Seq<u8>), DecodeFault>(
            (value, t.skip(width as int)),
        ) && agree(rest, t.skip(width as int), k - width),
{
    lemma_agree_skip(s, t, k, width as int);
}

proof fn lemma_uint_local(s: Seq<u8>, t: Seq<u8>, marker: u8, width: nat, k: int)
    requires
        parse_uint(s, marker, width) is Ok,
        1 + width <= k,
        agree(s, t, k),
    ensures
        parse_uint(s, marker, width) matches Ok((value, rest)) && rest == s.skip(1int + width)
            && parse_uint(t, marker, width) == Ok::<(nat, Seq<u8>), DecodeFault>(
            (value, t.skip(1int + width)),
        ) && agree(rest, t.skip(1int + width), k - 1 - width),
{
    lemma_agree_skip(s, t, k, 1);
    lemma_data_local(s.skip(1), t.skip(1), width, k - 1);
    assert(s.skip(1).skip(width as int) =~= s.skip(1int + width));
    assert(t.skip(1).skip(width as int) =~= t.skip(1int + width));
}

/// How many bytes an array header takes.
spec fn array_used(first: u8) -> nat {
    if first == 0xdc {
        3
    } else if first == 0xdd {
        5
    } else {
        1
    }
}

proof fn lemma_array_local(s: Seq<u8>, t: Seq<u8>, k: int)
    requires
        parse_array(s) is Ok,
        s.len() - parse_array(s)->Ok_0.1.len() <= k,
        agree(s, t, k),
    ensures
        parse_array(s) matches Ok((value, rest)) && rest == s.skip(array_used(s[0]) as int)
            && parse_array(t) == Ok::<(u32, Seq<u8>), DecodeFault>(
            (value, t.skip(array_used(s[0]) as int)),
        ) && agree(rest, t.skip(array_used(s[0]) as int), k - array_used(s[0])) && array_used(s[0])
            <= k,
{
    lemma_agree_skip(s, t, k, 1);
    if s[0] == 0xdc {
        lemma_data_local(s.skip(1), t.skip(1), 2, k - 1);
        assert(s.skip(1).skip(2) =~= s.skip(3));
        assert(t.skip(1).skip(2) =~= t.skip(3));
    } else if s[0] == 0xdd {
        lemma_data_local(s.skip(1), t.skip(1), 4, k - 1);
        assert(s.skip(1).skip(4) =~= s.skip(5));
        assert(t.skip(1).skip(4) =~= t.skip(5));
    }
}

/// What a parser takes: `s` and `t` agree on it, and it gives the same for `t`.
spec fn local<T>(
    s: Seq<u8>,
    t: Seq<u8>,
    k: int,
    on_s: Result<(T, Seq<u8>), DecodeFault>,
    on_t: Result<(T, Seq<u8>), DecodeFault>,
) -> bool {
    on_s matches Ok((value, rest)) && {
        let used = s.len() - rest.len();
        &&& 0 < used <= k
        &&& rest == s.skip(used)
        &&& on_t == Ok::<(T, Seq<u8>), DecodeFault>((value, t.skip(used)))
        &&& agree(rest, t.skip(used), k - used)
    }
}

proof fn lemma_producer_local(s: Seq<u8>, t: Seq<u8>, k: int)
    requires
        parse_producer(s) is Ok,
        s.len() - parse_producer(s)->Ok_0.1.len() <= k,
        agree(s, t, k),
    ensures
        local(s, t, k, parse_producer(s), parse_producer(t)),
{
    let a = array_used(s[0]) as int;
    let s1 = parse_array(s)->Ok_0.1;
    let s2 = parse_u16(s1)->Ok_0.1;
    let s3 = parse_u8(s2)->Ok_0.1;
    lemma_array_local(s, t, k);
    let t1 = t.skip(a);
    lemma_uint_local(s1, t1, MARKER_U16, 2, k - a);
    let t2 = t1.skip(3);
    lemma_uint_local(s2, t2, MARKER_U8, 1, k - a - 3);
    assert(s2 =~= s.skip(a + 3));
    assert(s3 =~= s.skip(a + 5));
    assert(t2.skip(2) =~= t.skip(a + 5));
}

proof fn lemma_channel_local(s: Seq<u8>, t: Seq<u8>, k: int)
    requires
        parse_channel(s) is Ok,
        s.len() - parse_channel(s)->Ok_0.1.len() <= k,
        agree(s, t, k),
    ensures
        local(s, t, k, parse_channel(s), parse_channel(t)),
{
    reveal(parse_channel);
    let a = array_used(s[0]) as int;
    let s1 = parse_array(s)->Ok_0.1;
    let s2 = parse_u64(s1)->Ok_0.1;
    let s3 = parse_u16(s2)->Ok_0.1;
    let s4 = parse_u8(s3)->Ok_0.1;
    let s5 = parse_u32(s4)->Ok_0.1;
    let s6 = parse_u64(s5)->Ok_0.1;
    let s7 = parse_u64(s6)->Ok_0.1;
    lemma_array_local(s, t, k);
    let t1 = t.skip(a);
    lemma_uint_local(s1, t1, MARKER_U64, 8, k - a);
    let t2 = t1.skip(9);
    lemma_uint_local(s2, t2, MARKER_U16, 2, k - a - 9);
    let t3 = t2.skip(3);
    lemma_uint_local(s3, t3, MARKER_U8, 1, k - a - 12);
    let t4 = t3.skip(2);
    lemma_uint_local(s4, t4, MARKER_U32, 4, k - a - 14);
    let t5 = t4.skip(5);
    lemma_uint_local(s5, t5, MARKER_U64, 8, k - a - 19);
    let t6 = t5.skip(9);
    lemma_uint_local(s6, t6, MARKER_U64, 8, k - a - 28);
    let t7 = t6.skip(9);
    assert(s7 =~= s.skip(a + 37));
    assert(t7 =~= t.skip(a + 37));
}

/// A parser leaves an end of its source.
proof fn lemma_producer_shrinks(s: Seq<u8>)
    requires
        parse_producer(s) is Ok,
    ensures
        parse_producer(s)->Ok_0.1.len() < s.len(),
        parse_producer(s)->Ok_0.1 == s.skip(s.len() - parse_producer(s)->Ok_0.1.len()),
{
    lemma_producer_local(s, s, s.len() as int);
}

proof fn lemma_channel_shrinks(s: Seq<u8>)
    requires
        parse_channel(s) is Ok,
    ensures
        parse_channel(s)->Ok_0.1.len() < s.len(),
        parse_channel(s)->Ok_0.1 == s.skip(s.len() - parse_channel(s)->Ok_0.1.len()),
{
    lemma_channel_local(s, s, s.len() as int);
}

proof fn lemma_producers_shrink(s: Seq<u8>, n: nat, before: Seq<ProducerDescriptorWire>)
    requires
        parse_producers(s, n, before) is Ok,
    ensures
        ({
            let (list, rest) = parse_producers(s, n, before)->Ok_0;
            &&& rest.len() <= s.len()
            &&& rest == s.skip(s.len() - rest.len())
            &&& list.len() == before.len() + n
            &&& list.take(before.len() as int) == before
        }),
    decreases n,
{
    let (list, rest) = parse_producers(s, n, before)->Ok_0;
    if n == 0 {
        assert(s.skip(0) =~= s);
        assert(before.take(before.len() as int) =~= before);
    } else {
        let (producer, s1) = parse_producer(s)->Ok_0;
        lemma_producer_shrinks(s);
        lemma_producers_shrink(s1, (n - 1) as nat, before.push(producer));
        assert(rest =~= s.skip(s.len() - rest.len()));
        assert(list.take(before.len() as int) =~= list.take(before.len() as int + 1).take(
            before.len() as int,
        ));
        assert(before.push(producer).take(before.len() as int) =~= before);
    }
}

proof fn lemma_channels_shrink(
    s: Seq<u8>,
    n: nat,
    before: Seq<ScanChannelDescriptorWire>,
    state: ScanChannelValidationState,
)
    requires
        parse_channels(s, n, before, state) is Ok,
    ensures
        ({
            let (list, rest) = parse_channels(s, n, before, state)->Ok_0;
            &&& rest.len() <= s.len()
            &&& rest == s.skip(s.len() - rest.len())
            &&& list.len() == before.len() + n
            &&& list.take(before.len() as int) == before
        }),
    decreases n,
{
    let (list, rest) = parse_channels(s, n, before, state)->Ok_0;
    if n == 0 {
        assert(s.skip(0) =~= s);
        assert(before.take(before.len() as int) =~= before);
    } else {
        let (channel, s1) = parse_channel(s)->Ok_0;
        let next = observe_step(state, channel)->Ok_0;
        lemma_channel_shrinks(s);
        lemma_channels_shrink(s1, (n - 1) as nat, before.push(channel), next);
        assert(rest =~= s.skip(s.len() - rest.len()));
        assert(list.take(before.len() as int) =~= list.take(before.len() as int + 1).take(
            before.len() as int,
        ));
        assert(before.push(channel).take(before.len() as int) =~= before);
    }
}

/// The bytes that the producers were read from hold the same producers.
proof fn lemma_producers_plain(
    s: Seq<u8>,
    t: Seq<u8>,
    n: nat,
    before: Seq<ProducerDescriptorWire>,
    k: int,
)
    requires
        parse_producers(s, n, before) is Ok,
        s.len() - parse_producers(s, n, before)->Ok_0.1.len() <= k,
        agree(s, t, k),
    ensures
        plain_producers(t, n) == Some(
            parse_producers(s, n, before)->Ok_0.0.skip(before.len() as int),
        ),
    decreases n,
{
    let (list, rest) = parse_producers(s, n, before)->Ok_0;
    lemma_producers_shrink(s, n, before);
    if n == 0 {
        assert(list.skip(before.len() as int) =~= Seq::empty());
    } else {
        let (producer, s1) = parse_producer(s)->Ok_0;
        let longer = before.push(producer);
        lemma_producers_shrink(s1, (n - 1) as nat, longer);
        lemma_producer_local(s, t, k);
        let used = s.len() - s1.len();
        lemma_producers_plain(s1, t.skip(used), (n - 1) as nat, longer, k - used);
        assert(list[before.len() as int] == list.take(longer.len() as int)[before.len() as int]);
        assert(list.skip(before.len() as int) =~= seq![producer] + list.skip(longer.len() as int));
    }
}

/// The bytes that the channels were read from hold the same channels.
proof fn lemma_channels_plain(
    s: Seq<u8>,
    t: Seq<u8>,
    n: nat,
    before: Seq<ScanChannelDescriptorWire>,
    state: ScanChannelValidationState,
    k: int,
)
    requires
        parse_channels(s, n, before, state) is Ok,
        s.len() - parse_channels(s, n, before, state)->Ok_0.1.len() <= k,
        agree(s, t, k),
    ensures
        plain_channels(t, n) == Some(
            parse_channels(s, n, before, state)->Ok_0.0.skip(before.len() as int),
        ),
    decreases n,
{
    let (list, rest) = parse_channels(s, n, before, state)->Ok_0;
    lemma_channels_shrink(s, n, before, state);
    if n == 0 {
        assert(list.skip(before.len() as int) =~= Seq::empty());
    } else {
        let (channel, s1) = parse_channel(s)->Ok_0;
        let next = observe_step(state, channel)->Ok_0;
        let longer = before.push(channel);
        lemma_channels_shrink(s1, (n - 1) as nat, longer, next);
        lemma_channel_local(s, t, k);
        let used = s.len() - s1.len();
        lemma_channels_plain(s1, t.skip(used), (n - 1) as nat, longer, next, k - used);
        assert(list[before.len() as int] == list.take(longer.len() as int)[before.len() as int]);
        assert(list.skip(before.len() as int) =~= seq![channel] + list.skip(longer.len() as int));
    }
}

/// What a read producer set is: it takes the front of the source and holds the
/// producers that were read.
pub open spec fn producer_set_read_as<'a>(
    r: Result<(ProducerSetRef<'a>, &'a [u8]), DecodeError>,
    source: Seq<u8>,
) -> bool {
    match parse_producer_set(source) {
        Ok((list, rest)) => r matches Ok((set, s)) && {
            &&& s@ == rest
            &&& set.wf()
            &&& set.list() == list
            &&& set.len == list.len()
            &&& set.bytes@ == source.take(source.len() - rest.len())
        },
        Err(fault) => r matches Err(e) && e@ == fault,
    }
}

/// What a read scan-channel set is: it takes the front of the source and holds
/// the channels that were read.
pub open spec fn channel_set_read_as<'a>(
    r: Result<(ScanChannelSetRef<'a>, &'a [u8]), DecodeError>,
    source: Seq<u8>,
) -> bool {
    match parse_channel_set(source) {
        Ok((list, rest)) => r matches Ok((set, s)) && {
            &&& s@ == rest
            &&& set.wf()
            &&& set.list() == list
            &&& set.len == list.len()
            &&& set.bytes@ == source.take(source.len() - rest.len())
        },
        Err(fault) => r matches Err(e) && e@ == fault,
    }
}

proof fn lemma_producer_set_bytes(source: Seq<u8>)
    requires
        parse_producer_set(source) is Ok,
    ensures
        ({
            let (list, rest) = parse_producer_set(source)->Ok_0;
            let taken = source.take(source.len() - rest.len());
            &&& rest.len() <= source.len()
            &&& rest == source.skip(source.len() - rest.len())
            &&& parse_array(taken) matches Ok((count, items)) && count == list.len()
                && plain_producers(items, count as nat) == Some(list)
        }),
{
    let (list, rest) = parse_producer_set(source)->Ok_0;
    let (count, items) = parse_array(source)->Ok_0;
    lemma_array_local(source, source, source.len() as int);
    lemma_producers_shrink(items, count as nat, Seq::empty());
    let k = source.len() - rest.len();
    let taken = source.take(k);
    assert(taken.take(k) =~= source.take(k));
    let a = array_used(source[0]) as int;
    assert(rest =~= source.skip(k));
    lemma_array_local(source, taken, k);
    lemma_producers_plain(items, taken.skip(a), count as nat, Seq::empty(), k - a);
    assert(list.skip(0) =~= list);
}

proof fn lemma_channel_set_bytes(source: Seq<u8>)
    requires
        parse_channel_set(source) is Ok,
    ensures
        ({
            let (list, rest) = parse_channel_set(source)->Ok_0;
            let taken = source.take(source.len() - rest.len());
            &&& rest.len() <= source.len()
            &&& rest == source.skip(source.len() - rest.len())
            &&& parse_array(taken) matches Ok((count, items)) && count == list.len()
                && plain_channels(items, count as nat) == Some(list)
        }),
{
    let (list, rest) = parse_channel_set(source)->Ok_0;
    let (count, items) = parse_array(source)->Ok_0;
    lemma_array_local(source, source, source.len() as int);
    lemma_channels_shrink(items, count as nat, Seq::empty(), no_channel());
    let k = source.len() - rest.len();
    let taken = source.take(k);
    assert(taken.take(k) =~= source.take(k));
    let a = array_used(source[0]) as int;
    assert(rest =~= source.skip(k));
    lemma_array_local(source, taken, k);
    lemma_channels_plain(items, taken.skip(a), count as nat, Seq::empty(), no_channel(), k - a);
    assert(list.skip(0) =~= list);
}

/// Reads and checks a set of producers. The set borrows the bytes it was read
/// from.
pub fn decode_producer_set_ref<'a>(source: &'a [u8]) -> (r: Result<
    (ProducerSetRef<'a>, &'a [u8]),
    DecodeError,
>)
    ensures
        producer_set_read_as(r, source@),
{
    let (count, items) = match read_array_len_from(source) {
        Ok(read) => read,
        Err(e) => {
            return Err(e);
        },
    };
    if count == 0 {
        return Err(DecodeError::EmptyProducerSet);
    }
    let mut leader_seen: bool = false;
    let mut seen_ids: ProducerIdBitmap = ProducerIdBitmap::new();
    let mut rest: &'a [u8] = items;
    let ghost mut list: Seq<ProducerDescriptorWire> = Seq::empty();
    let mut i: u32 = 0;
    assert(seen_ids@ =~= ids_before(list, 0));
    while i < count
        invariant
            i <= count,
            count > 0,
            list.len() == i,
            seen_ids.wf(),
            seen_ids@ == ids_before(list, i as int),
            leader_seen == leader_before(list, i as int),
            parse_array(source@) == Ok::<(u32, Seq<u8>), DecodeFault>((count, items@)),
            parse_producers(items@, count as nat, Seq::empty()) == parse_producers(
                rest@,
                (count - i) as nat,
                list,
            ),
        decreases count - i,
    {
        let (producer, tail) = match read_producer_descriptor_from(rest) {
            Ok(read) => read,
            Err(e) => {
                return Err(e);
            },
        };
        let ghost longer = list.push(producer);
        proof {
            lemma_prefix_facts(list, producer);
        }
        match observe_producer(
            &mut seen_ids,
            &mut leader_seen,
            producer,
            Ghost(longer),
            Ghost(i as int),
        ) {
            Some(error) => {
                return Err(map_producer_error(error));
            },
            None => {},
        }
        proof {
            list = longer;
        }
        rest = tail;
        i = i + 1;
    }
    proof {
        lemma_producer_set_bytes(source@);
    }
    let consumed: usize = source.len() - rest.len();
    let bytes: &'a [u8] = slice_subrange(source, 0, consumed);
    assert(bytes@ =~= source@.take(consumed as int));
    Ok((ProducerSetRef { bytes, len: count }, rest))
}

/// Ids and leaders in front of a new producer are those of the list so far.
proof fn lemma_prefix_facts(list: Seq<ProducerDescriptorWire>, producer: ProducerDescriptorWire)
    ensures
        ids_before(list.push(producer), list.len() as int) == ids_before(list, list.len() as int),
        leader_before(list.push(producer), list.len() as int) == leader_before(
            list,
            list.len() as int,
        ),
{
    let longer = list.push(producer);
    let n = list.len() as int;
    assert forall|id: u16| ids_before(longer, n).contains(id) == ids_before(list, n).contains(
        id,
    ) by {
        if ids_before(longer, n).contains(id) {
            let j = choose|j: int| 0 <= j < n && (#[trigger] longer[j]).producer_id == id;
            assert(list[j].producer_id == id);
        }
        if ids_before(list, n).contains(id) {
            let j = choose|j: int| 0 <= j < n && (#[trigger] list[j]).producer_id == id;
            assert(longer[j].producer_id == id);
        }
    }
    assert(ids_before(longer, n) =~= ids_before(list, n));
    if leader_before(longer, n) {
        let j = choose|j: int| 0 <= j < n && (#[trigger] longer[j]).role == ProducerRole::Leader;
        assert(list[j].role == ProducerRole::Leader);
    }
    if leader_before(list, n) {
        let j = choose|j: int| 0 <= j < n && (#[trigger] list[j]).role == ProducerRole::Leader;
        assert(longer[j].role == ProducerRole::Leader);
    }
}

/// Reads and checks a set of scan channels. The set borrows the bytes it was
/// read from.
pub fn decode_scan_channel_set_ref<'a>(source: &'a [u8]) -> (r: Result<
    (ScanChannelSetRef<'a>, &'a [u8]),
    DecodeError,
>)
    ensures
        channel_set_read_as(r, source@),
{
    let (count, items) = match read_array_len_from(source) {
        Ok(read) => read,
        Err(e) => {
            return Err(e);
        },
    };
    let mut state: ScanChannelValidationState = ScanChannelValidationState {
        previous: None,
        current_scan_id: None,
        leader_seen: false,
    };
    let mut rest: &'a [u8] = items;
    let ghost mut list: Seq<ScanChannelDescriptorWire> = Seq::empty();
    let mut i: u32 = 0;
    while i < count
        invariant
            i <= count,
            list.len() == i,
            parse_array(source@) == Ok::<(u32, Seq<u8>), DecodeFault>((count, items@)),
            parse_channels(items@, count as nat, Seq::empty(), no_channel()) == parse_channels(
                rest@,
                (count - i) as nat,
                list,
                state,
            ),
        decreases count - i,
    {
        let (channel, tail) = match read_scan_channel_descriptor_from(rest) {
            Ok(read) => read,
            Err(e) => {
                return Err(e);
            },
        };
        match observe_scan_channel(&mut state, channel) {
            Ok(()) => {},
            Err(error) => {
                return Err(map_channel_error(error));
            },
        }
        proof {
            list = list.push(channel);
        }
        rest = tail;
        i = i + 1;
    }
    match finish_scan_channel_validation(&state) {
        Ok(()) => {},
        Err(error) => {
            return Err(map_channel_error(error));
        },
    }
    proof {
        lemma_channel_set_bytes(source@);
    }
    let consumed: usize = source.len() - rest.len();
    let bytes: &'a [u8] = slice_subrange(source, 0, consumed);
    assert(bytes@ =~= source@.take(consumed as int));
    Ok((ScanChannelSetRef { bytes, len: count }, rest))
}

pub proof fn lemma_add_assoc(a: Seq<u8>, b: Seq<u8>, c: Seq<u8>)
    ensures
        (a + b) + c == a + (b + c),
{
    assert((a + b) + c =~= a + (b + c));
}

proof fn lemma_producer_round_trip(producer: ProducerDescriptorWire, rest: Seq<u8>)
    ensures
        parse_producer(producer_bytes(producer) + rest) == Ok::<
            (ProducerDescriptorWire, Seq<u8>),
            DecodeFault,
        >((producer, rest)),
        producer_bytes(producer).len() == 6,
{
    let role = role_byte(producer.role);
    let r2 = uint_bytes(MARKER_U8, role as nat, 1) + rest;
    let r1 = uint_bytes(MARKER_U16, producer.producer_id as nat, 2) + r2;
    law_integers_round_trip(role, 0, 0, 0, rest);
    law_integers_round_trip(0, producer.producer_id, 0, 0, r2);
    law_array_len_round_trip(PRODUCER_DESCRIPTOR_LEN, r1);
    assert(producer_bytes(producer) + rest =~= array_len_bytes(PRODUCER_DESCRIPTOR_LEN) + r1);
}

proof fn lemma_channel_round_trip(channel: ScanChannelDescriptorWire, rest: Seq<u8>)
    ensures
        parse_channel(channel_bytes(channel) + rest) == Ok::<
            (ScanChannelDescriptorWire, Seq<u8>),
            DecodeFault,
        >((channel, rest)),
        channel_bytes(channel).len() == 38,
{
    reveal(channel_bytes);
    reveal(parse_channel);
    let role = role_byte(channel.role);
    let b0 = array_len_bytes(SCAN_CHANNEL_DESCRIPTOR_LEN);
    let b1 = b0 + uint_bytes(MARKER_U64, channel.scan_id as nat, 8);
    let b2 = b1 + uint_bytes(MARKER_U16, channel.producer_id as nat, 2);
    let b3 = b2 + uint_bytes(MARKER_U8, role as nat, 1);
    let b4 = b3 + uint_bytes(MARKER_U32, channel.peer.slot_id as nat, 4);
    let b5 = b4 + uint_bytes(MARKER_U64, channel.peer.generation as nat, 8);
    let r6 = uint_bytes(MARKER_U64, channel.peer.lease_epoch as nat, 8) + rest;
    let r5 = uint_bytes(MARKER_U64, channel.peer.generation as nat, 8) + r6;
    let r4 = uint_bytes(MARKER_U32, channel.peer.slot_id as nat, 4) + r5;
    let r3 = uint_bytes(MARKER_U8, role as nat, 1) + r4;
    let r2 = uint_bytes(MARKER_U16, channel.producer_id as nat, 2) + r3;
    let r1 = uint_bytes(MARKER_U64, channel.scan_id as nat, 8) + r2;
    law_integers_round_trip(0, 0, 0, channel.peer.lease_epoch, rest);
    law_integers_round_trip(0, 0, 0, channel.peer.generation, r6);
    law_integers_round_trip(0, 0, channel.peer.slot_id, 0, r5);
    law_integers_round_trip(role, 0, 0, 0, r4);
    law_integers_round_trip(0, channel.producer_id, 0, 0, r3);
    law_integers_round_trip(0, 0, 0, channel.scan_id, r2);
    law_array_len_round_trip(SCAN_CHANNEL_DESCRIPTOR_LEN, r1);
    lemma_add_assoc(b5, uint_bytes(MARKER_U64, channel.peer.lease_epoch as nat, 8), rest);
    lemma_add_assoc(b4, uint_bytes(MARKER_U64, channel.peer.generation as nat, 8), r6);
    lemma_add_assoc(b3, uint_bytes(MARKER_U32, channel.peer.slot_id as nat, 4), r5);
    lemma_add_assoc(b2, uint_bytes(MARKER_U8, role as nat, 1), r4);
    lemma_add_assoc(b1, uint_bytes(MARKER_U16, channel.producer_id as nat, 2), r3);
    lemma_add_assoc(b0, uint_bytes(MARKER_U64, channel.scan_id as nat, 8), r2);
}

proof fn lemma_producer_list_front(producers: Seq<ProducerDescriptorWire>)
    requires
        producers.len() > 0,
    ensures
        producer_list_bytes(producers) == producer_bytes(producers[0]) + producer_list_bytes(
            producers.drop_first(),
        ),
    decreases producers.len(),
{
    let tail = producers.drop_first();
    if producers.len() == 1 {
        reveal_with_fuel(producer_list_bytes, 2);
        assert(producers.drop_last() =~= Seq::empty());
        assert(producer_list_bytes(producers) =~= producer_bytes(producers[0])
            + producer_list_bytes(tail));
    } else {
        lemma_producer_list_front(producers.drop_last());
        assert(producers.drop_last().drop_first() =~= tail.drop_last());
        assert(tail.last() == producers.last());
        assert(producer_list_bytes(producers) =~= producer_bytes(producers[0])
            + producer_list_bytes(tail));
    }
}

proof fn lemma_channel_list_front(channels: Seq<ScanChannelDescriptorWire>)
    requires
        channels.len() > 0,
    ensures
        channel_list_bytes(channels) == channel_bytes(channels[0]) + channel_list_bytes(
            channels.drop_first(),
        ),
    decreases channels.len(),
{
    let tail = channels.drop_first();
    if channels.len() == 1 {
        reveal_with_fuel(channel_list_bytes, 2);
        assert(channels.drop_last() =~= Seq::empty());
        assert(channel_list_bytes(channels) =~= channel_bytes(channels[0]) + channel_list_bytes(
            tail,
        ));
    } else {
        lemma_channel_list_front(channels.drop_last());
        assert(channels.drop_last().drop_first() =~= tail.drop_last());
        assert(tail.last() == channels.last());
        assert(channel_list_bytes(channels) =~= channel_bytes(channels[0]) + channel_list_bytes(
            tail,
        ));
    }
}

/// How long encoded lists are.
pub proof fn lemma_list_lens(
    producers: Seq<ProducerDescriptorWire>,
    channels: Seq<ScanChannelDescriptorWire>,
)
    ensures
        producer_list_bytes(producers).len() == 6 * producers.len(),
        channel_list_bytes(channels).len() == 38 * channels.len(),
    decreases producers.len() + channels.len(),
{
    if producers.len() > 0 {
        lemma_producer_round_trip(producers.last(), Seq::empty());
        lemma_list_lens(producers.drop_last(), channels);
    } else if channels.len() > 0 {
        lemma_channel_round_trip(channels.last(), Seq::empty());
        lemma_list_lens(producers, channels.drop_last());
    }
}

proof fn lemma_fault_at_prefix(producers: Seq<ProducerDescriptorWire>, i: int)
    requires
        0 <= i < producers.len(),
    ensures
        producer_fault_at(producers.take(i + 1), i) == producer_fault_at(producers, i),
{
    let list = producers.take(i + 1);
    if leader_before(producers, i) {
        let j = choose|j: int|
            0 <= j < i && (#[trigger] producers[j]).role == ProducerRole::Leader;
        assert(list[j].role == ProducerRole::Leader);
    }
    if leader_before(list, i) {
        let j = choose|j: int| 0 <= j < i && (#[trigger] list[j]).role == ProducerRole::Leader;
        assert(producers[j].role == ProducerRole::Leader);
    }
    let id = producers[i].producer_id;
    if ids_before(producers, i).contains(id) {
        let j = choose|j: int| 0 <= j < i && (#[trigger] producers[j]).producer_id == id;
        assert(list[j].producer_id == id);
    }
    if ids_before(list, i).contains(id) {
        let j = choose|j: int| 0 <= j < i && (#[trigger] list[j]).producer_id == id;
        assert(producers[j].producer_id == id);
    }
    assert(leader_before(list, i) == leader_before(producers, i));
    assert(ids_before(list, i).contains(id) == ids_before(producers, i).contains(id));
}

proof fn lemma_producers_round_trip(
    producers: Seq<ProducerDescriptorWire>,
    i: int,
    rest: Seq<u8>,
)
    requires
        0 <= i <= producers.len(),
        producer_fault_from(producers, i) is None,
    ensures
        parse_producers(
            producer_list_bytes(producers.skip(i)) + rest,
            (producers.len() - i) as nat,
            producers.take(i),
        ) == Ok::<(Seq<ProducerDescriptorWire>, Seq<u8>), DecodeFault>((producers, rest)),
    decreases producers.len() - i,
{
    let s = producer_list_bytes(producers.skip(i)) + rest;
    if i == producers.len() {
        assert(producers.take(i) =~= producers);
        assert(s =~= rest);
    } else {
        let front = producers.skip(i);
        lemma_producer_list_front(front);
        assert(front.drop_first() =~= producers.skip(i + 1));
        let tail = producer_list_bytes(producers.skip(i + 1)) + rest;
        assert(s =~= producer_bytes(producers[i]) + tail);
        lemma_producer_round_trip(producers[i], tail);
        assert(producers.take(i).push(producers[i]) =~= producers.take(i + 1));
        lemma_fault_at_prefix(producers, i);
        lemma_producers_round_trip(producers, i + 1, rest);
    }
}

/// A list of producers that is a set reads back as it was written; what follows
/// it is left.
pub proof fn law_producer_set_round_trip(producers: Seq<ProducerDescriptorWire>, rest: Seq<u8>)
    requires
        producer_set_fault(producers) is None,
        producers.len() <= u32::MAX,
    ensures
        parse_producer_set(producer_set_bytes(producers) + rest) == Ok::<
            (Seq<ProducerDescriptorWire>, Seq<u8>),
            DecodeFault,
        >((producers, rest)),
{
    let tail = producer_list_bytes(producers) + rest;
    assert(producer_set_bytes(producers) + rest =~= array_len_bytes(producers.len() as u32)
        + tail);
    law_array_len_round_trip(producers.len() as u32, tail);
    assert(producers.skip(0) =~= producers);
    assert(producers.take(0) =~= Seq::empty());
    lemma_producers_round_trip(producers, 0, rest);
}

proof fn lemma_observed_ok_before(channels: Seq<ScanChannelDescriptorWire>, i: int)
    requires
        0 <= i <= channels.len(),
        observed(channels, channels.len() as int) is Ok,
    ensures
        observed(channels, i) is Ok,
{
    if observed(channels, i) is Err {
        lemma_observed_error_stays(channels, i);
    }
}

proof fn lemma_channels_round_trip(
    channels: Seq<ScanChannelDescriptorWire>,
    i: int,
    rest: Seq<u8>,
)
    requires
        0 <= i <= channels.len(),
        channel_set_fault(channels) is None,
    ensures
        parse_channels(
            channel_list_bytes(channels.skip(i)) + rest,
            (channels.len() - i) as nat,
            channels.take(i),
            observed(channels, i)->Ok_0,
        ) == Ok::<(Seq<ScanChannelDescriptorWire>, Seq<u8>), DecodeFault>((channels, rest)),
    decreases channels.len() - i,
{
    let s = channel_list_bytes(channels.skip(i)) + rest;
    if i == channels.len() {
        assert(channels.take(i) =~= channels);
        assert(s =~= rest);
    } else {
        let front = channels.skip(i);
        lemma_channel_list_front(front);
        assert(front.drop_first() =~= channels.skip(i + 1));
        let tail = channel_list_bytes(channels.skip(i + 1)) + rest;
        assert(s =~= channel_bytes(channels[i]) + tail);
        lemma_channel_round_trip(channels[i], tail);
        assert(channels.take(i).push(channels[i]) =~= channels.take(i + 1));
        lemma_observed_ok_before(channels, i);
        lemma_observed_ok_before(channels, i + 1);
        lemma_channels_round_trip(channels, i + 1, rest);
    }
}

/// A list of scan channels that is a set reads back as it was written; what
/// follows it is left.
pub proof fn law_channel_set_round_trip(channels: Seq<ScanChannelDescriptorWire>, rest: Seq<u8>)
    requires
        channel_set_fault(channels) is None,
        channels.len() <= u32::MAX,
    ensures
        parse_channel_set(channel_set_bytes(channels) + rest) == Ok::<
            (Seq<ScanChannelDescriptorWire>, Seq<u8>),
            DecodeFault,
        >((channels, rest)),
{
    let tail = channel_list_bytes(channels) + rest;
    assert(channel_set_bytes(channels) + rest =~= array_len_bytes(channels.len() as u32) + tail);
    law_array_len_round_trip(channels.len() as u32, tail);
    assert(channels.skip(0) =~= channels);
    assert(channels.take(0) =~= Seq::empty());
    lemma_channels_round_trip(channels, 0, rest);
}

proof fn lemma_observed_prefix(
    a: Seq<ScanChannelDescriptorWire>,
    b: Seq<ScanChannelDescriptorWire>,
    n: int,
)
    requires
        0 <= n <= a.len(),
        n <= b.len(),
        a.take(n) == b.take(n),
    ensures
        observed(a, n) == observed(b, n),
    decreases n,
{
    if n > 0 {
        assert(a.take(n - 1) =~= a.take(n).take(n - 1));
        assert(b.take(n - 1) =~= b.take(n).take(n - 1));
        assert(a[n - 1] == a.take(n)[n - 1]);
        assert(b[n - 1] == b.take(n)[n - 1]);
        lemma_observed_prefix(a, b, n - 1);
    }
}

proof fn lemma_read_channels_valid(
    s: Seq<u8>,
    n: nat,
    before: Seq<ScanChannelDescriptorWire>,
    state: ScanChannelValidationState,
)
    requires
        parse_channels(s, n, before, state) is Ok,
        observed(before, before.len() as int) == Ok::<
            ScanChannelValidationState,
            ScanChannelSetError,
        >(state),
    ensures
        channel_set_fault(parse_channels(s, n, before, state)->Ok_0.0) is None,
    decreases n,
{
    if n > 0 {
        let (channel, rest) = parse_channel(s)->Ok_0;
        let next = observe_step(state, channel)->Ok_0;
        let longer = before.push(channel);
        assert(longer.take(before.len() as int) =~= before.take(before.len() as int));
        lemma_observed_prefix(longer, before, before.len() as int);
        lemma_read_channels_valid(rest, (n - 1) as nat, longer, next);
    }
}

proof fn lemma_read_producers_valid(s: Seq<u8>, n: nat, before: Seq<ProducerDescriptorWire>)
    requires
        parse_producers(s, n, before) is Ok,
        forall|i: int|
            0 <= i < before.len() ==> #[trigger] producer_fault_at(before, i) is None,
    ensures
        forall|i: int|
            0 <= i < parse_producers(s, n, before)->Ok_0.0.len() ==> #[trigger] producer_fault_at(
                parse_producers(s, n, before)->Ok_0.0,
                i,
            ) is None,
    decreases n,
{
    if n > 0 {
        let (producer, rest) = parse_producer(s)->Ok_0;
        let longer = before.push(producer);
        assert forall|i: int| 0 <= i < longer.len() implies #[trigger] producer_fault_at(
            longer,
            i,
        ) is None by {
            if i < before.len() {
                lemma_fault_at_prefix(longer, i);
                lemma_fault_at_prefix(before, i);
                assert(longer.take(i + 1) =~= before.take(i + 1));
                assert(producer_fault_at(before, i) is None);
            }
        }
        lemma_read_producers_valid(rest, (n - 1) as nat, longer);
    }
}

proof fn lemma_no_fault_from(producers: Seq<ProducerDescriptorWire>, from: int)
    requires
        0 <= from,
        forall|i: int|
            0 <= i < producers.len() ==> #[trigger] producer_fault_at(producers, i) is None,
    ensures
        producer_fault_from(producers, from) is None,
    decreases producers.len() - from,
{
    if from < producers.len() {
        assert(producer_fault_at(producers, from) is None);
        lemma_no_fault_from(producers, from + 1);
    }
}

/// Whatever bytes a set is read from, it is a set.
pub proof fn law_read_sets_are_valid(source: Seq<u8>)
    ensures
        parse_producer_set(source) matches Ok((producers, _)) ==> producer_set_fault(
            producers,
        ) is None,
        parse_channel_set(source) matches Ok((channels, _)) ==> channel_set_fault(channels) is None,
{
    if parse_producer_set(source) is Ok {
        let (count, rest) = parse_array(source)->Ok_0;
        lemma_producers_shrink(rest, count as nat, Seq::empty());
        lemma_read_producers_valid(rest, count as nat, Seq::empty());
        lemma_no_fault_from(parse_producer_set(source)->Ok_0.0, 0);
    }
    if parse_channel_set(source) is Ok {
        let (count, rest) = parse_array(source)->Ok_0;
        lemma_read_channels_valid(rest, count as nat, Seq::empty(), no_channel());
    }
}

} // verus!
