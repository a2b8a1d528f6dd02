//! Sets of producers and of scan channels, as lists and as encoded bytes.
//!
//! A decoded set keeps the bytes it was read from. They were checked when the
//! set was read, so walking over them cannot fail.

use super::error::{parsed_as, DecodeError, DecodeFault, EncodeError};
use super::msgpack::{
    array_len_bytes, expect_message_len, parse_array, parse_u16, parse_u32, parse_u64, parse_u8,
    read_array_len_from, read_u16_from, read_u32_from, read_u64_from, read_u8_from, uint_bytes,
    write_array_len_to, write_u16_to, write_u32_to, write_u64_to, write_u8_to, MARKER_U16,
    MARKER_U32, MARKER_U64, MARKER_U8,
};
use super::scan::{
    role_byte, role_of, BackendLeaseSlotWire, ProducerDescriptorWire, ProducerRole,
    ProducerSetError, ScanChannelDescriptorWire, ScanChannelSetError, PRODUCER_DESCRIPTOR_LEN,
    SCAN_CHANNEL_DESCRIPTOR_LEN,
};
use super::validation::{
    channel_set_fault, finish_fault, no_channel, observe_step, producer_fault_at,
    producer_set_fault, validate_encode_producer_slice, validate_scan_channel_slice,
    ScanChannelValidationState,
};
use vstd::prelude::*;

verus! {

/// One encoded producer.
pub open spec fn producer_bytes(producer: ProducerDescriptorWire) -> Seq<u8> {
    array_len_bytes(PRODUCER_DESCRIPTOR_LEN) + uint_bytes(
        MARKER_U16,
        producer.producer_id as nat,
        2,
    ) + uint_bytes(MARKER_U8, role_byte(producer.role) as nat, 1)
}

/// One encoded scan channel.
#[verifier::opaque]
pub open spec fn channel_bytes(channel: ScanChannelDescriptorWire) -> Seq<u8> {
    array_len_bytes(SCAN_CHANNEL_DESCRIPTOR_LEN) + uint_bytes(
        MARKER_U64,
        channel.scan_id as nat,
        8,
    ) + uint_bytes(MARKER_U16, channel.producer_id as nat, 2) + uint_bytes(
        MARKER_U8,
        role_byte(channel.role) as nat,
        1,
    ) + uint_bytes(MARKER_U32, channel.peer.slot_id as nat, 4) + uint_bytes(
        MARKER_U64,
        channel.peer.generation as nat,
        8,
    ) + uint_bytes(MARKER_U64, channel.peer.lease_epoch as nat, 8)
}

/// Several encoded producers, one after the other.
pub open spec fn producer_list_bytes(producers: Seq<ProducerDescriptorWire>) -> Seq<u8>
    decreases producers.len(),
{
    if producers.len() == 0 {
        Seq::empty()
    } else {
        producer_list_bytes(producers.drop_last()) + producer_bytes(producers.last())
    }
}

/// Several encoded scan channels, one after the other.
pub open spec fn channel_list_bytes(channels: Seq<ScanChannelDescriptorWire>) -> Seq<u8>
    decreases channels.len(),
{
    if channels.len() == 0 {
        Seq::empty()
    } else {
        channel_list_bytes(channels.drop_last()) + channel_bytes(channels.last())
    }
}

/// An encoded set of producers.
pub open spec fn producer_set_bytes(producers: Seq<ProducerDescriptorWire>) -> Seq<u8> {
    array_len_bytes(producers.len() as u32) + producer_list_bytes(producers)
}

/// An encoded set of scan channels.
pub open spec fn channel_set_bytes(channels: Seq<ScanChannelDescriptorWire>) -> Seq<u8> {
    array_len_bytes(channels.len() as u32) + channel_list_bytes(channels)
}

/// The error of decoding a list that is not a set of producers.
pub open spec fn producer_decode_fault(error: ProducerSetError) -> DecodeFault {
    match error {
        ProducerSetError::EmptyProducerSet => DecodeFault::EmptyProducerSet,
        ProducerSetError::DuplicateProducerId { producer_id } => {
            DecodeFault::DuplicateProducerId { producer_id }
        },
        ProducerSetError::MultipleLeaders => DecodeFault::MultipleLeaders,
    }
}

/// The error of decoding a list that is not a set of scan channels.
pub open spec fn channel_decode_fault(error: ScanChannelSetError) -> DecodeFault {
    match error {
        ScanChannelSetError::DuplicateProducer { scan_id, producer_id } => {
            DecodeFault::DuplicateScanProducer { scan_id, producer_id }
        },
        ScanChannelSetError::ChannelOutOfOrder {
            previous_scan_id,
            previous_producer_id,
            current_scan_id,
            current_producer_id,
        } => DecodeFault::ScanChannelOutOfOrder {
            previous_scan_id,
            previous_producer_id,
            current_scan_id,
            current_producer_id,
        },
        ScanChannelSetError::MultipleLeaders { scan_id } => {
            DecodeFault::MultipleScanChannelLeaders { scan_id }
        },
        ScanChannelSetError::MissingLeader { scan_id } => {
            DecodeFault::MissingScanChannelLeader { scan_id }
        },
    }
}

pub fn map_producer_error(error: ProducerSetError) -> (r: DecodeError)
    ensures
        r@ == producer_decode_fault(error),
{
    match error {
        ProducerSetError::EmptyProducerSet => DecodeError::EmptyProducerSet,
        ProducerSetError::DuplicateProducerId { producer_id } => {
            DecodeError::DuplicateProducerId { producer_id }
        },
        ProducerSetError::MultipleLeaders => DecodeError::MultipleLeaders,
    }
}

pub fn map_channel_error(error: ScanChannelSetError) -> (r: DecodeError)
    ensures
        r@ == channel_decode_fault(error),
{
    match error {
        ScanChannelSetError::DuplicateProducer { scan_id, producer_id } => {
            DecodeError::DuplicateScanProducer { scan_id, producer_id }
        },
        ScanChannelSetError::ChannelOutOfOrder {
            previous_scan_id,
            previous_producer_id,
            current_scan_id,
            current_producer_id,
        } => DecodeError::ScanChannelOutOfOrder {
            previous_scan_id,
            previous_producer_id,
            current_scan_id,
            current_producer_id,
        },
        ScanChannelSetError::MultipleLeaders { scan_id } => {
            DecodeError::MultipleScanChannelLeaders { scan_id }
        },
        ScanChannelSetError::MissingLeader { scan_id } => {
            DecodeError::MissingScanChannelLeader { scan_id }
        },
    }
}

/// The parse of an array header that must give this length.
pub open spec fn parse_header(source: Seq<u8>, expected: u32) -> Result<
    ((), Seq<u8>),
    DecodeFault,
> {
    match parse_array(source) {
        Err(fault) => Err(fault),
        Ok((actual, rest)) => if actual != expected {
            Err(DecodeFault::InvalidArrayLen { expected, actual })
        } else {
            Ok(((), rest))
        },
    }
}

/// The parse of a role.
pub open spec fn parse_role(source: Seq<u8>) -> Result<(ProducerRole, Seq<u8>), DecodeFault> {
    match parse_u8(source) {
        Err(fault) => Err(fault),
        Ok((code, rest)) => match role_of(code) {
            Some(role) => Ok((role, rest)),
            None => Err(DecodeFault::InvalidProducerRole { actual: code }),
        },
    }
}

/// The parse of one producer.
pub open spec fn parse_producer(source: Seq<u8>) -> Result<
    (ProducerDescriptorWire, Seq<u8>),
    DecodeFault,
> {
    match parse_header(source, PRODUCER_DESCRIPTOR_LEN) {
        Err(fault) => Err(fault),
        Ok((_, s1)) => match parse_u16(s1) {
            Err(fault) => Err(fault),
            Ok((producer_id, s2)) => match parse_role(s2) {
                Err(fault) => Err(fault),
                Ok((role, s3)) => Ok((ProducerDescriptorWire { producer_id, role }, s3)),
            },
        },
    }
}

/// The parse of a backend lease slot.
pub open spec fn parse_peer(source: Seq<u8>) -> Result<
    (BackendLeaseSlotWire, Seq<u8>),
    DecodeFault,
> {
    match parse_u32(source) {
        Err(fault) => Err(fault),
        Ok((slot_id, s1)) => match parse_u64(s1) {
            Err(fault) => Err(fault),
            Ok((generation, s2)) => match parse_u64(s2) {
                Err(fault) => Err(fault),
                Ok((lease_epoch, s3)) => Ok(
                    (BackendLeaseSlotWire { slot_id, generation, lease_epoch }, s3),
                ),
            },
        },
    }
}

/// The parse of one scan channel.
#[verifier::opaque]
pub open spec fn parse_channel(source: Seq<u8>) -> Result<
    (ScanChannelDescriptorWire, Seq<u8>),
    DecodeFault,
> {
    match parse_header(source, SCAN_CHANNEL_DESCRIPTOR_LEN) {
        Err(fault) => Err(fault),
        Ok((_, s1)) => match parse_u64(s1) {
            Err(fault) => Err(fault),
            Ok((scan_id, s2)) => match parse_u16(s2) {
                Err(fault) => Err(fault),
                Ok((producer_id, s3)) => match parse_role(s3) {
                    Err(fault) => Err(fault),
                    Ok((role, s4)) => match parse_peer(s4) {
                        Err(fault) => Err(fault),
                        Ok((peer, s5)) => Ok(
                            (ScanChannelDescriptorWire { scan_id, producer_id, role, peer }, s5),
                        ),
                    },
                },
            },
        },
    }
}

/// The parse of `n` more producers of a list, each checked against those in
/// front of it.
pub open spec fn parse_producers(
    source: Seq<u8>,
    n: nat,
    before: Seq<ProducerDescriptorWire>,
) -> Result<(Seq<ProducerDescriptorWire>, Seq<u8>), DecodeFault>
    decreases n,
{
    if n == 0 {
        Ok((before, source))
    } else {
        match parse_producer(source) {
            Err(fault) => Err(fault),
            Ok((producer, rest)) => {
                let list = before.push(producer);
                match producer_fault_at(list, before.len() as int) {
                    Some(error) => Err(producer_decode_fault(error)),
                    None => parse_producers(rest, (n - 1) as nat, list),
                }
            },
        }
    }
}

/// The parse of `n` more scan channels of a list, each checked against the
/// state after those in front of it.
pub open spec fn parse_channels(
    source: Seq<u8>,
    n: nat,
    before: Seq<ScanChannelDescriptorWire>,
    state: ScanChannelValidationState,
) -> Result<(Seq<ScanChannelDescriptorWire>, Seq<u8>), DecodeFault>
    decreases n,
{
    if n == 0 {
        match finish_fault(state) {
            Some(error) => Err(channel_decode_fault(error)),
            None => Ok((before, source)),
        }
    } else {
        match parse_channel(source) {
            Err(fault) => Err(fault),
            Ok((channel, rest)) => match observe_step(state, channel) {
                Err(error) => Err(channel_decode_fault(error)),
                Ok(next) => parse_channels(rest, (n - 1) as nat, before.push(channel), next),
            },
        }
    }
}

/// The parse of a set of producers.
pub open spec fn parse_producer_set(source: Seq<u8>) -> Result<
    (Seq<ProducerDescriptorWire>, Seq<u8>),
    DecodeFault,
> {
    match parse_array(source) {
        Err(fault) => Err(fault),
        Ok((count, rest)) => if count == 0 {
            Err(DecodeFault::EmptyProducerSet)
        } else {
            parse_producers(rest, count as nat, Seq::empty())
        },
    }
}

/// The parse of a set of scan channels.
pub open spec fn parse_channel_set(source: Seq<u8>) -> Result<
    (Seq<ScanChannelDescriptorWire>, Seq<u8>),
    DecodeFault,
> {
    match parse_array(source) {
        Err(fault) => Err(fault),
        Ok((count, rest)) => parse_channels(rest, count as nat, Seq::empty(), no_channel()),
    }
}

/// The `n` producers that bytes start with, unchecked.
pub open spec fn plain_producers(source: Seq<u8>, n: nat) -> Option<Seq<ProducerDescriptorWire>>
    decreases n,
{
    if n == 0 {
        Some(Seq::empty())
    } else {
        match parse_producer(source) {
            Err(_) => None,
            Ok((producer, rest)) => match plain_producers(rest, (n - 1) as nat) {
                None => None,
                Some(tail) => Some(seq![producer] + tail),
            },
        }
    }
}

/// The `n` scan channels that bytes start with, unchecked.
pub open spec fn plain_channels(source: Seq<u8>, n: nat) -> Option<Seq<ScanChannelDescriptorWire>>
    decreases n,
{
    if n == 0 {
        Some(Seq::empty())
    } else {
        match parse_channel(source) {
            Err(_) => None,
            Ok((channel, rest)) => match plain_channels(rest, (n - 1) as nat) {
                None => None,
                Some(tail) => Some(seq![channel] + tail),
            },
        }
    }
}

fn read_header(source: &[u8], expected: u32) -> (r: Result<((), &[u8]), DecodeError>)
    ensures
        parsed_as(r, parse_header(source@, expected)),
{
    let (actual, rest) = match read_array_len_from(source) {
        Ok(read) => read,
        Err(e) => {
            return Err(e);
        },
    };
    match expect_message_len(actual, expected) {
        Ok(()) => Ok(((), rest)),
        Err(e) => Err(e),
    }
}

fn read_role(source: &[u8]) -> (r: Result<(ProducerRole, &[u8]), DecodeError>)
    ensures
        parsed_as(r, parse_role(source@)),
{
    let (code, rest) = match read_u8_from(source) {
        Ok(read) => read,
        Err(e) => {
            return Err(e);
        },
    };
    match ProducerRole::from_code(code) {
        Some(role) => Ok((role, rest)),
        None => Err(DecodeError::InvalidProducerRole { actual: code }),
    }
}

/// Reads one producer.
pub fn read_producer_descriptor_from(source: &[u8]) -> (r: Result<
    (ProducerDescriptorWire, &[u8]),
    DecodeError,
>)
    ensures
        parsed_as(r, parse_producer(source@)),
{
    let (_, s1) = match read_header(source, PRODUCER_DESCRIPTOR_LEN) {
        Ok(read) => read,
        Err(e) => {
            return Err(e);
        },
    };
    let (producer_id, s2) = match read_u16_from(s1) {
        Ok(read) => read,
        Err(e) => {
            return Err(e);
        },
    };
    let (role, s3) = match read_role(s2) {
        Ok(read) => read,
        Err(e) => {
            return Err(e);
        },
    };
    Ok((ProducerDescriptorWire { producer_id, role }, s3))
}

fn read_peer(source: &[u8]) -> (r: Result<(BackendLeaseSlotWire, &[u8]), DecodeError>)
    ensures
        parsed_as(r, parse_peer(source@)),
{
    let (slot_id, s1) = match read_u32_from(source) {
        Ok(read) => read,
        Err(e) => {
            return Err(e);
        },
    };
    let (generation, s2) = match read_u64_from(s1) {
        Ok(read) => read,
        Err(e) => {
            return Err(e);
        },
    };
    let (lease_epoch, s3) = match read_u64_from(s2) {
        Ok(read) => read,
        Err(e) => {
            return Err(e);
        },
    };
    Ok((BackendLeaseSlotWire::new(slot_id, generation, lease_epoch), s3))
}

/// Reads one scan channel.
pub fn read_scan_channel_descriptor_from(source: &[u8]) -> (r: Result<
    (ScanChannelDescriptorWire, &[u8]),
    DecodeError,
>)
    ensures
        parsed_as(r, parse_channel(source@)),
{
    proof {
        reveal(parse_channel);
    }
    let (_, s1) = match read_header(source, SCAN_CHANNEL_DESCRIPTOR_LEN) {
        Ok(read) => read,
        Err(e) => {
            return Err(e);
        },
    };
    let (scan_id, s2) = match read_u64_from(s1) {
        Ok(read) => read,
        Err(e) => {
            return Err(e);
        },
    };
    let (producer_id, s3) = match read_u16_from(s2) {
        Ok(read) => read,
        Err(e) => {
            return Err(e);
        },
    };
    let (role, s4) = match read_role(s3) {
        Ok(read) => read,
        Err(e) => {
            return Err(e);
        },
    };
    let (peer, s5) = match read_peer(s4) {
        Ok(read) => read,
        Err(e) => {
            return Err(e);
        },
    };
    Ok((ScanChannelDescriptorWire { scan_id, producer_id, role, peer }, s5))
}

/// Writes a set of producers.
pub fn write_producer_slice_to(sink: &mut Vec<u8>, producers: &[ProducerDescriptorWire]) -> (r:
    Result<(), EncodeError>)
    ensures
        producers@.len() > u32::MAX ==> r == Err::<(), EncodeError>(
            EncodeError::TooManyProducers { count: producers@.len() as usize },
        ) && final(sink)@ == old(sink)@,
        producers@.len() <= u32::MAX ==> r is Ok && final(sink)@ == old(sink)@
            + producer_set_bytes(producers@),
{
    if producers.len() as u64 > u32::MAX as u64 {
        return Err(EncodeError::TooManyProducers { count: producers.len() });
    }
    write_array_len_to(sink, producers.len() as u32);
    let ghost header = old(sink)@ + array_len_bytes(producers@.len() as u32);
    let mut i: usize = 0;
    assert(sink@ =~= header + producer_list_bytes(producers@.take(0)));
    while i < producers.len()
        invariant
            i <= producers@.len(),
            sink@ == header + producer_list_bytes(producers@.take(i as int)),
        decreases producers.len() - i,
    {
        let producer: ProducerDescriptorWire = producers[i];
        write_array_len_to(sink, PRODUCER_DESCRIPTOR_LEN);
        write_u16_to(sink, producer.producer_id);
        write_u8_to(sink, producer.role.code());
        proof {
            let longer = producers@.take(i + 1);
            assert(longer.drop_last() =~= producers@.take(i as int));
            assert(longer.last() == producer);
            assert(sink@ =~= header + producer_list_bytes(longer));
        }
        i = i + 1;
    }
    assert(producers@.take(producers@.len() as int) =~= producers@);
    assert(sink@ =~= old(sink)@ + producer_set_bytes(producers@));
    Ok(())
}

/// Why a list of scan channels cannot be written, if so.
pub open spec fn channels_encode_error(channels: Seq<ScanChannelDescriptorWire>) -> Option<
    EncodeError,
> {
    match channel_set_fault(channels) {
        Some(e) => Some(EncodeError::ScanChannels(e)),
        None => if channels.len() > u32::MAX {
            Some(EncodeError::TooManyScanChannels { count: channels.len() as usize })
        } else {
            None
        },
    }
}

/// Checks and writes a set of scan channels.
pub fn write_scan_channel_slice_to(
    sink: &mut Vec<u8>,
    channels: &[ScanChannelDescriptorWire],
) -> (r: Result<(), EncodeError>)
    ensures
        r == match channels_encode_error(channels@) {
            Some(e) => Err::<(), EncodeError>(e),
            None => Ok(()),
        },
        r is Err ==> final(sink)@ == old(sink)@,
        r is Ok ==> final(sink)@ == old(sink)@ + channel_set_bytes(channels@),
{
    match validate_scan_channel_slice(channels) {
        Ok(()) => {},
        Err(e) => {
            return Err(EncodeError::ScanChannels(e));
        },
    }
    if channels.len() as u64 > u32::MAX as u64 {
        return Err(EncodeError::TooManyScanChannels { count: channels.len() });
    }
    write_array_len_to(sink, channels.len() as u32);
    let ghost header = old(sink)@ + array_len_bytes(channels@.len() as u32);
    let mut i: usize = 0;
    assert(sink@ =~= header + channel_list_bytes(channels@.take(0)));
    while i < channels.len()
        invariant
            i <= channels@.len(),
            sink@ == header + channel_list_bytes(channels@.take(i as int)),
        decreases channels.len() - i,
    {
        let channel: ScanChannelDescriptorWire = channels[i];
        write_array_len_to(sink, SCAN_CHANNEL_DESCRIPTOR_LEN);
        write_u64_to(sink, channel.scan_id);
        write_u16_to(sink, channel.producer_id);
        write_u8_to(sink, channel.role.code());
        write_u32_to(sink, channel.peer.slot_id());
        write_u64_to(sink, channel.peer.generation());
        write_u64_to(sink, channel.peer.lease_epoch());
        proof {
            let longer = channels@.take(i + 1);
            assert(longer.drop_last() =~= channels@.take(i as int));
            assert(longer.last() == channel);
            reveal(channel_bytes);
            assert(sink@ =~= header + channel_list_bytes(longer));
        }
        i = i + 1;
    }
    assert(channels@.take(channels@.len() as int) =~= channels@);
    assert(sink@ =~= old(sink)@ + channel_set_bytes(channels@));
    Ok(())
}

/// Encode-side borrowed execution scan-channel set.
#[derive(Clone, Copy, Debug, PartialEq, Eq)]
pub struct ScanChannelSet<'a> {
    pub channels: &'a [ScanChannelDescriptorWire],
}

impl<'a> ScanChannelSet<'a> {
    /// Return an empty scan-channel set.
    pub fn empty() -> (r: Self)
        ensures
            r.channels@ == Seq::<ScanChannelDescriptorWire>::empty(),
    {
        let none: &'a [ScanChannelDescriptorWire; 0] = &[];
        let r = ScanChannelSet { channels: none };
        assert(r.channels@ =~= Seq::<ScanChannelDescriptorWire>::empty());
        r
    }

    /// Validate and construct one encode-side scan-channel set.
    pub fn new(channels: &'a [ScanChannelDescriptorWire]) -> (r: Result<Self, ScanChannelSetError>)
        ensures
            match channel_set_fault(channels@) {
                Some(e) => r == Err::<Self, ScanChannelSetError>(e),
                None => r matches Ok(set) && set.channels@ == channels@,
            },
    {
        match validate_scan_channel_slice(channels) {
            Ok(()) => Ok(ScanChannelSet { channels }),
            Err(e) => Err(e),
        }
    }

    /// Return the number of published scan channels.
    pub fn len(self) -> (r: usize)
        ensures
            r == self.channels@.len(),
    {
        self.channels.len()
    }

    /// Return whether the set is empty.
    pub fn is_empty(self) -> (r: bool)
        ensures
            r == (self.channels@.len() == 0),
    {
        self.channels.len() == 0
    }

    /// Return the validated channel slice borrowed by this set.
    pub fn channels(self) -> (r: &'a [ScanChannelDescriptorWire])
        ensures
            r@ == self.channels@,
    {
        self.channels
    }
}

/// Borrowed decode-side view of one encoded scan-channel set.
#[derive(Clone, Copy, Debug, PartialEq, Eq)]
pub struct ScanChannelSetRef<'a> {
    pub bytes: &'a [u8],
    pub len: u32,
}

/// Walk over one borrowed decode-side scan-channel set.
#[derive(Clone, Copy, Debug)]
pub struct ScanChannelIter<'a> {
    pub source: &'a [u8],
    pub remaining: u32,
}

impl<'a> ScanChannelSetRef<'a> {
    /// The bytes hold a list of channels.
    pub open spec fn wf(self) -> bool {
        parse_array(self.bytes@) matches Ok((count, rest)) && count == self.len && plain_channels(
            rest,
            self.len as nat,
        ) is Some
    }

    /// The channels that the bytes hold.
    pub open spec fn list(self) -> Seq<ScanChannelDescriptorWire> {
        match parse_array(self.bytes@) {
            Ok((_, rest)) => plain_channels(rest, self.len as nat)->0,
            Err(_) => Seq::empty(),
        }
    }

    /// Return the canonical empty encoded scan-channel set.
    pub fn empty() -> (r: Self)
        ensures
            r.bytes@ == seq![0x90u8],
            r.len == 0,
            r.wf(),
            r.list() == Seq::<ScanChannelDescriptorWire>::empty(),
    {
        let bytes: &'a [u8; 1] = &[0x90];
        let r = ScanChannelSetRef { bytes, len: 0 };
        assert(r.bytes@ =~= seq![0x90u8]);
        r
    }

    /// Return the number of published scan channels.
    pub fn len(self) -> (r: usize)
        ensures
            r == self.len,
    {
        self.len as usize
    }

    /// Return whether the borrowed set is empty.
    pub fn is_empty(self) -> (r: bool)
        ensures
            r == (self.len == 0),
    {
        self.len == 0
    }

    /// Return the original validated encoded bytes.
    pub fn as_encoded(self) -> (r: &'a [u8])
        ensures
            r@ == self.bytes@,
    {
        self.bytes
    }

    /// Walk over the validated borrowed scan-channel descriptors.
    pub fn iter(self) -> (r: ScanChannelIter<'a>)
        requires
            self.wf(),
        ensures
            r.wf(),
            r.left() == self.list(),
            r.remaining == self.len,
    {
        match read_array_len_from(self.bytes) {
            Ok((len, source)) => ScanChannelIter { source, remaining: len },
            Err(_) => ScanChannelIter { source: self.bytes, remaining: 0 },
        }
    }
}

impl<'a> ScanChannelIter<'a> {
    /// The bytes hold the channels that are left.
    pub open spec fn wf(self) -> bool {
        plain_channels(self.source@, self.remaining as nat) is Some
    }

    /// The channels that are left.
    pub open spec fn left(self) -> Seq<ScanChannelDescriptorWire> {
        plain_channels(self.source@, self.remaining as nat)->0
    }

    /// The next channel.
    pub fn next(&mut self) -> (r: Option<ScanChannelDescriptorWire>)
        requires
            old(self).wf(),
        ensures
            final(self).wf(),
            old(self).left().len() == 0 ==> r is None && final(self).left() == old(self).left(),
            old(self).left().len() > 0 ==> r == Some(old(self).left()[0]) && final(self).left()
                == old(self).left().drop_first(),
            old(self).remaining == old(self).left().len(),
    {
        proof {
            lemma_plain_channels_len(self.source@, self.remaining as nat);
        }
        if self.remaining == 0 {
            return None;
        }
        match read_scan_channel_descriptor_from(self.source) {
            Ok((channel, rest)) => {
                self.remaining = self.remaining - 1;
                self.source = rest;
                assert(old(self).left().drop_first() =~= self.left());
                Some(channel)
            },
            Err(_) => None,
        }
    }
}

/// Encode-side descriptor of one scan.
#[derive(Clone, Copy, Debug, PartialEq, Eq)]
pub struct ScanFlowDescriptor<'a> {
    /// Transfer page kind.
    pub page_kind: u16,
    /// Transfer page flags.
    pub page_flags: u16,
    pub producers: &'a [ProducerDescriptorWire],
}

impl<'a> ScanFlowDescriptor<'a> {
    /// Create one encode-side scan descriptor. The producers must form a set.
    pub fn new(
        page_kind: u16,
        page_flags: u16,
        producers: &'a [ProducerDescriptorWire],
    ) -> (r: Result<Self, ProducerSetError>)
        ensures
            match producer_set_fault(producers@) {
                Some(e) => r == Err::<Self, ProducerSetError>(e),
                None => r matches Ok(scan) && scan.page_kind == page_kind && scan.page_flags
                    == page_flags && scan.producers@ == producers@,
            },
    {
        match validate_encode_producer_slice(producers) {
            Ok(()) => Ok(ScanFlowDescriptor { page_kind, page_flags, producers }),
            Err(e) => Err(e),
        }
    }

    /// Return the validated producer slice borrowed by this descriptor.
    pub fn producers(self) -> (r: &'a [ProducerDescriptorWire])
        ensures
            r@ == self.producers@,
    {
        self.producers
    }
}

/// Borrowed decode-side view of one encoded producer set.
#[derive(Clone, Copy, Debug, PartialEq, Eq)]
pub struct ProducerSetRef<'a> {
    pub bytes: &'a [u8],
    pub len: u32,
}

/// Walk over one borrowed decode-side producer set.
#[derive(Clone, Copy, Debug)]
pub struct ProducerIter<'a> {
    pub source: &'a [u8],
    pub remaining: u32,
}

impl<'a> ProducerSetRef<'a> {
    /// The bytes hold a list of producers.
    pub open spec fn wf(self) -> bool {
        parse_array(self.bytes@) matches Ok((count, rest)) && count == self.len
            && plain_producers(rest, self.len as nat) is Some
    }

    /// The producers that the bytes hold.
    pub open spec fn list(self) -> Seq<ProducerDescriptorWire> {
        match parse_array(self.bytes@) {
            Ok((_, rest)) => plain_producers(rest, self.len as nat)->0,
            Err(_) => Seq::empty(),
        }
    }

    /// Return the number of encoded producers.
    pub fn len(self) -> (r: usize)
        ensures
            r == self.len,
    {
        self.len as usize
    }

    /// Return whether the borrowed set is empty.
    pub fn is_empty(self) -> (r: bool)
        ensures
            r == (self.len == 0),
    {
        self.len == 0
    }

    /// Return the original validated encoded bytes.
    pub fn as_encoded(self) -> (r: &'a [u8])
        ensures
            r@ == self.bytes@,
    {
        self.bytes
    }

    /// Walk over the validated borrowed producer descriptors.
    pub fn iter(self) -> (r: ProducerIter<'a>)
        requires
            self.wf(),
        ensures
            r.wf(),
            r.left() == self.list(),
            r.remaining == self.len,
    {
        match read_array_len_from(self.bytes) {
            Ok((len, source)) => ProducerIter { source, remaining: len },
            Err(_) => ProducerIter { source: self.bytes, remaining: 0 },
        }
    }
}

impl<'a> ProducerIter<'a> {
    /// The bytes hold the producers that are left.
    pub open spec fn wf(self) -> bool {
        plain_producers(self.source@, self.remaining as nat) is Some
    }

    /// The producers that are left.
    pub open spec fn left(self) -> Seq<ProducerDescriptorWire> {
        plain_producers(self.source@, self.remaining as nat)->0
    }

    /// The next producer.
    pub fn next(&mut self) -> (r: Option<ProducerDescriptorWire>)
        requires
            old(self).wf(),
        ensures
            final(self).wf(),
            old(self).left().len() == 0 ==> r is None && final(self).left() == old(self).left(),
            old(self).left().len() > 0 ==> r == Some(old(self).left()[0]) && final(self).left()
                == old(self).left().drop_first(),
            old(self).remaining == old(self).left().len(),
    {
        proof {
            lemma_plain_producers_len(self.source@, self.remaining as nat);
        }
        if self.remaining == 0 {
            return None;
        }
        match read_producer_descriptor_from(self.source) {
            Ok((producer, rest)) => {
                self.remaining = self.remaining - 1;
                self.source = rest;
                assert(old(self).left().drop_first() =~= self.left());
                Some(producer)
            },
            Err(_) => None,
        }
    }
}

/// Borrowed decode-side scan descriptor.
#[derive(Clone, Copy, Debug, PartialEq, Eq)]
pub struct ScanFlowDescriptorRef<'a> {
    /// Transfer page kind.
    pub page_kind: u16,
    /// Transfer page flags.
    pub page_flags: u16,
    pub producers: ProducerSetRef<'a>,
}

impl<'a> ScanFlowDescriptorRef<'a> {
    /// Construct one borrowed decode-side scan descriptor from validated parts.
    pub fn new(page_kind: u16, page_flags: u16, producers: ProducerSetRef<'a>) -> (r: Self)
        ensures
            r == (ScanFlowDescriptorRef { page_kind, page_flags, producers }),
    {
        ScanFlowDescriptorRef { page_kind, page_flags, producers }
    }

    /// Return the validated borrowed producer set.
    pub fn producers(self) -> (r: ProducerSetRef<'a>)
        ensures
            r == self.producers,
    {
        self.producers
    }
}

pub proof fn lemma_plain_channels_len(source: Seq<u8>, n: nat)
    ensures
        plain_channels(source, n) matches Some(list) ==> list.len() == n,
    decreases n,
{
    if n > 0 && parse_channel(source) is Ok {
        lemma_plain_channels_len(parse_channel(source)->Ok_0.1, (n - 1) as nat);
    }
}

pub proof fn lemma_plain_producers_len(source: Seq<u8>, n: nat)
    ensures
        plain_producers(source, n) matches Some(list) ==> list.len() == n,
    decreases n,
{
    if n > 0 && parse_producer(source) is Ok {
        lemma_plain_producers_len(parse_producer(source)->Ok_0.1, (n - 1) as nat);
    }
}

} // verus!
