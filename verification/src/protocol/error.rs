//! Errors of encoding and decoding.

use super::scan::ScanChannelSetError;
use vstd::prelude::*;

verus! {

/// Errors returned while encoding one message.
#[derive(Debug, PartialEq, Eq)]
pub enum EncodeError {
    BufferTooSmall { expected: usize, actual: usize },
    TooManyProducers { count: usize },
    TooManyScanChannels { count: usize },
    ScanFailureMessageTooLong { actual: usize, maximum: usize },
    MsgPack(String),
    Envelope(String),
    ScanChannels(ScanChannelSetError),
}

/// Errors returned while decoding one message.
#[allow(inconsistent_fields)]
#[derive(Debug, PartialEq, Eq)]
pub enum DecodeError {
    InvalidArrayLen { expected: u32, actual: u32 },
    TruncatedEnvelope { expected: usize, actual: usize },
    InvalidMagic { expected: u32, actual: u32 },
    UnsupportedVersion { expected: u16, actual: u16 },
    UnexpectedMessageFamily { actual: u8 },
    UnexpectedTag { actual: u8 },
    InvalidFailureCode { actual: u8 },
    InvalidProducerRole { actual: u8 },
    DuplicateScanProducer { scan_id: u64, producer_id: u16 },
    ScanChannelOutOfOrder {
        previous_scan_id: u64,
        previous_producer_id: u16,
        current_scan_id: u64,
        current_producer_id: u16,
    },
    MultipleScanChannelLeaders { scan_id: u64 },
    MissingScanChannelLeader { scan_id: u64 },
    EmptyProducerSet,
    DuplicateProducerId { producer_id: u16 },
    MultipleLeaders,
    TrailingBytes { remaining: usize },
    MsgPack(String),
}

/// What a [`DecodeError`] says, with its text as characters.
#[allow(inconsistent_fields)]
pub enum DecodeFault {
    InvalidArrayLen { expected: u32, actual: u32 },
    TruncatedEnvelope { expected: usize, actual: usize },
    InvalidMagic { expected: u32, actual: u32 },
    UnsupportedVersion { expected: u16, actual: u16 },
    UnexpectedMessageFamily { actual: u8 },
    UnexpectedTag { actual: u8 },
    InvalidFailureCode { actual: u8 },
    InvalidProducerRole { actual: u8 },
    DuplicateScanProducer { scan_id: u64, producer_id: u16 },
    ScanChannelOutOfOrder {
        previous_scan_id: u64,
        previous_producer_id: u16,
        current_scan_id: u64,
        current_producer_id: u16,
    },
    MultipleScanChannelLeaders { scan_id: u64 },
    MissingScanChannelLeader { scan_id: u64 },
    EmptyProducerSet,
    DuplicateProducerId { producer_id: u16 },
    MultipleLeaders,
    TrailingBytes { remaining: usize },
    MsgPack(Seq<char>),
}

impl View for DecodeError {
    type V = DecodeFault;

    open spec fn view(&self) -> DecodeFault {
        match *self {
            DecodeError::InvalidArrayLen { expected, actual } => DecodeFault::InvalidArrayLen {
                expected,
                actual,
            },
            DecodeError::TruncatedEnvelope { expected, actual } => {
                DecodeFault::TruncatedEnvelope { expected, actual }
            },
            DecodeError::InvalidMagic { expected, actual } => DecodeFault::InvalidMagic {
                expected,
                actual,
            },
            DecodeError::UnsupportedVersion { expected, actual } => {
                DecodeFault::UnsupportedVersion { expected, actual }
            },
            DecodeError::UnexpectedMessageFamily { actual } => {
                DecodeFault::UnexpectedMessageFamily { actual }
            },
            DecodeError::UnexpectedTag { actual } => DecodeFault::UnexpectedTag { actual },
            DecodeError::InvalidFailureCode { actual } => DecodeFault::InvalidFailureCode {
                actual,
            },
            DecodeError::InvalidProducerRole { actual } => DecodeFault::InvalidProducerRole {
                actual,
            },
            DecodeError::DuplicateScanProducer { scan_id, producer_id } => {
                DecodeFault::DuplicateScanProducer { scan_id, producer_id }
            },
            DecodeError::ScanChannelOutOfOrder {
                previous_scan_id,
                previous_producer_id,
                current_scan_id,
                current_producer_id,
            } => DecodeFault::ScanChannelOutOfOrder {
                previous_scan_id,
                previous_producer_id,
                current_scan_id,
                current_producer_id,
            },
            DecodeError::MultipleScanChannelLeaders { scan_id } => {
                DecodeFault::MultipleScanChannelLeaders { scan_id }
            },
            DecodeError::MissingScanChannelLeader { scan_id } => {
                DecodeFault::MissingScanChannelLeader { scan_id }
            },
            DecodeError::EmptyProducerSet => DecodeFault::EmptyProducerSet,
            DecodeError::DuplicateProducerId { producer_id } => {
                DecodeFault::DuplicateProducerId { producer_id }
            },
            DecodeError::MultipleLeaders => DecodeFault::MultipleLeaders,
            DecodeError::TrailingBytes { remaining } => DecodeFault::TrailingBytes { remaining },
            DecodeError::MsgPack(text) => DecodeFault::MsgPack(text@),
        }
    }
}

/// `r` is what a parser says: the same value with the same rest, or an error
/// that says the same.
pub open spec fn parsed_as<T>(
    r: Result<(T, &[u8]), DecodeError>,
    parse: Result<(T, Seq<u8>), DecodeFault>,
) -> bool {
    match parse {
        Ok((value, rest)) => r matches Ok((v, s)) && v == value && s@ == rest,
        Err(fault) => r matches Err(e) && e@ == fault,
    }
}

/// An error says what its own parts say.
pub proof fn law_decode_errors_say_their_parts(error: DecodeError)
    ensures
        error matches DecodeError::InvalidArrayLen { expected, actual } ==> error@ == (DecodeFault::InvalidArrayLen {
            expected,
            actual,
        }),
        error matches DecodeError::TruncatedEnvelope { expected, actual } ==> error@ == (DecodeFault::TruncatedEnvelope {
            expected,
            actual,
        }),
        error matches DecodeError::InvalidMagic { expected, actual } ==> error@ == (DecodeFault::InvalidMagic {
            expected,
            actual,
        }),
        error matches DecodeError::UnsupportedVersion { expected, actual } ==> error@ == (DecodeFault::UnsupportedVersion {
            expected,
            actual,
        }),
        error matches DecodeError::UnexpectedMessageFamily { actual } ==> error@ == (DecodeFault::UnexpectedMessageFamily {
            actual,
        }),
        error matches DecodeError::UnexpectedTag { actual } ==> error@ == (DecodeFault::UnexpectedTag {
            actual,
        }),
        error matches DecodeError::InvalidFailureCode { actual } ==> error@ == (DecodeFault::InvalidFailureCode {
            actual,
        }),
        error matches DecodeError::InvalidProducerRole { actual } ==> error@ == (DecodeFault::InvalidProducerRole {
            actual,
        }),
        error matches DecodeError::DuplicateScanProducer { scan_id, producer_id } ==> error@ == (DecodeFault::DuplicateScanProducer {
            scan_id,
            producer_id,
        }),
        error matches DecodeError::ScanChannelOutOfOrder {
            previous_scan_id,
            previous_producer_id,
            current_scan_id,
            current_producer_id,
        } ==> error@ == (DecodeFault::ScanChannelOutOfOrder {
            previous_scan_id,
            previous_producer_id,
            current_scan_id,
            current_producer_id,
        }),
        error matches DecodeError::MultipleScanChannelLeaders { scan_id } ==> error@ == (DecodeFault::MultipleScanChannelLeaders {
            scan_id,
        }),
        error matches DecodeError::MissingScanChannelLeader { scan_id } ==> error@ == (DecodeFault::MissingScanChannelLeader {
            scan_id,
        }),
        error matches DecodeError::DuplicateProducerId { producer_id } ==> error@ == (DecodeFault::DuplicateProducerId {
            producer_id,
        }),
        error matches DecodeError::TrailingBytes { remaining } ==> error@ == (DecodeFault::TrailingBytes {
            remaining,
        }),
        error is EmptyProducerSet <==> error@ is EmptyProducerSet,
        error is MultipleLeaders <==> error@ is MultipleLeaders,
        error matches DecodeError::MsgPack(text) ==> error@ == DecodeFault::MsgPack(text@),
{
}

/// What a reader returns is what its parser says: the value and what is left of
/// the bytes, or the fault, and never one for the other.
pub proof fn law_readers_do_as_their_parsers<T>(
    r: Result<(T, &[u8]), DecodeError>,
    parse: Result<(T, Seq<u8>), DecodeFault>,
)
    requires
        parsed_as(r, parse),
    ensures
        r is Ok <==> parse is Ok,
        r matches Ok((value, rest)) ==> parse == Ok::<(T, Seq<u8>), DecodeFault>((value, rest@)),
        r matches Err(e) ==> parse == Err::<(T, Seq<u8>), DecodeFault>(e@),
{
}

} // verus!
