//! Errors of the protocol, in words.

use super::error::{DecodeError, EncodeError};
use super::scan::{ProducerSetError, ScanChannelSetError};
use crate::text::{append_decimal, append_hex_eight, decimal, hex_eight, owned};
use vstd::prelude::*;
use vstd::string::StringExecFns;

verus! {

impl ScanChannelSetError {
    /// The error in words.
    pub open spec fn text(self) -> Seq<char> {
        match self {
            ScanChannelSetError::DuplicateProducer { scan_id, producer_id } => {
                "duplicate scan channel for scan_id "@ + decimal(scan_id as nat) + ", producer_id "@
                    + decimal(producer_id as nat)
            },
            ScanChannelSetError::ChannelOutOfOrder {
                previous_scan_id,
                previous_producer_id,
                current_scan_id,
                current_producer_id,
            } => {
                "scan channel set is not sorted by scan_id/producer_id: previous=("@
                    + decimal(previous_scan_id as nat) + ", "@
                    + decimal(previous_producer_id as nat) + "), current=("@
                    + decimal(current_scan_id as nat) + ", "@ + decimal(current_producer_id as nat)
                    + ")"@
            },
            ScanChannelSetError::MultipleLeaders { scan_id } => {
                "scan channel set declares multiple leader producers for scan_id "@
                    + decimal(scan_id as nat)
            },
            ScanChannelSetError::MissingLeader { scan_id } => {
                "scan channel set declares no leader producer for scan_id "@
                    + decimal(scan_id as nat)
            },
        }
    }

    /// The error in words.
    pub fn message(&self) -> (r: String)
        ensures
            r@ == self.text(),
    {
        match self {
            ScanChannelSetError::DuplicateProducer { scan_id, producer_id } => {
                let mut r: String = owned("duplicate scan channel for scan_id ");
                append_decimal(&mut r, *scan_id);
                r.append(", producer_id ");
                append_decimal(&mut r, *producer_id as u64);
                r
            },
            ScanChannelSetError::ChannelOutOfOrder {
                previous_scan_id,
                previous_producer_id,
                current_scan_id,
                current_producer_id,
            } => {
                let mut r: String = owned(
                    "scan channel set is not sorted by scan_id/producer_id: previous=(",
                );
                append_decimal(&mut r, *previous_scan_id);
                r.append(", ");
                append_decimal(&mut r, *previous_producer_id as u64);
                r.append("), current=(");
                append_decimal(&mut r, *current_scan_id);
                r.append(", ");
                append_decimal(&mut r, *current_producer_id as u64);
                r.append(")");
                r
            },
            ScanChannelSetError::MultipleLeaders { scan_id } => {
                let mut r: String = owned(
                    "scan channel set declares multiple leader producers for scan_id ",
                );
                append_decimal(&mut r, *scan_id);
                r
            },
            ScanChannelSetError::MissingLeader { scan_id } => {
                let mut r: String = owned(
                    "scan channel set declares no leader producer for scan_id ",
                );
                append_decimal(&mut r, *scan_id);
                r
            },
        }
    }
}

impl ProducerSetError {
    /// The error in words.
    pub open spec fn text(self) -> Seq<char> {
        match self {
            ProducerSetError::EmptyProducerSet => "scan open must declare at least one producer"@,
            ProducerSetError::DuplicateProducerId { producer_id } => {
                "duplicate producer id "@ + decimal(producer_id as nat) + " in scan open"@
            },
            ProducerSetError::MultipleLeaders => {
                "scan open may declare at most one leader producer"@
            },
        }
    }

    /// The error in words.
    pub fn message(&self) -> (r: String)
        ensures
            r@ == self.text(),
    {
        match self {
            ProducerSetError::EmptyProducerSet => {
                owned("scan open must declare at least one producer")
            },
            ProducerSetError::DuplicateProducerId { producer_id } => {
                let mut r: String = owned("duplicate producer id ");
                append_decimal(&mut r, *producer_id as u64);
                r.append(" in scan open");
                r
            },
            ProducerSetError::MultipleLeaders => {
                owned("scan open may declare at most one leader producer")
            },
        }
    }
}

impl EncodeError {
    /// The error in words.
    pub open spec fn text(self) -> Seq<char> {
        match self {
            EncodeError::BufferTooSmall { expected, actual } => {
                "output buffer too small: expected at least "@ + decimal(expected as nat)
                    + " bytes, got "@ + decimal(actual as nat)
            },
            EncodeError::TooManyProducers { count } => {
                "too many scan producers to encode: "@ + decimal(count as nat)
            },
            EncodeError::TooManyScanChannels { count } => {
                "too many scan channels to encode: "@ + decimal(count as nat)
            },
            EncodeError::ScanFailureMessageTooLong { actual, maximum } => {
                "scan failure message is too long: "@ + decimal(actual as nat)
                    + " bytes exceeds maximum "@ + decimal(maximum as nat)
            },
            EncodeError::MsgPack(e) => "MsgPack encoding failed: "@ + e@,
            EncodeError::Envelope(e) => "runtime envelope encoding failed: "@ + e@,
            EncodeError::ScanChannels(e) => e.text(),
        }
    }

    /// The error in words.
    pub fn message(&self) -> (r: String)
        ensures
            r@ == self.text(),
    {
        match self {
            EncodeError::BufferTooSmall { expected, actual } => {
                let mut r: String = owned("output buffer too small: expected at least ");
                append_decimal(&mut r, *expected as u64);
                r.append(" bytes, got ");
                append_decimal(&mut r, *actual as u64);
                r
            },
            EncodeError::TooManyProducers { count } => {
                let mut r: String = owned("too many scan producers to encode: ");
                append_decimal(&mut r, *count as u64);
                r
            },
            EncodeError::TooManyScanChannels { count } => {
                let mut r: String = owned("too many scan channels to encode: ");
                append_decimal(&mut r, *count as u64);
                r
            },
            EncodeError::ScanFailureMessageTooLong { actual, maximum } => {
                let mut r: String = owned("scan failure message is too long: ");
                append_decimal(&mut r, *actual as u64);
                r.append(" bytes exceeds maximum ");
                append_decimal(&mut r, *maximum as u64);
                r
            },
            EncodeError::MsgPack(e) => {
                let mut r: String = owned("MsgPack encoding failed: ");
                r.append(e.as_str());
                r
            },
            EncodeError::Envelope(e) => {
                let mut r: String = owned("runtime envelope encoding failed: ");
                r.append(e.as_str());
                r
            },
            EncodeError::ScanChannels(e) => e.message(),
        }
    }
}

impl DecodeError {
    /// The error in words.
    pub open spec fn text(self) -> Seq<char> {
        match self {
            DecodeError::InvalidArrayLen { expected, actual } => {
                "protocol array expected length "@ + decimal(expected as nat) + ", got "@
                    + decimal(actual as nat)
            },
            DecodeError::TruncatedEnvelope { expected, actual } => {
                "runtime envelope is truncated: expected at least "@ + decimal(expected as nat)
                    + " bytes, got "@ + decimal(actual as nat)
            },
            DecodeError::InvalidMagic { expected, actual } => {
                "invalid runtime magic: expected 0x"@ + hex_eight(expected as nat) + ", got 0x"@
                    + hex_eight(actual as nat)
            },
            DecodeError::UnsupportedVersion { expected, actual } => {
                "unsupported runtime protocol version: expected "@ + decimal(expected as nat)
                    + ", got "@ + decimal(actual as nat)
            },
            DecodeError::UnexpectedMessageFamily { actual } => {
                "unexpected runtime message family "@ + decimal(actual as nat)
            },
            DecodeError::UnexpectedTag { actual } => {
                "unexpected message tag "@ + decimal(actual as nat)
            },
            DecodeError::InvalidFailureCode { actual } => {
                "invalid failure code "@ + decimal(actual as nat)
            },
            DecodeError::InvalidProducerRole { actual } => {
                "invalid producer role "@ + decimal(actual as nat)
            },
            DecodeError::DuplicateScanProducer { scan_id, producer_id } => {
                "duplicate scan channel for scan_id "@ + decimal(scan_id as nat) + ", producer_id "@
                    + decimal(producer_id as nat)
            },
            DecodeError::ScanChannelOutOfOrder {
                previous_scan_id,
                previous_producer_id,
                current_scan_id,
                current_producer_id,
            } => {
                "scan channel set is not sorted by scan_id/producer_id: previous=("@
                    + decimal(previous_scan_id as nat) + ", "@
                    + decimal(previous_producer_id as nat) + "), current=("@
                    + decimal(current_scan_id as nat) + ", "@ + decimal(current_producer_id as nat)
                    + ")"@
            },
            DecodeError::MultipleScanChannelLeaders { scan_id } => {
                "scan channel set declares multiple leader producers for scan_id "@
                    + decimal(scan_id as nat)
            },
            DecodeError::MissingScanChannelLeader { scan_id } => {
                "scan channel set declares no leader producer for scan_id "@
                    + decimal(scan_id as nat)
            },
            DecodeError::EmptyProducerSet => "scan open must declare at least one producer"@,
            DecodeError::DuplicateProducerId { producer_id } => {
                "duplicate producer id "@ + decimal(producer_id as nat) + " in scan open"@
            },
            DecodeError::MultipleLeaders => "scan open may declare at most one leader producer"@,
            DecodeError::TrailingBytes { remaining } => {
                "decoded payload has trailing bytes: "@ + decimal(remaining as nat)
            },
            DecodeError::MsgPack(e) => "MsgPack decoding failed: "@ + e@,
        }
    }

    /// The error in words.
    pub fn message(&self) -> (r: String)
        ensures
            r@ == self.text(),
    {
        match self {
            DecodeError::InvalidArrayLen { expected, actual } => {
                let mut r: String = owned("protocol array expected length ");
                append_decimal(&mut r, *expected as u64);
                r.append(", got ");
                append_decimal(&mut r, *actual as u64);
                r
            },
            DecodeError::TruncatedEnvelope { expected, actual } => {
                let mut r: String = owned("runtime envelope is truncated: expected at least ");
                append_decimal(&mut r, *expected as u64);
                r.append(" bytes, got ");
                append_decimal(&mut r, *actual as u64);
                r
            },
            DecodeError::InvalidMagic { expected, actual } => {
                let mut r: String = owned("invalid runtime magic: expected 0x");
                append_hex_eight(&mut r, *expected);
                r.append(", got 0x");
                append_hex_eight(&mut r, *actual);
                r
            },
            DecodeError::UnsupportedVersion { expected, actual } => {
                let mut r: String = owned("unsupported runtime protocol version: expected ");
                append_decimal(&mut r, *expected as u64);
                r.append(", got ");
                append_decimal(&mut r, *actual as u64);
                r
            },
            DecodeError::UnexpectedMessageFamily { actual } => {
                let mut r: String = owned("unexpected runtime message family ");
                append_decimal(&mut r, *actual as u64);
                r
            },
            DecodeError::UnexpectedTag { actual } => {
                let mut r: String = owned("unexpected message tag ");
                append_decimal(&mut r, *actual as u64);
                r
            },
            DecodeError::InvalidFailureCode { actual } => {
                let mut r: String = owned("invalid failure code ");
                append_decimal(&mut r, *actual as u64);
                r
            },
            DecodeError::InvalidProducerRole { actual } => {
                let mut r: String = owned("invalid producer role ");
                append_decimal(&mut r, *actual as u64);
                r
            },
            DecodeError::DuplicateScanProducer { scan_id, producer_id } => {
                let mut r: String = owned("duplicate scan channel for scan_id ");
                append_decimal(&mut r, *scan_id);
                r.append(", producer_id ");
                append_decimal(&mut r, *producer_id as u64);
                r
            },
            DecodeError::ScanChannelOutOfOrder {
                previous_scan_id,
                previous_producer_id,
                current_scan_id,
                current_producer_id,
            } => {
                let mut r: String = owned(
                    "scan channel set is not sorted by scan_id/producer_id: previous=(",
                );
                append_decimal(&mut r, *previous_scan_id);
                r.append(", ");
                append_decimal(&mut r, *previous_producer_id as u64);
                r.append("), current=(");
                append_decimal(&mut r, *current_scan_id);
                r.append(", ");
                append_decimal(&mut r, *current_producer_id as u64);
                r.append(")");
                r
            },
            DecodeError::MultipleScanChannelLeaders { scan_id } => {
                let mut r: String = owned(
                    "scan channel set declares multiple leader producers for scan_id ",
                );
                append_decimal(&mut r, *scan_id);
                r
            },
            DecodeError::MissingScanChannelLeader { scan_id } => {
                let mut r: String = owned(
                    "scan channel set declares no leader producer for scan_id ",
                );
                append_decimal(&mut r, *scan_id);
                r
            },
            DecodeError::EmptyProducerSet => owned("scan open must declare at least one producer"),
            DecodeError::DuplicateProducerId { producer_id } => {
                let mut r: String = owned("duplicate producer id ");
                append_decimal(&mut r, *producer_id as u64);
                r.append(" in scan open");
                r
            },
            DecodeError::MultipleLeaders => {
                owned("scan open may declare at most one leader producer")
            },
            DecodeError::TrailingBytes { remaining } => {
                let mut r: String = owned("decoded payload has trailing bytes: ");
                append_decimal(&mut r, *remaining as u64);
                r
            },
            DecodeError::MsgPack(e) => {
                let mut r: String = owned("MsgPack decoding failed: ");
                r.append(e.as_str());
                r
            },
        }
    }
}

} // verus!
