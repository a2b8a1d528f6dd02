//! The envelope in front of every message: magic, version, family and tag.

use super::error::{parsed_as, DecodeError, DecodeFault};
use super::message::{family_byte, family_of, RuntimeMessageFamily};
use crate::bytes::{be_bytes, be_value, lemma_be_round_trip, lemma_byte_bounds};
use vstd::prelude::*;
use vstd::slice::slice_subrange;

verus! {

/// The first bytes of every message.
pub const RUNTIME_PROTOCOL_MAGIC: u32 = 0x5046_5232;

/// The only version that is understood.
pub const RUNTIME_PROTOCOL_VERSION: u16 = 4;

/// Bytes of the envelope.
pub const RUNTIME_ENVELOPE_HEADER_LEN: usize = 8;

pub const BACKEND_EXECUTION_START_TAG: u8 = 1;

pub const BACKEND_EXECUTION_CANCEL_TAG: u8 = 2;

pub const BACKEND_EXECUTION_FAIL_TAG: u8 = 3;

pub const WORKER_EXECUTION_COMPLETE_TAG: u8 = 1;

pub const WORKER_EXECUTION_FAIL_TAG: u8 = 2;

pub const WORKER_SCAN_OPEN_TAG: u8 = 1;

pub const WORKER_SCAN_CANCEL_TAG: u8 = 2;

pub const BACKEND_SCAN_FINISHED_TAG: u8 = 1;

pub const BACKEND_SCAN_FAILED_TAG: u8 = 2;

/// Family and tag of a message.
#[derive(Clone, Copy, Debug, PartialEq, Eq)]
pub struct RuntimeEnvelopeHeader {
    pub family: RuntimeMessageFamily,
    pub tag: u8,
}

/// The envelope of a family and a tag.
pub open spec fn header_bytes(family: RuntimeMessageFamily, tag: u8) -> Seq<u8> {
    be_bytes(RUNTIME_PROTOCOL_MAGIC as nat, 4) + be_bytes(RUNTIME_PROTOCOL_VERSION as nat, 2)
        + seq![family_byte(family), tag]
}

/// The parse of the envelope.
pub open spec fn parse_runtime_header(source: Seq<u8>) -> Result<
    (RuntimeEnvelopeHeader, Seq<u8>),
    DecodeFault,
> {
    let magic = be_value(source.take(4)) as u32;
    let version = be_value(source.subrange(4, 6)) as u16;
    if source.len() < RUNTIME_ENVELOPE_HEADER_LEN {
        Err(
            DecodeFault::TruncatedEnvelope {
                expected: RUNTIME_ENVELOPE_HEADER_LEN,
                actual: source.len() as usize,
            },
        )
    } else if magic != RUNTIME_PROTOCOL_MAGIC {
        Err(DecodeFault::InvalidMagic { expected: RUNTIME_PROTOCOL_MAGIC, actual: magic })
    } else if version != RUNTIME_PROTOCOL_VERSION {
        Err(
            DecodeFault::UnsupportedVersion { expected: RUNTIME_PROTOCOL_VERSION, actual: version },
        )
    } else {
        match family_of(source[6]) {
            Some(family) => Ok(
                (RuntimeEnvelopeHeader { family, tag: source[7] }, source.skip(8)),
            ),
            None => Err(DecodeFault::UnexpectedMessageFamily { actual: source[6] }),
        }
    }
}

proof fn lemma_two_bytes(bytes: Seq<u8>)
    requires
        bytes.len() == 2,
    ensures
        be_value(bytes) == bytes[0] * 256 + bytes[1],
{
    reveal_with_fuel(be_value, 3);
}

proof fn lemma_four_bytes(bytes: Seq<u8>)
    requires
        bytes.len() == 4,
    ensures
        be_value(bytes) == bytes[0] * 0x100_0000 + bytes[1] * 0x1_0000 + bytes[2] * 0x100
            + bytes[3],
{
    reveal_with_fuel(be_value, 5);
}

/// Reads the envelope.
pub fn decode_runtime_header<'a>(source: &'a [u8]) -> (r: Result<
    (RuntimeEnvelopeHeader, &'a [u8]),
    DecodeError,
>)
    ensures
        parsed_as(r, parse_runtime_header(source@)),
{
    if source.len() < RUNTIME_ENVELOPE_HEADER_LEN {
        return Err(
            DecodeError::TruncatedEnvelope {
                expected: RUNTIME_ENVELOPE_HEADER_LEN,
                actual: source.len(),
            },
        );
    }
    proof {
        lemma_four_bytes(source@.take(4));
        lemma_two_bytes(source@.subrange(4, 6));
    }
    let magic: u32 = source[0] as u32 * 0x100_0000 + source[1] as u32 * 0x1_0000
        + source[2] as u32 * 0x100 + source[3] as u32;
    if magic != RUNTIME_PROTOCOL_MAGIC {
        return Err(
            DecodeError::InvalidMagic { expected: RUNTIME_PROTOCOL_MAGIC, actual: magic },
        );
    }
    let version: u16 = source[4] as u16 * 0x100 + source[5] as u16;
    if version != RUNTIME_PROTOCOL_VERSION {
        return Err(
            DecodeError::UnsupportedVersion { expected: RUNTIME_PROTOCOL_VERSION, actual: version },
        );
    }
    let family: RuntimeMessageFamily = match RuntimeMessageFamily::try_from(source[6]) {
        Ok(family) => family,
        Err(e) => {
            return Err(e);
        },
    };
    let tail: &'a [u8] = slice_subrange(source, 8, source.len());
    assert(tail@ =~= source@.skip(8));
    Ok((RuntimeEnvelopeHeader { family, tag: source[7] }, tail))
}

/// Writes the envelope.
pub fn write_runtime_header_to(sink: &mut Vec<u8>, family: RuntimeMessageFamily, tag: u8)
    ensures
        final(sink)@ == old(sink)@ + header_bytes(family, tag),
{
    sink.push(0x50);
    sink.push(0x46);
    sink.push(0x52);
    sink.push(0x32);
    sink.push(0);
    sink.push(4);
    sink.push(family.code());
    sink.push(tag);
    proof {
        reveal_with_fuel(be_bytes, 5);
        assert(be_bytes(RUNTIME_PROTOCOL_MAGIC as nat, 4) =~= seq![0x50u8, 0x46, 0x52, 0x32]);
        assert(be_bytes(RUNTIME_PROTOCOL_VERSION as nat, 2) =~= seq![0u8, 4]);
        assert(sink@ =~= old(sink)@ + header_bytes(family, tag));
    }
}

/// Makes sure that a message is of the expected family.
pub fn expect_runtime_family(actual: RuntimeMessageFamily, expected: RuntimeMessageFamily) -> (r:
    Result<(), DecodeError>)
    ensures
        actual == expected ==> r is Ok,
        actual != expected ==> r == Err::<(), DecodeError>(
            DecodeError::UnexpectedMessageFamily { actual: family_byte(actual) },
        ),
{
    if actual == expected {
        Ok(())
    } else {
        Err(DecodeError::UnexpectedMessageFamily { actual: actual.code() })
    }
}

/// Every envelope that is written reads back.
pub proof fn law_header_round_trip(family: RuntimeMessageFamily, tag: u8, rest: Seq<u8>)
    ensures
        parse_runtime_header(header_bytes(family, tag) + rest) == Ok::<
            (RuntimeEnvelopeHeader, Seq<u8>),
            DecodeFault,
        >((RuntimeEnvelopeHeader { family, tag }, rest)),
        header_bytes(family, tag).len() == RUNTIME_ENVELOPE_HEADER_LEN,
{
    lemma_byte_bounds();
    lemma_be_round_trip(RUNTIME_PROTOCOL_MAGIC as nat, 4);
    lemma_be_round_trip(RUNTIME_PROTOCOL_VERSION as nat, 2);
    let s = header_bytes(family, tag) + rest;
    assert(s.take(4) =~= be_bytes(RUNTIME_PROTOCOL_MAGIC as nat, 4));
    assert(s.subrange(4, 6) =~= be_bytes(RUNTIME_PROTOCOL_VERSION as nat, 2));
    assert(s.skip(8) =~= rest);
}

/// An envelope is eight bytes: four that say that it is one, two with the version
/// of the protocol, one for the family and one for the tag. It is read exactly if
/// all of them are there and the first seven are as they should be, and what
/// comes behind the eight is left. The first of them that is not as it should be
/// decides how it is refused.
pub proof fn law_envelope_is_eight_bytes(source: Seq<u8>)
    requires
        source.len() <= usize::MAX,
    ensures
        ({
            let whole = source.len() >= 8;
            let marked = source[0] == 0x50 && source[1] == 0x46 && source[2] == 0x52 && source[3]
                == 0x32;
            let current = source[4] == 0 && source[5] == 4;
            let known = 1 <= source[6] <= 4;
            let r = parse_runtime_header(source);
            &&& r is Ok <==> whole && marked && current && known
            &&& r matches Ok((header, rest)) ==> {
                &&& header.tag == source[7]
                &&& rest == source.skip(8)
                &&& header.family is BackendExecutionToWorker <==> source[6] == 1
                &&& header.family is WorkerExecutionToBackend <==> source[6] == 2
                &&& header.family is WorkerScanToBackend <==> source[6] == 3
                &&& header.family is BackendScanToWorker <==> source[6] == 4
            }
            &&& !whole <==> (r matches Err(DecodeFault::TruncatedEnvelope { expected, actual })
                && expected == 8 && actual == source.len())
            &&& whole && !marked <==> (r matches Err(DecodeFault::InvalidMagic { expected, actual })
                && expected == 0x5046_5232 && actual == source[0] * 0x100_0000 + source[1]
                * 0x1_0000 + source[2] * 0x100 + source[3])
            &&& whole && marked && !current <==> (r matches Err(
                DecodeFault::UnsupportedVersion { expected, actual },
            ) && expected == 4 && actual == source[4] * 0x100 + source[5])
            &&& whole && marked && current && !known <==> (r matches Err(
                DecodeFault::UnexpectedMessageFamily { actual },
            ) && actual == source[6])
        }),
{
    if source.len() >= 8 {
        lemma_four_bytes(source.take(4));
        lemma_two_bytes(source.subrange(4, 6));
    }
}

} // verus!
