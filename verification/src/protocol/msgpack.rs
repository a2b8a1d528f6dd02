//! MsgPack values: what their bytes are, and the calls that read and write them.

use super::error::{parsed_as, DecodeError, DecodeFault};
use crate::bytes::{
    be_bytes, be_value, byte_bound, lemma_be_round_trip, lemma_be_value_bound, lemma_byte_bounds,
};
use crate::text::{append_decimal, decimal, owned};
use vstd::prelude::*;
use vstd::string::StringExecFns;
use vstd::utf8::{decode_utf8, encode_utf8, valid_utf8};

verus! {

pub const MARKER_NIL: u8 = 0xc0;

pub const MARKER_U8: u8 = 0xcc;

pub const MARKER_U16: u8 = 0xcd;

pub const MARKER_U32: u8 = 0xce;

pub const MARKER_U64: u8 = 0xcf;

/// An unsigned integer: its marker and `width` big-endian bytes.
pub open spec fn uint_bytes(marker: u8, value: nat, width: nat) -> Seq<u8> {
    seq![marker] + be_bytes(value, width)
}

/// The header of an array: the shortest that holds the length.
pub open spec fn array_len_bytes(len: u32) -> Seq<u8> {
    if len < 16 {
        seq![(0x90 + len) as u8]
    } else if len < 0x1_0000 {
        uint_bytes(0xdc, len as nat, 2)
    } else {
        uint_bytes(0xdd, len as nat, 4)
    }
}

/// The header of a string: the shortest that holds its byte length.
pub open spec fn str_len_bytes(len: u32) -> Seq<u8> {
    if len < 32 {
        seq![(0xa0 + len) as u8]
    } else if len < 0x100 {
        uint_bytes(0xd9, len as nat, 1)
    } else if len < 0x1_0000 {
        uint_bytes(0xda, len as nat, 2)
    } else {
        uint_bytes(0xdb, len as nat, 4)
    }
}

/// A string: its header and its UTF-8 bytes.
pub open spec fn str_bytes(text: Seq<u8>) -> Seq<u8> {
    str_len_bytes(text.len() as u32) + text
}

/// An optional integer: nil, or a 64-bit integer.
pub open spec fn optional_u64_bytes(value: Option<u64>) -> Seq<u8> {
    match value {
        Some(v) => uint_bytes(MARKER_U64, v as nat, 8),
        None => seq![MARKER_NIL],
    }
}

/// The text of an error at the first byte.
pub open spec fn no_marker() -> DecodeFault {
    DecodeFault::MsgPack("failed to read MessagePack marker"@)
}

/// The text of an error behind the first byte.
pub open spec fn no_data() -> DecodeFault {
    DecodeFault::MsgPack("failed to read MessagePack data"@)
}

/// The text of an error about the first byte.
pub open spec fn wrong_marker() -> DecodeFault {
    DecodeFault::MsgPack("the type decoded isn't match with the expected one"@)
}

/// Reads `width` big-endian bytes.
pub open spec fn parse_data(source: Seq<u8>, width: nat) -> Result<(nat, Seq<u8>), DecodeFault> {
    if source.len() < width {
        Err(no_data())
    } else {
        Ok((be_value(source.take(width as int)), source.skip(width as int)))
    }
}

/// Reads an integer with one marker.
pub open spec fn parse_uint(source: Seq<u8>, marker: u8, width: nat) -> Result<
    (nat, Seq<u8>),
    DecodeFault,
> {
    if source.len() == 0 {
        Err(no_marker())
    } else if source[0] != marker {
        Err(wrong_marker())
    } else {
        parse_data(source.skip(1), width)
    }
}

/// Reads the header of an array, of whatever width.
pub open spec fn parse_array_len(source: Seq<u8>) -> Result<(nat, Seq<u8>), DecodeFault> {
    if source.len() == 0 {
        Err(no_marker())
    } else if 0x90 <= source[0] <= 0x9f {
        Ok(((source[0] - 0x90) as nat, source.skip(1)))
    } else if source[0] == 0xdc {
        parse_data(source.skip(1), 2)
    } else if source[0] == 0xdd {
        parse_data(source.skip(1), 4)
    } else {
        Err(wrong_marker())
    }
}

/// Reads the header of a string, of whatever width.
pub open spec fn parse_str_len(source: Seq<u8>) -> Result<(nat, Seq<u8>), DecodeFault> {
    if source.len() == 0 {
        Err(no_marker())
    } else if 0xa0 <= source[0] <= 0xbf {
        Ok(((source[0] - 0xa0) as nat, source.skip(1)))
    } else if source[0] == 0xd9 {
        parse_data(source.skip(1), 1)
    } else if source[0] == 0xda {
        parse_data(source.skip(1), 2)
    } else if source[0] == 0xdb {
        parse_data(source.skip(1), 4)
    } else {
        Err(wrong_marker())
    }
}

/// What a call that reads a number gives: the number with the bytes behind it,
/// or the text of an error.
pub open spec fn read_as(
    r: Result<(u64, &[u8]), String>,
    parse: Result<(nat, Seq<u8>), DecodeFault>,
) -> bool {
    match parse {
        Ok((value, rest)) => r matches Ok((v, s)) && v == value && s@ == rest,
        Err(fault) => r matches Err(text) && fault == DecodeFault::MsgPack(text@),
    }
}

/// The text of the error of reading a marker from these bytes.
pub uninterp spec fn marker_error_text(source: Seq<u8>) -> Seq<char>;

/// The debug text of the marker that a byte is.
pub uninterp spec fn marker_debug_text(byte: u8) -> Seq<char>;

/// The text of the error of reading these bytes as UTF-8.
pub uninterp spec fn utf8_error_text(bytes: Seq<u8>) -> Seq<char>;

/// `rmp::decode::read_u8`: marker `0xcc`, then one byte. The three ways to fail
/// each have their own text.
#[verifier::external_body]
fn rmp_read_u8<'a>(source: &'a [u8]) -> (r: Result<(u64, &'a [u8]), String>)
    ensures
        read_as(r, parse_uint(source@, MARKER_U8, 1)),
{
    let mut rest: &'a [u8] = source;
    match rmp::decode::read_u8(&mut rest) {
        Ok(value) => Ok((u64::from(value), rest)),
        Err(error) => Err(error.to_string()),
    }
}

/// `rmp::decode::read_u16`: marker `0xcd`, then two big-endian bytes.
#[verifier::external_body]
fn rmp_read_u16<'a>(source: &'a [u8]) -> (r: Result<(u64, &'a [u8]), String>)
    ensures
        read_as(r, parse_uint(source@, MARKER_U16, 2)),
{
    let mut rest: &'a [u8] = source;
    match rmp::decode::read_u16(&mut rest) {
        Ok(value) => Ok((u64::from(value), rest)),
        Err(error) => Err(error.to_string()),
    }
}

/// `rmp::decode::read_u32`: marker `0xce`, then four big-endian bytes.
#[verifier::external_body]
fn rmp_read_u32<'a>(source: &'a [u8]) -> (r: Result<(u64, &'a [u8]), String>)
    ensures
        read_as(r, parse_uint(source@, MARKER_U32, 4)),
{
    let mut rest: &'a [u8] = source;
    match rmp::decode::read_u32(&mut rest) {
        Ok(value) => Ok((u64::from(value), rest)),
        Err(error) => Err(error.to_string()),
    }
}

/// `rmp::decode::read_u64`: marker `0xcf`, then eight big-endian bytes.
#[verifier::external_body]
fn rmp_read_u64<'a>(source: &'a [u8]) -> (r: Result<(u64, &'a [u8]), String>)
    ensures
        read_as(r, parse_uint(source@, MARKER_U64, 8)),
{
    let mut rest: &'a [u8] = source;
    match rmp::decode::read_u64(&mut rest) {
        Ok(value) => Ok((value, rest)),
        Err(error) => Err(error.to_string()),
    }
}

/// `rmp::decode::read_array_len`: a one-byte header, or `0xdc` and two bytes, or
/// `0xdd` and four.
#[verifier::external_body]
fn rmp_read_array_len<'a>(source: &'a [u8]) -> (r: Result<(u64, &'a [u8]), String>)
    ensures
        read_as(r, parse_array_len(source@)),
{
    let mut rest: &'a [u8] = source;
    match rmp::decode::read_array_len(&mut rest) {
        Ok(value) => Ok((u64::from(value), rest)),
        Err(error) => Err(error.to_string()),
    }
}

/// `rmp::decode::read_str_len`: a one-byte header, or `0xd9` and one byte, or
/// `0xda` and two, or `0xdb` and four.
#[verifier::external_body]
fn rmp_read_str_len<'a>(source: &'a [u8]) -> (r: Result<(u64, &'a [u8]), String>)
    ensures
        read_as(r, parse_str_len(source@)),
{
    let mut rest: &'a [u8] = source;
    match rmp::decode::read_str_len(&mut rest) {
        Ok(value) => Ok((u64::from(value), rest)),
        Err(error) => Err(error.to_string()),
    }
}

/// `rmp::decode::read_marker`: takes the first byte, whatever it is. It fails
/// only where there is none; the debug text of that error has a name.
#[verifier::external_body]
fn rmp_read_marker<'a>(source: &'a [u8]) -> (r: Result<(u8, &'a [u8]), String>)
    ensures
        match r {
            Ok((byte, rest)) => source@.len() > 0 && byte == source@[0] && rest@ == source@.skip(1),
            Err(text) => source@.len() == 0 && text@ == marker_error_text(source@),
        },
{
    let mut rest: &'a [u8] = source;
    match rmp::decode::read_marker(&mut rest) {
        Ok(marker) => Ok((marker.to_u8(), rest)),
        Err(error) => Err(format!("{error:?}")),
    }
}

/// `Debug` of `rmp::Marker`: the text has a name.
#[verifier::external_body]
fn rmp_marker_debug(byte: u8) -> (r: String)
    ensures
        r@ == marker_debug_text(byte),
{
    format!("{:?}", rmp::Marker::from_u8(byte))
}

/// `rmp::decode::RmpRead::read_data_u8` on a slice: one byte.
#[verifier::external_body]
fn rmp_read_data_u8<'a>(source: &'a [u8]) -> (r: Result<(u64, &'a [u8]), String>)
    ensures
        read_as(r, parse_data(source@, 1)),
{
    let mut rest: &'a [u8] = source;
    match rmp::decode::RmpRead::read_data_u8(&mut rest) {
        Ok(value) => Ok((u64::from(value), rest)),
        Err(error) => Err(error.to_string()),
    }
}

/// `rmp::decode::RmpRead::read_data_u16` on a slice: two big-endian bytes.
#[verifier::external_body]
fn rmp_read_data_u16<'a>(source: &'a [u8]) -> (r: Result<(u64, &'a [u8]), String>)
    ensures
        read_as(r, parse_data(source@, 2)),
{
    let mut rest: &'a [u8] = source;
    match rmp::decode::RmpRead::read_data_u16(&mut rest) {
        Ok(value) => Ok((u64::from(value), rest)),
        Err(error) => Err(error.to_string()),
    }
}

/// `rmp::decode::RmpRead::read_data_u32` on a slice: four big-endian bytes.
#[verifier::external_body]
fn rmp_read_data_u32<'a>(source: &'a [u8]) -> (r: Result<(u64, &'a [u8]), String>)
    ensures
        read_as(r, parse_data(source@, 4)),
{
    let mut rest: &'a [u8] = source;
    match rmp::decode::RmpRead::read_data_u32(&mut rest) {
        Ok(value) => Ok((u64::from(value), rest)),
        Err(error) => Err(error.to_string()),
    }
}

/// `rmp::decode::RmpRead::read_data_u64` on a slice: eight big-endian bytes.
#[verifier::external_body]
fn rmp_read_data_u64<'a>(source: &'a [u8]) -> (r: Result<(u64, &'a [u8]), String>)
    ensures
        read_as(r, parse_data(source@, 8)),
{
    let mut rest: &'a [u8] = source;
    match rmp::decode::RmpRead::read_data_u64(&mut rest) {
        Ok(value) => Ok((value, rest)),
        Err(error) => Err(error.to_string()),
    }
}

/// `rmp::encode::write_u8` into a vector, which takes every write: marker
/// `0xcc`, then the byte.
#[verifier::external_body]
pub(crate) fn write_u8_to(sink: &mut Vec<u8>, value: u8)
    ensures
        final(sink)@ == old(sink)@ + uint_bytes(MARKER_U8, value as nat, 1),
{
    let _ = rmp::encode::write_u8(sink, value);
}

/// `rmp::encode::write_u16` into a vector: marker `0xcd`, then two big-endian
/// bytes.
#[verifier::external_body]
pub(crate) fn write_u16_to(sink: &mut Vec<u8>, value: u16)
    ensures
        final(sink)@ == old(sink)@ + uint_bytes(MARKER_U16, value as nat, 2),
{
    let _ = rmp::encode::write_u16(sink, value);
}

/// `rmp::encode::write_u32` into a vector: marker `0xce`, then four big-endian
/// bytes.
#[verifier::external_body]
pub(crate) fn write_u32_to(sink: &mut Vec<u8>, value: u32)
    ensures
        final(sink)@ == old(sink)@ + uint_bytes(MARKER_U32, value as nat, 4),
{
    let _ = rmp::encode::write_u32(sink, value);
}

/// `rmp::encode::write_u64` into a vector: marker `0xcf`, then eight big-endian
/// bytes.
#[verifier::external_body]
pub(crate) fn write_u64_to(sink: &mut Vec<u8>, value: u64)
    ensures
        final(sink)@ == old(sink)@ + uint_bytes(MARKER_U64, value as nat, 8),
{
    let _ = rmp::encode::write_u64(sink, value);
}

/// `rmp::encode::write_array_len` into a vector: the shortest header that holds
/// the length.
#[verifier::external_body]
pub(crate) fn write_array_len_to(sink: &mut Vec<u8>, len: u32)
    ensures
        final(sink)@ == old(sink)@ + array_len_bytes(len),
{
    let _ = rmp::encode::write_array_len(sink, len);
}

/// `rmp::encode::write_str` into a vector: the shortest header that holds the
/// byte length, then the UTF-8 bytes.
#[verifier::external_body]
pub(crate) fn write_str_to(sink: &mut Vec<u8>, value: &str)
    requires
        encode_utf8(value@).len() <= u32::MAX,
    ensures
        final(sink)@ == old(sink)@ + str_bytes(encode_utf8(value@)),
{
    let _ = rmp::encode::write_str(sink, value);
}

/// `rmp::encode::write_nil` into a vector: the byte `0xc0`.
#[verifier::external_body]
pub(crate) fn write_nil_to(sink: &mut Vec<u8>)
    ensures
        final(sink)@ == old(sink)@ + seq![MARKER_NIL],
{
    let _ = rmp::encode::write_nil(sink);
}

/// `std::str::from_utf8`: gives the text exactly if the bytes are UTF-8. The
/// text of its error has a name.
#[verifier::external_body]
fn str_from_utf8<'a>(bytes: &'a [u8]) -> (r: Result<&'a str, String>)
    ensures
        match r {
            Ok(text) => valid_utf8(bytes@) && text@ == decode_utf8(bytes@) && encode_utf8(text@)
                == bytes@,
            Err(text) => !valid_utf8(bytes@) && text@ == utf8_error_text(bytes@),
        },
{
    match std::str::from_utf8(bytes) {
        Ok(text) => Ok(text),
        Err(error) => Err(error.to_string()),
    }
}

/// Writes nil, or a 64-bit integer.
pub fn write_optional_u64_to(sink: &mut Vec<u8>, value: Option<u64>)
    ensures
        final(sink)@ == old(sink)@ + optional_u64_bytes(value),
{
    match value {
        Some(v) => write_u64_to(sink, v),
        None => write_nil_to(sink),
    }
}

proof fn lemma_parse_data_bound(source: Seq<u8>, width: nat)
    ensures
        parse_data(source, width) matches Ok((value, _)) ==> value < byte_bound(width),
{
    if source.len() >= width {
        lemma_be_value_bound(source.take(width as int));
    }
}

/// The parse of an integer, as a `u8`.
pub open spec fn parse_u8(source: Seq<u8>) -> Result<(u8, Seq<u8>), DecodeFault> {
    match parse_uint(source, MARKER_U8, 1) {
        Ok((value, rest)) => Ok((value as u8, rest)),
        Err(fault) => Err(fault),
    }
}

/// The parse of an integer, as a `u16`.
pub open spec fn parse_u16(source: Seq<u8>) -> Result<(u16, Seq<u8>), DecodeFault> {
    match parse_uint(source, MARKER_U16, 2) {
        Ok((value, rest)) => Ok((value as u16, rest)),
        Err(fault) => Err(fault),
    }
}

/// The parse of an integer, as a `u32`.
pub open spec fn parse_u32(source: Seq<u8>) -> Result<(u32, Seq<u8>), DecodeFault> {
    match parse_uint(source, MARKER_U32, 4) {
        Ok((value, rest)) => Ok((value as u32, rest)),
        Err(fault) => Err(fault),
    }
}

/// The parse of an integer, as a `u64`.
pub open spec fn parse_u64(source: Seq<u8>) -> Result<(u64, Seq<u8>), DecodeFault> {
    match parse_uint(source, MARKER_U64, 8) {
        Ok((value, rest)) => Ok((value as u64, rest)),
        Err(fault) => Err(fault),
    }
}

/// The parse of an array header, as a `u32`.
pub open spec fn parse_array(source: Seq<u8>) -> Result<(u32, Seq<u8>), DecodeFault> {
    match parse_array_len(source) {
        Ok((value, rest)) => Ok((value as u32, rest)),
        Err(fault) => Err(fault),
    }
}

/// The parse of an optional integer: nil, or an unsigned integer of whatever
/// width.
pub open spec fn parse_optional_u64(source: Seq<u8>) -> Result<
    (Option<u64>, Seq<u8>),
    DecodeFault,
> {
    if source.len() == 0 {
        Err(DecodeFault::MsgPack(marker_error_text(source)))
    } else {
        let byte = source[0];
        let rest = source.skip(1);
        if byte == MARKER_NIL {
            Ok((None, rest))
        } else if byte <= 0x7f {
            Ok((Some(byte as u64), rest))
        } else if MARKER_U8 <= byte <= MARKER_U64 {
            let width: nat = if byte == MARKER_U8 {
                1
            } else if byte == MARKER_U16 {
                2
            } else if byte == MARKER_U32 {
                4
            } else {
                8
            };
            match parse_data(rest, width) {
                Ok((value, tail)) => Ok((Some(value as u64), tail)),
                Err(fault) => Err(fault),
            }
        } else {
            Err(
                DecodeFault::MsgPack(
                    "expected nil or unsigned integer detail, got "@ + marker_debug_text(byte),
                ),
            )
        }
    }
}

/// The parse of a string, as its UTF-8 bytes.
pub open spec fn parse_str(source: Seq<u8>) -> Result<(Seq<u8>, Seq<u8>), DecodeFault> {
    match parse_str_len(source) {
        Err(fault) => Err(fault),
        Ok((len, rest)) => if rest.len() < len {
            Err(
                DecodeFault::MsgPack(
                    "truncated string payload: expected "@ + decimal(len) + " bytes, got "@
                        + decimal(rest.len()),
                ),
            )
        } else if !valid_utf8(rest.take(len as int)) {
            Err(DecodeFault::MsgPack(utf8_error_text(rest.take(len as int))))
        } else {
            Ok((rest.take(len as int), rest.skip(len as int)))
        },
    }
}

pub fn read_u8_from<'a>(source: &'a [u8]) -> (r: Result<(u8, &'a [u8]), DecodeError>)
    ensures
        parsed_as(r, parse_u8(source@)),
{
    proof {
        lemma_parse_data_bound(source@.skip(1), 1);
        lemma_byte_bounds();
    }
    match rmp_read_u8(source) {
        Ok((value, rest)) => Ok((value as u8, rest)),
        Err(text) => Err(DecodeError::MsgPack(text)),
    }
}

pub fn read_u16_from<'a>(source: &'a [u8]) -> (r: Result<(u16, &'a [u8]), DecodeError>)
    ensures
        parsed_as(r, parse_u16(source@)),
{
    proof {
        lemma_parse_data_bound(source@.skip(1), 2);
        lemma_byte_bounds();
    }
    match rmp_read_u16(source) {
        Ok((value, rest)) => Ok((value as u16, rest)),
        Err(text) => Err(DecodeError::MsgPack(text)),
    }
}

pub fn read_u32_from<'a>(source: &'a [u8]) -> (r: Result<(u32, &'a [u8]), DecodeError>)
    ensures
        parsed_as(r, parse_u32(source@)),
{
    proof {
        lemma_parse_data_bound(source@.skip(1), 4);
        lemma_byte_bounds();
    }
    match rmp_read_u32(source) {
        Ok((value, rest)) => Ok((value as u32, rest)),
        Err(text) => Err(DecodeError::MsgPack(text)),
    }
}

pub fn read_u64_from<'a>(source: &'a [u8]) -> (r: Result<(u64, &'a [u8]), DecodeError>)
    ensures
        parsed_as(r, parse_u64(source@)),
{
    match rmp_read_u64(source) {
        Ok((value, rest)) => Ok((value, rest)),
        Err(text) => Err(DecodeError::MsgPack(text)),
    }
}

pub fn read_array_len_from<'a>(source: &'a [u8]) -> (r: Result<(u32, &'a [u8]), DecodeError>)
    ensures
        parsed_as(r, parse_array(source@)),
{
    proof {
        lemma_parse_data_bound(source@.skip(1), 2);
        lemma_parse_data_bound(source@.skip(1), 4);
        lemma_byte_bounds();
    }
    match rmp_read_array_len(source) {
        Ok((value, rest)) => Ok((value as u32, rest)),
        Err(text) => Err(DecodeError::MsgPack(text)),
    }
}

/// Reads nil, or an unsigned integer of whatever width.
pub fn read_optional_u64_from<'a>(source: &'a [u8]) -> (r: Result<
    (Option<u64>, &'a [u8]),
    DecodeError,
>)
    ensures
        parsed_as(r, parse_optional_u64(source@)),
{
    let (byte, rest) = match rmp_read_marker(source) {
        Ok(read) => read,
        Err(text) => {
            return Err(DecodeError::MsgPack(text));
        },
    };
    if byte == MARKER_NIL {
        return Ok((None, rest));
    }
    if byte <= 0x7f {
        return Ok((Some(byte as u64), rest));
    }
    let data: Result<(u64, &'a [u8]), String> = if byte == MARKER_U8 {
        rmp_read_data_u8(rest)
    } else if byte == MARKER_U16 {
        rmp_read_data_u16(rest)
    } else if byte == MARKER_U32 {
        rmp_read_data_u32(rest)
    } else if byte == MARKER_U64 {
        rmp_read_data_u64(rest)
    } else {
        let mut text: String = owned("expected nil or unsigned integer detail, got ");
        let marker: String = rmp_marker_debug(byte);
        text.append(marker.as_str());
        return Err(DecodeError::MsgPack(text));
    };
    match data {
        Ok((value, tail)) => Ok((Some(value), tail)),
        Err(text) => Err(DecodeError::MsgPack(text)),
    }
}

/// Reads a string.
pub fn read_str_from<'a>(source: &'a [u8]) -> (r: Result<(&'a str, &'a [u8]), DecodeError>)
    ensures
        match parse_str(source@) {
            Ok((text, rest)) => r matches Ok((t, s)) && encode_utf8(t@) == text && t@
                == decode_utf8(text) && s@ == rest,
            Err(fault) => r matches Err(e) && e@ == fault,
        },
{
    proof {
        lemma_parse_data_bound(source@.skip(1), 1);
        lemma_parse_data_bound(source@.skip(1), 2);
        lemma_parse_data_bound(source@.skip(1), 4);
        lemma_byte_bounds();
    }
    let (len, rest) = match rmp_read_str_len(source) {
        Ok(read) => read,
        Err(text) => {
            return Err(DecodeError::MsgPack(text));
        },
    };
    if (rest.len() as u64) < len {
        let mut text: String = owned("truncated string payload: expected ");
        append_decimal(&mut text, len);
        text.append(" bytes, got ");
        append_decimal(&mut text, rest.len() as u64);
        return Err(DecodeError::MsgPack(text));
    }
    let len: usize = len as usize;
    let bytes: &'a [u8] = vstd::slice::slice_subrange(rest, 0, len);
    let tail: &'a [u8] = vstd::slice::slice_subrange(rest, len, rest.len());
    assert(bytes@ =~= rest@.take(len as int));
    assert(tail@ =~= rest@.skip(len as int));
    match str_from_utf8(bytes) {
        Ok(text) => Ok((text, tail)),
        Err(text) => Err(DecodeError::MsgPack(text)),
    }
}

/// Makes sure that an array has the expected length.
pub fn expect_message_len(actual: u32, expected: u32) -> (r: Result<(), DecodeError>)
    ensures
        actual == expected <==> r is Ok,
        r matches Err(e) ==> e == (DecodeError::InvalidArrayLen { expected, actual }),
{
    if actual != expected {
        return Err(DecodeError::InvalidArrayLen { expected, actual });
    }
    Ok(())
}

proof fn lemma_data_round_trip(value: nat, width: nat, rest: Seq<u8>)
    requires
        value < byte_bound(width),
    ensures
        parse_data(be_bytes(value, width) + rest, width) == Ok::<(nat, Seq<u8>), DecodeFault>(
            (value, rest),
        ),
{
    lemma_be_round_trip(value, width);
    let s = be_bytes(value, width) + rest;
    assert(s.take(width as int) =~= be_bytes(value, width));
    assert(s.skip(width as int) =~= rest);
}

proof fn lemma_uint_round_trip(marker: u8, value: nat, width: nat, rest: Seq<u8>)
    requires
        value < byte_bound(width),
    ensures
        parse_uint(uint_bytes(marker, value, width) + rest, marker, width) == Ok::<
            (nat, Seq<u8>),
            DecodeFault,
        >((value, rest)),
        (uint_bytes(marker, value, width) + rest)[0] == marker,
        (uint_bytes(marker, value, width) + rest).skip(1) == be_bytes(value, width) + rest,
        uint_bytes(marker, value, width).len() == 1 + width,
{
    lemma_data_round_trip(value, width, rest);
    lemma_be_round_trip(value, width);
    let s = uint_bytes(marker, value, width) + rest;
    assert(s.skip(1) =~= be_bytes(value, width) + rest);
}

/// Every integer that is written reads back, and what follows it is left.
pub proof fn law_integers_round_trip(a: u8, b: u16, c: u32, d: u64, rest: Seq<u8>)
    ensures
        parse_u8(uint_bytes(MARKER_U8, a as nat, 1) + rest) == Ok::<(u8, Seq<u8>), DecodeFault>(
            (a, rest),
        ),
        parse_u16(uint_bytes(MARKER_U16, b as nat, 2) + rest) == Ok::<(u16, Seq<u8>), DecodeFault>(
            (b, rest),
        ),
        parse_u32(uint_bytes(MARKER_U32, c as nat, 4) + rest) == Ok::<(u32, Seq<u8>), DecodeFault>(
            (c, rest),
        ),
        parse_u64(uint_bytes(MARKER_U64, d as nat, 8) + rest) == Ok::<(u64, Seq<u8>), DecodeFault>(
            (d, rest),
        ),
        uint_bytes(MARKER_U8, a as nat, 1).len() == 2,
        uint_bytes(MARKER_U16, b as nat, 2).len() == 3,
        uint_bytes(MARKER_U32, c as nat, 4).len() == 5,
        uint_bytes(MARKER_U64, d as nat, 8).len() == 9,
{
    lemma_byte_bounds();
    lemma_uint_round_trip(MARKER_U8, a as nat, 1, rest);
    lemma_uint_round_trip(MARKER_U16, b as nat, 2, rest);
    lemma_uint_round_trip(MARKER_U32, c as nat, 4, rest);
    lemma_uint_round_trip(MARKER_U64, d as nat, 8, rest);
}

/// Every array header that is written reads back.
pub proof fn law_array_len_round_trip(len: u32, rest: Seq<u8>)
    ensures
        parse_array(array_len_bytes(len) + rest) == Ok::<(u32, Seq<u8>), DecodeFault>((len, rest)),
        1 <= array_len_bytes(len).len() <= 5,
        len < 16 ==> array_len_bytes(len).len() == 1,
        len < 0x1_0000 ==> array_len_bytes(len).len() <= 3,
{
    lemma_byte_bounds();
    let s = array_len_bytes(len) + rest;
    if len < 16 {
        assert(s.skip(1) =~= rest);
        assert(s[0] == 0x90 + len);
    } else if len < 0x1_0000 {
        lemma_uint_round_trip(0xdc, len as nat, 2, rest);
        lemma_data_round_trip(len as nat, 2, rest);
    } else {
        lemma_uint_round_trip(0xdd, len as nat, 4, rest);
        lemma_data_round_trip(len as nat, 4, rest);
    }
}

/// Every optional integer that is written reads back.
pub proof fn law_optional_round_trip(value: Option<u64>, rest: Seq<u8>)
    ensures
        parse_optional_u64(optional_u64_bytes(value) + rest) == Ok::<
            (Option<u64>, Seq<u8>),
            DecodeFault,
        >((value, rest)),
        optional_u64_bytes(value).len() <= 9,
{
    lemma_byte_bounds();
    let s = optional_u64_bytes(value) + rest;
    match value {
        None => {
            assert(s.skip(1) =~= rest);
        },
        Some(v) => {
            lemma_uint_round_trip(MARKER_U64, v as nat, 8, rest);
            lemma_data_round_trip(v as nat, 8, rest);
        },
    }
}

/// Every text that is written reads back as the same UTF-8 bytes.
pub proof fn law_str_round_trip(text: Seq<u8>, rest: Seq<u8>)
    requires
        text.len() <= u32::MAX,
        valid_utf8(text),
    ensures
        parse_str(str_bytes(text) + rest) == Ok::<(Seq<u8>, Seq<u8>), DecodeFault>((text, rest)),
        str_bytes(text).len() <= 5 + text.len(),
        text.len() < 0x100 ==> str_bytes(text).len() <= 2 + text.len(),
{
    lemma_byte_bounds();
    let len = text.len() as u32;
    let tail = text + rest;
    let s = str_bytes(text) + rest;
    assert(s =~= str_len_bytes(len) + tail);
    if len < 32 {
        assert(s.skip(1) =~= tail);
        assert(s[0] == 0xa0 + len);
    } else if len < 0x100 {
        lemma_uint_round_trip(0xd9, len as nat, 1, tail);
        lemma_data_round_trip(len as nat, 1, tail);
    } else if len < 0x1_0000 {
        lemma_uint_round_trip(0xda, len as nat, 2, tail);
        lemma_data_round_trip(len as nat, 2, tail);
    } else {
        lemma_uint_round_trip(0xdb, len as nat, 4, tail);
        lemma_data_round_trip(len as nat, 4, tail);
    }
    assert(tail.take(len as int) =~= text);
    assert(tail.skip(len as int) =~= rest);
}

} // verus!
