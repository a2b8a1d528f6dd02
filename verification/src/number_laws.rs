//! Numbers as bytes and as text read back as the numbers that they stand for.

use crate::bytes::{be_bytes, be_value, byte_bound, le_bytes};
use crate::text::{decimal, digit_char, hex, hex_char, hex_digits, hex_eight, signed_decimal};
use vstd::prelude::*;

verus! {

/// The number that digits give in a base, the highest first. Digits above nine
/// are the lower-case letters.
pub open spec fn read_digits(digits: Seq<char>, base: nat) -> nat
    decreases digits.len(),
{
    if digits.len() == 0 {
        0
    } else {
        read_digits(digits.drop_last(), base) * base + digit_value(digits.last())
    }
}

/// What one digit counts.
pub open spec fn digit_value(digit: char) -> nat {
    if '0' <= digit <= '9' {
        (digit as int - '0' as int) as nat
    } else {
        (digit as int - 'a' as int + 10) as nat
    }
}

proof fn lemma_digit(digit: nat)
    ensures
        digit < 10 ==> '0' <= digit_char(digit) <= '9' && digit_value(digit_char(digit)) == digit,
        digit < 16 ==> digit_value(hex_char(digit)) == digit && ('0' <= hex_char(digit) <= '9'
            || 'a' <= hex_char(digit) <= 'f'),
{
}

/// A number in decimal is made of digits, without a leading zero unless it is
/// zero itself, and reads back as the number.
pub proof fn law_decimal_reads_back(value: nat)
    ensures
        decimal(value).len() > 0,
        read_digits(decimal(value), 10) == value,
        forall|i: int| 0 <= i < decimal(value).len() ==> '0' <= #[trigger] decimal(value)[i] <= '9',
        decimal(value)[0] == '0' <==> value == 0,
        value == 0 ==> decimal(value).len() == 1,
    decreases value,
{
    reveal_with_fuel(read_digits, 2);
    lemma_digit(value % 10);
    if value < 10 {
        assert(decimal(value).drop_last() =~= Seq::<char>::empty());
    } else {
        law_decimal_reads_back(value / 10);
        let digits = decimal(value / 10).push(digit_char(value % 10));
        assert(digits.drop_last() =~= decimal(value / 10));
        assert(digits[0] == decimal(value / 10)[0]);
    }
}

/// A number that may be negative has a sign in front exactly if it is.
pub proof fn law_signed_decimal_reads_back(value: int)
    ensures
        value < 0 ==> signed_decimal(value) == seq!['-'] + decimal((-value) as nat),
        value >= 0 ==> read_digits(signed_decimal(value), 10) == value,
        signed_decimal(value)[0] == '-' <==> value < 0,
{
    reveal_strlit("-");
    assert("-"@ =~= seq!['-']);
    if value >= 0 {
        law_decimal_reads_back(value as nat);
    }
}

/// A number in hexadecimal has no leading zero unless it is zero itself, and
/// reads back as the number.
pub proof fn law_hex_reads_back(value: nat)
    ensures
        hex(value).len() > 0,
        read_digits(hex(value), 16) == value,
        hex(value)[0] == '0' <==> value == 0,
        value == 0 ==> hex(value).len() == 1,
    decreases value,
{
    reveal_with_fuel(read_digits, 2);
    lemma_digit(value % 16);
    if value < 16 {
        assert(hex(value).drop_last() =~= Seq::<char>::empty());
    } else {
        law_hex_reads_back(value / 16);
        let digits = hex(value / 16).push(hex_char(value % 16));
        assert(digits.drop_last() =~= hex(value / 16));
        assert(digits[0] == hex(value / 16)[0]);
    }
}

/// How many numbers have `width` hexadecimal digits.
pub open spec fn hex_bound(width: nat) -> nat
    decreases width,
{
    if width == 0 {
        1
    } else {
        16 * hex_bound((width - 1) as nat)
    }
}

proof fn lemma_hex_digits(value: nat, width: nat)
    ensures
        hex_digits(value, width).len() == width,
        value < hex_bound(width) ==> read_digits(hex_digits(value, width), 16) == value,
    decreases width,
{
    if width > 0 {
        lemma_digit(value % 16);
        lemma_hex_digits(value / 16, (width - 1) as nat);
        let digits = hex_digits(value, width);
        assert(digits.drop_last() =~= hex_digits(value / 16, (width - 1) as nat));
    }
}

/// Eight hexadecimal digits hold every number of 32 bits, and read back as it.
pub proof fn law_hex_eight_reads_back(value: u32)
    ensures
        hex_eight(value as nat).len() == 8,
        read_digits(hex_eight(value as nat), 16) == value,
{
    lemma_hex_digits(value as nat, 8);
    reveal_with_fuel(hex_bound, 9);
    assert(hex_bound(8) == 0x1_0000_0000);
}

/// As many numbers fit into bytes as there are strings of those bytes.
pub proof fn law_byte_bound(width: nat)
    ensures
        byte_bound(0) == 1,
        byte_bound(width + 1) == 256 * byte_bound(width),
        byte_bound(width) > 0,
    decreases width,
{
    if width > 0 {
        law_byte_bound((width - 1) as nat);
    }
}

proof fn lemma_digit_shift(value: nat, i: nat)
    ensures
        (value / 256) / byte_bound(i) == value / byte_bound(i + 1),
{
    law_byte_bound(i);
    vstd::arithmetic::div_mod::lemma_div_denominator(value as int, 256, byte_bound(i) as int);
}

/// The byte at place `i` of a number counts how often `256` to the power `i`
/// goes into it: the lowest byte comes first.
pub proof fn law_le_bytes_are_digits(value: nat, width: nat, i: nat)
    requires
        i < width,
    ensures
        le_bytes(value, width).len() == width,
        le_bytes(value, width)[i as int] == (value / byte_bound(i)) % 256,
    decreases width,
{
    let rest = le_bytes(value / 256, (width - 1) as nat);
    if width > 1 {
        law_le_bytes_are_digits(value / 256, (width - 1) as nat, 0);
    } else {
        assert(rest =~= Seq::<u8>::empty());
    }
    if i > 0 {
        law_le_bytes_are_digits(value / 256, (width - 1) as nat, (i - 1) as nat);
        lemma_digit_shift(value, (i - 1) as nat);
        assert(le_bytes(value, width)[i as int] == rest[i - 1]);
    } else {
        assert(value / 1 == value);
    }
}

/// The bytes of a number with the highest first are those with the lowest
/// first, from back to front.
pub proof fn law_be_bytes_are_digits(value: nat, width: nat, i: nat)
    requires
        i < width,
    ensures
        be_bytes(value, width).len() == width,
        be_bytes(value, width)[width - 1 - i] == (value / byte_bound(i)) % 256,
    decreases width,
{
    let rest = be_bytes(value / 256, (width - 1) as nat);
    if width > 1 {
        law_be_bytes_are_digits(value / 256, (width - 1) as nat, 0);
    } else {
        assert(rest =~= Seq::<u8>::empty());
    }
    if i > 0 {
        law_be_bytes_are_digits(value / 256, (width - 1) as nat, (i - 1) as nat);
        lemma_digit_shift(value, (i - 1) as nat);
        assert(be_bytes(value, width)[width - 1 - i] == rest[width - 1 - i]);
    } else {
        assert(value / 1 == value);
    }
}

/// Any bytes are the bytes of the number that they give.
pub proof fn law_bytes_of_their_number(bytes: Seq<u8>)
    ensures
        be_bytes(be_value(bytes), bytes.len()) == bytes,
        be_value(bytes) < byte_bound(bytes.len()),
    decreases bytes.len(),
{
    if bytes.len() > 0 {
        law_bytes_of_their_number(bytes.drop_last());
        let value = be_value(bytes);
        assert(value / 256 == be_value(bytes.drop_last()));
        assert(value % 256 == bytes.last());
        assert(bytes.drop_last().push(bytes.last()) =~= bytes);
    } else {
        assert(bytes =~= Seq::<u8>::empty());
    }
}

} // verus!
