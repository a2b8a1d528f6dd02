//! Text made of fixed words and numbers.

use vstd::prelude::*;
use vstd::string::StringExecFns;

verus! {

/// The decimal digit of a number below ten.
pub open spec fn digit_char(digit: nat) -> char {
    if digit == 0 {
        '0'
    } else if digit == 1 {
        '1'
    } else if digit == 2 {
        '2'
    } else if digit == 3 {
        '3'
    } else if digit == 4 {
        '4'
    } else if digit == 5 {
        '5'
    } else if digit == 6 {
        '6'
    } else if digit == 7 {
        '7'
    } else if digit == 8 {
        '8'
    } else {
        '9'
    }
}

/// A number in decimal, without leading zeros.
pub open spec fn decimal(value: nat) -> Seq<char>
    decreases value,
{
    if value < 10 {
        seq![digit_char(value)]
    } else {
        decimal(value / 10).push(digit_char(value % 10))
    }
}

fn digit_str(digit: u64) -> (r: &'static str)
    requires
        digit < 10,
    ensures
        r@ == seq![digit_char(digit as nat)],
{
    proof {
        reveal_strlit("0");
        reveal_strlit("1");
        reveal_strlit("2");
        reveal_strlit("3");
        reveal_strlit("4");
        reveal_strlit("5");
        reveal_strlit("6");
        reveal_strlit("7");
        reveal_strlit("8");
        reveal_strlit("9");
    }
    let r: &'static str = if digit == 0 {
        "0"
    } else if digit == 1 {
        "1"
    } else if digit == 2 {
        "2"
    } else if digit == 3 {
        "3"
    } else if digit == 4 {
        "4"
    } else if digit == 5 {
        "5"
    } else if digit == 6 {
        "6"
    } else if digit == 7 {
        "7"
    } else if digit == 8 {
        "8"
    } else {
        "9"
    };
    assert(r@ =~= seq![digit_char(digit as nat)]);
    r
}

/// Appends a number in decimal.
pub fn append_decimal(out: &mut String, value: u64)
    ensures
        final(out)@ == old(out)@ + decimal(value as nat),
    decreases value,
{
    if value < 10 {
        out.append(digit_str(value));
    } else {
        append_decimal(out, value / 10);
        out.append(digit_str(value % 10));
        assert(out@ =~= old(out)@ + decimal(value as nat));
    }
}

/// A number that may be negative, in decimal.
pub open spec fn signed_decimal(value: int) -> Seq<char> {
    if value < 0 {
        "-"@ + decimal((-value) as nat)
    } else {
        decimal(value as nat)
    }
}

/// Appends a number that may be negative, in decimal.
pub fn append_signed(out: &mut String, value: i32)
    ensures
        final(out)@ == old(out)@ + signed_decimal(value as int),
{
    if value < 0 {
        out.append("-");
        append_decimal(out, (-(value as i64)) as u64);
        assert(out@ =~= old(out)@ + signed_decimal(value as int));
    } else {
        append_decimal(out, value as u64);
    }
}

/// The lower-case hexadecimal digit of a number below sixteen.
pub open spec fn hex_char(digit: nat) -> char {
    if digit < 10 {
        digit_char(digit)
    } else if digit == 10 {
        'a'
    } else if digit == 11 {
        'b'
    } else if digit == 12 {
        'c'
    } else if digit == 13 {
        'd'
    } else if digit == 14 {
        'e'
    } else {
        'f'
    }
}

/// A number in hexadecimal, without leading zeros.
pub open spec fn hex(value: nat) -> Seq<char>
    decreases value,
{
    if value < 16 {
        seq![hex_char(value)]
    } else {
        hex(value / 16).push(hex_char(value % 16))
    }
}

/// The last `width` hexadecimal digits of a number.
pub open spec fn hex_digits(value: nat, width: nat) -> Seq<char>
    decreases width,
{
    if width == 0 {
        Seq::empty()
    } else {
        hex_digits(value / 16, (width - 1) as nat).push(hex_char(value % 16))
    }
}

/// The last eight hexadecimal digits of a number.
pub open spec fn hex_eight(value: nat) -> Seq<char> {
    hex_digits(value, 8)
}

fn hex_str(digit: u64) -> (r: &'static str)
    requires
        digit < 16,
    ensures
        r@ == seq![hex_char(digit as nat)],
{
    if digit < 10 {
        return digit_str(digit);
    }
    proof {
        reveal_strlit("a");
        reveal_strlit("b");
        reveal_strlit("c");
        reveal_strlit("d");
        reveal_strlit("e");
        reveal_strlit("f");
    }
    let r: &'static str = if digit == 10 {
        "a"
    } else if digit == 11 {
        "b"
    } else if digit == 12 {
        "c"
    } else if digit == 13 {
        "d"
    } else if digit == 14 {
        "e"
    } else {
        "f"
    };
    assert(r@ =~= seq![hex_char(digit as nat)]);
    r
}

/// Appends a number in hexadecimal.
pub fn append_hex(out: &mut String, value: u64)
    ensures
        final(out)@ == old(out)@ + hex(value as nat),
    decreases value,
{
    if value < 16 {
        out.append(hex_str(value));
    } else {
        append_hex(out, value / 16);
        out.append(hex_str(value % 16));
        assert(out@ =~= old(out)@ + hex(value as nat));
    }
}

fn append_hex_digits(out: &mut String, value: u64, width: u64)
    ensures
        final(out)@ == old(out)@ + hex_digits(value as nat, width as nat),
    decreases width,
{
    if width == 0 {
        assert(out@ =~= old(out)@ + hex_digits(value as nat, 0));
    } else {
        append_hex_digits(out, value / 16, width - 1);
        out.append(hex_str(value % 16));
        assert(out@ =~= old(out)@ + hex_digits(value as nat, width as nat));
    }
}

/// Appends a number as eight hexadecimal digits.
pub fn append_hex_eight(out: &mut String, value: u32)
    ensures
        final(out)@ == old(out)@ + hex_eight(value as nat),
{
    append_hex_digits(out, value as u64, 8);
}

/// A fixed text as an owned string.
pub fn owned(text: &str) -> (r: String)
    ensures
        r@ == text@,
{
    text.to_owned()
}

} // verus!
