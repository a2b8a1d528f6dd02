//! What the hash of a key says of the key.

use super::bloom::{position, positions, splitmix, BloomParams};
use super::hash::{
    bool_hash, canonical_decimal, decimal_bytes, float32_hash, float64_hash, fnv, int_hash,
    interval_bytes, is_nan32, is_nan64, power_of_ten,
};
use crate::bytes::byte_bound;
use crate::number_laws::law_le_bytes_are_digits;
use vstd::prelude::*;

verus! {

/// An integer key hashes to itself, a negative one to its two's complement. So
/// a key hashes alike whether its column holds 16, 32 or 64 bits.
pub proof fn law_integer_hashes_to_itself(value: i64)
    ensures
        (int_hash(value as int) - value) % 0x1_0000_0000_0000_0000 == 0,
        value >= 0 ==> int_hash(value as int) == value,
        value < 0 ==> int_hash(value as int) == value + 0x1_0000_0000_0000_0000,
{
}

/// A truth value hashes to one if it is true and to zero if it is not.
pub proof fn law_bool_hashes_to_number(value: bool)
    ensures
        bool_hash(value) == 1 <==> value,
        bool_hash(value) == 0 <==> !value,
{
}

/// A single-precision number hashes to its bits, with one hash for both zeros
/// and one for everything that is not a number: those are the bits with all of
/// the exponent set and a fraction that is not zero.
pub proof fn law_float32_hashes_to_its_bits(bits: u32)
    ensures
        is_nan32(bits) <==> (bits / 0x80_0000) % 0x100 == 0xff && bits % 0x80_0000 != 0,
        bits == 0 || bits == 0x8000_0000 ==> float32_hash(bits) == 0,
        is_nan32(bits) ==> float32_hash(bits) == 0x7fc0_0000,
        !is_nan32(bits) && bits != 0x8000_0000 ==> float32_hash(bits) == bits,
{
}

/// A double-precision number hashes to its bits, with one hash for both zeros
/// and one for everything that is not a number.
pub proof fn law_float64_hashes_to_its_bits(bits: u64)
    ensures
        is_nan64(bits) <==> (bits / 0x10_0000_0000_0000) % 0x800 == 0x7ff && bits
            % 0x10_0000_0000_0000 != 0,
        bits == 0 || bits == 0x8000_0000_0000_0000 ==> float64_hash(bits) == 0,
        is_nan64(bits) ==> float64_hash(bits) == 0x7ff8_0000_0000_0000,
        !is_nan64(bits) && bits != 0x8000_0000_0000_0000 ==> float64_hash(bits) == bits,
{
}

/// Bytes hash step by step: a byte more mixes that byte into the hash so far.
pub proof fn law_bytes_hash_step_by_step(bytes: Seq<u8>, byte: u8)
    ensures
        fnv(Seq::empty()) == 0xcbf2_9ce4_8422_2325,
        fnv(bytes.push(byte)) == ((fnv(bytes) ^ (byte as u64)) * 0x100_0000_01b3)
            % 0x1_0000_0000_0000_0000,
{
    assert(bytes.push(byte).drop_last() =~= bytes);
}

/// The canonical form of a decimal is the same number, with no trailing zero
/// left behind the point. A negative scale is left alone.
pub proof fn law_canonical_decimal_keeps_the_number(value: int, scale: int)
    ensures
        ({
            let (digits, places) = canonical_decimal(value, scale);
            &&& scale >= 0 ==> 0 <= places <= scale
            &&& scale >= 0 ==> digits * power_of_ten((scale - places) as nat) == value
            &&& scale > 0 ==> places == 0 || digits % 10 != 0
            &&& scale <= 0 ==> digits == value && places == scale
        }),
        power_of_ten(0) == 1,
        forall|n: nat| power_of_ten(n + 1) == 10 * #[trigger] power_of_ten(n),
    decreases scale,
{
    if scale > 0 && value % 10 == 0 {
        law_canonical_decimal_keeps_the_number(value / 10, scale - 1);
        let (digits, places) = canonical_decimal(value, scale);
        let n = (scale - 1 - places) as nat;
        let p = power_of_ten(n);
        assert(power_of_ten((scale - places) as nat) == 10 * p);
        assert(digits * (10 * p) == 10 * (digits * p)) by (nonlinear_arith);
    } else if scale >= 0 {
        assert(power_of_ten(0) == 1);
    }
}

/// A decimal hashes as sixteen bytes of its digits, the lowest first, and one
/// byte of its scale.
pub proof fn law_decimal_bytes(value: i128, scale: i8, i: nat)
    requires
        i < 16,
    ensures
        decimal_bytes(value as int, scale as int).len() == 17,
        decimal_bytes(value as int, scale as int)[i as int] == ((if value < 0 {
            value + u128::MAX + 1
        } else {
            value as int
        }) / byte_bound(i) as int) % 256,
        decimal_bytes(value as int, scale as int)[16] == if scale < 0 {
            scale + 256
        } else {
            scale as int
        },
{
    let digits = super::hash::twos_complement(value as int, u128::MAX + 1);
    let places = super::hash::twos_complement(scale as int, 0x100);
    law_le_bytes_are_digits(digits, 16, i);
    law_le_bytes_are_digits(places, 1, 0);
    assert(byte_bound(0) == 1);
}

/// An interval hashes as its months, its days and its nanoseconds, in this
/// order and each with the lowest byte first.
pub proof fn law_interval_bytes(months: i32, days: i32, nanoseconds: i64, i: nat)
    ensures
        ({
            let bytes = interval_bytes(months as int, days as int, nanoseconds as int);
            let month_bits = if months < 0 {
                months + 0x1_0000_0000
            } else {
                months as int
            };
            let day_bits = if days < 0 {
                days + 0x1_0000_0000
            } else {
                days as int
            };
            let nano_bits = if nanoseconds < 0 {
                nanoseconds + 0x1_0000_0000_0000_0000
            } else {
                nanoseconds as int
            };
            &&& bytes.len() == 16
            &&& i < 4 ==> bytes[i as int] == (month_bits / byte_bound(i) as int) % 256
            &&& i < 4 ==> bytes[4 + i as int] == (day_bits / byte_bound(i) as int) % 256
            &&& i < 8 ==> bytes[8 + i as int] == (nano_bits / byte_bound(i) as int) % 256
        }),
{
    let month_bits = super::hash::twos_complement(months as int, 0x1_0000_0000);
    let day_bits = super::hash::twos_complement(days as int, 0x1_0000_0000);
    let nano_bits = super::hash::twos_complement(nanoseconds as int, 0x1_0000_0000_0000_0000);
    law_le_bytes_are_digits(month_bits, 4, 0);
    law_le_bytes_are_digits(day_bits, 4, 0);
    law_le_bytes_are_digits(nano_bits, 8, 0);
    if i < 4 {
        law_le_bytes_are_digits(month_bits, 4, i);
        law_le_bytes_are_digits(day_bits, 4, i);
    }
    if i < 8 {
        law_le_bytes_are_digits(nano_bits, 8, i);
    }
}

/// A hash sets as many positions as the filter has hash functions (some of them
/// may fall together). They start at the mixed hash and go on by an odd step,
/// around the number of bits.
pub proof fn law_positions_step_through_the_bits(params: BloomParams, hash: u64)
    requires
        params.bit_count > 0,
        params.hash_count <= u64::MAX,
    ensures
        ({
            let start = splitmix(hash ^ params.seed);
            let step = splitmix(start ^ 0xD1B5_4A32_D192_ED03) | 1;
            &&& step % 2 == 1
            &&& forall|i: int|
                0 <= i < params.hash_count ==> #[trigger] position(params, hash, i) == ((start + i
                    * step) % 0x1_0000_0000_0000_0000) % params.bit_count as int
            &&& forall|b: int|
                positions(params, hash).contains(b) <==> exists|i: int|
                    0 <= i < params.hash_count && b == #[trigger] position(params, hash, i)
        }),
{
    let start = splitmix(hash ^ params.seed);
    let mixed = splitmix(start ^ 0xD1B5_4A32_D192_ED03);
    let step = mixed | 1;
    assert(step % 2 == 1) by (bit_vector)
        requires
            step == mixed | 1,
    ;
    assert forall|i: int| 0 <= i < params.hash_count implies #[trigger] position(params, hash, i)
        == ((start + i * step) % 0x1_0000_0000_0000_0000) % params.bit_count as int by {
        let product = i * step;
        vstd::arithmetic::div_mod::lemma_add_mod_noop_right(
            start as int,
            product,
            0x1_0000_0000_0000_0000,
        );
    }
}

/// What mixing was applied to: the steps of mixing undone, the last one first.
pub open spec fn unmixed(mixed: u64) -> u64 {
    let c = mixed ^ (mixed >> 31) ^ (mixed >> 62);
    let b = c.wrapping_mul(0x3196_42b2_d24d_8ec3);
    let b = b ^ (b >> 27) ^ (b >> 54);
    let a = b.wrapping_mul(0x96de_1b17_3f11_9089);
    let a = a ^ (a >> 30) ^ (a >> 60);
    a.wrapping_sub(0x9E37_79B9_7F4A_7C15)
}

proof fn lemma_product_undone(x: u64, factor: u64, inverse: u64, turns: int)
    requires
        factor * inverse == 1 + turns * 0x1_0000_0000_0000_0000,
    ensures
        x.wrapping_mul(factor).wrapping_mul(inverse) == x,
{
    let m: int = 0x1_0000_0000_0000_0000;
    vstd::arithmetic::div_mod::lemma_mul_mod_noop_left(x * factor, inverse as int, m);
    assert((x * factor) * inverse == x + (x * turns) * m) by (nonlinear_arith)
        requires
            factor * inverse == 1 + turns * m,
    ;
    vstd::arithmetic::div_mod::lemma_mod_multiples_vanish(x * turns, x as int, m);
    vstd::arithmetic::div_mod::lemma_small_mod(x as nat, m as nat);
    assert((x * turns) * m + x == m * (x * turns) + x) by (nonlinear_arith);
}

/// Mixing can be undone, so that hashes that differ still differ when mixed.
pub proof fn law_mixing_can_be_undone(value: u64, other: u64)
    ensures
        unmixed(splitmix(value)) == value,
        splitmix(value) == splitmix(other) ==> value == other,
{
    lemma_unmixed(value);
    lemma_unmixed(other);
}

proof fn lemma_unmixed(value: u64)
    ensures
        unmixed(splitmix(value)) == value,
{
    let a = value.wrapping_add(0x9E37_79B9_7F4A_7C15);
    let a1 = a ^ (a >> 30);
    let b = a1.wrapping_mul(0xBF58_476D_1CE4_E5B9);
    let b1 = b ^ (b >> 27);
    let c = b1.wrapping_mul(0x94D0_49BB_1331_11EB);
    let c1 = c ^ (c >> 31);
    assert(c1 ^ (c1 >> 31) ^ (c1 >> 62) == c && b1 ^ (b1 >> 27) ^ (b1 >> 54) == b && a1 ^ (a1
        >> 30) ^ (a1 >> 60) == a) by (bit_vector)
        requires
            a1 == a ^ (a >> 30),
            b1 == b ^ (b >> 27),
            c1 == c ^ (c >> 31),
    ;
    lemma_product_undone(
        b1,
        0x94D0_49BB_1331_11EB,
        0x3196_42b2_d24d_8ec3,
        0x1cd3_36ed_a85f_1453,
    );
    lemma_product_undone(
        a1,
        0xBF58_476D_1CE4_E5B9,
        0x96de_1b17_3f11_9089,
        0x70c3_bca7_8f27_f46c,
    );
    assert(a.wrapping_sub(0x9E37_79B9_7F4A_7C15) == value);
}

} // verus!
