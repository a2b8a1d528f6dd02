//! Hashes of join keys.
//!
//! Build and probe must use the same function for the same logical key type.
//! The filter mixes hashes further, so these functions only make logically equal
//! keys give equal hashes.

use crate::bytes::le_bytes;
use vstd::prelude::*;

verus! {

pub const FNV_OFFSET_BASIS: u64 = 0xcbf2_9ce4_8422_2325;

pub const FNV_PRIME: u64 = 0x0000_0100_0000_01b3;

/// The bits of every `float4` NaN.
pub const CANONICAL_NAN32: u32 = 0x7fc0_0000;

/// The bits of every `float8` NaN.
pub const CANONICAL_NAN64: u64 = 0x7ff8_0000_0000_0000;

/// One step of the byte hash.
pub open spec fn fnv_step(hash: u64, byte: u8) -> u64 {
    (hash ^ (byte as u64)).wrapping_mul(FNV_PRIME)
}

/// The byte hash: FNV-1a with 64 bits.
pub open spec fn fnv(bytes: Seq<u8>) -> u64
    decreases bytes.len(),
{
    if bytes.len() == 0 {
        FNV_OFFSET_BASIS
    } else {
        fnv_step(fnv(bytes.drop_last()), bytes.last())
    }
}

/// A number that may be negative, modulo a power of two: what its two's
/// complement bytes give.
pub open spec fn twos_complement(value: int, bound: int) -> nat {
    if value >= 0 {
        value as nat
    } else {
        (value + bound) as nat
    }
}

/// The hash of a boolean.
pub open spec fn bool_hash(value: bool) -> u64 {
    if value {
        1
    } else {
        0
    }
}

/// The hash of an integer: its two's complement bits.
pub open spec fn int_hash(value: int) -> u64 {
    twos_complement(value, 0x1_0000_0000_0000_0000) as u64
}

/// Hash a boolean join key.
pub fn hash_bool_key(value: bool) -> (r: u64)
    ensures
        r == bool_hash(value),
{
    if value {
        1
    } else {
        0
    }
}

/// Hash an integer join key.
pub fn hash_int_key(value: i64) -> (r: u64)
    ensures
        r == int_hash(value as int),
{
    bits_of_i64(value)
}

fn bits_of_i64(value: i64) -> (r: u64)
    ensures
        r == twos_complement(value as int, 0x1_0000_0000_0000_0000),
{
    if value >= 0 {
        value as u64
    } else {
        u64::MAX - (-(value + 1)) as u64
    }
}

fn bits_of_i32(value: i32) -> (r: u32)
    ensures
        r == twos_complement(value as int, 0x1_0000_0000),
{
    if value >= 0 {
        value as u32
    } else {
        u32::MAX - (-(value + 1)) as u32
    }
}

fn bits_of_i128(value: i128) -> (r: u128)
    ensures
        r == twos_complement(value as int, u128::MAX + 1),
{
    if value >= 0 {
        value as u128
    } else {
        u128::MAX - (-(value + 1)) as u128
    }
}

fn bits_of_i8(value: i8) -> (r: u8)
    ensures
        r == twos_complement(value as int, 0x100),
{
    if value >= 0 {
        value as u8
    } else {
        u8::MAX - (-(value + 1)) as u8
    }
}

/// The low bytes of a number, the lowest first.
fn push_le_bytes(out: &mut Vec<u8>, value: u128, width: usize)
    ensures
        final(out)@ == old(out)@ + le_bytes(value as nat, width as nat),
{
    let mut rest: u128 = value;
    let mut i: usize = 0;
    let ghost before = out@;
    assert(out@ + le_bytes(rest as nat, width as nat) =~= before + le_bytes(
        value as nat,
        width as nat,
    ));
    while i < width
        invariant
            i <= width,
            out@ + le_bytes(rest as nat, (width - i) as nat) == before + le_bytes(
                value as nat,
                width as nat,
            ),
        decreases width - i,
    {
        let byte: u8 = (rest % 256) as u8;
        let ghost seen = out@;
        out.push(byte);
        proof {
            let tail = le_bytes(rest as nat / 256, (width - i - 1) as nat);
            assert(out@ + tail =~= seen + (seq![byte] + tail));
        }
        rest = rest / 256;
        i = i + 1;
    }
    assert(out@ =~= out@ + le_bytes(rest as nat, 0));
}

/// The canonical form of a decimal: trailing zeros are stripped while the scale
/// is positive.
pub open spec fn canonical_decimal(value: int, scale: int) -> (int, int)
    decreases scale,
{
    if scale > 0 && value % 10 == 0 {
        canonical_decimal(value / 10, scale - 1)
    } else {
        (value, scale)
    }
}

/// The bytes of a decimal: sixteen of its scaled integer, one of its scale.
pub open spec fn decimal_bytes(value: int, scale: int) -> Seq<u8> {
    le_bytes(twos_complement(value, u128::MAX + 1), 16) + le_bytes(
        twos_complement(scale, 0x100),
        1,
    )
}

/// Hash a decimal join key. A decimal is a scaled integer, so equal numbers can
/// have different integers; the hash is that of the canonical form.
pub fn hash_decimal128_key(value: i128, scale: i8) -> (r: u64)
    ensures
        ({
            let (v, s) = canonical_decimal(value as int, scale as int);
            r == fnv(decimal_bytes(v, s))
        }),
{
    let mut v: i128 = value;
    let mut s: i8 = scale;
    while s > 0 && divisible_by_ten(v)
        invariant
            canonical_decimal(value as int, scale as int) == canonical_decimal(v as int, s as int),
        decreases s,
    {
        v = tenth(v);
        s = s - 1;
    }
    let mut bytes: Vec<u8> = Vec::new();
    push_le_bytes(&mut bytes, bits_of_i128(v), 16);
    push_le_bytes(&mut bytes, bits_of_i8(s) as u128, 1);
    assert(bytes@ =~= decimal_bytes(v as int, s as int));
    hash_bytes_key(bytes.as_slice())
}

fn magnitude(value: i128) -> (r: u128)
    ensures
        r == if value >= 0 {
            value as int
        } else {
            -value
        },
{
    if value >= 0 {
        value as u128
    } else {
        (-(value + 1)) as u128 + 1
    }
}

fn divisible_by_ten(value: i128) -> (r: bool)
    ensures
        r == (value as int % 10 == 0),
{
    magnitude(value) % 10 == 0
}

fn tenth(value: i128) -> (r: i128)
    requires
        value as int % 10 == 0,
    ensures
        r == value as int / 10,
{
    let part: i128 = (magnitude(value) / 10) as i128;
    if value >= 0 {
        part
    } else {
        -part
    }
}

/// Hash an interval join key. The triple is hashed as it is: months, days and
/// nanoseconds are not converted into each other.
pub fn hash_interval_month_day_nano_key(months: i32, days: i32, nanoseconds: i64) -> (r: u64)
    ensures
        r == fnv(interval_bytes(months as int, days as int, nanoseconds as int)),
{
    let mut bytes: Vec<u8> = Vec::new();
    push_le_bytes(&mut bytes, bits_of_i32(months) as u128, 4);
    push_le_bytes(&mut bytes, bits_of_i32(days) as u128, 4);
    push_le_bytes(&mut bytes, bits_of_i64(nanoseconds) as u128, 8);
    assert(bytes@ =~= interval_bytes(months as int, days as int, nanoseconds as int));
    hash_bytes_key(bytes.as_slice())
}

/// The bytes of an interval.
pub open spec fn interval_bytes(months: int, days: int, nanoseconds: int) -> Seq<u8> {
    le_bytes(twos_complement(months, 0x1_0000_0000), 4) + le_bytes(
        twos_complement(days, 0x1_0000_0000),
        4,
    ) + le_bytes(twos_complement(nanoseconds, 0x1_0000_0000_0000_0000), 8)
}

/// These bits of a `float4` are a zero of either sign.
pub open spec fn is_zero32(bits: u32) -> bool {
    bits == 0 || bits == 0x8000_0000
}

/// These bits of a `float4` are a NaN: the exponent is full, the fraction not
/// empty.
pub open spec fn is_nan32(bits: u32) -> bool {
    bits as int % 0x8000_0000 > 0x7f80_0000
}

/// These bits of a `float8` are a zero of either sign.
pub open spec fn is_zero64(bits: u64) -> bool {
    bits == 0 || bits == 0x8000_0000_0000_0000
}

/// These bits of a `float8` are a NaN: the exponent is full, the fraction not
/// empty.
pub open spec fn is_nan64(bits: u64) -> bool {
    bits as int % 0x8000_0000_0000_0000 > 0x7ff0_0000_0000_0000
}

/// The hash of a `float4`: both zeros have one hash, and all NaNs have one.
pub open spec fn float32_hash(bits: u32) -> u64 {
    if is_zero32(bits) {
        0
    } else if is_nan32(bits) {
        CANONICAL_NAN32 as u64
    } else {
        bits as u64
    }
}

/// The hash of a `float8`: both zeros have one hash, and all NaNs have one.
pub open spec fn float64_hash(bits: u64) -> u64 {
    if is_zero64(bits) {
        0
    } else if is_nan64(bits) {
        CANONICAL_NAN64
    } else {
        bits
    }
}

/// Hash a `float4` join key, given as its bits.
pub fn hash_float32_key(bits: u32) -> (r: u64)
    ensures
        r == float32_hash(bits),
{
    let unsigned: u32 = bits % 0x8000_0000;
    if unsigned == 0 {
        0
    } else if unsigned > 0x7f80_0000 {
        CANONICAL_NAN32 as u64
    } else {
        bits as u64
    }
}

/// Hash a `float8` join key, given as its bits.
pub fn hash_float64_key(bits: u64) -> (r: u64)
    ensures
        r == float64_hash(bits),
{
    let unsigned: u64 = bits % 0x8000_0000_0000_0000;
    if unsigned == 0 {
        0
    } else if unsigned > 0x7ff0_0000_0000_0000 {
        CANONICAL_NAN64
    } else {
        bits
    }
}

/// Hash a text or byte join key.
pub fn hash_bytes_key(bytes: &[u8]) -> (r: u64)
    ensures
        r == fnv(bytes@),
{
    let mut hash: u64 = FNV_OFFSET_BASIS;
    let mut i: usize = 0;
    while i < bytes.len()
        invariant
            i <= bytes@.len(),
            hash == fnv(bytes@.take(i as int)),
        decreases bytes.len() - i,
    {
        hash = (hash ^ (bytes[i] as u64)).wrapping_mul(FNV_PRIME);
        proof {
            let longer = bytes@.take(i + 1);
            assert(longer.drop_last() =~= bytes@.take(i as int));
            assert(longer.last() == bytes@[i as int]);
        }
        i = i + 1;
    }
    assert(bytes@.take(bytes@.len() as int) =~= bytes@);
    hash
}

/// Ten to the power of `n`.
pub open spec fn power_of_ten(n: nat) -> int
    decreases n,
{
    if n == 0 {
        1
    } else {
        10 * power_of_ten((n - 1) as nat)
    }
}

proof fn lemma_power_of_ten(a: nat, b: nat)
    ensures
        power_of_ten(a) > 0,
        power_of_ten(a + b) == power_of_ten(a) * power_of_ten(b),
    decreases a,
{
    if a > 0 {
        lemma_power_of_ten((a - 1) as nat, b);
        let p = power_of_ten((a - 1) as nat);
        let q = power_of_ten(b);
        assert((10 * p) * q == 10 * (p * q)) by (nonlinear_arith);
        assert(power_of_ten(a + b) == 10 * power_of_ten((a - 1 + b) as nat));
    } else {
        assert(power_of_ten(b) == 1 * power_of_ten(b));
    }
}

/// A decimal written with `k` more places has the same canonical form.
proof fn lemma_more_places(value: int, scale: nat, k: nat)
    ensures
        canonical_decimal(value * power_of_ten(k), (scale + k) as int) == canonical_decimal(
            value,
            scale as int,
        ),
    decreases k,
{
    if k == 0 {
        assert(value * power_of_ten(k) == value);
    } else {
        let p = power_of_ten((k - 1) as nat);
        let longer = value * power_of_ten(k);
        assert(value * (10 * p) == 10 * (value * p)) by (nonlinear_arith);
        assert(longer % 10 == 0 && longer / 10 == value * p);
        lemma_more_places(value, scale, (k - 1) as nat);
    }
}

/// Decimals that are the same number have the same canonical form, and so the
/// same hash. Scales are not negative: with a negative scale nothing is
/// stripped, so that for example 50 with scale 0 and 5 with scale -1 differ.
pub proof fn law_equal_decimals_hash_equal(
    value_a: int,
    scale_a: nat,
    value_b: int,
    scale_b: nat,
)
    requires
        value_a * power_of_ten(scale_b) == value_b * power_of_ten(scale_a),
    ensures
        canonical_decimal(value_a, scale_a as int) == canonical_decimal(value_b, scale_b as int),
    decreases scale_a,
{
    if scale_a <= scale_b {
        let k = (scale_b - scale_a) as nat;
        lemma_power_of_ten(scale_a, k);
        lemma_more_places(value_a, scale_a, k);
        let p = power_of_ten(scale_a);
        let q = power_of_ten(k);
        assert(value_b == value_a * q) by (nonlinear_arith)
            requires
                value_a * (p * q) == value_b * p,
                p > 0,
        ;
    } else {
        law_equal_decimals_hash_equal(value_b, scale_b, value_a, scale_a);
    }
}

/// Keys that are equal for a join have equal hashes, and keys of these types
/// that are not equal have different ones.
pub proof fn law_scalar_hashes_separate(
    a: i64,
    b: i64,
    float_a: u32,
    float_b: u32,
    double_a: u64,
    double_b: u64,
)
    ensures
        int_hash(a as int) == int_hash(b as int) <==> a == b,
        float32_hash(float_a) == float32_hash(float_b) <==> {
            ||| float_a == float_b
            ||| is_zero32(float_a) && is_zero32(float_b)
            ||| is_nan32(float_a) && is_nan32(float_b)
        },
        float64_hash(double_a) == float64_hash(double_b) <==> {
            ||| double_a == double_b
            ||| is_zero64(double_a) && is_zero64(double_b)
            ||| is_nan64(double_a) && is_nan64(double_b)
        },
        bool_hash(true) != bool_hash(false),
{
}

} // verus!
