//! Numbers as byte sequences.

use vstd::prelude::*;

verus! {

/// How many values fit into `width` bytes.
pub open spec fn byte_bound(width: nat) -> nat
    decreases width,
{
    if width == 0 {
        1
    } else {
        256 * byte_bound((width - 1) as nat)
    }
}

/// The `width` lowest bytes of a number, the highest first.
pub open spec fn be_bytes(value: nat, width: nat) -> Seq<u8>
    decreases width,
{
    if width == 0 {
        Seq::empty()
    } else {
        be_bytes(value / 256, (width - 1) as nat).push((value % 256) as u8)
    }
}

/// The number that bytes give, the highest first.
pub open spec fn be_value(bytes: Seq<u8>) -> nat
    decreases bytes.len(),
{
    if bytes.len() == 0 {
        0
    } else {
        be_value(bytes.drop_last()) * 256 + bytes.last() as nat
    }
}

/// The `width` lowest bytes of a number, the lowest first.
pub open spec fn le_bytes(value: nat, width: nat) -> Seq<u8>
    decreases width,
{
    if width == 0 {
        Seq::empty()
    } else {
        seq![(value % 256) as u8] + le_bytes(value / 256, (width - 1) as nat)
    }
}

/// Bytes of a number that fits read back as that number.
pub proof fn lemma_be_round_trip(value: nat, width: nat)
    requires
        value < byte_bound(width),
    ensures
        be_bytes(value, width).len() == width,
        be_value(be_bytes(value, width)) == value,
    decreases width,
{
    if width > 0 {
        let upper = value / 256;
        lemma_be_round_trip(upper, (width - 1) as nat);
        let s = be_bytes(upper, (width - 1) as nat);
        assert(s.push((value % 256) as u8).drop_last() =~= s);
    }
}

/// Bytes give a number that fits.
pub proof fn lemma_be_value_bound(bytes: Seq<u8>)
    ensures
        be_value(bytes) < byte_bound(bytes.len()),
    decreases bytes.len(),
{
    if bytes.len() > 0 {
        lemma_be_value_bound(bytes.drop_last());
    }
}

/// How many bytes a number is given.
pub proof fn lemma_bytes_len(value: nat, width: nat)
    ensures
        be_bytes(value, width).len() == width,
        le_bytes(value, width).len() == width,
    decreases width,
{
    if width > 0 {
        lemma_bytes_len(value / 256, (width - 1) as nat);
    }
}

/// The bounds of the widths that machine integers have.
pub proof fn lemma_byte_bounds()
    ensures
        byte_bound(1) == 0x100,
        byte_bound(2) == 0x1_0000,
        byte_bound(4) == 0x1_0000_0000,
        byte_bound(8) == 0x1_0000_0000_0000_0000,
{
    reveal_with_fuel(byte_bound, 9);
}

} // verus!
