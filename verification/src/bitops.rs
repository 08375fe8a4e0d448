//! Single-byte bit manipulation used by the packed quality and command
//! qualifier fields: reading and writing one bit, and reading and writing a
//! contiguous bit range, with proofs that no other bit is disturbed.

use vstd::prelude::*;

verus! {

/// True when bit `k` of `b` is set.
pub open spec fn bit_get(b: u8, k: u8) -> bool {
    (b >> k) & 1 == 1
}

/// `b` with bit `k` set to `v` and every other bit unchanged.
pub open spec fn bit_set(b: u8, k: u8, v: bool) -> u8 {
    if v {
        b | (1u8 << k)
    } else {
        b & !(1u8 << k)
    }
}

/// The `width`-bit range of `b` starting at bit `low`, shifted down.
pub open spec fn bits_get(b: u8, low: u8, width: u8) -> u8 {
    (b >> low) & (low_mask(width))
}

/// A byte whose `width` lowest bits are set.
pub open spec fn low_mask(width: u8) -> u8 {
    if width >= 8 {
        0xffu8
    } else {
        ((1u8 << width) - 1) as u8
    }
}

/// `b` with its `width`-bit range starting at bit `low` replaced by the low
/// bits of `value`, and every bit outside the range unchanged.
pub open spec fn bits_set(b: u8, low: u8, width: u8, value: u8) -> u8 {
    (b & !((low_mask(width)) << low)) | ((value & low_mask(width)) << low)
}

/// A bit range read never exceeds the mask of its width.
pub proof fn lemma_bits_get_bound(b: u8, low: u8, width: u8)
    by (bit_vector)
    requires
        low < 8,
        0 < width <= 8,
    ensures
        bits_get(b, low, width) <= low_mask(width),
{
}

/// Writing one bit changes that bit and no other.
pub proof fn lemma_bit_set_effect()
    by (bit_vector)
    ensures
        forall|b: u8, k: u8, v: bool, j: u8|
            k < 8 && j < 8 ==> #[trigger] bit_get(bit_set(b, k, v), j) == if j == k {
                v
            } else {
                bit_get(b, j)
            },
{
}

/// Reads bit `k` of `b`.
pub fn get_bit(b: u8, k: u8) -> (r: bool)
    requires
        k < 8,
    ensures
        r == bit_get(b, k),
{
    (b >> k) & 1 == 1
}

/// Returns `b` with bit `k` set to `v`.
pub fn set_bit(b: u8, k: u8, v: bool) -> (r: u8)
    requires
        k < 8,
    ensures
        r == bit_set(b, k, v),
{
    if v {
        b | (1u8 << k)
    } else {
        b & !(1u8 << k)
    }
}

/// Reads the `width`-bit range of `b` starting at bit `low`.
pub fn get_bits(b: u8, low: u8, width: u8) -> (r: u8)
    requires
        low < 8,
        0 < width <= 8,
    ensures
        r == bits_get(b, low, width),
{
    let mask: u8 = if width >= 8 {
        0xffu8
    } else {
        assert(1u8 << width >= 1) by (bit_vector)
            requires
                width < 8,
        ;
        (1u8 << width) - 1
    };
    (b >> low) & mask
}

/// Returns `b` with the `width`-bit range starting at bit `low` replaced by
/// the low bits of `value`.
pub fn set_bits(b: u8, low: u8, width: u8, value: u8) -> (r: u8)
    requires
        low < 8,
        0 < width <= 8,
    ensures
        r == bits_set(b, low, width, value),
{
    let mask: u8 = if width >= 8 {
        0xffu8
    } else {
        assert(1u8 << width >= 1) by (bit_vector)
            requires
                width < 8,
        ;
        (1u8 << width) - 1
    };
    (b & !(mask << low)) | ((value & mask) << low)
}

} // verus!
