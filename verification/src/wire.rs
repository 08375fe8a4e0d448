//! Little-endian wire encodings of the scalar payload fields, and the
//! two's-complement bit patterns of the signed ones, written out as plain
//! arithmetic so that every encoding step carries an exact contract.

use vstd::prelude::*;

verus! {

/// The two little-endian bytes of `x`.
pub open spec fn u16_le(x: u16) -> Seq<u8> {
    seq![(x % 0x100) as u8, (x / 0x100) as u8]
}

/// The four little-endian bytes of `x`.
pub open spec fn u32_le(x: u32) -> Seq<u8> {
    seq![
        (x % 0x100) as u8,
        ((x / 0x100) % 0x100) as u8,
        ((x / 0x10000) % 0x100) as u8,
        (x / 0x1000000) as u8,
    ]
}

/// The eight little-endian bytes of `x`.
pub open spec fn u64_le(x: u64) -> Seq<u8> {
    seq![
        (x % 0x100) as u8,
        ((x / 0x100) % 0x100) as u8,
        ((x / 0x10000) % 0x100) as u8,
        ((x / 0x1000000) % 0x100) as u8,
        ((x / 0x100000000) % 0x100) as u8,
        ((x / 0x10000000000) % 0x100) as u8,
        ((x / 0x1000000000000) % 0x100) as u8,
        (x / 0x100000000000000) as u8,
    ]
}

/// The value encoded by two little-endian bytes.
pub open spec fn u16_from_le(b0: u8, b1: u8) -> u16 {
    (b0 + b1 * 0x100) as u16
}

/// The value encoded by four little-endian bytes.
pub open spec fn u32_from_le(b0: u8, b1: u8, b2: u8, b3: u8) -> u32 {
    (b0 + b1 * 0x100 + b2 * 0x10000 + b3 * 0x1000000) as u32
}

/// The value encoded by eight little-endian bytes.
pub open spec fn u64_from_le(b0: u8, b1: u8, b2: u8, b3: u8, b4: u8, b5: u8, b6: u8, b7: u8) -> u64 {
    (b0 + b1 * 0x100 + b2 * 0x10000 + b3 * 0x1000000 + b4 * 0x100000000 + b5 * 0x10000000000 + b6
        * 0x1000000000000 + b7 * 0x100000000000000) as u64
}

/// The two's-complement bit pattern of a signed 16-bit value.
pub open spec fn u16_of_i16(v: i16) -> u16 {
    if v >= 0 {
        v as u16
    } else {
        (v + 0x10000) as u16
    }
}

/// The signed 16-bit value of a two's-complement bit pattern.
pub open spec fn i16_of_u16(u: u16) -> i16 {
    if u < 0x8000 {
        u as i16
    } else {
        (u - 0x10000) as i16
    }
}

/// The two's-complement bit pattern of a signed 32-bit value.
pub open spec fn u32_of_i32(v: i32) -> u32 {
    if v >= 0 {
        v as u32
    } else {
        (v + 0x100000000) as u32
    }
}

/// The signed 32-bit value of a two's-complement bit pattern.
pub open spec fn i32_of_u32(u: u32) -> i32 {
    if u < 0x80000000 {
        u as i32
    } else {
        (u - 0x100000000) as i32
    }
}

/// The two's-complement bit pattern of a signed 64-bit value.
pub open spec fn u64_of_i64(v: i64) -> u64 {
    if v >= 0 {
        v as u64
    } else {
        (v + 0x10000000000000000) as u64
    }
}

/// The signed 64-bit value of a two's-complement bit pattern.
pub open spec fn i64_of_u64(u: u64) -> i64 {
    if u < 0x8000000000000000 {
        u as i64
    } else {
        (u - 0x10000000000000000) as i64
    }
}

/// Round trips between the signed values and their bit patterns.
pub proof fn lemma_signed_bits_round_trip()
    ensures
        forall|v: i16| i16_of_u16(#[trigger] u16_of_i16(v)) == v,
        forall|v: i32| i32_of_u32(#[trigger] u32_of_i32(v)) == v,
        forall|v: i64| i64_of_u64(#[trigger] u64_of_i64(v)) == v,
        forall|u: u16| u16_of_i16(#[trigger] i16_of_u16(u)) == u,
        forall|u: u32| u32_of_i32(#[trigger] i32_of_u32(u)) == u,
        forall|u: u64| u64_of_i64(#[trigger] i64_of_u64(u)) == u,
{
}

/// Appends the two little-endian bytes of `x` to `buf`.
pub fn push_u16_le(buf: &mut Vec<u8>, x: u16)
    ensures
        final(buf)@ == old(buf)@ + u16_le(x),
{
    buf.push((x % 0x100) as u8);
    buf.push((x / 0x100) as u8);
    assert(final(buf)@ =~= old(buf)@ + u16_le(x));
}

/// Appends the four little-endian bytes of `x` to `buf`.
pub fn push_u32_le(buf: &mut Vec<u8>, x: u32)
    ensures
        final(buf)@ == old(buf)@ + u32_le(x),
{
    buf.push((x % 0x100) as u8);
    buf.push(((x / 0x100) % 0x100) as u8);
    buf.push(((x / 0x10000) % 0x100) as u8);
    buf.push((x / 0x1000000) as u8);
    assert(final(buf)@ =~= old(buf)@ + u32_le(x));
}

/// Appends the eight little-endian bytes of `x` to `buf`.
pub fn push_u64_le(buf: &mut Vec<u8>, x: u64)
    ensures
        final(buf)@ == old(buf)@ + u64_le(x),
{
    buf.push((x % 0x100) as u8);
    buf.push(((x / 0x100) % 0x100) as u8);
    buf.push(((x / 0x10000) % 0x100) as u8);
    buf.push(((x / 0x1000000) % 0x100) as u8);
    buf.push(((x / 0x100000000) % 0x100) as u8);
    buf.push(((x / 0x10000000000) % 0x100) as u8);
    buf.push(((x / 0x1000000000000) % 0x100) as u8);
    buf.push((x / 0x100000000000000) as u8);
    assert(final(buf)@ =~= old(buf)@ + u64_le(x));
}

/// Reads the 16-bit value stored little-endian at `off` in `s`.
pub fn read_u16_le(s: &[u8], off: usize) -> (r: u16)
    requires
        off + 2 <= s@.len(),
    ensures
        r == u16_from_le(s@[off as int], s@[off + 1]),
{
    let n: usize = s.len();
    assert(off + 2 <= n);
    let b0 = *vstd::slice::slice_index_get(s, off);
    let b1 = *vstd::slice::slice_index_get(s, off + 1);
    (b0 as u16) + (b1 as u16) * 0x100
}

/// Reads the 32-bit value stored little-endian at `off` in `s`.
pub fn read_u32_le(s: &[u8], off: usize) -> (r: u32)
    requires
        off + 4 <= s@.len(),
    ensures
        r == u32_from_le(s@[off as int], s@[off + 1], s@[off + 2], s@[off + 3]),
{
    let n: usize = s.len();
    assert(off + 4 <= n);
    let b0 = *vstd::slice::slice_index_get(s, off);
    let b1 = *vstd::slice::slice_index_get(s, off + 1);
    let b2 = *vstd::slice::slice_index_get(s, off + 2);
    let b3 = *vstd::slice::slice_index_get(s, off + 3);
    (b0 as u32) + (b1 as u32) * 0x100 + (b2 as u32) * 0x10000 + (b3 as u32) * 0x1000000
}

/// Reads the 64-bit value stored little-endian at `off` in `s`.
pub fn read_u64_le(s: &[u8], off: usize) -> (r: u64)
    requires
        off + 8 <= s@.len(),
    ensures
        r == u64_from_le(
            s@[off as int],
            s@[off + 1],
            s@[off + 2],
            s@[off + 3],
            s@[off + 4],
            s@[off + 5],
            s@[off + 6],
            s@[off + 7],
        ),
{
    let n: usize = s.len();
    assert(off + 8 <= n);
    let b0 = *vstd::slice::slice_index_get(s, off);
    let b1 = *vstd::slice::slice_index_get(s, off + 1);
    let b2 = *vstd::slice::slice_index_get(s, off + 2);
    let b3 = *vstd::slice::slice_index_get(s, off + 3);
    let b4 = *vstd::slice::slice_index_get(s, off + 4);
    let b5 = *vstd::slice::slice_index_get(s, off + 5);
    let b6 = *vstd::slice::slice_index_get(s, off + 6);
    let b7 = *vstd::slice::slice_index_get(s, off + 7);
    (b0 as u64) + (b1 as u64) * 0x100 + (b2 as u64) * 0x10000 + (b3 as u64) * 0x1000000 + (b4
        as u64) * 0x100000000 + (b5 as u64) * 0x10000000000 + (b6 as u64) * 0x1000000000000 + (b7
        as u64) * 0x100000000000000
}

/// The base-256 digit expansion of a 32-bit value recombines to the value.
proof fn lemma_u32_digits(x: u32)
    ensures
        x % 0x100 + (x / 0x100 % 0x100) * 0x100 + (x / 0x10000 % 0x100) * 0x10000 + (x / 0x1000000)
            * 0x1000000 == x,
{
    vstd::arithmetic::div_mod::lemma_fundamental_div_mod(x as int, 0x100);
    vstd::arithmetic::div_mod::lemma_fundamental_div_mod(x as int / 0x100, 0x100);
    vstd::arithmetic::div_mod::lemma_div_denominator(x as int, 0x100, 0x100);
    vstd::arithmetic::div_mod::lemma_fundamental_div_mod(x as int / 0x10000, 0x100);
    vstd::arithmetic::div_mod::lemma_div_denominator(x as int, 0x10000, 0x100);
}

/// The base-256 digit expansion of a 64-bit value recombines to the value.
proof fn lemma_u64_digits(x: u64)
    ensures
        x % 0x100 + (x / 0x100 % 0x100) * 0x100 + (x / 0x10000 % 0x100) * 0x10000 + (x / 0x1000000
            % 0x100) * 0x1000000 + (x / 0x100000000 % 0x100) * 0x100000000 + (x / 0x10000000000
            % 0x100) * 0x10000000000 + (x / 0x1000000000000 % 0x100) * 0x1000000000000 + (x
            / 0x100000000000000) * 0x100000000000000 == x,
{
    vstd::arithmetic::div_mod::lemma_fundamental_div_mod(x as int, 0x100);
    vstd::arithmetic::div_mod::lemma_fundamental_div_mod(x as int / 0x100, 0x100);
    vstd::arithmetic::div_mod::lemma_div_denominator(x as int, 0x100, 0x100);
    vstd::arithmetic::div_mod::lemma_fundamental_div_mod(x as int / 0x10000, 0x100);
    vstd::arithmetic::div_mod::lemma_div_denominator(x as int, 0x10000, 0x100);
    vstd::arithmetic::div_mod::lemma_fundamental_div_mod(x as int / 0x1000000, 0x100);
    vstd::arithmetic::div_mod::lemma_div_denominator(x as int, 0x1000000, 0x100);
    vstd::arithmetic::div_mod::lemma_fundamental_div_mod(x as int / 0x100000000, 0x100);
    vstd::arithmetic::div_mod::lemma_div_denominator(x as int, 0x100000000, 0x100);
    vstd::arithmetic::div_mod::lemma_fundamental_div_mod(x as int / 0x10000000000, 0x100);
    vstd::arithmetic::div_mod::lemma_div_denominator(x as int, 0x10000000000, 0x100);
    vstd::arithmetic::div_mod::lemma_fundamental_div_mod(x as int / 0x1000000000000, 0x100);
    vstd::arithmetic::div_mod::lemma_div_denominator(x as int, 0x1000000000000, 0x100);
}

/// Little-endian encoding and decoding invert each other.
pub proof fn lemma_le_round_trip()
    ensures
        forall|x: u16| u16_from_le(#[trigger] u16_le(x)[0], u16_le(x)[1]) == x,
        forall|x: u32|
            u32_from_le(
                #[trigger] u32_le(x)[0],
                u32_le(x)[1],
                u32_le(x)[2],
                u32_le(x)[3],
            ) == x,
        forall|x: u64|
            u64_from_le(
                #[trigger] u64_le(x)[0],
                u64_le(x)[1],
                u64_le(x)[2],
                u64_le(x)[3],
                u64_le(x)[4],
                u64_le(x)[5],
                u64_le(x)[6],
                u64_le(x)[7],
            ) == x,
{
    assert forall|x: u16| u16_from_le(#[trigger] u16_le(x)[0], u16_le(x)[1]) == x by {
        vstd::arithmetic::div_mod::lemma_fundamental_div_mod(x as int, 0x100);
    }
    assert forall|x: u32|
        u32_from_le(#[trigger] u32_le(x)[0], u32_le(x)[1], u32_le(x)[2], u32_le(x)[3]) == x by {
        lemma_u32_digits(x);
    }
    assert forall|x: u64|
        u64_from_le(
            #[trigger] u64_le(x)[0],
            u64_le(x)[1],
            u64_le(x)[2],
            u64_le(x)[3],
            u64_le(x)[4],
            u64_le(x)[5],
            u64_le(x)[6],
            u64_le(x)[7],
        ) == x by {
        lemma_u64_digits(x);
    }
}

/// Copies `src` into `dst` starting at `offset`: the window takes the
/// bytes of `src` and every byte outside it is unchanged.
pub fn copy_into(dst: &mut Vec<u8>, offset: usize, src: &Vec<u8>)
    requires
        offset + src@.len() <= old(dst)@.len(),
    ensures
        final(dst)@.len() == old(dst)@.len(),
        final(dst)@.subrange(offset as int, offset + src@.len()) == src@,
        forall|j: int|
            0 <= j < old(dst)@.len() && !(offset <= j < offset + src@.len()) ==> final(dst)@[j]
                == old(dst)@[j],
{
    let n = src.len();
    let mut k: usize = 0;
    while k < n
        invariant
            k <= n,
            n == src@.len(),
            offset + n <= dst@.len(),
            dst@.len() == old(dst)@.len(),
            forall|j: int| 0 <= j < k ==> dst@[offset + j] == src@[j],
            forall|j: int|
                0 <= j < dst@.len() && !(offset <= j < offset + k) ==> dst@[j] == old(dst)@[j],
        decreases n - k,
    {
        let b = src[k];
        let cap: usize = dst.len();
        assert(offset + k < cap);
        dst[offset + k] = b;
        k = k + 1;
    }
    proof {
        assert(final(dst)@.subrange(offset as int, offset + src@.len()) =~= src@);
    }
}

/// Converts a signed 16-bit value to its two's-complement bit pattern.
pub fn i16_to_bits(v: i16) -> (r: u16)
    ensures
        r == u16_of_i16(v),
{
    if v >= 0 {
        v as u16
    } else {
        ((v as i32) + 0x10000) as u16
    }
}

/// Converts a two's-complement bit pattern to its signed 16-bit value.
pub fn i16_from_bits(u: u16) -> (r: i16)
    ensures
        r == i16_of_u16(u),
{
    if u < 0x8000 {
        u as i16
    } else {
        ((u as i32) - 0x10000) as i16
    }
}

/// Converts a signed 32-bit value to its two's-complement bit pattern.
pub fn i32_to_bits(v: i32) -> (r: u32)
    ensures
        r == u32_of_i32(v),
{
    if v >= 0 {
        v as u32
    } else {
        ((v as i64) + 0x100000000) as u32
    }
}

/// Converts a two's-complement bit pattern to its signed 32-bit value.
pub fn i32_from_bits(u: u32) -> (r: i32)
    ensures
        r == i32_of_u32(u),
{
    if u < 0x80000000 {
        u as i32
    } else {
        ((u as i64) - 0x100000000) as i32
    }
}

/// Converts a signed 64-bit value to its two's-complement bit pattern.
pub fn i64_to_bits(v: i64) -> (r: u64)
    ensures
        r == u64_of_i64(v),
{
    if v >= 0 {
        v as u64
    } else {
        0xffffffffffffffffu64 - ((-(v + 1)) as u64)
    }
}

/// Converts a two's-complement bit pattern to its signed 64-bit value.
pub fn i64_from_bits(u: u64) -> (r: i64)
    ensures
        r == i64_of_u64(u),
{
    if u < 0x8000000000000000 {
        u as i64
    } else {
        -((0xffffffffffffffffu64 - u) as i64) - 1
    }
}

} // verus!
