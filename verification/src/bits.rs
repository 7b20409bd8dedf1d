//! Verified bit-level arithmetic: two's-complement reinterpretation
//! between unsigned and signed widths, sign- and zero-extension to 32
//! bits, and the truncations that undo them. These are the transforms
//! behind the per-kind conversion capabilities.

use vstd::prelude::*;
use vstd::arithmetic::div_mod::lemma_mod_multiples_vanish;
use vstd::arithmetic::div_mod::lemma_small_mod;

verus! {

/// The signed value whose 32-bit two's-complement pattern equals `u`.
pub open spec fn i32_of_u32_bits(u: u32) -> i32 {
    if u < 0x8000_0000 {
        u as i32
    } else {
        (u - 0x1_0000_0000) as i32
    }
}

/// The unsigned reading of the 32-bit two's-complement pattern of `x`.
pub open spec fn u32_of_i32_bits(x: i32) -> u32 {
    if x >= 0 {
        x as u32
    } else {
        (x + 0x1_0000_0000) as u32
    }
}

/// The signed value whose 64-bit two's-complement pattern equals `u`.
pub open spec fn i64_of_u64_bits(u: u64) -> i64 {
    if u < 0x8000_0000_0000_0000 {
        u as i64
    } else {
        (u - 0x1_0000_0000_0000_0000) as i64
    }
}

/// The unsigned reading of the 64-bit two's-complement pattern of `x`.
pub open spec fn u64_of_i64_bits(x: i64) -> u64 {
    if x >= 0 {
        x as u64
    } else {
        (x + 0x1_0000_0000_0000_0000) as u64
    }
}

/// The unsigned reading of the 16-bit two's-complement pattern of `x`.
pub open spec fn u16_of_i16_bits(x: i16) -> u16 {
    if x >= 0 {
        x as u16
    } else {
        (x + 0x1_0000) as u16
    }
}

/// The low 16 bits of the two's-complement pattern of `x`, read as a
/// signed 16-bit value: Rust's truncating `i32` to `i16` narrowing.
pub open spec fn i16_of_i32_truncated(x: i32) -> i16 {
    let low = u32_of_i32_bits(x) % 0x1_0000;
    if low < 0x8000 {
        low as i16
    } else {
        (low - 0x1_0000) as i16
    }
}

/// The low 16 bits of the two's-complement pattern of `x`, read as an
/// unsigned 16-bit value: Rust's truncating `i32` to `u16` narrowing.
pub open spec fn u16_of_i32_truncated(x: i32) -> u16 {
    (u32_of_i32_bits(x) % 0x1_0000) as u16
}

/// Reinterprets an unsigned 32-bit pattern as the signed value with the
/// same pattern.
pub fn reinterpret_u32_as_i32(u: u32) -> (r: i32)
    ensures
        r == i32_of_u32_bits(u),
{
    if u < 0x8000_0000 {
        u as i32
    } else {
        let d: u32 = u - 0x8000_0000;
        (d as i32) + i32::MIN
    }
}

/// Reinterprets a signed 32-bit value as the unsigned reading of its
/// pattern: the exact inverse of `reinterpret_u32_as_i32`.
pub fn reinterpret_i32_as_u32(x: i32) -> (r: u32)
    ensures
        r == u32_of_i32_bits(x),
{
    if x >= 0 {
        x as u32
    } else {
        let d: i32 = x - i32::MIN;
        (d as u32) + 0x8000_0000
    }
}

/// Reinterprets an unsigned 64-bit pattern as the signed value with the
/// same pattern.
pub fn reinterpret_u64_as_i64(u: u64) -> (r: i64)
    ensures
        r == i64_of_u64_bits(u),
{
    if u < 0x8000_0000_0000_0000 {
        u as i64
    } else {
        let d: u64 = u - 0x8000_0000_0000_0000;
        (d as i64) + i64::MIN
    }
}

/// Reinterprets a signed 64-bit value as the unsigned reading of its
/// pattern: the exact inverse of `reinterpret_u64_as_i64`.
pub fn reinterpret_i64_as_u64(x: i64) -> (r: u64)
    ensures
        r == u64_of_i64_bits(x),
{
    if x >= 0 {
        x as u64
    } else {
        let d: i64 = x - i64::MIN;
        (d as u64) + 0x8000_0000_0000_0000
    }
}

/// Reinterprets a signed 16-bit value as the unsigned reading of its
/// pattern.
pub fn reinterpret_i16_as_u16(x: i16) -> (r: u16)
    ensures
        r == u16_of_i16_bits(x),
{
    if x >= 0 {
        x as u16
    } else {
        let d: i16 = x - i16::MIN;
        (d as u16) + 0x8000
    }
}

/// Sign-extends a 16-bit signed value to 32 bits; the numeric value is
/// preserved.
pub fn widen_i16_to_i32(x: i16) -> (r: i32)
    ensures
        r == x as i32,
        r as int == x as int,
{
    x as i32
}

/// Zero-extends a 16-bit unsigned value to a 32-bit signed slot; the
/// numeric value is preserved.
pub fn widen_u16_to_i32(x: u16) -> (r: i32)
    ensures
        r == x as i32,
        r as int == x as int,
{
    x as i32
}

/// Truncates a 32-bit signed value to its low 16 bits, read signed.
pub fn narrow_i32_to_i16(x: i32) -> (r: i16)
    ensures
        r == i16_of_i32_truncated(x),
{
    let bits: u32 = reinterpret_i32_as_u32(x);
    let low: u32 = bits % 0x1_0000;
    if low < 0x8000 {
        low as i16
    } else {
        let d: u32 = low - 0x8000;
        (d as i16) + i16::MIN
    }
}

/// Truncates a 32-bit signed value to its low 16 bits, read unsigned.
pub fn narrow_i32_to_u16(x: i32) -> (r: u16)
    ensures
        r == u16_of_i32_truncated(x),
{
    let bits: u32 = reinterpret_i32_as_u32(x);
    (bits % 0x1_0000) as u16
}

/// Unsigned-signed reinterpretation at 32 bits undoes itself: decoding
/// returns the exact original value.
pub proof fn lemma_u32_bits_round_trip(u: u32)
    ensures
        u32_of_i32_bits(i32_of_u32_bits(u)) == u,
{
}

/// Signed-unsigned reinterpretation at 32 bits undoes itself.
pub proof fn lemma_i32_bits_round_trip(x: i32)
    ensures
        i32_of_u32_bits(u32_of_i32_bits(x)) == x,
{
}

/// Unsigned-signed reinterpretation at 64 bits undoes itself.
pub proof fn lemma_u64_bits_round_trip(u: u64)
    ensures
        u64_of_i64_bits(i64_of_u64_bits(u)) == u,
{
}

/// Signed-unsigned reinterpretation at 64 bits undoes itself.
pub proof fn lemma_i64_bits_round_trip(x: i64)
    ensures
        i64_of_u64_bits(u64_of_i64_bits(x)) == x,
{
}

/// Truncation to 16 bits undoes sign-extension: every signed 16-bit
/// value survives the widening round trip exactly.
pub proof fn lemma_i16_widen_round_trip(x: i16)
    ensures
        i16_of_i32_truncated(x as i32) == x,
{
    let w: i32 = x as i32;
    if x >= 0 {
        lemma_small_mod(x as nat, 0x1_0000);
    } else {
        assert(u32_of_i32_bits(w) == x + 0x1_0000_0000);
        lemma_mod_multiples_vanish(0xffff, x + 0x1_0000, 0x1_0000);
        assert(0x1_0000 * 0xffff + (x + 0x1_0000) == x + 0x1_0000_0000);
        lemma_small_mod((x + 0x1_0000) as nat, 0x1_0000);
        assert(u32_of_i32_bits(w) % 0x1_0000 == x + 0x1_0000);
    }
}

/// Truncation to 16 bits undoes zero-extension: every unsigned 16-bit
/// value survives the widening round trip exactly.
pub proof fn lemma_u16_widen_round_trip(x: u16)
    ensures
        u16_of_i32_truncated(x as i32) == x,
{
    lemma_small_mod(x as nat, 0x1_0000);
}

} // verus!
