//! Verified buffer conversions: the allocating transforms that carry a
//! whole buffer between a canonical kind and an external element
//! representation, one value at a time. Each states exactly which value
//! stands at each index of its result.

use vstd::prelude::*;
use crate::bits;
use crate::half_bits;
use crate::num_vec::F16Bits;
use crate::num_vec::F32Bits;

verus! {

/// Copies a buffer unchanged: the byte-identical path for kinds whose
/// external representation equals their own.
pub fn copy_vec<T: Copy>(v: &Vec<T>) -> (r: Vec<T>)
    ensures
        r@ == v@,
{
    let mut out: Vec<T> = Vec::new();
    let n = v.len();
    let mut i: usize = 0;
    while i < n
        invariant
            n == v@.len(),
            i <= n,
            out@.len() == i,
            forall|j: int| 0 <= j < i ==> out@[j] == v@[j],
        decreases n - i,
    {
        out.push(v[i]);
        i += 1;
    }
    proof {
        assert(out@ =~= v@);
    }
    out
}

/// Reinterprets a buffer of unsigned 32-bit values as the signed slots
/// with the same bit patterns. Numeric value is not preserved when the
/// high bit is set; the bit pattern always is.
pub fn u32_vec_to_i32_bits(v: &Vec<u32>) -> (r: Vec<i32>)
    ensures
        r@.len() == v@.len(),
        forall|j: int| 0 <= j < v@.len() ==> r@[j] == bits::i32_of_u32_bits(v@[j]),
{
    let mut out: Vec<i32> = Vec::new();
    let n = v.len();
    let mut i: usize = 0;
    while i < n
        invariant
            n == v@.len(),
            i <= n,
            out@.len() == i,
            forall|j: int| 0 <= j < i ==> out@[j] == bits::i32_of_u32_bits(v@[j]),
        decreases n - i,
    {
        out.push(bits::reinterpret_u32_as_i32(v[i]));
        i += 1;
    }
    out
}

/// Reinterprets a buffer of signed 32-bit slots back as the unsigned
/// values with the same bit patterns: the inverse of
/// `u32_vec_to_i32_bits`.
pub fn i32_bits_to_u32_vec(v: &Vec<i32>) -> (r: Vec<u32>)
    ensures
        r@.len() == v@.len(),
        forall|j: int| 0 <= j < v@.len() ==> r@[j] == bits::u32_of_i32_bits(v@[j]),
{
    let mut out: Vec<u32> = Vec::new();
    let n = v.len();
    let mut i: usize = 0;
    while i < n
        invariant
            n == v@.len(),
            i <= n,
            out@.len() == i,
            forall|j: int| 0 <= j < i ==> out@[j] == bits::u32_of_i32_bits(v@[j]),
        decreases n - i,
    {
        out.push(bits::reinterpret_i32_as_u32(v[i]));
        i += 1;
    }
    out
}

/// Reinterprets a buffer of unsigned 64-bit values as the signed slots
/// with the same bit patterns.
pub fn u64_vec_to_i64_bits(v: &Vec<u64>) -> (r: Vec<i64>)
    ensures
        r@.len() == v@.len(),
        forall|j: int| 0 <= j < v@.len() ==> r@[j] == bits::i64_of_u64_bits(v@[j]),
{
    let mut out: Vec<i64> = Vec::new();
    let n = v.len();
    let mut i: usize = 0;
    while i < n
        invariant
            n == v@.len(),
            i <= n,
            out@.len() == i,
            forall|j: int| 0 <= j < i ==> out@[j] == bits::i64_of_u64_bits(v@[j]),
        decreases n - i,
    {
        out.push(bits::reinterpret_u64_as_i64(v[i]));
        i += 1;
    }
    out
}

/// Reinterprets a buffer of signed 64-bit slots back as the unsigned
/// values with the same bit patterns: the inverse of
/// `u64_vec_to_i64_bits`.
pub fn i64_bits_to_u64_vec(v: &Vec<i64>) -> (r: Vec<u64>)
    ensures
        r@.len() == v@.len(),
        forall|j: int| 0 <= j < v@.len() ==> r@[j] == bits::u64_of_i64_bits(v@[j]),
{
    let mut out: Vec<u64> = Vec::new();
    let n = v.len();
    let mut i: usize = 0;
    while i < n
        invariant
            n == v@.len(),
            i <= n,
            out@.len() == i,
            forall|j: int| 0 <= j < i ==> out@[j] == bits::u64_of_i64_bits(v@[j]),
        decreases n - i,
    {
        out.push(bits::reinterpret_i64_as_u64(v[i]));
        i += 1;
    }
    out
}

/// Sign-extends a buffer of signed 16-bit values to 32-bit slots; every
/// numeric value is preserved.
pub fn i16_vec_to_i32_vec(v: &Vec<i16>) -> (r: Vec<i32>)
    ensures
        r@.len() == v@.len(),
        forall|j: int| 0 <= j < v@.len() ==> r@[j] == v@[j] as i32,
{
    let mut out: Vec<i32> = Vec::new();
    let n = v.len();
    let mut i: usize = 0;
    while i < n
        invariant
            n == v@.len(),
            i <= n,
            out@.len() == i,
            forall|j: int| 0 <= j < i ==> out@[j] == v@[j] as i32,
        decreases n - i,
    {
        out.push(bits::widen_i16_to_i32(v[i]));
        i += 1;
    }
    out
}

/// Narrows a buffer of 32-bit slots to signed 16-bit values by
/// truncation to the low 16 bits.
pub fn i32_vec_to_i16_vec(v: &Vec<i32>) -> (r: Vec<i16>)
    ensures
        r@.len() == v@.len(),
        forall|j: int| 0 <= j < v@.len() ==> r@[j] == bits::i16_of_i32_truncated(v@[j]),
{
    let mut out: Vec<i16> = Vec::new();
    let n = v.len();
    let mut i: usize = 0;
    while i < n
        invariant
            n == v@.len(),
            i <= n,
            out@.len() == i,
            forall|j: int| 0 <= j < i ==> out@[j] == bits::i16_of_i32_truncated(v@[j]),
        decreases n - i,
    {
        out.push(bits::narrow_i32_to_i16(v[i]));
        i += 1;
    }
    out
}

/// Zero-extends a buffer of unsigned 16-bit values to 32-bit signed
/// slots; every numeric value is preserved.
pub fn u16_vec_to_i32_vec(v: &Vec<u16>) -> (r: Vec<i32>)
    ensures
        r@.len() == v@.len(),
        forall|j: int| 0 <= j < v@.len() ==> r@[j] == v@[j] as i32,
{
    let mut out: Vec<i32> = Vec::new();
    let n = v.len();
    let mut i: usize = 0;
    while i < n
        invariant
            n == v@.len(),
            i <= n,
            out@.len() == i,
            forall|j: int| 0 <= j < i ==> out@[j] == v@[j] as i32,
        decreases n - i,
    {
        out.push(bits::widen_u16_to_i32(v[i]));
        i += 1;
    }
    out
}

/// Narrows a buffer of 32-bit slots to unsigned 16-bit values by
/// truncation to the low 16 bits.
pub fn i32_vec_to_u16_vec(v: &Vec<i32>) -> (r: Vec<u16>)
    ensures
        r@.len() == v@.len(),
        forall|j: int| 0 <= j < v@.len() ==> r@[j] == bits::u16_of_i32_truncated(v@[j]),
{
    let mut out: Vec<u16> = Vec::new();
    let n = v.len();
    let mut i: usize = 0;
    while i < n
        invariant
            n == v@.len(),
            i <= n,
            out@.len() == i,
            forall|j: int| 0 <= j < i ==> out@[j] == bits::u16_of_i32_truncated(v@[j]),
        decreases n - i,
    {
        out.push(bits::narrow_i32_to_u16(v[i]));
        i += 1;
    }
    out
}

/// Converts a buffer of half-precision values to the single-precision
/// values nearest them — exactly, since the widening is lossless.
pub fn half_vec_to_single_vec(v: &Vec<F16Bits>) -> (r: Vec<F32Bits>)
    ensures
        r@.len() == v@.len(),
        forall|j: int| 0 <= j < v@.len() ==> r@[j] == (F32Bits(
            half_bits::single_bits_of_half(v@[j].0),
        )),
{
    let mut out: Vec<F32Bits> = Vec::new();
    let n = v.len();
    let mut i: usize = 0;
    while i < n
        invariant
            n == v@.len(),
            i <= n,
            out@.len() == i,
            forall|j: int| 0 <= j < i ==> out@[j] == (F32Bits(
                half_bits::single_bits_of_half(v@[j].0),
            )),
        decreases n - i,
    {
        out.push(F32Bits(half_bits::half_to_single_bits(v[i].0)));
        i += 1;
    }
    out
}

/// Converts a buffer of single-precision values back to the nearest
/// half-precision values, rounding to nearest-even.
pub fn single_vec_to_half_vec(v: &Vec<F32Bits>) -> (r: Vec<F16Bits>)
    ensures
        r@.len() == v@.len(),
        forall|j: int| 0 <= j < v@.len() ==> r@[j] == (F16Bits(
            half_bits::half_bits_of_single(v@[j].0),
        )),
{
    let mut out: Vec<F16Bits> = Vec::new();
    let n = v.len();
    let mut i: usize = 0;
    while i < n
        invariant
            n == v@.len(),
            i <= n,
            out@.len() == i,
            forall|j: int| 0 <= j < i ==> out@[j] == (F16Bits(
                half_bits::half_bits_of_single(v@[j].0),
            )),
        decreases n - i,
    {
        out.push(F16Bits(half_bits::single_to_half_bits(v[i].0)));
        i += 1;
    }
    out
}

/// Strips half-precision values to their raw 16-bit patterns.
pub fn half_vec_to_u16_vec(v: &Vec<F16Bits>) -> (r: Vec<u16>)
    ensures
        r@.len() == v@.len(),
        forall|j: int| 0 <= j < v@.len() ==> r@[j] == v@[j].0,
{
    let mut out: Vec<u16> = Vec::new();
    let n = v.len();
    let mut i: usize = 0;
    while i < n
        invariant
            n == v@.len(),
            i <= n,
            out@.len() == i,
            forall|j: int| 0 <= j < i ==> out@[j] == v@[j].0,
        decreases n - i,
    {
        out.push(v[i].0);
        i += 1;
    }
    out
}

/// Rebinds raw 16-bit patterns as half-precision values: the inverse of
/// `half_vec_to_u16_vec`.
pub fn u16_vec_to_half_vec(v: &Vec<u16>) -> (r: Vec<F16Bits>)
    ensures
        r@.len() == v@.len(),
        forall|j: int| 0 <= j < v@.len() ==> r@[j] == (F16Bits(v@[j])),
{
    let mut out: Vec<F16Bits> = Vec::new();
    let n = v.len();
    let mut i: usize = 0;
    while i < n
        invariant
            n == v@.len(),
            i <= n,
            out@.len() == i,
            forall|j: int| 0 <= j < i ==> out@[j] == (F16Bits(v@[j])),
        decreases n - i,
    {
        out.push(F16Bits(v[i]));
        i += 1;
    }
    out
}

} // verus!
