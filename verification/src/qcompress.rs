//! The conversion capability for the legacy numeric codec: an optional
//! capability of its own, registered independently of the file-format
//! one. Its element types coincide with the canonical kinds except for
//! half precision, which travels as its raw 16-bit pattern; every
//! kind's round trip is exact, and the trait itself obliges each
//! registration to prove it.

use vstd::prelude::*;
use crate::convert;
use crate::num_vec::F16Bits;
use crate::num_vec::F32Bits;
use crate::num_vec::F64Bits;

verus! {

/// The capability of being handed to the legacy numeric codec.
/// `to_qco` and `of_qco` are the per-value transforms; both buffer
/// methods pin every index to them, and `round_trip` obliges every
/// registered kind to decode exactly what it encoded.
pub trait QCompressable: Sized + Copy {
    /// The codec's element type for this kind.
    type Qco: Copy;

    /// The codec-side value that encodes one value of this kind.
    spec fn to_qco(x: Self) -> Self::Qco;

    /// The value of this kind that one codec-side value decodes to.
    spec fn of_qco(q: Self::Qco) -> Self;

    /// Encodes a buffer into the codec's element type.
    fn nums_to_qco(nums: &Vec<Self>) -> (r: Vec<Self::Qco>)
        ensures
            r@.len() == nums@.len(),
            forall|j: int| 0 <= j < nums@.len() ==> #[trigger] r@[j] == Self::to_qco(nums@[j]),
    ;

    /// Decodes a buffer of the codec's element type.
    fn qco_to_nums(v: Vec<Self::Qco>) -> (r: Vec<Self>)
        ensures
            r@.len() == v@.len(),
            forall|j: int| 0 <= j < v@.len() ==> #[trigger] r@[j] == Self::of_qco(v@[j]),
    ;

    /// Decoding undoes encoding exactly, for every value of this kind.
    proof fn round_trip(x: Self)
        ensures
            Self::of_qco(Self::to_qco(x)) == x,
    ;
}

impl QCompressable for F16Bits {
    type Qco = u16;

    open spec fn to_qco(x: F16Bits) -> u16 {
        x.0
    }

    open spec fn of_qco(q: u16) -> F16Bits {
        F16Bits(q)
    }

    fn nums_to_qco(nums: &Vec<F16Bits>) -> (r: Vec<u16>) {
        convert::half_vec_to_u16_vec(nums)
    }

    fn qco_to_nums(v: Vec<u16>) -> (r: Vec<F16Bits>) {
        convert::u16_vec_to_half_vec(&v)
    }

    proof fn round_trip(x: F16Bits) {
    }
}

impl QCompressable for F32Bits {
    type Qco = F32Bits;

    open spec fn to_qco(x: F32Bits) -> F32Bits {
        x
    }

    open spec fn of_qco(q: F32Bits) -> F32Bits {
        q
    }

    fn nums_to_qco(nums: &Vec<F32Bits>) -> (r: Vec<F32Bits>) {
        convert::copy_vec(nums)
    }

    fn qco_to_nums(v: Vec<F32Bits>) -> (r: Vec<F32Bits>) {
        v
    }

    proof fn round_trip(x: F32Bits) {
    }
}

impl QCompressable for F64Bits {
    type Qco = F64Bits;

    open spec fn to_qco(x: F64Bits) -> F64Bits {
        x
    }

    open spec fn of_qco(q: F64Bits) -> F64Bits {
        q
    }

    fn nums_to_qco(nums: &Vec<F64Bits>) -> (r: Vec<F64Bits>) {
        convert::copy_vec(nums)
    }

    fn qco_to_nums(v: Vec<F64Bits>) -> (r: Vec<F64Bits>) {
        v
    }

    proof fn round_trip(x: F64Bits) {
    }
}

impl QCompressable for i16 {
    type Qco = i16;

    open spec fn to_qco(x: i16) -> i16 {
        x
    }

    open spec fn of_qco(q: i16) -> i16 {
        q
    }

    fn nums_to_qco(nums: &Vec<i16>) -> (r: Vec<i16>) {
        convert::copy_vec(nums)
    }

    fn qco_to_nums(v: Vec<i16>) -> (r: Vec<i16>) {
        v
    }

    proof fn round_trip(x: i16) {
    }
}

impl QCompressable for i32 {
    type Qco = i32;

    open spec fn to_qco(x: i32) -> i32 {
        x
    }

    open spec fn of_qco(q: i32) -> i32 {
        q
    }

    fn nums_to_qco(nums: &Vec<i32>) -> (r: Vec<i32>) {
        convert::copy_vec(nums)
    }

    fn qco_to_nums(v: Vec<i32>) -> (r: Vec<i32>) {
        v
    }

    proof fn round_trip(x: i32) {
    }
}

impl QCompressable for i64 {
    type Qco = i64;

    open spec fn to_qco(x: i64) -> i64 {
        x
    }

    open spec fn of_qco(q: i64) -> i64 {
        q
    }

    fn nums_to_qco(nums: &Vec<i64>) -> (r: Vec<i64>) {
        convert::copy_vec(nums)
    }

    fn qco_to_nums(v: Vec<i64>) -> (r: Vec<i64>) {
        v
    }

    proof fn round_trip(x: i64) {
    }
}

impl QCompressable for u16 {
    type Qco = u16;

    open spec fn to_qco(x: u16) -> u16 {
        x
    }

    open spec fn of_qco(q: u16) -> u16 {
        q
    }

    fn nums_to_qco(nums: &Vec<u16>) -> (r: Vec<u16>) {
        convert::copy_vec(nums)
    }

    fn qco_to_nums(v: Vec<u16>) -> (r: Vec<u16>) {
        v
    }

    proof fn round_trip(x: u16) {
    }
}

impl QCompressable for u32 {
    type Qco = u32;

    open spec fn to_qco(x: u32) -> u32 {
        x
    }

    open spec fn of_qco(q: u32) -> u32 {
        q
    }

    fn nums_to_qco(nums: &Vec<u32>) -> (r: Vec<u32>) {
        convert::copy_vec(nums)
    }

    fn qco_to_nums(v: Vec<u32>) -> (r: Vec<u32>) {
        v
    }

    proof fn round_trip(x: u32) {
    }
}

impl QCompressable for u64 {
    type Qco = u64;

    open spec fn to_qco(x: u64) -> u64 {
        x
    }

    open spec fn of_qco(q: u64) -> u64 {
        q
    }

    fn nums_to_qco(nums: &Vec<u64>) -> (r: Vec<u64>) {
        convert::copy_vec(nums)
    }

    fn qco_to_nums(v: Vec<u64>) -> (r: Vec<u64>) {
        v
    }

    proof fn round_trip(x: u64) {
    }
}

} // verus!
