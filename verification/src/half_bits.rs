//! The bridge to half-precision arithmetic. The library holds
//! half-precision and single-precision values as their bit patterns;
//! the value-level conversions between the two widths are performed by
//! the `half` crate and are named, not restated, here.

use vstd::prelude::*;
use arrow::datatypes::ArrowPrimitiveType;
use arrow::datatypes::Float16Type;
use arrow::datatypes::Float32Type;

verus! {

/// The bit pattern of the single-precision value that a half-precision
/// bit pattern converts to. The conversion is exact: every
/// half-precision value is representable in single precision.
pub uninterp spec fn single_bits_of_half(b: u16) -> u32;

/// The bit pattern of the half-precision value nearest (under
/// round-to-nearest-even) to a single-precision bit pattern.
pub uninterp spec fn half_bits_of_single(b: u32) -> u16;

/// Relies on half's to_f32 (reached as the element type of arrow's
/// Float16Type): widens a half-precision value to single precision; the
/// result depends on the input bits alone.
#[verifier::external_body]
pub fn half_to_single_bits(b: u16) -> (r: u32)
    ensures
        r == single_bits_of_half(b),
{
    <Float16Type as ArrowPrimitiveType>::Native::from_bits(b).to_f32().to_bits()
}

/// Relies on half's from_f32 (reached as the element type of arrow's
/// Float16Type): rounds a single-precision value to the nearest
/// half-precision value; the result depends on the input bits alone.
#[verifier::external_body]
pub fn single_to_half_bits(b: u32) -> (r: u16)
    ensures
        r == half_bits_of_single(b),
{
    let wide = <Float32Type as ArrowPrimitiveType>::Native::from_bits(b);
    <Float16Type as ArrowPrimitiveType>::Native::from_f32(wide).to_bits()
}

} // verus!
