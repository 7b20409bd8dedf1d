//! The conversion capability for the columnar file format. One
//! implementation per canonical kind fixes, at compile time, the slot
//! type the format stores, the logical type string, whether the
//! bit-identical (pattern-preserving) path exists, and the exact value
//! standing at every index after an encode or a decode.

use vstd::prelude::*;
use crate::bits;
use crate::convert;
use crate::half_bits;
use crate::num_vec::F16Bits;
use crate::num_vec::F32Bits;
use crate::num_vec::F64Bits;

verus! {

/// The capability of being stored in the columnar file format.
///
/// `to_slot` is the per-value encoding into the format's slot type and
/// `of_slot` the per-value decoding; the two method contracts pin every
/// index of an encoded or decoded buffer to them. For kinds with
/// `parquet_transmutable()`, `to_slot` preserves the bit pattern
/// exactly, and the pattern-preserving path `transmute_nums_to_parquet`
/// may be taken; calling it for any other kind is a registration error,
/// rejected at verification time by its `requires`.
pub trait Parquetable: Sized + Copy {
    /// The element type of the file format's slot for this kind.
    type Slot: Copy;

    /// Whether the slot representation is bit-identical to this kind's
    /// own, so the pattern-preserving path exists.
    spec fn parquet_transmutable() -> bool;

    /// The slot value that encodes one value of this kind.
    spec fn to_slot(x: Self) -> Self::Slot;

    /// The value of this kind that one slot value decodes to.
    spec fn of_slot(s: Self::Slot) -> Self;

    /// The format's logical type name for this kind.
    spec fn parquet_dtype_spec() -> Seq<char>;

    /// The format's logical type name for this kind.
    fn parquet_dtype_str() -> (r: &'static str)
        ensures
            r@ == Self::parquet_dtype_spec(),
    ;

    /// Whether the pattern-preserving path exists for this kind.
    fn transmutable() -> (r: bool)
        ensures
            r == Self::parquet_transmutable(),
    ;

    /// Encodes by reference semantics: the pattern-preserving path,
    /// available only for kinds whose slot layout is bit-identical.
    fn transmute_nums_to_parquet(nums: &Vec<Self>) -> (r: Vec<Self::Slot>)
        requires
            Self::parquet_transmutable(),
        ensures
            r@.len() == nums@.len(),
            forall|j: int| 0 <= j < nums@.len() ==> #[trigger] r@[j] == Self::to_slot(nums@[j]),
    ;

    /// Encodes by value: the allocating conversion, defined for every
    /// kind.
    fn copy_nums_to_parquet(nums: &Vec<Self>) -> (r: Vec<Self::Slot>)
        ensures
            r@.len() == nums@.len(),
            forall|j: int| 0 <= j < nums@.len() ==> #[trigger] r@[j] == Self::to_slot(nums@[j]),
    ;

    /// Decodes an owned buffer of slots back to this kind: the inverse
    /// of whichever encode path produced it.
    fn parquet_to_nums(v: Vec<Self::Slot>) -> (r: Vec<Self>)
        ensures
            r@.len() == v@.len(),
            forall|j: int| 0 <= j < v@.len() ==> #[trigger] r@[j] == Self::of_slot(v@[j]),
    ;
}

impl Parquetable for F32Bits {
    type Slot = F32Bits;

    open spec fn parquet_transmutable() -> bool {
        true
    }

    open spec fn to_slot(x: F32Bits) -> F32Bits {
        x
    }

    open spec fn of_slot(s: F32Bits) -> F32Bits {
        s
    }

    open spec fn parquet_dtype_spec() -> Seq<char> {
        "FLOAT"@
    }

    fn parquet_dtype_str() -> (r: &'static str) {
        "FLOAT"
    }

    fn transmutable() -> (r: bool) {
        true
    }

    fn transmute_nums_to_parquet(nums: &Vec<F32Bits>) -> (r: Vec<F32Bits>) {
        Self::copy_nums_to_parquet(nums)
    }

    fn copy_nums_to_parquet(nums: &Vec<F32Bits>) -> (r: Vec<F32Bits>) {
        convert::copy_vec(nums)
    }

    fn parquet_to_nums(v: Vec<F32Bits>) -> (r: Vec<F32Bits>) {
        v
    }
}

impl Parquetable for F64Bits {
    type Slot = F64Bits;

    open spec fn parquet_transmutable() -> bool {
        true
    }

    open spec fn to_slot(x: F64Bits) -> F64Bits {
        x
    }

    open spec fn of_slot(s: F64Bits) -> F64Bits {
        s
    }

    open spec fn parquet_dtype_spec() -> Seq<char> {
        "DOUBLE"@
    }

    fn parquet_dtype_str() -> (r: &'static str) {
        "DOUBLE"
    }

    fn transmutable() -> (r: bool) {
        true
    }

    fn transmute_nums_to_parquet(nums: &Vec<F64Bits>) -> (r: Vec<F64Bits>) {
        Self::copy_nums_to_parquet(nums)
    }

    fn copy_nums_to_parquet(nums: &Vec<F64Bits>) -> (r: Vec<F64Bits>) {
        convert::copy_vec(nums)
    }

    fn parquet_to_nums(v: Vec<F64Bits>) -> (r: Vec<F64Bits>) {
        v
    }
}

impl Parquetable for i32 {
    type Slot = i32;

    open spec fn parquet_transmutable() -> bool {
        true
    }

    open spec fn to_slot(x: i32) -> i32 {
        x
    }

    open spec fn of_slot(s: i32) -> i32 {
        s
    }

    open spec fn parquet_dtype_spec() -> Seq<char> {
        "INT32"@
    }

    fn parquet_dtype_str() -> (r: &'static str) {
        "INT32"
    }

    fn transmutable() -> (r: bool) {
        true
    }

    fn transmute_nums_to_parquet(nums: &Vec<i32>) -> (r: Vec<i32>) {
        Self::copy_nums_to_parquet(nums)
    }

    fn copy_nums_to_parquet(nums: &Vec<i32>) -> (r: Vec<i32>) {
        convert::copy_vec(nums)
    }

    fn parquet_to_nums(v: Vec<i32>) -> (r: Vec<i32>) {
        v
    }
}

impl Parquetable for i64 {
    type Slot = i64;

    open spec fn parquet_transmutable() -> bool {
        true
    }

    open spec fn to_slot(x: i64) -> i64 {
        x
    }

    open spec fn of_slot(s: i64) -> i64 {
        s
    }

    open spec fn parquet_dtype_spec() -> Seq<char> {
        "INT64"@
    }

    fn parquet_dtype_str() -> (r: &'static str) {
        "INT64"
    }

    fn transmutable() -> (r: bool) {
        true
    }

    fn transmute_nums_to_parquet(nums: &Vec<i64>) -> (r: Vec<i64>) {
        Self::copy_nums_to_parquet(nums)
    }

    fn copy_nums_to_parquet(nums: &Vec<i64>) -> (r: Vec<i64>) {
        convert::copy_vec(nums)
    }

    fn parquet_to_nums(v: Vec<i64>) -> (r: Vec<i64>) {
        v
    }
}

// The file format has no unsigned slots. Unsigned 32- and 64-bit values
// reuse the signed slot of the same width under bit-pattern
// reinterpretation: numeric value is not preserved when the high bit is
// set, compressibility is, and decoding reverses the reinterpretation
// exactly.
impl Parquetable for u32 {
    type Slot = i32;

    open spec fn parquet_transmutable() -> bool {
        true
    }

    open spec fn to_slot(x: u32) -> i32 {
        bits::i32_of_u32_bits(x)
    }

    open spec fn of_slot(s: i32) -> u32 {
        bits::u32_of_i32_bits(s)
    }

    open spec fn parquet_dtype_spec() -> Seq<char> {
        "INT32"@
    }

    fn parquet_dtype_str() -> (r: &'static str) {
        "INT32"
    }

    fn transmutable() -> (r: bool) {
        true
    }

    fn transmute_nums_to_parquet(nums: &Vec<u32>) -> (r: Vec<i32>) {
        Self::copy_nums_to_parquet(nums)
    }

    fn copy_nums_to_parquet(nums: &Vec<u32>) -> (r: Vec<i32>) {
        convert::u32_vec_to_i32_bits(nums)
    }

    fn parquet_to_nums(v: Vec<i32>) -> (r: Vec<u32>) {
        convert::i32_bits_to_u32_vec(&v)
    }
}

impl Parquetable for u64 {
    type Slot = i64;

    open spec fn parquet_transmutable() -> bool {
        true
    }

    open spec fn to_slot(x: u64) -> i64 {
        bits::i64_of_u64_bits(x)
    }

    open spec fn of_slot(s: i64) -> u64 {
        bits::u64_of_i64_bits(s)
    }

    open spec fn parquet_dtype_spec() -> Seq<char> {
        "INT64"@
    }

    fn parquet_dtype_str() -> (r: &'static str) {
        "INT64"
    }

    fn transmutable() -> (r: bool) {
        true
    }

    fn transmute_nums_to_parquet(nums: &Vec<u64>) -> (r: Vec<i64>) {
        Self::copy_nums_to_parquet(nums)
    }

    fn copy_nums_to_parquet(nums: &Vec<u64>) -> (r: Vec<i64>) {
        convert::u64_vec_to_i64_bits(nums)
    }

    fn parquet_to_nums(v: Vec<i64>) -> (r: Vec<u64>) {
        convert::i64_bits_to_u64_vec(&v)
    }
}

// The 16-bit kinds have no bit-identical slot: they widen by value into
// the 32-bit signed slot on encode and narrow by truncation on decode.
impl Parquetable for i16 {
    type Slot = i32;

    open spec fn parquet_transmutable() -> bool {
        false
    }

    open spec fn to_slot(x: i16) -> i32 {
        x as i32
    }

    open spec fn of_slot(s: i32) -> i16 {
        bits::i16_of_i32_truncated(s)
    }

    open spec fn parquet_dtype_spec() -> Seq<char> {
        "INT32"@
    }

    fn parquet_dtype_str() -> (r: &'static str) {
        "INT32"
    }

    fn transmutable() -> (r: bool) {
        false
    }

    fn transmute_nums_to_parquet(nums: &Vec<i16>) -> (r: Vec<i32>) {
        Self::copy_nums_to_parquet(nums)
    }

    fn copy_nums_to_parquet(nums: &Vec<i16>) -> (r: Vec<i32>) {
        convert::i16_vec_to_i32_vec(nums)
    }

    fn parquet_to_nums(v: Vec<i32>) -> (r: Vec<i16>) {
        convert::i32_vec_to_i16_vec(&v)
    }
}

impl Parquetable for u16 {
    type Slot = i32;

    open spec fn parquet_transmutable() -> bool {
        false
    }

    open spec fn to_slot(x: u16) -> i32 {
        x as i32
    }

    open spec fn of_slot(s: i32) -> u16 {
        bits::u16_of_i32_truncated(s)
    }

    open spec fn parquet_dtype_spec() -> Seq<char> {
        "INT32"@
    }

    fn parquet_dtype_str() -> (r: &'static str) {
        "INT32"
    }

    fn transmutable() -> (r: bool) {
        false
    }

    fn transmute_nums_to_parquet(nums: &Vec<u16>) -> (r: Vec<i32>) {
        Self::copy_nums_to_parquet(nums)
    }

    fn copy_nums_to_parquet(nums: &Vec<u16>) -> (r: Vec<i32>) {
        convert::u16_vec_to_i32_vec(nums)
    }

    fn parquet_to_nums(v: Vec<i32>) -> (r: Vec<u16>) {
        convert::i32_vec_to_u16_vec(&v)
    }
}

// Half precision has no bit-identical slot either: it expands by value
// to the nearest single-precision value on encode and rounds back to
// half precision on decode. The bit pattern is not preserved; the
// numeric value is, within half precision's own range.
impl Parquetable for F16Bits {
    type Slot = F32Bits;

    open spec fn parquet_transmutable() -> bool {
        false
    }

    open spec fn to_slot(x: F16Bits) -> F32Bits {
        F32Bits(half_bits::single_bits_of_half(x.0))
    }

    open spec fn of_slot(s: F32Bits) -> F16Bits {
        F16Bits(half_bits::half_bits_of_single(s.0))
    }

    open spec fn parquet_dtype_spec() -> Seq<char> {
        "FLOAT"@
    }

    fn parquet_dtype_str() -> (r: &'static str) {
        "FLOAT"
    }

    fn transmutable() -> (r: bool) {
        false
    }

    fn transmute_nums_to_parquet(nums: &Vec<F16Bits>) -> (r: Vec<F32Bits>) {
        Self::copy_nums_to_parquet(nums)
    }

    fn copy_nums_to_parquet(nums: &Vec<F16Bits>) -> (r: Vec<F32Bits>) {
        convert::half_vec_to_single_vec(nums)
    }

    fn parquet_to_nums(v: Vec<F32Bits>) -> (r: Vec<F16Bits>) {
        convert::single_vec_to_half_vec(&v)
    }
}

/// Round trip identity for the single-precision kind: decoding what the
/// pattern-preserving encode produced reproduces the value bit for bit.
pub proof fn lemma_round_trip_f32(v: F32Bits)
    ensures
        <F32Bits as Parquetable>::of_slot(<F32Bits as Parquetable>::to_slot(v)) == v,
{
}

/// Round trip identity for the double-precision kind.
pub proof fn lemma_round_trip_f64(v: F64Bits)
    ensures
        <F64Bits as Parquetable>::of_slot(<F64Bits as Parquetable>::to_slot(v)) == v,
{
}

/// Round trip identity for the 32-bit signed kind.
pub proof fn lemma_round_trip_i32(v: i32)
    ensures
        <i32 as Parquetable>::of_slot(<i32 as Parquetable>::to_slot(v)) == v,
{
}

/// Round trip identity for the 64-bit signed kind.
pub proof fn lemma_round_trip_i64(v: i64)
    ensures
        <i64 as Parquetable>::of_slot(<i64 as Parquetable>::to_slot(v)) == v,
{
}

/// Bit-pattern round trip for the 32-bit unsigned kind: the signed
/// reinterpretation taken on encode is reversed exactly on decode, for
/// every value, high bit set or not.
pub proof fn lemma_round_trip_u32(v: u32)
    ensures
        <u32 as Parquetable>::of_slot(<u32 as Parquetable>::to_slot(v)) == v,
{
    bits::lemma_u32_bits_round_trip(v);
}

/// Bit-pattern round trip for the 64-bit unsigned kind.
pub proof fn lemma_round_trip_u64(v: u64)
    ensures
        <u64 as Parquetable>::of_slot(<u64 as Parquetable>::to_slot(v)) == v,
{
    bits::lemma_u64_bits_round_trip(v);
}

/// Widening round trip for the 16-bit signed kind: sign-extension to
/// the 32-bit slot followed by truncation reproduces every value.
pub proof fn lemma_round_trip_i16(v: i16)
    ensures
        <i16 as Parquetable>::of_slot(<i16 as Parquetable>::to_slot(v)) == v,
{
    bits::lemma_i16_widen_round_trip(v);
}

/// Widening round trip for the 16-bit unsigned kind: zero-extension to
/// the 32-bit slot followed by truncation reproduces every value.
pub proof fn lemma_round_trip_u16(v: u16)
    ensures
        <u16 as Parquetable>::of_slot(<u16 as Parquetable>::to_slot(v)) == v,
{
    bits::lemma_u16_widen_round_trip(v);
}

} // verus!
