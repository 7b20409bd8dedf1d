//! The conversion capability for the in-memory columnar format. Each
//! canonical kind owns exactly one element-type marker of that format;
//! temporal markers share the storage width of a plain integer kind and
//! resolve to it, losing their unit.

use vstd::prelude::*;
use crate::bits;
use crate::bytes;
use crate::descriptor::ColumnDescriptor;
use crate::descriptor::TimeUnit;
use crate::descriptor::rendered_descriptor;
use crate::descriptor::resolved_kind;
use crate::kind::CanonicalKind;
use crate::kind::CanonicalNumber;
use crate::num_vec::F16Bits;
use crate::num_vec::F32Bits;
use crate::num_vec::F64Bits;
use crate::num_vec::NumVec;

verus! {

/// An element-type marker of the in-memory columnar format whose
/// arrays carry canonical numbers. `Native` is the format's own element
/// type, `Pco` the canonical kind the values land in, and `pco_of` the
/// (value-preserving) translation between the two. `resolves` obliges
/// every marker's descriptor to resolve to exactly that canonical kind.
pub trait ArrowNumber {
    /// The format's element type for arrays under this marker.
    type Native: Copy;

    /// The canonical kind this marker's values convert into.
    type Pco: CanonicalNumber;

    /// The canonical value one native element becomes.
    spec fn pco_of(n: Self::Native) -> Self::Pco;

    /// The descriptor the format declares for this marker.
    spec fn data_type_spec() -> ColumnDescriptor;

    /// The descriptor the format declares for this marker.
    fn data_type() -> (r: ColumnDescriptor)
        ensures
            r == Self::data_type_spec(),
    ;

    /// Converts one native element to its canonical value.
    fn native_to_pco(native: Self::Native) -> (r: Self::Pco)
        ensures
            r == Self::pco_of(native),
    ;

    /// Converts a whole native buffer to canonical values.
    fn native_vec_to_pco(native: Vec<Self::Native>) -> (r: Vec<Self::Pco>)
        ensures
            r@.len() == native@.len(),
            forall|j: int| 0 <= j < native@.len() ==> #[trigger] r@[j] == Self::pco_of(
                native@[j],
            ),
    ;

    /// This marker's descriptor resolves, never fails, and resolves to
    /// the canonical kind of `Pco`: the lossy projection lands where
    /// the conversion does.
    proof fn resolves()
        ensures
            resolved_kind(Self::data_type_spec()) == Some(
                <Self::Pco as CanonicalNumber>::canonical_kind(),
            ),
    ;
}

/// The capability of moving between a canonical kind and the in-memory
/// columnar format: the kind's one element-type marker, the
/// value-preserving translation to that marker's native type, entry
/// into the type-erased vector, and the little-endian byte image of a
/// native element.
pub trait Arrowable: CanonicalNumber {
    /// The one element-type marker of the format for this kind.
    type Arrow: ArrowNumber;

    /// The native element one value of this kind becomes.
    spec fn native_of(x: Self) -> <Self::Arrow as ArrowNumber>::Native;

    /// The type-erased vector a buffer of this kind constructs.
    spec fn num_vec_of(nums: Vec<Self>) -> NumVec;

    /// The little-endian byte image of one native element.
    spec fn native_le_bytes(x: <Self::Arrow as ArrowNumber>::Native) -> Seq<u8>;

    /// The descriptor under which this kind's arrays are declared: the
    /// canonical rendering of the kind.
    fn arrow_dtype() -> (r: ColumnDescriptor)
        ensures
            r == rendered_descriptor(Self::canonical_kind()),
    ;

    /// Converts one value of this kind to the format's native element.
    fn to_arrow_native(self) -> (r: <Self::Arrow as ArrowNumber>::Native)
        ensures
            r == Self::native_of(self),
    ;

    /// Constructs the type-erased vector holding this buffer: the one
    /// place kind and storage are bound together.
    fn make_num_vec(nums: Vec<Self>) -> (r: NumVec)
        ensures
            r == Self::num_vec_of(nums),
            r.kind_spec() == Self::canonical_kind(),
            r.len_spec() == nums@.len(),
    ;

    /// Writes one native element as its little-endian bytes.
    fn arrow_native_to_bytes(x: <Self::Arrow as ArrowNumber>::Native) -> (r: Vec<u8>)
        ensures
            r@ == Self::native_le_bytes(x),
    ;
}

/// The format's half-precision element type.
pub struct Float16Type;

/// The format's single-precision element type.
pub struct Float32Type;

/// The format's double-precision element type.
pub struct Float64Type;

/// The format's 16-bit signed element type.
pub struct Int16Type;

/// The format's 32-bit signed element type.
pub struct Int32Type;

/// The format's 64-bit signed element type.
pub struct Int64Type;

/// The format's 16-bit unsigned element type.
pub struct UInt16Type;

/// The format's 32-bit unsigned element type.
pub struct UInt32Type;

/// The format's 64-bit unsigned element type.
pub struct UInt64Type;

/// The format's timestamp element type at second resolution.
pub struct TimestampSecondType;

/// The format's timestamp element type at millisecond resolution.
pub struct TimestampMillisecondType;

/// The format's timestamp element type at microsecond resolution.
pub struct TimestampMicrosecondType;

/// The format's timestamp element type at nanosecond resolution.
pub struct TimestampNanosecondType;

/// The format's 32-bit date element type.
pub struct Date32Type;

/// The format's 64-bit date element type.
pub struct Date64Type;

impl ArrowNumber for Float16Type {
    type Native = F16Bits;

    type Pco = F16Bits;

    open spec fn pco_of(n: F16Bits) -> F16Bits {
        n
    }

    open spec fn data_type_spec() -> ColumnDescriptor {
        ColumnDescriptor::Float16
    }

    fn data_type() -> (r: ColumnDescriptor) {
        ColumnDescriptor::Float16
    }

    fn native_to_pco(native: F16Bits) -> (r: F16Bits) {
        native
    }

    fn native_vec_to_pco(native: Vec<F16Bits>) -> (r: Vec<F16Bits>) {
        native
    }

    proof fn resolves() {
    }
}

impl ArrowNumber for Float32Type {
    type Native = F32Bits;

    type Pco = F32Bits;

    open spec fn pco_of(n: F32Bits) -> F32Bits {
        n
    }

    open spec fn data_type_spec() -> ColumnDescriptor {
        ColumnDescriptor::Float32
    }

    fn data_type() -> (r: ColumnDescriptor) {
        ColumnDescriptor::Float32
    }

    fn native_to_pco(native: F32Bits) -> (r: F32Bits) {
        native
    }

    fn native_vec_to_pco(native: Vec<F32Bits>) -> (r: Vec<F32Bits>) {
        native
    }

    proof fn resolves() {
    }
}

impl ArrowNumber for Float64Type {
    type Native = F64Bits;

    type Pco = F64Bits;

    open spec fn pco_of(n: F64Bits) -> F64Bits {
        n
    }

    open spec fn data_type_spec() -> ColumnDescriptor {
        ColumnDescriptor::Float64
    }

    fn data_type() -> (r: ColumnDescriptor) {
        ColumnDescriptor::Float64
    }

    fn native_to_pco(native: F64Bits) -> (r: F64Bits) {
        native
    }

    fn native_vec_to_pco(native: Vec<F64Bits>) -> (r: Vec<F64Bits>) {
        native
    }

    proof fn resolves() {
    }
}

impl ArrowNumber for Int16Type {
    type Native = i16;

    type Pco = i16;

    open spec fn pco_of(n: i16) -> i16 {
        n
    }

    open spec fn data_type_spec() -> ColumnDescriptor {
        ColumnDescriptor::Int16
    }

    fn data_type() -> (r: ColumnDescriptor) {
        ColumnDescriptor::Int16
    }

    fn native_to_pco(native: i16) -> (r: i16) {
        native
    }

    fn native_vec_to_pco(native: Vec<i16>) -> (r: Vec<i16>) {
        native
    }

    proof fn resolves() {
    }
}

impl ArrowNumber for Int32Type {
    type Native = i32;

    type Pco = i32;

    open spec fn pco_of(n: i32) -> i32 {
        n
    }

    open spec fn data_type_spec() -> ColumnDescriptor {
        ColumnDescriptor::Int32
    }

    fn data_type() -> (r: ColumnDescriptor) {
        ColumnDescriptor::Int32
    }

    fn native_to_pco(native: i32) -> (r: i32) {
        native
    }

    fn native_vec_to_pco(native: Vec<i32>) -> (r: Vec<i32>) {
        native
    }

    proof fn resolves() {
    }
}

impl ArrowNumber for Int64Type {
    type Native = i64;

    type Pco = i64;

    open spec fn pco_of(n: i64) -> i64 {
        n
    }

    open spec fn data_type_spec() -> ColumnDescriptor {
        ColumnDescriptor::Int64
    }

    fn data_type() -> (r: ColumnDescriptor) {
        ColumnDescriptor::Int64
    }

    fn native_to_pco(native: i64) -> (r: i64) {
        native
    }

    fn native_vec_to_pco(native: Vec<i64>) -> (r: Vec<i64>) {
        native
    }

    proof fn resolves() {
    }
}

impl ArrowNumber for UInt16Type {
    type Native = u16;

    type Pco = u16;

    open spec fn pco_of(n: u16) -> u16 {
        n
    }

    open spec fn data_type_spec() -> ColumnDescriptor {
        ColumnDescriptor::UInt16
    }

    fn data_type() -> (r: ColumnDescriptor) {
        ColumnDescriptor::UInt16
    }

    fn native_to_pco(native: u16) -> (r: u16) {
        native
    }

    fn native_vec_to_pco(native: Vec<u16>) -> (r: Vec<u16>) {
        native
    }

    proof fn resolves() {
    }
}

impl ArrowNumber for UInt32Type {
    type Native = u32;

    type Pco = u32;

    open spec fn pco_of(n: u32) -> u32 {
        n
    }

    open spec fn data_type_spec() -> ColumnDescriptor {
        ColumnDescriptor::UInt32
    }

    fn data_type() -> (r: ColumnDescriptor) {
        ColumnDescriptor::UInt32
    }

    fn native_to_pco(native: u32) -> (r: u32) {
        native
    }

    fn native_vec_to_pco(native: Vec<u32>) -> (r: Vec<u32>) {
        native
    }

    proof fn resolves() {
    }
}

impl ArrowNumber for UInt64Type {
    type Native = u64;

    type Pco = u64;

    open spec fn pco_of(n: u64) -> u64 {
        n
    }

    open spec fn data_type_spec() -> ColumnDescriptor {
        ColumnDescriptor::UInt64
    }

    fn data_type() -> (r: ColumnDescriptor) {
        ColumnDescriptor::UInt64
    }

    fn native_to_pco(native: u64) -> (r: u64) {
        native
    }

    fn native_vec_to_pco(native: Vec<u64>) -> (r: Vec<u64>) {
        native
    }

    proof fn resolves() {
    }
}

// The temporal markers: numbers of seconds, milliseconds, microseconds
// or nanoseconds, and day or millisecond dates. Their values convert as
// the plain integers of their storage width; the unit survives only in
// the descriptor, not in the canonical kind.
impl ArrowNumber for TimestampSecondType {
    type Native = i64;

    type Pco = i64;

    open spec fn pco_of(n: i64) -> i64 {
        n
    }

    open spec fn data_type_spec() -> ColumnDescriptor {
        ColumnDescriptor::Timestamp(TimeUnit::Second)
    }

    fn data_type() -> (r: ColumnDescriptor) {
        ColumnDescriptor::Timestamp(TimeUnit::Second)
    }

    fn native_to_pco(native: i64) -> (r: i64) {
        native
    }

    fn native_vec_to_pco(native: Vec<i64>) -> (r: Vec<i64>) {
        native
    }

    proof fn resolves() {
    }
}

impl ArrowNumber for TimestampMillisecondType {
    type Native = i64;

    type Pco = i64;

    open spec fn pco_of(n: i64) -> i64 {
        n
    }

    open spec fn data_type_spec() -> ColumnDescriptor {
        ColumnDescriptor::Timestamp(TimeUnit::Millisecond)
    }

    fn data_type() -> (r: ColumnDescriptor) {
        ColumnDescriptor::Timestamp(TimeUnit::Millisecond)
    }

    fn native_to_pco(native: i64) -> (r: i64) {
        native
    }

    fn native_vec_to_pco(native: Vec<i64>) -> (r: Vec<i64>) {
        native
    }

    proof fn resolves() {
    }
}

impl ArrowNumber for TimestampMicrosecondType {
    type Native = i64;

    type Pco = i64;

    open spec fn pco_of(n: i64) -> i64 {
        n
    }

    open spec fn data_type_spec() -> ColumnDescriptor {
        ColumnDescriptor::Timestamp(TimeUnit::Microsecond)
    }

    fn data_type() -> (r: ColumnDescriptor) {
        ColumnDescriptor::Timestamp(TimeUnit::Microsecond)
    }

    fn native_to_pco(native: i64) -> (r: i64) {
        native
    }

    fn native_vec_to_pco(native: Vec<i64>) -> (r: Vec<i64>) {
        native
    }

    proof fn resolves() {
    }
}

impl ArrowNumber for TimestampNanosecondType {
    type Native = i64;

    type Pco = i64;

    open spec fn pco_of(n: i64) -> i64 {
        n
    }

    open spec fn data_type_spec() -> ColumnDescriptor {
        ColumnDescriptor::Timestamp(TimeUnit::Nanosecond)
    }

    fn data_type() -> (r: ColumnDescriptor) {
        ColumnDescriptor::Timestamp(TimeUnit::Nanosecond)
    }

    fn native_to_pco(native: i64) -> (r: i64) {
        native
    }

    fn native_vec_to_pco(native: Vec<i64>) -> (r: Vec<i64>) {
        native
    }

    proof fn resolves() {
    }
}

impl ArrowNumber for Date32Type {
    type Native = i32;

    type Pco = i32;

    open spec fn pco_of(n: i32) -> i32 {
        n
    }

    open spec fn data_type_spec() -> ColumnDescriptor {
        ColumnDescriptor::Date32
    }

    fn data_type() -> (r: ColumnDescriptor) {
        ColumnDescriptor::Date32
    }

    fn native_to_pco(native: i32) -> (r: i32) {
        native
    }

    fn native_vec_to_pco(native: Vec<i32>) -> (r: Vec<i32>) {
        native
    }

    proof fn resolves() {
    }
}

impl ArrowNumber for Date64Type {
    type Native = i64;

    type Pco = i64;

    open spec fn pco_of(n: i64) -> i64 {
        n
    }

    open spec fn data_type_spec() -> ColumnDescriptor {
        ColumnDescriptor::Date64
    }

    fn data_type() -> (r: ColumnDescriptor) {
        ColumnDescriptor::Date64
    }

    fn native_to_pco(native: i64) -> (r: i64) {
        native
    }

    fn native_vec_to_pco(native: Vec<i64>) -> (r: Vec<i64>) {
        native
    }

    proof fn resolves() {
    }
}

impl Arrowable for F16Bits {
    type Arrow = Float16Type;

    open spec fn native_of(x: F16Bits) -> F16Bits {
        x
    }

    open spec fn num_vec_of(nums: Vec<F16Bits>) -> NumVec {
        NumVec::F16(nums)
    }

    open spec fn native_le_bytes(x: F16Bits) -> Seq<u8> {
        bytes::le_bytes_of_u16(x.0)
    }

    fn arrow_dtype() -> (r: ColumnDescriptor) {
        ColumnDescriptor::Float16
    }

    fn to_arrow_native(self) -> (r: F16Bits) {
        self
    }

    fn make_num_vec(nums: Vec<F16Bits>) -> (r: NumVec) {
        NumVec::F16(nums)
    }

    fn arrow_native_to_bytes(x: F16Bits) -> (r: Vec<u8>) {
        bytes::u16_to_le_bytes(x.0)
    }
}

impl Arrowable for F32Bits {
    type Arrow = Float32Type;

    open spec fn native_of(x: F32Bits) -> F32Bits {
        x
    }

    open spec fn num_vec_of(nums: Vec<F32Bits>) -> NumVec {
        NumVec::F32(nums)
    }

    open spec fn native_le_bytes(x: F32Bits) -> Seq<u8> {
        bytes::le_bytes_of_u32(x.0)
    }

    fn arrow_dtype() -> (r: ColumnDescriptor) {
        ColumnDescriptor::Float32
    }

    fn to_arrow_native(self) -> (r: F32Bits) {
        self
    }

    fn make_num_vec(nums: Vec<F32Bits>) -> (r: NumVec) {
        NumVec::F32(nums)
    }

    fn arrow_native_to_bytes(x: F32Bits) -> (r: Vec<u8>) {
        bytes::u32_to_le_bytes(x.0)
    }
}

impl Arrowable for F64Bits {
    type Arrow = Float64Type;

    open spec fn native_of(x: F64Bits) -> F64Bits {
        x
    }

    open spec fn num_vec_of(nums: Vec<F64Bits>) -> NumVec {
        NumVec::F64(nums)
    }

    open spec fn native_le_bytes(x: F64Bits) -> Seq<u8> {
        bytes::le_bytes_of_u64(x.0)
    }

    fn arrow_dtype() -> (r: ColumnDescriptor) {
        ColumnDescriptor::Float64
    }

    fn to_arrow_native(self) -> (r: F64Bits) {
        self
    }

    fn make_num_vec(nums: Vec<F64Bits>) -> (r: NumVec) {
        NumVec::F64(nums)
    }

    fn arrow_native_to_bytes(x: F64Bits) -> (r: Vec<u8>) {
        bytes::u64_to_le_bytes(x.0)
    }
}

impl Arrowable for i16 {
    type Arrow = Int16Type;

    open spec fn native_of(x: i16) -> i16 {
        x
    }

    open spec fn num_vec_of(nums: Vec<i16>) -> NumVec {
        NumVec::I16(nums)
    }

    open spec fn native_le_bytes(x: i16) -> Seq<u8> {
        bytes::le_bytes_of_u16(bits::u16_of_i16_bits(x))
    }

    fn arrow_dtype() -> (r: ColumnDescriptor) {
        ColumnDescriptor::Int16
    }

    fn to_arrow_native(self) -> (r: i16) {
        self
    }

    fn make_num_vec(nums: Vec<i16>) -> (r: NumVec) {
        NumVec::I16(nums)
    }

    fn arrow_native_to_bytes(x: i16) -> (r: Vec<u8>) {
        bytes::u16_to_le_bytes(bits::reinterpret_i16_as_u16(x))
    }
}

impl Arrowable for i32 {
    type Arrow = Int32Type;

    open spec fn native_of(x: i32) -> i32 {
        x
    }

    open spec fn num_vec_of(nums: Vec<i32>) -> NumVec {
        NumVec::I32(nums)
    }

    open spec fn native_le_bytes(x: i32) -> Seq<u8> {
        bytes::le_bytes_of_u32(bits::u32_of_i32_bits(x))
    }

    fn arrow_dtype() -> (r: ColumnDescriptor) {
        ColumnDescriptor::Int32
    }

    fn to_arrow_native(self) -> (r: i32) {
        self
    }

    fn make_num_vec(nums: Vec<i32>) -> (r: NumVec) {
        NumVec::I32(nums)
    }

    fn arrow_native_to_bytes(x: i32) -> (r: Vec<u8>) {
        bytes::u32_to_le_bytes(bits::reinterpret_i32_as_u32(x))
    }
}

impl Arrowable for i64 {
    type Arrow = Int64Type;

    open spec fn native_of(x: i64) -> i64 {
        x
    }

    open spec fn num_vec_of(nums: Vec<i64>) -> NumVec {
        NumVec::I64(nums)
    }

    open spec fn native_le_bytes(x: i64) -> Seq<u8> {
        bytes::le_bytes_of_u64(bits::u64_of_i64_bits(x))
    }

    fn arrow_dtype() -> (r: ColumnDescriptor) {
        ColumnDescriptor::Int64
    }

    fn to_arrow_native(self) -> (r: i64) {
        self
    }

    fn make_num_vec(nums: Vec<i64>) -> (r: NumVec) {
        NumVec::I64(nums)
    }

    fn arrow_native_to_bytes(x: i64) -> (r: Vec<u8>) {
        bytes::u64_to_le_bytes(bits::reinterpret_i64_as_u64(x))
    }
}

impl Arrowable for u16 {
    type Arrow = UInt16Type;

    open spec fn native_of(x: u16) -> u16 {
        x
    }

    open spec fn num_vec_of(nums: Vec<u16>) -> NumVec {
        NumVec::U16(nums)
    }

    open spec fn native_le_bytes(x: u16) -> Seq<u8> {
        bytes::le_bytes_of_u16(x)
    }

    fn arrow_dtype() -> (r: ColumnDescriptor) {
        ColumnDescriptor::UInt16
    }

    fn to_arrow_native(self) -> (r: u16) {
        self
    }

    fn make_num_vec(nums: Vec<u16>) -> (r: NumVec) {
        NumVec::U16(nums)
    }

    fn arrow_native_to_bytes(x: u16) -> (r: Vec<u8>) {
        bytes::u16_to_le_bytes(x)
    }
}

impl Arrowable for u32 {
    type Arrow = UInt32Type;

    open spec fn native_of(x: u32) -> u32 {
        x
    }

    open spec fn num_vec_of(nums: Vec<u32>) -> NumVec {
        NumVec::U32(nums)
    }

    open spec fn native_le_bytes(x: u32) -> Seq<u8> {
        bytes::le_bytes_of_u32(x)
    }

    fn arrow_dtype() -> (r: ColumnDescriptor) {
        ColumnDescriptor::UInt32
    }

    fn to_arrow_native(self) -> (r: u32) {
        self
    }

    fn make_num_vec(nums: Vec<u32>) -> (r: NumVec) {
        NumVec::U32(nums)
    }

    fn arrow_native_to_bytes(x: u32) -> (r: Vec<u8>) {
        bytes::u32_to_le_bytes(x)
    }
}

impl Arrowable for u64 {
    type Arrow = UInt64Type;

    open spec fn native_of(x: u64) -> u64 {
        x
    }

    open spec fn num_vec_of(nums: Vec<u64>) -> NumVec {
        NumVec::U64(nums)
    }

    open spec fn native_le_bytes(x: u64) -> Seq<u8> {
        bytes::le_bytes_of_u64(x)
    }

    fn arrow_dtype() -> (r: ColumnDescriptor) {
        ColumnDescriptor::UInt64
    }

    fn to_arrow_native(self) -> (r: u64) {
        self
    }

    fn make_num_vec(nums: Vec<u64>) -> (r: NumVec) {
        NumVec::U64(nums)
    }

    fn arrow_native_to_bytes(x: u64) -> (r: Vec<u8>) {
        bytes::u64_to_le_bytes(x)
    }
}

} // verus!
