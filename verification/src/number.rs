//! The closed family of benchmarkable numbers: a kind participates in
//! benchmarks exactly when it carries the conversion capabilities, a
//! compile-time registration fact, not a run-time fallback.

use vstd::prelude::*;
use crate::arrowable::Arrowable;
use crate::num_vec::F16Bits;
use crate::num_vec::F32Bits;
use crate::num_vec::F64Bits;
use crate::parquetable::Parquetable;
use crate::qcompress::QCompressable;

verus! {

/// A canonical number kind with every conversion capability registered:
/// the file-format one, the in-memory columnar one and the legacy-codec
/// one. Membership is fixed at build time; the nine canonical kinds are
/// exactly its members.
pub trait PcoNumber: Parquetable + Arrowable + QCompressable {
}

/// A registration point for a further, independently enabled codec that
/// works in place over raw byte buffers. No kind registers it here:
/// with no implementation, no kind participates in benchmarks against
/// that backend.
pub trait TurboPforable: Sized {
    /// Encodes the values into the byte buffer, returning the number of
    /// bytes written.
    fn encode(src: &mut Vec<Self>, dst: &mut Vec<u8>) -> usize;

    /// Decodes `n` values out of the byte buffer.
    fn decode(src: &mut Vec<u8>, n: usize, dst: &mut Vec<Self>);
}

impl PcoNumber for F16Bits {
}

impl PcoNumber for F32Bits {
}

impl PcoNumber for F64Bits {
}

impl PcoNumber for i16 {
}

impl PcoNumber for i32 {
}

impl PcoNumber for i64 {
}

impl PcoNumber for u16 {
}

impl PcoNumber for u32 {
}

impl PcoNumber for u64 {
}

} // verus!
