//! The canonical value types and the type-erased vector. Floating-point
//! kinds are held by their bit patterns — a half-, single- or
//! double-precision value is a 16-, 32- or 64-bit pattern — so every
//! conversion over them is an exact statement about bits. The
//! type-erased vector binds one canonical kind to one owned buffer at
//! construction and never rebinds it.

use vstd::prelude::*;
use crate::kind::CanonicalKind;
use crate::kind::CanonicalNumber;

verus! {

/// A half-precision value, held as its 16-bit pattern.
#[derive(Clone, Copy, PartialEq, Eq, Structural, Debug)]
pub struct F16Bits(pub u16);

/// A single-precision value, held as its 32-bit pattern.
#[derive(Clone, Copy, PartialEq, Eq, Structural, Debug)]
pub struct F32Bits(pub u32);

/// A double-precision value, held as its 64-bit pattern.
#[derive(Clone, Copy, PartialEq, Eq, Structural, Debug)]
pub struct F64Bits(pub u64);

impl CanonicalNumber for F16Bits {
    open spec fn canonical_kind() -> CanonicalKind {
        CanonicalKind::F16
    }
}

impl CanonicalNumber for F32Bits {
    open spec fn canonical_kind() -> CanonicalKind {
        CanonicalKind::F32
    }
}

impl CanonicalNumber for F64Bits {
    open spec fn canonical_kind() -> CanonicalKind {
        CanonicalKind::F64
    }
}

/// A tagged union holding an owned buffer of exactly one canonical
/// kind. The discriminant and the buffer's element kind agree by
/// construction: no operation rebinds a vector's kind without
/// constructing a new one.
pub enum NumVec {
    F16(Vec<F16Bits>),
    F32(Vec<F32Bits>),
    F64(Vec<F64Bits>),
    I16(Vec<i16>),
    I32(Vec<i32>),
    I64(Vec<i64>),
    U16(Vec<u16>),
    U32(Vec<u32>),
    U64(Vec<u64>),
}

impl NumVec {
    /// The canonical kind this vector was constructed with.
    pub open spec fn kind_spec(self) -> CanonicalKind {
        match self {
            NumVec::F16(_) => CanonicalKind::F16,
            NumVec::F32(_) => CanonicalKind::F32,
            NumVec::F64(_) => CanonicalKind::F64,
            NumVec::I16(_) => CanonicalKind::I16,
            NumVec::I32(_) => CanonicalKind::I32,
            NumVec::I64(_) => CanonicalKind::I64,
            NumVec::U16(_) => CanonicalKind::U16,
            NumVec::U32(_) => CanonicalKind::U32,
            NumVec::U64(_) => CanonicalKind::U64,
        }
    }

    /// The number of values the vector holds, whatever its kind.
    pub open spec fn len_spec(self) -> nat {
        match self {
            NumVec::F16(v) => v@.len(),
            NumVec::F32(v) => v@.len(),
            NumVec::F64(v) => v@.len(),
            NumVec::I16(v) => v@.len(),
            NumVec::I32(v) => v@.len(),
            NumVec::I64(v) => v@.len(),
            NumVec::U16(v) => v@.len(),
            NumVec::U32(v) => v@.len(),
            NumVec::U64(v) => v@.len(),
        }
    }

    /// Recovers the canonical kind bound at construction.
    pub fn kind(&self) -> (r: CanonicalKind)
        ensures
            r == self.kind_spec(),
    {
        match self {
            NumVec::F16(_) => CanonicalKind::F16,
            NumVec::F32(_) => CanonicalKind::F32,
            NumVec::F64(_) => CanonicalKind::F64,
            NumVec::I16(_) => CanonicalKind::I16,
            NumVec::I32(_) => CanonicalKind::I32,
            NumVec::I64(_) => CanonicalKind::I64,
            NumVec::U16(_) => CanonicalKind::U16,
            NumVec::U32(_) => CanonicalKind::U32,
            NumVec::U64(_) => CanonicalKind::U64,
        }
    }

    /// The number of values the vector holds.
    pub fn len(&self) -> (r: usize)
        ensures
            r == self.len_spec(),
    {
        match self {
            NumVec::F16(v) => v.len(),
            NumVec::F32(v) => v.len(),
            NumVec::F64(v) => v.len(),
            NumVec::I16(v) => v.len(),
            NumVec::I32(v) => v.len(),
            NumVec::I64(v) => v.len(),
            NumVec::U16(v) => v.len(),
            NumVec::U32(v) => v.len(),
            NumVec::U64(v) => v.len(),
        }
    }
}

} // verus!
