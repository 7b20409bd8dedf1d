//! The canonical type registry: the closed set of scalar kinds that the
//! bridge understands. Every other component speaks this vocabulary.

use vstd::prelude::*;

verus! {

/// The closed enumeration of canonical scalar kinds: half-, single- and
/// double-precision floats (held by their bit patterns) and signed and
/// unsigned integers of width 16, 32 and 64.
#[derive(Clone, Copy, PartialEq, Eq, Structural, Debug)]
pub enum CanonicalKind {
    F16,
    F32,
    F64,
    I16,
    I32,
    I64,
    U16,
    U32,
    U64,
}

impl CanonicalKind {
    /// The bit width of one value of this kind.
    pub open spec fn bit_width(self) -> nat {
        match self {
            CanonicalKind::F16 => 16,
            CanonicalKind::F32 => 32,
            CanonicalKind::F64 => 64,
            CanonicalKind::I16 => 16,
            CanonicalKind::I32 => 32,
            CanonicalKind::I64 => 64,
            CanonicalKind::U16 => 16,
            CanonicalKind::U32 => 32,
            CanonicalKind::U64 => 64,
        }
    }

    /// Whether values of this kind carry a sign (floats do).
    pub open spec fn is_signed(self) -> bool {
        match self {
            CanonicalKind::U16 => false,
            CanonicalKind::U32 => false,
            CanonicalKind::U64 => false,
            _ => true,
        }
    }

    /// Whether values of this kind are floating point.
    pub open spec fn is_float(self) -> bool {
        match self {
            CanonicalKind::F16 => true,
            CanonicalKind::F32 => true,
            CanonicalKind::F64 => true,
            _ => false,
        }
    }

    /// The stable identifier under which this kind is reported.
    pub open spec fn name_spec(self) -> Seq<char> {
        match self {
            CanonicalKind::F16 => "f16"@,
            CanonicalKind::F32 => "f32"@,
            CanonicalKind::F64 => "f64"@,
            CanonicalKind::I16 => "i16"@,
            CanonicalKind::I32 => "i32"@,
            CanonicalKind::I64 => "i64"@,
            CanonicalKind::U16 => "u16"@,
            CanonicalKind::U32 => "u32"@,
            CanonicalKind::U64 => "u64"@,
        }
    }

    /// The stable identifier under which this kind is reported.
    pub fn name(&self) -> (r: &'static str)
        ensures
            r@ == self.name_spec(),
    {
        match self {
            CanonicalKind::F16 => "f16",
            CanonicalKind::F32 => "f32",
            CanonicalKind::F64 => "f64",
            CanonicalKind::I16 => "i16",
            CanonicalKind::I32 => "i32",
            CanonicalKind::I64 => "i64",
            CanonicalKind::U16 => "u16",
            CanonicalKind::U32 => "u32",
            CanonicalKind::U64 => "u64",
        }
    }
}

/// The registry is a single point of truth: width, signedness and
/// floatness together determine the kind, so no two kinds overlap in
/// representation.
pub proof fn lemma_kind_determined_by_representation(a: CanonicalKind, b: CanonicalKind)
    requires
        a.bit_width() == b.bit_width(),
        a.is_signed() == b.is_signed(),
        a.is_float() == b.is_float(),
    ensures
        a == b,
{
}

/// The type-level face of the registry: the association of a value
/// type with the canonical kind it carries. Exactly the nine canonical
/// value types implement it.
pub trait CanonicalNumber: Sized + Copy {
    /// The canonical kind of this value type.
    spec fn canonical_kind() -> CanonicalKind;
}

impl CanonicalNumber for i16 {
    open spec fn canonical_kind() -> CanonicalKind {
        CanonicalKind::I16
    }
}

impl CanonicalNumber for i32 {
    open spec fn canonical_kind() -> CanonicalKind {
        CanonicalKind::I32
    }
}

impl CanonicalNumber for i64 {
    open spec fn canonical_kind() -> CanonicalKind {
        CanonicalKind::I64
    }
}

impl CanonicalNumber for u16 {
    open spec fn canonical_kind() -> CanonicalKind {
        CanonicalKind::U16
    }
}

impl CanonicalNumber for u32 {
    open spec fn canonical_kind() -> CanonicalKind {
        CanonicalKind::U32
    }
}

impl CanonicalNumber for u64 {
    open spec fn canonical_kind() -> CanonicalKind {
        CanonicalKind::U64
    }
}

} // verus!
