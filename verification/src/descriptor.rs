//! Cross-system type mappers: translating an in-memory columnar
//! element descriptor into the canonical kind vocabulary and back.
//! Temporal descriptors project onto plain integer widths, deliberately
//! discarding their unit and epoch; unsupported descriptors fail with a
//! typed error that carries the offending descriptor.

use vstd::prelude::*;
use crate::kind::CanonicalKind;

verus! {

/// The resolution of a timestamp descriptor.
#[derive(Clone, Copy, PartialEq, Eq, Structural, Debug)]
pub enum TimeUnit {
    Second,
    Millisecond,
    Microsecond,
    Nanosecond,
}

/// An in-memory columnar element-type descriptor: what the bridge reads
/// of an external array's declared type. Numeric and temporal
/// descriptors resolve to canonical kinds; the structured and textual
/// ones are outside the closed canonical set.
#[derive(Clone, Copy, PartialEq, Eq, Structural, Debug)]
pub enum ColumnDescriptor {
    Float16,
    Float32,
    Float64,
    Int16,
    Int32,
    Int64,
    UInt16,
    UInt32,
    UInt64,
    Timestamp(TimeUnit),
    Date32,
    Date64,
    Boolean,
    Utf8,
    Binary,
    List,
    Struct,
}

impl ColumnDescriptor {
    /// The name under which this descriptor is reported in errors.
    pub open spec fn name_spec(self) -> Seq<char> {
        match self {
            ColumnDescriptor::Float16 => "float16"@,
            ColumnDescriptor::Float32 => "float32"@,
            ColumnDescriptor::Float64 => "float64"@,
            ColumnDescriptor::Int16 => "int16"@,
            ColumnDescriptor::Int32 => "int32"@,
            ColumnDescriptor::Int64 => "int64"@,
            ColumnDescriptor::UInt16 => "uint16"@,
            ColumnDescriptor::UInt32 => "uint32"@,
            ColumnDescriptor::UInt64 => "uint64"@,
            ColumnDescriptor::Timestamp(_) => "timestamp"@,
            ColumnDescriptor::Date32 => "date32"@,
            ColumnDescriptor::Date64 => "date64"@,
            ColumnDescriptor::Boolean => "boolean"@,
            ColumnDescriptor::Utf8 => "utf8"@,
            ColumnDescriptor::Binary => "binary"@,
            ColumnDescriptor::List => "list"@,
            ColumnDescriptor::Struct => "struct"@,
        }
    }

    /// The name under which this descriptor is reported in errors.
    pub fn name(&self) -> (r: &'static str)
        ensures
            r@ == self.name_spec(),
    {
        match self {
            ColumnDescriptor::Float16 => "float16",
            ColumnDescriptor::Float32 => "float32",
            ColumnDescriptor::Float64 => "float64",
            ColumnDescriptor::Int16 => "int16",
            ColumnDescriptor::Int32 => "int32",
            ColumnDescriptor::Int64 => "int64",
            ColumnDescriptor::UInt16 => "uint16",
            ColumnDescriptor::UInt32 => "uint32",
            ColumnDescriptor::UInt64 => "uint64",
            ColumnDescriptor::Timestamp(_) => "timestamp",
            ColumnDescriptor::Date32 => "date32",
            ColumnDescriptor::Date64 => "date64",
            ColumnDescriptor::Boolean => "boolean",
            ColumnDescriptor::Utf8 => "utf8",
            ColumnDescriptor::Binary => "binary",
            ColumnDescriptor::List => "list",
            ColumnDescriptor::Struct => "struct",
        }
    }
}

/// The recoverable failure of resolution: the input's declared element
/// type lies outside the closed canonical set. It carries the offending
/// descriptor so the caller can report it by name.
#[derive(Clone, Copy, PartialEq, Eq, Structural, Debug)]
pub struct UnsupportedType {
    pub descriptor: ColumnDescriptor,
}

/// The canonical kind a descriptor resolves to, or `None` where the
/// descriptor lies outside the canonical set. Temporal descriptors
/// project onto their storage width alone: every timestamp, whatever
/// its unit, resolves to `I64`; 32- and 64-bit dates resolve to `I32`
/// and `I64`. The projection is deliberately lossy and not invertible.
pub open spec fn resolved_kind(d: ColumnDescriptor) -> Option<CanonicalKind> {
    match d {
        ColumnDescriptor::Float16 => Some(CanonicalKind::F16),
        ColumnDescriptor::Float32 => Some(CanonicalKind::F32),
        ColumnDescriptor::Float64 => Some(CanonicalKind::F64),
        ColumnDescriptor::Int16 => Some(CanonicalKind::I16),
        ColumnDescriptor::Int32 => Some(CanonicalKind::I32),
        ColumnDescriptor::Int64 => Some(CanonicalKind::I64),
        ColumnDescriptor::UInt16 => Some(CanonicalKind::U16),
        ColumnDescriptor::UInt32 => Some(CanonicalKind::U32),
        ColumnDescriptor::UInt64 => Some(CanonicalKind::U64),
        ColumnDescriptor::Timestamp(_) => Some(CanonicalKind::I64),
        ColumnDescriptor::Date32 => Some(CanonicalKind::I32),
        ColumnDescriptor::Date64 => Some(CanonicalKind::I64),
        ColumnDescriptor::Boolean => None,
        ColumnDescriptor::Utf8 => None,
        ColumnDescriptor::Binary => None,
        ColumnDescriptor::List => None,
        ColumnDescriptor::Struct => None,
    }
}

/// The one descriptor under which a canonical kind is handed back to
/// the in-memory columnar system. Because resolution is lossy on
/// temporal descriptors, this is a right inverse of resolution, not a
/// general inverse.
pub open spec fn rendered_descriptor(k: CanonicalKind) -> ColumnDescriptor {
    match k {
        CanonicalKind::F16 => ColumnDescriptor::Float16,
        CanonicalKind::F32 => ColumnDescriptor::Float32,
        CanonicalKind::F64 => ColumnDescriptor::Float64,
        CanonicalKind::I16 => ColumnDescriptor::Int16,
        CanonicalKind::I32 => ColumnDescriptor::Int32,
        CanonicalKind::I64 => ColumnDescriptor::Int64,
        CanonicalKind::U16 => ColumnDescriptor::UInt16,
        CanonicalKind::U32 => ColumnDescriptor::UInt32,
        CanonicalKind::U64 => ColumnDescriptor::UInt64,
    }
}

/// Resolves an in-memory columnar descriptor to its canonical kind.
/// Succeeds exactly on the descriptors inside the canonical set; on any
/// other descriptor it returns the typed error carrying that
/// descriptor, never a crash.
pub fn from_arrow(d: &ColumnDescriptor) -> (r: Result<CanonicalKind, UnsupportedType>)
    ensures
        match r {
            Ok(k) => resolved_kind(*d) == Some(k),
            Err(e) => resolved_kind(*d) is None && e.descriptor == *d,
        },
{
    match d {
        ColumnDescriptor::Float16 => Ok(CanonicalKind::F16),
        ColumnDescriptor::Float32 => Ok(CanonicalKind::F32),
        ColumnDescriptor::Float64 => Ok(CanonicalKind::F64),
        ColumnDescriptor::Int16 => Ok(CanonicalKind::I16),
        ColumnDescriptor::Int32 => Ok(CanonicalKind::I32),
        ColumnDescriptor::Int64 => Ok(CanonicalKind::I64),
        ColumnDescriptor::UInt16 => Ok(CanonicalKind::U16),
        ColumnDescriptor::UInt32 => Ok(CanonicalKind::U32),
        ColumnDescriptor::UInt64 => Ok(CanonicalKind::U64),
        ColumnDescriptor::Timestamp(_) => Ok(CanonicalKind::I64),
        ColumnDescriptor::Date32 => Ok(CanonicalKind::I32),
        ColumnDescriptor::Date64 => Ok(CanonicalKind::I64),
        _ => Err(UnsupportedType { descriptor: *d }),
    }
}

/// Renders a canonical kind as its one in-memory columnar descriptor.
/// Total over the nine kinds: every kind has a descriptor.
pub fn to_arrow(k: CanonicalKind) -> (r: ColumnDescriptor)
    ensures
        r == rendered_descriptor(k),
{
    match k {
        CanonicalKind::F16 => ColumnDescriptor::Float16,
        CanonicalKind::F32 => ColumnDescriptor::Float32,
        CanonicalKind::F64 => ColumnDescriptor::Float64,
        CanonicalKind::I16 => ColumnDescriptor::Int16,
        CanonicalKind::I32 => ColumnDescriptor::Int32,
        CanonicalKind::I64 => ColumnDescriptor::Int64,
        CanonicalKind::U16 => ColumnDescriptor::UInt16,
        CanonicalKind::U32 => ColumnDescriptor::UInt32,
        CanonicalKind::U64 => ColumnDescriptor::UInt64,
    }
}

/// Rendering then resolving is the identity on every canonical kind:
/// each kind's descriptor resolves back to that kind.
pub proof fn lemma_render_then_resolve(k: CanonicalKind)
    ensures
        resolved_kind(rendered_descriptor(k)) == Some(k),
{
}

/// The temporal projection is deterministic and keeps nothing of the
/// unit: timestamps of any two units resolve to the same canonical
/// kind, the 64-bit signed integer.
pub proof fn lemma_timestamp_projection_unit_blind(a: TimeUnit, b: TimeUnit)
    ensures
        resolved_kind(ColumnDescriptor::Timestamp(a)) == resolved_kind(
            ColumnDescriptor::Timestamp(b),
        ),
        resolved_kind(ColumnDescriptor::Timestamp(a)) == Some(CanonicalKind::I64),
{
}

} // verus!

