use num_bridge::descriptor::ColumnDescriptor;
use num_bridge::descriptor::TimeUnit;
use num_bridge::descriptor::from_arrow;
use num_bridge::descriptor::to_arrow;
use num_bridge::kind::CanonicalKind;

#[test]
fn resolves_every_supported_descriptor() {
    let cases = vec![
        (ColumnDescriptor::Float16, CanonicalKind::F16),
        (ColumnDescriptor::Float32, CanonicalKind::F32),
        (ColumnDescriptor::Float64, CanonicalKind::F64),
        (ColumnDescriptor::Int16, CanonicalKind::I16),
        (ColumnDescriptor::Int32, CanonicalKind::I32),
        (ColumnDescriptor::Int64, CanonicalKind::I64),
        (ColumnDescriptor::UInt16, CanonicalKind::U16),
        (ColumnDescriptor::UInt32, CanonicalKind::U32),
        (ColumnDescriptor::UInt64, CanonicalKind::U64),
        (ColumnDescriptor::Timestamp(TimeUnit::Second), CanonicalKind::I64),
        (ColumnDescriptor::Timestamp(TimeUnit::Millisecond), CanonicalKind::I64),
        (ColumnDescriptor::Timestamp(TimeUnit::Microsecond), CanonicalKind::I64),
        (ColumnDescriptor::Timestamp(TimeUnit::Nanosecond), CanonicalKind::I64),
        (ColumnDescriptor::Date32, CanonicalKind::I32),
        (ColumnDescriptor::Date64, CanonicalKind::I64),
    ];
    for (descriptor, expected) in cases {
        assert_eq!(from_arrow(&descriptor).unwrap(), expected);
    }
}

#[test]
fn rejects_every_unsupported_descriptor() {
    let cases = vec![
        (ColumnDescriptor::Boolean, "boolean"),
        (ColumnDescriptor::Utf8, "utf8"),
        (ColumnDescriptor::Binary, "binary"),
        (ColumnDescriptor::List, "list"),
        (ColumnDescriptor::Struct, "struct"),
    ];
    for (descriptor, expected_name) in cases {
        let err = from_arrow(&descriptor).unwrap_err();
        assert_eq!(err.descriptor, descriptor);
        assert_eq!(err.descriptor.name(), expected_name);
    }
}

#[test]
fn timestamp_units_project_to_one_kind() {
    let a = from_arrow(&ColumnDescriptor::Timestamp(TimeUnit::Second)).unwrap();
    let b = from_arrow(&ColumnDescriptor::Timestamp(TimeUnit::Nanosecond)).unwrap();
    assert_eq!(a, CanonicalKind::I64);
    assert_eq!(a, b);
    // Nothing of the unit survives: rendering the canonical kind gives
    // the plain integer descriptor, not a timestamp.
    assert_eq!(to_arrow(a), ColumnDescriptor::Int64);
}

#[test]
fn rendering_then_resolving_is_identity() {
    let kinds = vec![
        CanonicalKind::F16,
        CanonicalKind::F32,
        CanonicalKind::F64,
        CanonicalKind::I16,
        CanonicalKind::I32,
        CanonicalKind::I64,
        CanonicalKind::U16,
        CanonicalKind::U32,
        CanonicalKind::U64,
    ];
    for kind in kinds {
        assert_eq!(from_arrow(&to_arrow(kind)).unwrap(), kind);
    }
}

#[test]
fn kind_names_are_stable() {
    assert_eq!(CanonicalKind::F16.name(), "f16");
    assert_eq!(CanonicalKind::F32.name(), "f32");
    assert_eq!(CanonicalKind::F64.name(), "f64");
    assert_eq!(CanonicalKind::I16.name(), "i16");
    assert_eq!(CanonicalKind::I32.name(), "i32");
    assert_eq!(CanonicalKind::I64.name(), "i64");
    assert_eq!(CanonicalKind::U16.name(), "u16");
    assert_eq!(CanonicalKind::U32.name(), "u32");
    assert_eq!(CanonicalKind::U64.name(), "u64");
}

#[test]
fn descriptor_names_are_stable() {
    assert_eq!(ColumnDescriptor::Float16.name(), "float16");
    assert_eq!(ColumnDescriptor::Timestamp(TimeUnit::Millisecond).name(), "timestamp");
    assert_eq!(ColumnDescriptor::Date32.name(), "date32");
    assert_eq!(ColumnDescriptor::Date64.name(), "date64");
}
