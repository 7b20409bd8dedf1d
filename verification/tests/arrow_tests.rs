use num_bridge::arrowable::ArrowNumber;
use num_bridge::arrowable::Arrowable;
use num_bridge::arrowable::Date32Type;
use num_bridge::arrowable::Float16Type;
use num_bridge::arrowable::Int32Type;
use num_bridge::arrowable::TimestampMillisecondType;
use num_bridge::arrowable::TimestampSecondType;
use num_bridge::arrowable::UInt32Type;
use num_bridge::descriptor::ColumnDescriptor;
use num_bridge::descriptor::TimeUnit;
use num_bridge::descriptor::from_arrow;
use num_bridge::kind::CanonicalKind;
use num_bridge::num_vec::F16Bits;
use num_bridge::num_vec::F32Bits;
use num_bridge::num_vec::NumVec;
use num_bridge::qcompress::QCompressable;

#[test]
fn marker_descriptors_resolve_to_their_kind() {
    assert_eq!(from_arrow(&Float16Type::data_type()).unwrap(), CanonicalKind::F16);
    assert_eq!(from_arrow(&Int32Type::data_type()).unwrap(), CanonicalKind::I32);
    assert_eq!(from_arrow(&UInt32Type::data_type()).unwrap(), CanonicalKind::U32);
    assert_eq!(from_arrow(&TimestampSecondType::data_type()).unwrap(), CanonicalKind::I64);
    assert_eq!(from_arrow(&TimestampMillisecondType::data_type()).unwrap(), CanonicalKind::I64);
    assert_eq!(from_arrow(&Date32Type::data_type()).unwrap(), CanonicalKind::I32);
}

#[test]
fn temporal_markers_convert_as_plain_integers() {
    let seconds: Vec<i64> = vec![-1, 0, 1700000000];
    let pco = TimestampSecondType::native_vec_to_pco(seconds.clone());
    assert_eq!(pco, seconds);
    let days: Vec<i32> = vec![0, 19700];
    assert_eq!(Date32Type::native_vec_to_pco(days.clone()), days);
}

#[test]
fn timestamp_marker_descriptors_keep_their_unit() {
    assert_eq!(
        TimestampSecondType::data_type(),
        ColumnDescriptor::Timestamp(TimeUnit::Second)
    );
    assert_eq!(
        TimestampMillisecondType::data_type(),
        ColumnDescriptor::Timestamp(TimeUnit::Millisecond)
    );
}

#[test]
fn make_num_vec_binds_kind_and_length() {
    let v = <u32 as Arrowable>::make_num_vec(vec![1, 2, 3]);
    assert_eq!(v.kind(), CanonicalKind::U32);
    assert_eq!(v.len(), 3);
    match v {
        NumVec::U32(inner) => assert_eq!(inner, vec![1, 2, 3]),
        _ => panic!("wrong variant"),
    }

    let h = <F16Bits as Arrowable>::make_num_vec(vec![F16Bits(0x3C00)]);
    assert_eq!(h.kind(), CanonicalKind::F16);
    assert_eq!(h.len(), 1);
}

#[test]
fn arrow_dtype_is_the_rendered_descriptor() {
    assert_eq!(<F16Bits as Arrowable>::arrow_dtype(), ColumnDescriptor::Float16);
    assert_eq!(<i64 as Arrowable>::arrow_dtype(), ColumnDescriptor::Int64);
    assert_eq!(<u16 as Arrowable>::arrow_dtype(), ColumnDescriptor::UInt16);
}

#[test]
fn to_arrow_native_preserves_the_value() {
    assert_eq!(<i32 as Arrowable>::to_arrow_native(-7), -7);
    assert_eq!(<F32Bits as Arrowable>::to_arrow_native(F32Bits(5)), F32Bits(5));
}

#[test]
fn native_bytes_are_little_endian() {
    assert_eq!(
        <u32 as Arrowable>::arrow_native_to_bytes(0x0102_0304),
        vec![0x04, 0x03, 0x02, 0x01]
    );
    assert_eq!(<i32 as Arrowable>::arrow_native_to_bytes(-2), vec![0xFE, 0xFF, 0xFF, 0xFF]);
    assert_eq!(<u16 as Arrowable>::arrow_native_to_bytes(0xABCD), vec![0xCD, 0xAB]);
    assert_eq!(
        <i64 as Arrowable>::arrow_native_to_bytes(-1),
        vec![0xFF, 0xFF, 0xFF, 0xFF, 0xFF, 0xFF, 0xFF, 0xFF]
    );
    assert_eq!(
        <F16Bits as Arrowable>::arrow_native_to_bytes(F16Bits(0x3C00)),
        vec![0x00, 0x3C]
    );
    assert_eq!(<i16 as Arrowable>::arrow_native_to_bytes(-32768), vec![0x00, 0x80]);
}

#[test]
fn codec_round_trips_half_precision_bits() {
    let nums = vec![F16Bits(0x0000), F16Bits(0x8000), F16Bits(0x7BFF)];
    let qco = <F16Bits as QCompressable>::nums_to_qco(&nums);
    // The codec sees the raw patterns, unchanged.
    assert_eq!(qco, vec![0x0000u16, 0x8000, 0x7BFF]);
    assert_eq!(<F16Bits as QCompressable>::qco_to_nums(qco), nums);
}

#[test]
fn codec_round_trips_plain_integers() {
    let nums: Vec<u64> = vec![0, 1, u64::MAX];
    let qco = <u64 as QCompressable>::nums_to_qco(&nums);
    assert_eq!(qco, nums);
    assert_eq!(<u64 as QCompressable>::qco_to_nums(qco), nums);
}
