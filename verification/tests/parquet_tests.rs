use num_bridge::num_vec::F16Bits;
use num_bridge::num_vec::F32Bits;
use num_bridge::num_vec::F64Bits;
use num_bridge::parquetable::Parquetable;

#[test]
fn zero_copy_round_trip_f32() {
    let values = vec![0.0f32, -0.0, 1.5, -2.25, f32::MAX, f32::MIN_POSITIVE];
    let nums: Vec<F32Bits> = values.iter().map(|v| F32Bits(v.to_bits())).collect();
    let slots = <F32Bits as Parquetable>::transmute_nums_to_parquet(&nums);
    let back = <F32Bits as Parquetable>::parquet_to_nums(slots);
    assert_eq!(back, nums);
}

#[test]
fn zero_copy_round_trip_f64() {
    let values = vec![0.0f64, -0.0, 1.5, -2.25, f64::MAX, f64::MIN_POSITIVE];
    let nums: Vec<F64Bits> = values.iter().map(|v| F64Bits(v.to_bits())).collect();
    let slots = <F64Bits as Parquetable>::transmute_nums_to_parquet(&nums);
    let back = <F64Bits as Parquetable>::parquet_to_nums(slots);
    assert_eq!(back, nums);
}

#[test]
fn zero_copy_round_trip_i32_i64() {
    let nums32: Vec<i32> = vec![i32::MIN, -1, 0, 1, i32::MAX];
    let slots32 = <i32 as Parquetable>::transmute_nums_to_parquet(&nums32);
    assert_eq!(slots32, nums32);
    assert_eq!(<i32 as Parquetable>::parquet_to_nums(slots32), nums32);

    let nums64: Vec<i64> = vec![i64::MIN, -1, 0, 1, i64::MAX];
    let slots64 = <i64 as Parquetable>::transmute_nums_to_parquet(&nums64);
    assert_eq!(slots64, nums64);
    assert_eq!(<i64 as Parquetable>::parquet_to_nums(slots64), nums64);
}

#[test]
fn bit_pattern_round_trip_u32() {
    let nums: Vec<u32> = vec![0, 1, 2147483648, 4294967295];
    let slots = <u32 as Parquetable>::transmute_nums_to_parquet(&nums);
    // The slot holds the same bit pattern read as signed.
    assert_eq!(slots, vec![0i32, 1, i32::MIN, -1]);
    assert_eq!(<u32 as Parquetable>::parquet_to_nums(slots), nums);
}

#[test]
fn bit_pattern_round_trip_u64() {
    let nums: Vec<u64> = vec![0, 1, 9223372036854775808, 18446744073709551615];
    let slots = <u64 as Parquetable>::transmute_nums_to_parquet(&nums);
    assert_eq!(slots, vec![0i64, 1, i64::MIN, -1]);
    assert_eq!(<u64 as Parquetable>::parquet_to_nums(slots), nums);
}

#[test]
fn widening_round_trip_i16() {
    let nums: Vec<i16> = vec![-32768, 0, 32767];
    let slots = <i16 as Parquetable>::copy_nums_to_parquet(&nums);
    assert_eq!(slots, vec![-32768i32, 0, 32767]);
    assert_eq!(<i16 as Parquetable>::parquet_to_nums(slots), nums);
}

#[test]
fn widening_round_trip_u16() {
    let nums: Vec<u16> = vec![0, 65535];
    let slots = <u16 as Parquetable>::copy_nums_to_parquet(&nums);
    assert_eq!(slots, vec![0i32, 65535]);
    assert_eq!(<u16 as Parquetable>::parquet_to_nums(slots), nums);
}

#[test]
fn half_precision_round_trip() {
    // 0.0, -0.0, 1.0 and the smallest normal half-precision value.
    let nums: Vec<F16Bits> =
        vec![F16Bits(0x0000), F16Bits(0x8000), F16Bits(0x3C00), F16Bits(0x0400)];
    let slots = <F16Bits as Parquetable>::copy_nums_to_parquet(&nums);
    // The intermediate single-precision values, exactly.
    assert_eq!(
        slots,
        vec![
            F32Bits(0x0000_0000),
            F32Bits(0x8000_0000),
            F32Bits(0x3F80_0000),
            F32Bits(0x3880_0000),
        ]
    );
    let back = <F16Bits as Parquetable>::parquet_to_nums(slots);
    assert_eq!(back, nums);
}

#[test]
fn half_precision_decode_rounds() {
    // 1.0 + one single-precision ulp above it rounds back down to 1.0 in
    // half precision; a value halfway to the next half ulp rounds to even.
    let one = F32Bits(1.0f32.to_bits());
    let just_above_one = F32Bits(1.0000001f32.to_bits());
    let back = <F16Bits as Parquetable>::parquet_to_nums(vec![one, just_above_one]);
    assert_eq!(back, vec![F16Bits(0x3C00), F16Bits(0x3C00)]);
}

#[test]
fn dtype_strings_match_the_format() {
    assert_eq!(<F32Bits as Parquetable>::parquet_dtype_str(), "FLOAT");
    assert_eq!(<F64Bits as Parquetable>::parquet_dtype_str(), "DOUBLE");
    assert_eq!(<i32 as Parquetable>::parquet_dtype_str(), "INT32");
    assert_eq!(<i64 as Parquetable>::parquet_dtype_str(), "INT64");
    assert_eq!(<u32 as Parquetable>::parquet_dtype_str(), "INT32");
    assert_eq!(<u64 as Parquetable>::parquet_dtype_str(), "INT64");
    assert_eq!(<i16 as Parquetable>::parquet_dtype_str(), "INT32");
    assert_eq!(<u16 as Parquetable>::parquet_dtype_str(), "INT32");
    assert_eq!(<F16Bits as Parquetable>::parquet_dtype_str(), "FLOAT");
}

#[test]
fn transmutable_flags_match_the_policy() {
    assert!(<F32Bits as Parquetable>::transmutable());
    assert!(<F64Bits as Parquetable>::transmutable());
    assert!(<i32 as Parquetable>::transmutable());
    assert!(<i64 as Parquetable>::transmutable());
    assert!(<u32 as Parquetable>::transmutable());
    assert!(<u64 as Parquetable>::transmutable());
    assert!(!<i16 as Parquetable>::transmutable());
    assert!(!<u16 as Parquetable>::transmutable());
    assert!(!<F16Bits as Parquetable>::transmutable());
}

#[test]
fn truncating_decode_wraps() {
    // Decoding slots that did not come from a 16-bit encode truncates to
    // the low 16 bits, as the narrowing cast would.
    let wrapped_signed = <i16 as Parquetable>::parquet_to_nums(vec![65536, 65537, -65535]);
    assert_eq!(wrapped_signed, vec![0i16, 1, 1]);
    let wrapped_unsigned = <u16 as Parquetable>::parquet_to_nums(vec![65536, -1]);
    assert_eq!(wrapped_unsigned, vec![0u16, 65535]);
}
