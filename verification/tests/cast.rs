use arrow2::array::primitive::PrimitiveArray;
use arrow2::compute::cast::primitive_to::{
    checked_naive_timestamp_to_utf8, checked_timestamp_to_utf8, date32_to_date64,
    date64_to_date32, naive_timestamp_to_utf8, primitive_as_primitive, primitive_to_binary,
    primitive_to_boolean, primitive_to_dictionary, primitive_to_primitive,
    primitive_to_same_primitive, primitive_to_utf8, time32_to_time64, time32ms_to_time32s,
    time32s_to_time32ms, time64_to_time32, time64ns_to_time64us, time64us_to_time64ns,
    time_unit_multiple, timestamp_to_date32, timestamp_to_date64, timestamp_to_timestamp,
    timestamp_to_utf8,
};
use arrow2::datatypes::{DataType, TimeUnit};
use arrow2::error::ArrowError;

#[test]
fn test_primitive_to_boolean() {
    let a = PrimitiveArray::from_options(DataType::Int32, vec![Some(0i32), Some(3), None]);
    let b = primitive_to_boolean(&a, DataType::Boolean);
    assert_eq!(b.len(), 3);
    assert_eq!(b.get(0), Some(false));
    assert_eq!(b.get(1), Some(true));
    assert_eq!(b.get(2), None);
}

#[test]
fn test_primitive_to_primitive_checked() {
    let a = PrimitiveArray::from_options(
        DataType::Int32,
        vec![Some(7i32), Some(300), Some(-7), None],
    );
    let b: PrimitiveArray<i8> = primitive_to_primitive(&a, &DataType::Int8);
    assert_eq!(b.get(0), Some(7i8));
    assert_eq!(b.get(1), None);
    assert_eq!(b.get(2), Some(-7i8));
    assert_eq!(b.get(3), None);
}

#[test]
fn test_primitive_as_primitive_wraps() {
    let a = PrimitiveArray::from_values(DataType::Int32, vec![300i32, -1]);
    let b: PrimitiveArray<u8> = primitive_as_primitive(&a, &DataType::UInt8);
    assert_eq!(b.get(0), Some(44u8));
    assert_eq!(b.get(1), Some(255u8));
}

#[test]
fn test_primitive_to_same_primitive_is_bit_identical() {
    let a = PrimitiveArray::from_options(DataType::Int32, vec![Some(1i32), None, Some(3)]);
    let b = primitive_to_same_primitive(&a, &DataType::Date32);
    assert_eq!(b.data_type(), DataType::Date32);
    assert_eq!(b.len(), a.len());
    assert_eq!(b.get(0), Some(1i32));
    assert_eq!(b.get(1), None);
    assert_eq!(b.get(2), Some(3i32));
}

#[test]
fn test_primitive_to_dictionary() {
    let a = PrimitiveArray::from_options(
        DataType::Int32,
        vec![Some(1i32), Some(2), Some(1), None],
    );
    let d = primitive_to_dictionary::<i32, u8>(&a).unwrap();
    assert_eq!(d.len(), 4);
    let values = d.values();
    assert_eq!(values.len(), 2);
    assert_eq!(values.get(0), Some(1i32));
    assert_eq!(values.get(1), Some(2i32));
    let keys = d.keys();
    assert_eq!(keys.get(0), Some(0u8));
    assert_eq!(keys.get(1), Some(1u8));
    assert_eq!(keys.get(2), Some(0u8));
    assert_eq!(keys.get(3), None);
}

#[test]
fn test_primitive_to_dictionary_key_overflow() {
    let mut raw: Vec<i32> = Vec::new();
    for v in 0..257i32 {
        raw.push(v);
    }
    let a = PrimitiveArray::from_values(DataType::Int32, raw);
    let err = primitive_to_dictionary::<i32, u8>(&a).err().unwrap();
    assert_eq!(err, ArrowError::KeyOverflow);
}

#[test]
fn test_time_unit_multiple() {
    assert_eq!(time_unit_multiple(TimeUnit::Second), 1);
    assert_eq!(time_unit_multiple(TimeUnit::Millisecond), 1_000);
    assert_eq!(time_unit_multiple(TimeUnit::Microsecond), 1_000_000);
    assert_eq!(time_unit_multiple(TimeUnit::Nanosecond), 1_000_000_000);
}

#[test]
fn test_date_casts() {
    let a = PrimitiveArray::from_values(DataType::Date32, vec![1i32, -1]);
    let b = date32_to_date64(&a);
    assert_eq!(b.data_type(), DataType::Date64);
    assert_eq!(b.get(0), Some(86_400_000i64));
    assert_eq!(b.get(1), Some(-86_400_000i64));

    let c = date64_to_date32(&b);
    assert_eq!(c.data_type(), DataType::Date32);
    assert_eq!(c.get(0), Some(1i32));
    assert_eq!(c.get(1), Some(-1i32));
}

#[test]
fn test_time_casts() {
    let a = PrimitiveArray::from_values(DataType::Time32(TimeUnit::Second), vec![7i32]);
    let b = time32s_to_time32ms(&a);
    assert_eq!(b.get(0), Some(7_000i32));
    let c = time32ms_to_time32s(&b);
    assert_eq!(c.get(0), Some(7i32));

    let d = PrimitiveArray::from_values(DataType::Time64(TimeUnit::Microsecond), vec![5i64]);
    let e = time64us_to_time64ns(&d);
    assert_eq!(e.get(0), Some(5_000i64));
    let f = time64ns_to_time64us(&e);
    assert_eq!(f.get(0), Some(5i64));

    let g = time32_to_time64(&a, TimeUnit::Second, TimeUnit::Millisecond);
    assert_eq!(g.data_type(), DataType::Time64(TimeUnit::Millisecond));
    assert_eq!(g.get(0), Some(7_000i64));

    let h = time64_to_time32(&g, TimeUnit::Millisecond, TimeUnit::Second);
    assert_eq!(h.data_type(), DataType::Time32(TimeUnit::Second));
    assert_eq!(h.get(0), Some(7i32));
}

#[test]
fn test_timestamp_rescaling() {
    let a = PrimitiveArray::from_values(DataType::Timestamp(TimeUnit::Second), vec![2i64, -2]);
    let b = timestamp_to_timestamp(&a, TimeUnit::Second, TimeUnit::Millisecond);
    assert_eq!(b.data_type(), DataType::Timestamp(TimeUnit::Millisecond));
    assert_eq!(b.get(0), Some(2_000i64));
    assert_eq!(b.get(1), Some(-2_000i64));

    let c = timestamp_to_timestamp(&b, TimeUnit::Millisecond, TimeUnit::Second);
    assert_eq!(c.get(0), Some(2i64));
    assert_eq!(c.get(1), Some(-2i64));

    let d = timestamp_to_date64(&a, TimeUnit::Second);
    assert_eq!(d.data_type(), DataType::Date64);
    assert_eq!(d.get(0), Some(2_000i64));

    let e = PrimitiveArray::from_values(
        DataType::Timestamp(TimeUnit::Millisecond),
        vec![86_400_000i64 * 3 + 5],
    );
    let f = timestamp_to_date32(&e, TimeUnit::Millisecond);
    assert_eq!(f.data_type(), DataType::Date32);
    assert_eq!(f.get(0), Some(3i32));
}

#[test]
fn test_primitive_to_text() {
    let a = PrimitiveArray::from_options(DataType::Int32, vec![Some(12i32), None, Some(-3)]);
    let b = primitive_to_utf8(&a);
    assert_eq!(b.data_type(), DataType::Utf8);
    assert_eq!(b.get(0), Some(b"12".to_vec()));
    assert_eq!(b.get(1), None);
    assert_eq!(b.get(2), Some(b"-3".to_vec()));

    let c = primitive_to_binary(&a);
    assert_eq!(c.data_type(), DataType::Binary);
    assert_eq!(c.get(0), Some(b"12".to_vec()));

    let d = PrimitiveArray::from_values(DataType::UInt64, vec![18_446_744_073_709_551_615u64]);
    let e = primitive_to_utf8(&d);
    assert_eq!(e.get(0), Some(b"18446744073709551615".to_vec()));

    let t = primitive_to_utf8(&PrimitiveArray::from_values(DataType::UInt8, vec![200u8]));
    assert_eq!(t.get(0), Some(b"200".to_vec()));
    let t = primitive_to_utf8(&PrimitiveArray::from_values(DataType::UInt16, vec![60_000u16]));
    assert_eq!(t.get(0), Some(b"60000".to_vec()));
    let t = primitive_to_utf8(&PrimitiveArray::from_values(DataType::UInt32, vec![70_000u32]));
    assert_eq!(t.get(0), Some(b"70000".to_vec()));
    let t = primitive_to_utf8(&PrimitiveArray::from_values(DataType::Int8, vec![-128i8]));
    assert_eq!(t.get(0), Some(b"-128".to_vec()));
    let t = primitive_to_utf8(&PrimitiveArray::from_values(DataType::Int16, vec![-32_768i16]));
    assert_eq!(t.get(0), Some(b"-32768".to_vec()));
    let t = primitive_to_utf8(&PrimitiveArray::from_values(DataType::Int64, vec![-5i64]));
    assert_eq!(t.get(0), Some(b"-5".to_vec()));
}

#[test]
fn test_naive_timestamp_to_utf8() {
    let a = PrimitiveArray::from_options(
        DataType::Timestamp(TimeUnit::Second),
        vec![Some(0i64), None],
    );
    let b = checked_naive_timestamp_to_utf8(&a, TimeUnit::Second).unwrap();
    assert_eq!(b.get(0), Some(b"1970-01-01 00:00:00".to_vec()));
    assert_eq!(b.get(1), None);

    let c = naive_timestamp_to_utf8(&a, TimeUnit::Second);
    assert_eq!(c.get(0), Some(b"1970-01-01 00:00:00".to_vec()));

    let d = PrimitiveArray::from_values(
        DataType::Timestamp(TimeUnit::Millisecond),
        vec![1_500i64],
    );
    let e = naive_timestamp_to_utf8(&d, TimeUnit::Millisecond);
    assert_eq!(e.get(0), Some(b"1970-01-01 00:00:01.500".to_vec()));
}

#[test]
fn test_timestamp_to_utf8_fixed_offset() {
    let a = PrimitiveArray::from_values(DataType::Timestamp(TimeUnit::Second), vec![0i64]);
    let b = timestamp_to_utf8(&a, TimeUnit::Second, "+01:00").unwrap();
    assert_eq!(b.get(0), Some(b"1970-01-01T01:00:00+01:00".to_vec()));

    let c = checked_timestamp_to_utf8(&a, TimeUnit::Second, "+01:00").unwrap();
    assert_eq!(c.get(0), Some(b"1970-01-01T01:00:00+01:00".to_vec()));
}

#[test]
fn test_timestamp_to_utf8_named_zone() {
    let a = PrimitiveArray::from_values(DataType::Timestamp(TimeUnit::Second), vec![0i64]);
    let b = checked_timestamp_to_utf8(&a, TimeUnit::Second, "Europe/Berlin").unwrap();
    assert_eq!(b.get(0), Some(b"1970-01-01T01:00:00+01:00".to_vec()));
}

#[test]
fn test_timestamp_to_utf8_invalid_timezone() {
    let a = PrimitiveArray::from_values(DataType::Timestamp(TimeUnit::Second), vec![0i64]);
    let err = timestamp_to_utf8(&a, TimeUnit::Second, "not-a-zone").err().unwrap();
    assert_eq!(err, ArrowError::InvalidTimezone);
    assert!(checked_timestamp_to_utf8(&a, TimeUnit::Second, "not-a-zone").is_none());
}
