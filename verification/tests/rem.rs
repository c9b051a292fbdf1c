use arrow2::array::primitive::PrimitiveArray;
use arrow2::compute::rem::{checked_rem, checked_rem_scalar, rem, rem_scalar};
use arrow2::datatypes::DataType;
use arrow2::error::ArrowError;

#[test]
fn test_rem_mismatched_length() {
    let a = PrimitiveArray::from_values(DataType::Int32, vec![5i32, 6]);
    let b = PrimitiveArray::from_values(DataType::Int32, vec![5i32]);
    rem(&a, &b)
        .err()
        .expect("should have failed due to different lengths");
}

#[test]
fn test_rem() {
    let a = PrimitiveArray::from_options(DataType::Int32, vec![Some(5i32), Some(6)]);
    let b = PrimitiveArray::from_options(DataType::Int32, vec![Some(4i32), Some(4)]);
    let result = rem(&a, &b).unwrap();
    let expected = PrimitiveArray::from_options(DataType::Int32, vec![Some(1i32), Some(2)]);
    assert_eq!(result, expected);

    let result = rem(&a, &b).unwrap();
    assert_eq!(result, expected);
}

#[test]
fn test_rem_checked() {
    let a = PrimitiveArray::from_options(
        DataType::Int32,
        vec![Some(5i32), None, Some(3), Some(6)],
    );
    let b = PrimitiveArray::from_options(
        DataType::Int32,
        vec![Some(5i32), Some(3), None, Some(5)],
    );
    let result = checked_rem(&a, &b).unwrap();
    let expected = PrimitiveArray::from_options(
        DataType::Int32,
        vec![Some(0i32), None, None, Some(1)],
    );
    assert_eq!(result, expected);

    let a = PrimitiveArray::from_options(
        DataType::Int32,
        vec![Some(5i32), None, Some(3), Some(6)],
    );
    let b = PrimitiveArray::from_options(
        DataType::Int32,
        vec![Some(5i32), Some(0), Some(0), Some(5)],
    );
    let result = checked_rem(&a, &b).unwrap();
    let expected = PrimitiveArray::from_options(
        DataType::Int32,
        vec![Some(0i32), None, None, Some(1)],
    );
    assert_eq!(result, expected);

    let result = checked_rem(&a, &b).unwrap();
    assert_eq!(result, expected);
}

#[test]
fn test_rem_scalar() {
    let a = PrimitiveArray::from_options(DataType::Int32, vec![None, Some(6i32), None, Some(5)]);
    let result = rem_scalar(&a, &2i32);
    let expected =
        PrimitiveArray::from_options(DataType::Int32, vec![None, Some(0i32), None, Some(1)]);
    assert_eq!(result, expected);

    let result = rem_scalar(&a, &2i32);
    assert_eq!(result, expected);

    // the strength-reduced branches
    let a = PrimitiveArray::from_options(DataType::UInt64, vec![None, Some(6u64), None, Some(5)]);
    let result = rem_scalar(&a, &2u64);
    let expected =
        PrimitiveArray::from_options(DataType::UInt64, vec![None, Some(0u64), None, Some(1)]);
    assert_eq!(result, expected);

    let a = PrimitiveArray::from_options(DataType::UInt32, vec![None, Some(6u32), None, Some(5)]);
    let result = rem_scalar(&a, &2u32);
    let expected =
        PrimitiveArray::from_options(DataType::UInt32, vec![None, Some(0u32), None, Some(1)]);
    assert_eq!(result, expected);

    let a = PrimitiveArray::from_options(DataType::UInt16, vec![None, Some(6u16), None, Some(5)]);
    let result = rem_scalar(&a, &2u16);
    let expected =
        PrimitiveArray::from_options(DataType::UInt16, vec![None, Some(0u16), None, Some(1)]);
    assert_eq!(result, expected);

    let a = PrimitiveArray::from_options(DataType::UInt8, vec![None, Some(6u8), None, Some(5)]);
    let result = rem_scalar(&a, &2u8);
    let expected =
        PrimitiveArray::from_options(DataType::UInt8, vec![None, Some(0u8), None, Some(1)]);
    assert_eq!(result, expected);
}

#[test]
fn test_rem_scalar_checked() {
    let a = PrimitiveArray::from_options(DataType::Int32, vec![None, Some(6i32), None, Some(7)]);
    let result = checked_rem_scalar(&a, &2i32);
    let expected =
        PrimitiveArray::from_options(DataType::Int32, vec![None, Some(0i32), None, Some(1)]);
    assert_eq!(result, expected);

    let a = PrimitiveArray::from_options(DataType::Int32, vec![None, Some(6i32), None, Some(6)]);
    let result = checked_rem_scalar(&a, &0);
    let expected =
        PrimitiveArray::from_options(DataType::Int32, vec![None, None, None, None::<i32>]);
    assert_eq!(result, expected);

    let result = checked_rem_scalar(&a, &0);
    assert_eq!(result, expected);
}

#[test]
fn test_rem_concrete_pairs() {
    let a = PrimitiveArray::from_values(DataType::Int32, vec![10i32, 7]);
    let b = PrimitiveArray::from_values(DataType::Int32, vec![5i32, 6]);
    let result = rem(&a, &b).unwrap();
    let expected = PrimitiveArray::from_values(DataType::Int32, vec![0i32, 1]);
    assert_eq!(result, expected);

    let a = PrimitiveArray::from_values(DataType::Int8, vec![-100i8, 10]);
    let b = PrimitiveArray::from_values(DataType::Int8, vec![100i8, 0]);
    let result = checked_rem(&a, &b).unwrap();
    let expected = PrimitiveArray::from_options(DataType::Int8, vec![Some(0i8), None]);
    assert_eq!(result, expected);
}

#[test]
fn test_rem_scalar_matches_generic_path() {
    let a = PrimitiveArray::from_options(DataType::UInt64, vec![None, Some(6u64), None, Some(5)]);
    let scalar_result = rem_scalar(&a, &2u64);
    let expected =
        PrimitiveArray::from_options(DataType::UInt64, vec![None, Some(0u64), None, Some(1)]);
    assert_eq!(scalar_result, expected);

    let divisors = PrimitiveArray::from_values(DataType::UInt64, vec![2u64, 2, 2, 2]);
    let generic_result = rem(&a, &divisors).unwrap();
    assert_eq!(scalar_result, generic_result);
}

#[test]
fn test_checked_rem_agrees_where_defined() {
    let a = PrimitiveArray::from_values(DataType::Int32, vec![9i32, -9, 8, 7]);
    let b = PrimitiveArray::from_values(DataType::Int32, vec![4i32, 4, -3, 1]);
    let unchecked = rem(&a, &b).unwrap();
    let checked = checked_rem(&a, &b).unwrap();
    assert_eq!(unchecked, checked);
}

#[test]
fn test_rem_type_mismatch() {
    let a = PrimitiveArray::from_values(DataType::Int32, vec![10i32, 7]);
    let b = PrimitiveArray::from_values(DataType::Date32, vec![5i32, 6]);
    let err = rem(&a, &b).err().unwrap();
    assert_eq!(err, ArrowError::TypeMismatch);
    let err = checked_rem(&a, &b).err().unwrap();
    assert_eq!(err, ArrowError::TypeMismatch);
}

#[test]
fn test_rem_length_mismatch_kind() {
    let a = PrimitiveArray::from_values(DataType::Int32, vec![5i32, 6]);
    let b = PrimitiveArray::from_values(DataType::Int32, vec![5i32]);
    assert_eq!(rem(&a, &b).err().unwrap(), ArrowError::LengthMismatch);
    assert_eq!(checked_rem(&a, &b).err().unwrap(), ArrowError::LengthMismatch);
}

#[test]
fn test_rem_empty_arrays() {
    let a = PrimitiveArray::from_values(DataType::Int32, Vec::<i32>::new());
    let b = PrimitiveArray::from_values(DataType::Int32, Vec::<i32>::new());
    let result = rem(&a, &b).unwrap();
    assert_eq!(result.len(), 0);
    let result = checked_rem(&a, &b).unwrap();
    assert_eq!(result.len(), 0);
}
