use arrow2::array::boolean::BooleanArray;
use arrow2::array::growable::GrowableNull;
use arrow2::array::null::NullArray;
use arrow2::array::primitive::PrimitiveArray;
use arrow2::bitmap::Bitmap;
use arrow2::buffer::Buffer;
use arrow2::datatypes::DataType;
use arrow2::error::ArrowError;
use arrow2::ffi::FfiArray;
use arrow2::scalar::boolean::BooleanScalar;
use arrow2::scalar::struct_::StructScalar;
use arrow2::scalar::Scalar;

#[test]
fn test_buffer_slicing_is_shared_view() {
    let b = Buffer::from_vec(vec![10u8, 20, 30, 40, 50]);
    assert_eq!(b.len(), 5);
    let s = b.slice(1, 3);
    assert_eq!(s.len(), 3);
    assert_eq!(*s.get(0), 20);
    assert_eq!(*s.get(2), 40);
    let s2 = s.slice(1, 1);
    assert_eq!(*s2.get(0), 30);
    assert_eq!(s.as_slice(), &[20u8, 30, 40]);
}

#[test]
fn test_bitmap_counts_and_slicing() {
    let b = Bitmap::from_vec(vec![true, false, true, true]);
    assert_eq!(b.len(), 4);
    assert_eq!(b.set_bits(), 3);
    assert_eq!(b.unset_bits(), 1);
    let s = b.slice(1, 2);
    assert_eq!(s.len(), 2);
    assert!(!s.get_bit(0));
    assert!(s.get_bit(1));
    assert_eq!(s.set_bits(), 1);
}

#[test]
fn test_primitive_array_slice() {
    let a = PrimitiveArray::from_options(
        DataType::Int32,
        vec![Some(1i32), None, Some(3), Some(4)],
    );
    assert_eq!(a.null_count(), 1);
    let s = a.slice(1, 2);
    assert_eq!(s.len(), 2);
    assert_eq!(s.get(0), None);
    assert_eq!(s.get(1), Some(3i32));
}

#[test]
fn test_growable_null_length_law() {
    let mut g = GrowableNull::new(DataType::Null);
    g.extend(0, 0, 3);
    g.extend_validity(2);
    g.extend(1, 7, 1);
    let arr = g.as_box();
    assert_eq!(arr.len(), 6);
    let arc = g.as_arc();
    assert_eq!(arc.len(), 6);
    let from_arr: NullArray = g.into();
    assert_eq!(from_arr.len(), 6);
    assert_eq!(from_arr.data_type(), DataType::Null);

    let mut d = GrowableNull::default();
    d.extend_validity(4);
    let arr = d.as_box();
    assert_eq!(arr.len(), 4);
    assert_eq!(arr.data_type(), DataType::Null);
}

#[test]
fn test_null_array_slice() {
    let a = NullArray::from_data(DataType::Null, 5);
    let s = a.slice(1, 3);
    assert_eq!(s.len(), 3);
    assert_eq!(s.data_type(), DataType::Null);
}

#[test]
fn test_ffi_round_trip() {
    let values = Bitmap::from_vec(vec![true, false, true]);
    let validity = Some(Bitmap::from_vec(vec![true, true, false]));
    let a = BooleanArray::from_data(DataType::Boolean, values, validity);
    let exported = a.to_ffi();
    assert_eq!(exported.null_count, 1);
    let b = BooleanArray::try_from_ffi(&exported).unwrap();
    assert_eq!(b.len(), a.len());
    for i in 0..a.len() {
        assert_eq!(a.get(i), b.get(i));
    }
}

#[test]
fn test_ffi_import_normalizes_offset() {
    // a foreign descriptor whose window starts inside the buffers
    let d = FfiArray {
        data_type: DataType::Boolean,
        validity: Some(Bitmap::from_vec(vec![false, false, true, false])),
        values: Bitmap::from_vec(vec![true, true, false, true]),
        offset: 2,
        length: 2,
        null_count: 1,
    };
    let b = BooleanArray::try_from_ffi(&d).unwrap();
    assert_eq!(b.len(), 2);
    // the view is normalized: logical position 0 is the window's start,
    // while the shared allocation still carries the window's offset
    assert_eq!(b.offset(), 2);
    assert_eq!(b.get(0), Some(false));
    assert_eq!(b.get(1), None);
}

#[test]
fn test_ffi_import_format_error() {
    let d = FfiArray {
        data_type: DataType::Int32,
        validity: None,
        values: Bitmap::from_vec(vec![true]),
        offset: 0,
        length: 1,
        null_count: 0,
    };
    let err = BooleanArray::try_from_ffi(&d).err().unwrap();
    assert_eq!(err, ArrowError::FormatError);

    let too_short = FfiArray {
        data_type: DataType::Boolean,
        validity: None,
        values: Bitmap::from_vec(vec![true]),
        offset: 1,
        length: 3,
        null_count: 0,
    };
    let err = BooleanArray::try_from_ffi(&too_short).err().unwrap();
    assert_eq!(err, ArrowError::FormatError);
}

#[test]
fn test_boolean_array_slice() {
    let a = BooleanArray::from_data(
        DataType::Boolean,
        Bitmap::from_vec(vec![true, false, true]),
        Some(Bitmap::from_vec(vec![true, true, false])),
    );
    let s = a.slice(1, 2);
    assert_eq!(s.len(), 2);
    assert_eq!(s.get(0), Some(false));
    assert_eq!(s.get(1), None);
}

#[test]
fn test_boolean_scalar() {
    let t = BooleanScalar::new(Some(true));
    assert!(t.is_valid());
    assert!(t.value());
    assert_eq!(t.data_type(), DataType::Boolean);

    let n = BooleanScalar::new(None);
    assert!(!n.is_valid());

    // validity-aware equality: invalid scalars are equal whatever the payload
    let n2: BooleanScalar = None.into();
    assert_eq!(n, n2);
    assert_ne!(t, n);
    assert_eq!(t, BooleanScalar::new(Some(true)));
    assert_ne!(t, BooleanScalar::new(Some(false)));
}

#[test]
fn test_struct_scalar() {
    let children = vec![
        Scalar::Boolean(BooleanScalar::new(Some(true))),
        Scalar::Boolean(BooleanScalar::new(None)),
    ];
    let s = StructScalar::new(DataType::Boolean, Some(children));
    assert!(s.is_valid());
    assert_eq!(s.values().len(), 2);
    assert!(s.values()[0].is_valid());
    assert!(!s.values()[1].is_valid());

    let n = StructScalar::new(DataType::Boolean, None);
    assert!(!n.is_valid());
    assert_eq!(n.values().len(), 0);
}

#[test]
fn test_error_messages() {
    assert_eq!(
        ArrowError::TypeMismatch.message(),
        "Arrays must have the same logical type"
    );
    assert_eq!(
        ArrowError::LengthMismatch.message(),
        "Arrays must have the same length"
    );
}
