use arrow2::array::binary::BinaryArray;
use arrow2::array::primitive::PrimitiveArray;
use arrow2::bitmap::Bitmap;
use arrow2::buffer::Buffer;
use arrow2::compute::take::generic_binary::{
    take_indices_validity, take_no_validity, take_values, take_values_indices_validity,
    take_values_validity,
};
use arrow2::datatypes::DataType;

fn abc_source() -> BinaryArray {
    // ["a", None, "c"]: a zero-width slot backs the null
    BinaryArray::from_data(
        DataType::Utf8,
        Buffer::from_vec(vec![0usize, 1, 1, 2]),
        Buffer::from_vec(vec![b'a', b'c']),
        Some(Bitmap::from_vec(vec![true, false, true])),
    )
}

#[test]
fn test_identity_take() {
    let offsets = [0usize, 1, 3, 6];
    let values = b"abcdef";
    let indices = [0u32, 1, 2];
    let (out_offsets, out_values, validity) = take_no_validity(&offsets, values, &indices);
    assert_eq!(out_offsets.len(), 4);
    assert!(validity.is_none());
    let mut got: Vec<u8> = Vec::new();
    for i in 0..out_values.len() {
        got.push(*out_values.get(i));
    }
    assert_eq!(got, b"abcdef".to_vec());
    for i in 0..4 {
        assert_eq!(*out_offsets.get(i), offsets[i]);
    }
}

#[test]
fn test_take_reorders() {
    let offsets = [0usize, 1, 3, 6];
    let values = b"abcdef";
    let indices = [2u32, 0];
    let (out_offsets, out_values, validity) = take_no_validity(&offsets, values, &indices);
    assert!(validity.is_none());
    assert_eq!(*out_offsets.get(0), 0);
    assert_eq!(*out_offsets.get(1), 3);
    assert_eq!(*out_offsets.get(2), 4);
    let mut got: Vec<u8> = Vec::new();
    for i in 0..out_values.len() {
        got.push(*out_values.get(i));
    }
    assert_eq!(got, b"defa".to_vec());
}

#[test]
fn test_take_null_matrix() {
    // source ["a", None, "c"], indices [2, None, 0] -> ["c", None, "a"]
    let source = abc_source();
    let indices =
        PrimitiveArray::from_options(DataType::UInt32, vec![Some(2u32), None, Some(0u32)]);
    let (out_offsets, out_values, validity) = take_values_indices_validity(&source, &indices);
    let bits = validity.expect("a null slot must materialize a bitmap");
    assert_eq!(bits.len(), 3);
    assert!(bits.get_bit(0));
    assert!(!bits.get_bit(1));
    assert!(bits.get_bit(2));
    assert_eq!(*out_offsets.get(0), 0);
    assert_eq!(*out_offsets.get(1), 1);
    assert_eq!(*out_offsets.get(2), 1);
    assert_eq!(*out_offsets.get(3), 2);
    assert_eq!(*out_values.get(0), b'c');
    assert_eq!(*out_values.get(1), b'a');
}

#[test]
fn test_take_out_of_range_index_is_empty_slot() {
    // a wild index payload yields a zero-width slot, not a crash
    let offsets = [0usize, 1, 2, 3];
    let values = b"abc";
    let indices = PrimitiveArray::from_values(DataType::UInt32, vec![5u32]);
    let (out_offsets, out_values, validity) = take_indices_validity(&offsets, values, &indices);
    assert!(validity.is_none());
    assert_eq!(out_offsets.len(), 2);
    assert_eq!(*out_offsets.get(0), 0);
    assert_eq!(*out_offsets.get(1), 0);
    assert_eq!(out_values.len(), 0);
}

#[test]
fn test_take_values_validity() {
    // source ["a", None, "c"], indices [1, 2] -> [None, "c"]
    let source = abc_source();
    let indices = [1u32, 2];
    let (out_offsets, out_values, validity) = take_values_validity(&source, &indices);
    let bits = validity.expect("an invalid source element must materialize a bitmap");
    assert!(!bits.get_bit(0));
    assert!(bits.get_bit(1));
    assert_eq!(*out_offsets.get(0), 0);
    assert_eq!(*out_offsets.get(1), 0);
    assert_eq!(*out_offsets.get(2), 1);
    assert_eq!(*out_values.get(0), b'c');
}

#[test]
fn test_take_values_gathers_ranges() {
    let starts = [3usize, 0];
    let offsets = [0usize, 3, 4];
    let values = b"abcdef";
    let buffer = take_values(4, &starts, &offsets, values);
    let mut got: Vec<u8> = Vec::new();
    for i in 0..buffer.len() {
        got.push(*buffer.get(i));
    }
    assert_eq!(got, b"defa".to_vec());
}

#[test]
fn test_binary_array_get() {
    let source = abc_source();
    assert_eq!(source.len(), 3);
    assert_eq!(source.get(0), Some(vec![b'a']));
    assert_eq!(source.get(1), None);
    assert_eq!(source.get(2), Some(vec![b'c']));
}
