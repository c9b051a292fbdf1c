use crate::array::boolean::BooleanArray;
use crate::bitmap::{count_set, Bitmap};
use crate::datatypes::DataType;
use crate::error::ArrowError;
use vstd::prelude::*;

verus! {

/// The cross-runtime descriptor of a boolean array: one slot per physical
/// buffer position, the validity slot always present though possibly empty,
/// plus an element offset, a length and a null count. Export shares the
/// buffers by reference count and copies no payload bytes; the importing
/// side must keep the shared memory alive and unchanged while the imported
/// array lives.
#[derive(Debug)]
pub struct FfiArray {
    pub data_type: DataType,
    pub validity: Option<Bitmap>,
    pub values: Bitmap,
    pub offset: usize,
    pub length: usize,
    pub null_count: usize,
}

/// The shape a boolean descriptor must have for import to succeed: a boolean
/// tag, and buffers long enough for the declared window.
pub open spec fn ffi_boolean_compatible(d: FfiArray) -> bool {
    &&& d.data_type == DataType::Boolean
    &&& d.offset + d.length <= d.values@.len()
    &&& match d.validity {
        Some(v) => d.offset + d.length <= v@.len(),
        None => true,
    }
}

/// What export writes into the descriptor, given the array.
pub open spec fn is_exported(a: BooleanArray, d: FfiArray) -> bool {
    &&& d.data_type == a.spec_data_type()
    &&& d.offset == 0
    &&& d.length == a.spec_len()
    &&& d.values@ == a.spec_values()
    &&& match d.validity {
        Some(v) => a.spec_validity() == Some(v@),
        None => a.spec_validity() is None,
    }
}

/// What import rebuilds from the descriptor: every buffer re-sliced by the
/// descriptor's window, so the array is normalized to offset zero.
pub open spec fn is_imported(d: FfiArray, a: BooleanArray) -> bool {
    &&& a.spec_data_type() == d.data_type
    &&& a.spec_values() == d.values@.subrange(d.offset as int, d.offset + d.length)
    &&& match a.spec_validity() {
        Some(v) => d.validity is Some && v == d.validity->0@.subrange(
            d.offset as int,
            d.offset + d.length,
        ),
        None => d.validity is None,
    }
}

impl BooleanArray {
    /// Exports the array as a descriptor: the bitmaps are shared by
    /// reference count, no byte is copied, and the descriptor window starts
    /// at zero because each shared slot already carries its own offset.
    pub fn to_ffi(&self) -> (r: FfiArray)
        ensures
            is_exported(*self, r),
            r.null_count == match self.spec_validity() {
                Some(v) => self.spec_len() - count_set(v),
                None => 0int,
            },
            ffi_boolean_compatible(r),
    {
        let length = self.len();
        let validity = match self.validity() {
            Some(b) => Some(b.clone_shared()),
            None => None,
        };
        let null_count = match self.validity() {
            Some(b) => b.unset_bits(),
            None => 0,
        };
        FfiArray {
            data_type: self.data_type(),
            validity,
            values: self.values().clone_shared(),
            offset: 0,
            length,
            null_count,
        }
    }

    /// Imports a descriptor as a native array without copying payload bytes:
    /// checks that the declared logical type fits the boolean physical
    /// layout, reconstructs the validity bitmap if its slot is filled, and
    /// re-slices every buffer by the descriptor's window so the result is
    /// normalized to offset zero.
    pub fn try_from_ffi(array: &FfiArray) -> (r: Result<BooleanArray, ArrowError>)
        ensures
            r is Ok <==> ffi_boolean_compatible(*array),
            match r {
                Ok(a) => is_imported(*array, a),
                Err(e) => e == ArrowError::FormatError,
            },
    {
        if !matches!(array.data_type, DataType::Boolean) {
            return Err(ArrowError::FormatError);
        }
        let length = array.length;
        let offset = array.offset;
        if array.values.len() < offset || array.values.len() - offset < length {
            return Err(ArrowError::FormatError);
        }
        let validity = match &array.validity {
            Some(v) => {
                if v.len() < offset || v.len() - offset < length {
                    return Err(ArrowError::FormatError);
                }
                Some(v.slice(offset, length))
            },
            None => None,
        };
        let values = array.values.slice(offset, length);
        Ok(BooleanArray::from_data(DataType::Boolean, values, validity))
    }
}

/// Bridge round-trip law: importing what export produced gives back an array
/// with the same logical type and, slot for slot, the same payload and
/// validity; the physical offset is normalized to zero.
pub proof fn lemma_ffi_round_trip(a: BooleanArray, d: FfiArray, b: BooleanArray)
    requires
        is_exported(a, d),
        is_imported(d, b),
        match a.spec_validity() {
            Some(v) => v.len() == a.spec_len(),
            None => true,
        },
    ensures
        b.spec_data_type() == a.spec_data_type(),
        b@ =~= a@,
{
    assert(b.spec_values() =~= a.spec_values());
    match a.spec_validity() {
        Some(v) => {
            assert(b.spec_validity() is Some);
            assert(b.spec_validity()->0 =~= v);
        },
        None => {},
    }
}

} // verus!
