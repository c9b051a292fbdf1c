use crate::datatypes::DataType;
use vstd::prelude::*;

verus! {

/// An array whose every slot is null: it stores only a logical tag and a
/// length, and owns no buffers.
#[derive(Debug, Clone, PartialEq, Eq, Structural)]
pub struct NullArray {
    pub data_type: DataType,
    pub length: usize,
}

impl NullArray {
    pub open spec fn spec_data_type(self) -> DataType {
        self.data_type
    }

    pub open spec fn spec_len(self) -> nat {
        self.length as nat
    }

    /// The array that `from_data` builds, as a specification value.
    pub open spec fn from_data_spec(data_type: DataType, length: nat) -> NullArray {
        NullArray { data_type, length: length as usize }
    }

    pub fn from_data(data_type: DataType, length: usize) -> (r: NullArray)
        ensures
            r.spec_data_type() == data_type,
            r.spec_len() == length,
    {
        NullArray { data_type, length }
    }

    pub fn len(&self) -> (r: usize)
        ensures
            r == self.spec_len(),
    {
        self.length
    }

    pub fn data_type(&self) -> (r: DataType)
        ensures
            r == self.spec_data_type(),
    {
        self.data_type
    }

    /// O(1) slice: only the length changes.
    pub fn slice(&self, _offset: usize, length: usize) -> (r: NullArray)
        requires
            _offset + length <= self.spec_len(),
        ensures
            r.spec_data_type() == self.spec_data_type(),
            r.spec_len() == length,
    {
        NullArray { data_type: self.data_type, length }
    }
}

} // verus!
