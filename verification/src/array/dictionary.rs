use crate::array::primitive::PrimitiveArray;
use crate::types::NativeType;
use vstd::prelude::*;

verus! {

/// A dictionary-encoded array: a keys array of small integers and a values
/// array of the distinct values, where every valid key addresses a value.
#[derive(Debug)]
pub struct DictionaryArray<K: NativeType, T: NativeType> {
    keys: PrimitiveArray<K>,
    values: PrimitiveArray<T>,
}

impl<K: NativeType, T: NativeType> DictionaryArray<K, T> {
    #[verifier::type_invariant]
    spec fn inv(self) -> bool {
        forall|i: int|
            0 <= i < self.keys.spec_len() && self.keys.valid_at(i) ==> 0 <= (
            #[trigger] self.keys.spec_values()[i]).to_int() < self.values.spec_len()
    }

    pub closed spec fn spec_keys(self) -> PrimitiveArray<K> {
        self.keys
    }

    pub closed spec fn spec_dict_values(self) -> PrimitiveArray<T> {
        self.values
    }

    /// Builds a dictionary from its parts; every valid key must address a
    /// value.
    pub fn from_data(keys: PrimitiveArray<K>, values: PrimitiveArray<T>) -> (r: DictionaryArray<
        K,
        T,
    >)
        requires
            forall|i: int|
                0 <= i < keys.spec_len() && keys.valid_at(i) ==> 0 <= (
                #[trigger] keys.spec_values()[i]).to_int() < values.spec_len(),
        ensures
            r.spec_keys() == keys,
            r.spec_dict_values() == values,
    {
        DictionaryArray { keys, values }
    }

    pub fn len(&self) -> (r: usize)
        ensures
            r == self.spec_keys().spec_len(),
    {
        self.keys.len()
    }

    /// The keys array; every valid key addresses a dictionary value.
    pub fn keys(&self) -> (r: &PrimitiveArray<K>)
        ensures
            *r == self.spec_keys(),
            forall|i: int|
                0 <= i < r.spec_len() && r.valid_at(i) ==> 0 <= (
                #[trigger] r.spec_values()[i]).to_int() < self.spec_dict_values().spec_len(),
    {
        proof {
            use_type_invariant(self);
        }
        &self.keys
    }

    /// The dictionary's distinct values.
    pub fn values(&self) -> (r: &PrimitiveArray<T>)
        ensures
            *r == self.spec_dict_values(),
    {
        &self.values
    }
}

} // verus!
