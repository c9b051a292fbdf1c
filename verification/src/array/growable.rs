use crate::array::null::NullArray;
use crate::datatypes::DataType;
use std::sync::Arc;
use vstd::prelude::*;

verus! {

/// Incremental builder for a [`NullArray`]: every appended range is null, so
/// the builder tracks only a running length and copies no bytes. Its length
/// after any sequence of `extend` / `extend_validity` calls is the sum of
/// the requested lengths.
#[derive(Debug)]
pub struct GrowableNull {
    data_type: DataType,
    length: usize,
}

impl GrowableNull {
    pub closed spec fn spec_data_type(self) -> DataType {
        self.data_type
    }

    pub closed spec fn spec_len(self) -> nat {
        self.length as nat
    }

    /// A fresh builder with nothing appended.
    pub fn new(data_type: DataType) -> (r: GrowableNull)
        ensures
            r.spec_data_type() == data_type,
            r.spec_len() == 0,
    {
        GrowableNull { data_type, length: 0 }
    }

    /// Appends `len` elements copied from a bound source: for the null
    /// layout only the running length grows. The source index and start do
    /// not matter, since every element is null.
    pub fn extend(&mut self, _index: usize, _start: usize, len: usize)
        requires
            old(self).spec_len() + len <= usize::MAX,
        ensures
            final(self).spec_data_type() == old(self).spec_data_type(),
            final(self).spec_len() == old(self).spec_len() + len,
    {
        self.length = self.length + len;
    }

    /// Appends `additional` null elements.
    pub fn extend_validity(&mut self, additional: usize)
        requires
            old(self).spec_len() + additional <= usize::MAX,
        ensures
            final(self).spec_data_type() == old(self).spec_data_type(),
            final(self).spec_len() == old(self).spec_len() + additional,
    {
        self.length = self.length + additional;
    }

    /// Materializes the accumulated appends as a shared array.
    pub fn as_arc(&mut self) -> (r: Arc<NullArray>)
        ensures
            *final(self) == *old(self),
            r.spec_data_type() == old(self).spec_data_type(),
            r.spec_len() == old(self).spec_len(),
    {
        Arc::new(NullArray::from_data(self.data_type, self.length))
    }

    /// Materializes the accumulated appends as an owned array.
    pub fn as_box(&mut self) -> (r: Box<NullArray>)
        ensures
            *final(self) == *old(self),
            r.spec_data_type() == old(self).spec_data_type(),
            r.spec_len() == old(self).spec_len(),
    {
        Box::new(NullArray::from_data(self.data_type, self.length))
    }
}

/// The sum of a sequence of requested lengths.
pub open spec fn sum_lens(lens: Seq<usize>) -> int
    decreases lens.len(),
{
    if lens.len() == 0 {
        0
    } else {
        sum_lens(lens.drop_last()) + lens.last()
    }
}

/// Growable length law: start from a fresh builder and run any sequence of
/// `extend` / `extend_validity` calls, each appending its requested length
/// (which is exactly what their contracts state); the materialized array's
/// length is then the sum of the requested lengths. The states sequence
/// holds the builder before the first call and after each call.
pub proof fn lemma_growable_null_length_law(states: Seq<GrowableNull>, lens: Seq<usize>)
    requires
        states.len() == lens.len() + 1,
        states[0].spec_len() == 0,
        forall|k: int|
            0 <= k < lens.len() ==> (#[trigger] states[k + 1]).spec_len() == states[k].spec_len()
                + lens[k],
    ensures
        states.last().spec_len() == sum_lens(lens),
    decreases lens.len(),
{
    if lens.len() > 0 {
        lemma_growable_null_length_law(states.drop_last(), lens.drop_last());
    }
}

impl Default for GrowableNull {
    /// An empty builder for the null logical type.
    fn default() -> (r: GrowableNull)
        ensures
            r.spec_data_type() == DataType::Null,
            r.spec_len() == 0,
    {
        GrowableNull::new(DataType::Null)
    }
}

impl From<GrowableNull> for NullArray {
    /// Materializes the builder, consuming it.
    fn from(val: GrowableNull) -> (r: NullArray) {
        NullArray::from_data(val.data_type, val.length)
    }
}

impl vstd::std_specs::convert::FromSpecImpl<GrowableNull> for NullArray {
    open spec fn obeys_from_spec() -> bool {
        true
    }

    open spec fn from_spec(val: GrowableNull) -> NullArray {
        NullArray::from_data_spec(val.spec_data_type(), val.spec_len())
    }
}

} // verus!
