use crate::bitmap::Bitmap;
use crate::buffer::Buffer;
use crate::datatypes::DataType;
use vstd::prelude::*;

verus! {

/// Pairwise non-decreasing: the shape every offsets sequence must have.
pub open spec fn monotonic(s: Seq<usize>) -> bool {
    forall|i: int, j: int| 0 <= i <= j < s.len() ==> s[i] <= s[j]
}

/// A variable-length binary array in the offset-encoded layout: element `i`
/// is the byte range `values[offsets[i] .. offsets[i + 1]]`, plus an optional
/// validity bitmap. With `n` elements the offsets buffer has `n + 1` entries,
/// non-decreasing, and its last entry bounds the live region of the values.
#[derive(Debug)]
pub struct BinaryArray {
    data_type: DataType,
    offsets: Buffer<usize>,
    values: Buffer<u8>,
    validity: Option<Bitmap>,
}

/// A utf8 string array shares the offset-encoded byte layout; only the
/// logical tag differs.
pub type Utf8Array = BinaryArray;

impl BinaryArray {
    #[verifier::type_invariant]
    spec fn inv(self) -> bool {
        &&& self.offsets@.len() >= 1
        &&& monotonic(self.offsets@)
        &&& self.offsets@.last() <= self.values@.len()
        &&& match self.validity {
            Some(b) => b@.len() == self.offsets@.len() - 1,
            None => true,
        }
    }

    pub closed spec fn spec_offsets(self) -> Seq<usize> {
        self.offsets@
    }

    pub closed spec fn spec_values(self) -> Seq<u8> {
        self.values@
    }

    pub closed spec fn spec_validity(self) -> Option<Seq<bool>> {
        match self.validity {
            Some(b) => Some(b@),
            None => None,
        }
    }

    pub closed spec fn spec_data_type(self) -> DataType {
        self.data_type
    }

    pub open spec fn spec_len(self) -> int {
        self.spec_offsets().len() - 1
    }

    pub open spec fn valid_at(self, i: int) -> bool {
        match self.spec_validity() {
            Some(v) => v[i],
            None => true,
        }
    }

    /// The payload bytes of element `i`.
    pub open spec fn spec_elem(self, i: int) -> Seq<u8> {
        self.spec_values().subrange(self.spec_offsets()[i] as int, self.spec_offsets()[i + 1] as int)
    }

    /// Builds an array from its parts, which must already have the
    /// offset-encoded shape.
    pub fn from_data(
        data_type: DataType,
        offsets: Buffer<usize>,
        values: Buffer<u8>,
        validity: Option<Bitmap>,
    ) -> (r: BinaryArray)
        requires
            offsets@.len() >= 1,
            monotonic(offsets@),
            offsets@.last() <= values@.len(),
            match validity {
                Some(b) => b@.len() == offsets@.len() - 1,
                None => true,
            },
        ensures
            r.spec_data_type() == data_type,
            r.spec_offsets() == offsets@,
            r.spec_values() == values@,
            r.spec_validity() == match validity {
                Some(b) => Some(b@),
                None => None::<Seq<bool>>,
            },
    {
        BinaryArray { data_type, offsets, values, validity }
    }

    pub fn len(&self) -> (r: usize)
        ensures
            r == self.spec_len(),
    {
        proof {
            use_type_invariant(self);
        }
        self.offsets.len() - 1
    }

    pub fn data_type(&self) -> (r: DataType)
        ensures
            r == self.spec_data_type(),
    {
        self.data_type
    }

    /// The offsets buffer: `len() + 1` non-decreasing entries.
    pub fn offsets(&self) -> (r: &Buffer<usize>)
        ensures
            r@ == self.spec_offsets(),
            r@.len() == self.spec_len() + 1,
            monotonic(r@),
            r@.last() <= self.spec_values().len(),
    {
        proof {
            use_type_invariant(self);
        }
        &self.offsets
    }

    /// The flat values buffer that the offsets index into.
    pub fn values(&self) -> (r: &Buffer<u8>)
        ensures
            r@ == self.spec_values(),
    {
        &self.values
    }

    /// The validity bitmap, if present; it always matches the length.
    pub fn validity(&self) -> (r: Option<&Bitmap>)
        ensures
            match r {
                Some(b) => self.spec_validity() == Some(b@) && b@.len() == self.spec_len(),
                None => self.spec_validity() is None,
            },
    {
        proof {
            use_type_invariant(self);
        }
        self.validity.as_ref()
    }

    pub fn is_valid(&self, i: usize) -> (r: bool)
        requires
            i < self.spec_len(),
        ensures
            r == self.valid_at(i as int),
    {
        proof {
            use_type_invariant(self);
        }
        match &self.validity {
            Some(b) => b.get_bit(i),
            None => true,
        }
    }

    /// The logical value of element `i`: its bytes where valid, null where
    /// not.
    pub fn get(&self, i: usize) -> (r: Option<Vec<u8>>)
        requires
            i < self.spec_len(),
        ensures
            match r {
                Some(b) => self.valid_at(i as int) && b@ == self.spec_elem(i as int),
                None => !self.valid_at(i as int),
            },
    {
        proof {
            use_type_invariant(self);
        }
        if !self.is_valid(i) {
            return None;
        }
        let n = self.len();
        proof {
            assert(i < n);
        }
        let start = *self.offsets.get(i);
        let end = *self.offsets.get(i + 1);
        let mut out: Vec<u8> = Vec::new();
        let mut p = start;
        while p < end
            invariant
                start <= p <= end,
                end <= self.spec_values().len(),
                out@ == self.spec_values().subrange(start as int, p as int),
            decreases end - p,
        {
            out.push(*self.values.get(p));
            proof {
                assert(out@ =~= self.spec_values().subrange(start as int, p + 1));
            }
            p = p + 1;
        }
        Some(out)
    }
}

} // verus!
