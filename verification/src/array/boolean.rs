use crate::bitmap::Bitmap;
use crate::datatypes::DataType;
use vstd::prelude::*;

verus! {

/// A nullable array of booleans: a values bitmap plus an optional validity
/// bitmap of the same length.
#[derive(Debug)]
pub struct BooleanArray {
    data_type: DataType,
    values: Bitmap,
    validity: Option<Bitmap>,
}

impl BooleanArray {
    #[verifier::type_invariant]
    spec fn inv(self) -> bool {
        &&& self.data_type == DataType::Boolean
        &&& match self.validity {
            Some(b) => b@.len() == self.values@.len(),
            None => true,
        }
    }

    pub closed spec fn spec_values(self) -> Seq<bool> {
        self.values@
    }

    pub closed spec fn spec_validity(self) -> Option<Seq<bool>> {
        match self.validity {
            Some(b) => Some(b@),
            None => None,
        }
    }

    pub closed spec fn spec_data_type(self) -> DataType {
        self.data_type
    }

    pub open spec fn spec_len(self) -> nat {
        self.spec_values().len()
    }

    pub open spec fn valid_at(self, i: int) -> bool {
        match self.spec_validity() {
            Some(v) => v[i],
            None => true,
        }
    }
}

/// The logical value of one slot: the payload bit where valid, null
/// otherwise.
impl View for BooleanArray {
    type V = Seq<Option<bool>>;

    open spec fn view(&self) -> Seq<Option<bool>> {
        Seq::new(
            self.spec_len(),
            |i: int|
                if self.valid_at(i) {
                    Some(self.spec_values()[i])
                } else {
                    None
                },
        )
    }
}

impl BooleanArray {
    /// Builds an array from its parts. The logical type must be boolean and
    /// a present validity bitmap must match the values' length.
    pub fn from_data(data_type: DataType, values: Bitmap, validity: Option<Bitmap>) -> (r:
        BooleanArray)
        requires
            data_type == DataType::Boolean,
            match validity {
                Some(b) => b@.len() == values@.len(),
                None => true,
            },
        ensures
            r.spec_data_type() == data_type,
            r.spec_values() == values@,
            r.spec_validity() == match validity {
                Some(b) => Some(b@),
                None => None::<Seq<bool>>,
            },
    {
        BooleanArray { data_type, values, validity }
    }

    pub fn len(&self) -> (r: usize)
        ensures
            r == self.spec_len(),
    {
        self.values.len()
    }

    pub fn data_type(&self) -> (r: DataType)
        ensures
            r == self.spec_data_type(),
            r == DataType::Boolean,
    {
        proof {
            use_type_invariant(self);
        }
        self.data_type
    }

    /// Where this array's values start inside their underlying allocation.
    pub fn offset(&self) -> (r: usize)
        ensures
            r == self.values_offset(),
    {
        self.values.offset()
    }

    pub closed spec fn values_offset(self) -> nat {
        self.values.spec_offset()
    }

    /// The values bitmap.
    pub fn values(&self) -> (r: &Bitmap)
        ensures
            r@ == self.spec_values(),
    {
        &self.values
    }

    /// The validity bitmap, if present; it always matches the length.
    pub fn validity(&self) -> (r: Option<&Bitmap>)
        ensures
            match r {
                Some(b) => self.spec_validity() == Some(b@) && b@.len() == self.spec_len(),
                None => self.spec_validity() is None,
            },
    {
        proof {
            use_type_invariant(self);
        }
        self.validity.as_ref()
    }

    pub fn is_valid(&self, i: usize) -> (r: bool)
        requires
            i < self.spec_len(),
        ensures
            r == self.valid_at(i as int),
    {
        proof {
            use_type_invariant(self);
        }
        match &self.validity {
            Some(b) => b.get_bit(i),
            None => true,
        }
    }

    /// The logical value of slot `i`.
    pub fn get(&self, i: usize) -> (r: Option<bool>)
        requires
            i < self.spec_len(),
        ensures
            r == self@[i as int],
    {
        if self.is_valid(i) {
            Some(self.values.get_bit(i))
        } else {
            None
        }
    }

    /// O(1) zero-copy slice: shares both bitmaps.
    pub fn slice(&self, offset: usize, length: usize) -> (r: BooleanArray)
        requires
            offset + length <= self.spec_len(),
        ensures
            r.spec_data_type() == self.spec_data_type(),
            r@ == self@.subrange(offset as int, offset + length),
    {
        proof {
            use_type_invariant(self);
        }
        let values = self.values.slice(offset, length);
        let validity = match &self.validity {
            Some(b) => Some(b.slice(offset, length)),
            None => None,
        };
        let r = BooleanArray { data_type: self.data_type, values, validity };
        proof {
            assert(r@ =~= self@.subrange(offset as int, offset + length));
        }
        r
    }
}

} // verus!
