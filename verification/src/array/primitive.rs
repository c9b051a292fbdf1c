use crate::bitmap::{count_set, Bitmap};
use crate::buffer::Buffer;
use crate::datatypes::DataType;
use crate::types::NativeType;
use vstd::prelude::*;

verus! {

/// A typed, nullable, immutable array of fixed-width native values: a shared
/// values buffer plus an optional validity bitmap. Absence of the bitmap
/// means every element is valid.
#[derive(Debug)]
pub struct PrimitiveArray<T> {
    data_type: DataType,
    values: Buffer<T>,
    validity: Option<Bitmap>,
}

impl<T> PrimitiveArray<T> {
    #[verifier::type_invariant]
    spec fn inv(self) -> bool {
        match self.validity {
            Some(b) => b@.len() == self.values@.len(),
            None => true,
        }
    }

    /// The raw values, including the payloads of invalid slots.
    pub closed spec fn spec_values(self) -> Seq<T> {
        self.values@
    }

    /// The validity bits, if a bitmap is present.
    pub closed spec fn spec_validity(self) -> Option<Seq<bool>> {
        match self.validity {
            Some(b) => Some(b@),
            None => None,
        }
    }

    pub closed spec fn spec_data_type(self) -> DataType {
        self.data_type
    }

    pub open spec fn spec_len(self) -> nat {
        self.spec_values().len()
    }

    /// Whether element `i` is valid; no bitmap means unconditionally valid.
    pub open spec fn valid_at(self, i: int) -> bool {
        match self.spec_validity() {
            Some(v) => v[i],
            None => true,
        }
    }
}

/// The logical value of one slot: the payload where valid, null otherwise.
impl<T: NativeType> View for PrimitiveArray<T> {
    type V = Seq<Option<T>>;

    open spec fn view(&self) -> Seq<Option<T>> {
        Seq::new(
            self.spec_len(),
            |i: int|
                if self.valid_at(i) {
                    Some(self.spec_values()[i])
                } else {
                    None
                },
        )
    }
}

impl<T: NativeType> PrimitiveArray<T> {
    /// Builds an array from its parts. A present validity bitmap must match
    /// the values' length.
    pub fn from_data(data_type: DataType, values: Buffer<T>, validity: Option<Bitmap>) -> (r:
        PrimitiveArray<T>)
        requires
            match validity {
                Some(b) => b@.len() == values@.len(),
                None => true,
            },
        ensures
            r.spec_data_type() == data_type,
            r.spec_values() == values@,
            r.spec_validity() == match validity {
                Some(b) => Some(b@),
                None => None::<Seq<bool>>,
            },
    {
        PrimitiveArray { data_type, values, validity }
    }

    /// Builds an all-valid array from a vector of values.
    pub fn from_values(data_type: DataType, v: Vec<T>) -> (r: PrimitiveArray<T>)
        ensures
            r.spec_data_type() == data_type,
            r.spec_values() == v@,
            r.spec_validity() is None,
            r@ == v@.map_values(|x: T| Some(x)),
    {
        let r = PrimitiveArray { data_type, values: Buffer::from_vec(v), validity: None };
        proof {
            assert(r@ =~= v@.map_values(|x: T| Some(x)));
        }
        r
    }

    /// Builds an array from logical values: a null becomes an invalid slot
    /// with a zero payload. The validity bitmap is materialized only if at
    /// least one null occurs.
    pub fn from_options(data_type: DataType, v: Vec<Option<T>>) -> (r: PrimitiveArray<T>)
        ensures
            r.spec_data_type() == data_type,
            r@ == v@,
    {
        let n = v.len();
        let mut values: Vec<T> = Vec::new();
        let mut validity: Vec<bool> = Vec::new();
        let mut has_null = false;
        let mut i: usize = 0;
        while i < n
            invariant
                i <= n,
                n == v@.len(),
                values@.len() == i,
                validity@.len() == i,
                forall|j: int|
                    0 <= j < i ==> validity@[j] == (v@[j] is Some),
                forall|j: int|
                    0 <= j < i ==> #[trigger] values@[j] == if v@[j] is Some {
                        v@[j]->0
                    } else {
                        T::wrap_from_i128(0)
                    },
                has_null == exists|j: int| 0 <= j < i && v@[j] is None,
            decreases n - i,
        {
            match v[i] {
                Some(x) => {
                    values.push(x);
                    validity.push(true);
                },
                None => {
                    values.push(T::from_i128_wrap(0));
                    validity.push(false);
                    has_null = true;
                },
            }
            i = i + 1;
        }
        let values = Buffer::from_vec(values);
        let validity = if has_null {
            Some(Bitmap::from_vec(validity))
        } else {
            None
        };
        let r = PrimitiveArray { data_type, values, validity };
        proof {
            assert(r@ =~= v@);
        }
        r
    }

    pub fn len(&self) -> (r: usize)
        ensures
            r == self.spec_len(),
    {
        self.values.len()
    }

    pub fn data_type(&self) -> (r: DataType)
        ensures
            r == self.spec_data_type(),
    {
        self.data_type
    }

    /// The raw values buffer.
    pub fn values(&self) -> (r: &Buffer<T>)
        ensures
            r@ == self.spec_values(),
    {
        &self.values
    }

    /// The validity bitmap, if present. A present bitmap always matches the
    /// array's length.
    pub fn validity(&self) -> (r: Option<&Bitmap>)
        ensures
            match r {
                Some(b) => self.spec_validity() == Some(b@) && b@.len() == self.spec_len(),
                None => self.spec_validity() is None,
            },
    {
        proof {
            use_type_invariant(self);
        }
        self.validity.as_ref()
    }

    pub fn is_valid(&self, i: usize) -> (r: bool)
        requires
            i < self.spec_len(),
        ensures
            r == self.valid_at(i as int),
    {
        proof {
            use_type_invariant(self);
        }
        match &self.validity {
            Some(b) => b.get_bit(i),
            None => true,
        }
    }

    /// The logical value of slot `i`.
    pub fn get(&self, i: usize) -> (r: Option<T>)
        requires
            i < self.spec_len(),
        ensures
            r == self@[i as int],
    {
        if self.is_valid(i) {
            Some(*self.values.get(i))
        } else {
            None
        }
    }

    /// The number of invalid slots.
    pub fn null_count(&self) -> (r: usize)
        ensures
            r == match self.spec_validity() {
                Some(v) => v.len() - count_set(v),
                None => 0int,
            },
    {
        proof {
            use_type_invariant(self);
        }
        match &self.validity {
            Some(b) => b.unset_bits(),
            None => 0,
        }
    }

    /// O(1) zero-copy slice: shares both buffers.
    pub fn slice(&self, offset: usize, length: usize) -> (r: PrimitiveArray<T>)
        requires
            offset + length <= self.spec_len(),
        ensures
            r.spec_data_type() == self.spec_data_type(),
            r@ == self@.subrange(offset as int, offset + length),
    {
        proof {
            use_type_invariant(self);
        }
        let values = self.values.slice(offset, length);
        let validity = match &self.validity {
            Some(b) => Some(b.slice(offset, length)),
            None => None,
        };
        let r = PrimitiveArray { data_type: self.data_type, values, validity };
        proof {
            assert(r@ =~= self@.subrange(offset as int, offset + length));
        }
        r
    }
}

impl<T: NativeType> PartialEq for PrimitiveArray<T> {
    /// Logical equality: same tag, same length, and slot by slot the same
    /// validity and, where valid, the same value. Payloads of invalid slots
    /// do not matter.
    fn eq(&self, other: &Self) -> (r: bool) {
        proof {
            use_type_invariant(self);
            use_type_invariant(other);
        }
        if self.data_type != other.data_type {
            return false;
        }
        let n = self.values.len();
        if n != other.values.len() {
            proof {
                assert(self@.len() != other@.len());
            }
            return false;
        }
        let mut i: usize = 0;
        while i < n
            invariant
                i <= n,
                n == self.spec_len(),
                n == other.spec_len(),
                self.inv(),
                other.inv(),
                forall|j: int| 0 <= j < i ==> self@[j] == other@[j],
            decreases n - i,
        {
            let sv = match &self.validity {
                Some(b) => b.get_bit(i),
                None => true,
            };
            let ov = match &other.validity {
                Some(b) => b.get_bit(i),
                None => true,
            };
            if sv != ov {
                proof {
                    assert(self@[i as int] != other@[i as int]);
                }
                return false;
            }
            if sv {
                let a = *self.values.get(i);
                let b = *other.values.get(i);
                if !a.eq_op(b) {
                    proof {
                        T::to_int_injective(a, b);
                        assert(self@[i as int] != other@[i as int]);
                    }
                    return false;
                }
                proof {
                    T::to_int_injective(a, b);
                    assert(self@[i as int] == other@[i as int]);
                }
            } else {
                proof {
                    assert(self@[i as int] == other@[i as int]);
                }
            }
            i = i + 1;
        }
        proof {
            assert(self@ =~= other@);
        }
        true
    }
}

impl<T: NativeType> vstd::std_specs::cmp::PartialEqSpecImpl for PrimitiveArray<T> {
    open spec fn obeys_eq_spec() -> bool {
        true
    }

    open spec fn eq_spec(&self, other: &Self) -> bool {
        self.spec_data_type() == other.spec_data_type() && self@ =~= other@
    }
}

} // verus!
