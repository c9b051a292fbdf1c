use crate::datatypes::DataType;
use crate::scalar::Scalar;
use vstd::prelude::*;

verus! {

/// A single nullable struct value: child scalars, one per field, with an
/// independent validity flag and a logical tag.
#[derive(Debug)]
pub struct StructScalar {
    values: Vec<Scalar>,
    is_valid: bool,
    data_type: DataType,
}

impl StructScalar {
    pub closed spec fn spec_values(self) -> Seq<Scalar> {
        self.values@
    }

    pub closed spec fn spec_is_valid(self) -> bool {
        self.is_valid
    }

    pub closed spec fn spec_data_type(self) -> DataType {
        self.data_type
    }

    /// Wraps logical field values: null becomes an invalid scalar with no
    /// children.
    pub fn new(data_type: DataType, values: Option<Vec<Scalar>>) -> (r: StructScalar)
        ensures
            r.spec_data_type() == data_type,
            r.spec_is_valid() == (values is Some),
            r.spec_values() == match values {
                Some(v) => v@,
                None => Seq::<Scalar>::empty(),
            },
    {
        match values {
            Some(v) => StructScalar { values: v, is_valid: true, data_type },
            None => {
                let r = StructScalar { values: Vec::new(), is_valid: false, data_type };
                proof {
                    assert(r.spec_values() =~= Seq::<Scalar>::empty());
                }
                r
            },
        }
    }

    /// The child scalars, meaningful only where the scalar is valid.
    pub fn values(&self) -> (r: &Vec<Scalar>)
        ensures
            r@ == self.spec_values(),
    {
        &self.values
    }

    pub fn is_valid(&self) -> (r: bool)
        ensures
            r == self.spec_is_valid(),
    {
        self.is_valid
    }

    pub fn data_type(&self) -> (r: DataType)
        ensures
            r == self.spec_data_type(),
    {
        self.data_type
    }
}

} // verus!
