use vstd::prelude::*;

pub mod boolean;
pub mod struct_;

verus! {

/// A single nullable value, dispatched over the supported scalar variants as
/// a closed sum.
#[derive(Debug)]
pub enum Scalar {
    Boolean(crate::scalar::boolean::BooleanScalar),
    Struct(crate::scalar::struct_::StructScalar),
}

impl Scalar {
    pub open spec fn spec_is_valid(self) -> bool {
        match self {
            Scalar::Boolean(s) => s.spec_is_valid(),
            Scalar::Struct(s) => s.spec_is_valid(),
        }
    }

    pub fn is_valid(&self) -> (r: bool)
        ensures
            r == self.spec_is_valid(),
    {
        match self {
            Scalar::Boolean(s) => s.is_valid(),
            Scalar::Struct(s) => s.is_valid(),
        }
    }
}

} // verus!
