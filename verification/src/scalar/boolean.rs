use crate::datatypes::DataType;
use vstd::prelude::*;

verus! {

/// A single nullable boolean: a payload and an independent validity flag.
/// Equality is validity-aware: two invalid scalars are equal regardless of
/// their payloads.
#[derive(Debug, Clone, Copy)]
pub struct BooleanScalar {
    value: bool,
    is_valid: bool,
}

impl BooleanScalar {
    pub closed spec fn spec_value(self) -> bool {
        self.value
    }

    pub closed spec fn spec_is_valid(self) -> bool {
        self.is_valid
    }

    /// Wraps a logical value: null becomes an invalid scalar with a default
    /// payload.
    pub fn new(v: Option<bool>) -> (r: BooleanScalar)
        ensures
            r.spec_is_valid() == (v is Some),
            r.spec_value() == (v == Some(true)),
    {
        match v {
            Some(b) => BooleanScalar { value: b, is_valid: true },
            None => BooleanScalar { value: false, is_valid: false },
        }
    }

    /// The payload, meaningful only where the scalar is valid.
    pub fn value(&self) -> (r: bool)
        ensures
            r == self.spec_value(),
    {
        self.value
    }

    pub fn is_valid(&self) -> (r: bool)
        ensures
            r == self.spec_is_valid(),
    {
        self.is_valid
    }

    pub fn data_type(&self) -> (r: DataType)
        ensures
            r == DataType::Boolean,
    {
        DataType::Boolean
    }
}

impl PartialEq for BooleanScalar {
    /// Validity-aware equality: valid scalars compare by payload; invalid
    /// ones are equal to each other whatever their payloads.
    fn eq(&self, other: &Self) -> (r: bool) {
        self.is_valid == other.is_valid && ((!self.is_valid) || (self.value == other.value))
    }
}

impl vstd::std_specs::cmp::PartialEqSpecImpl for BooleanScalar {
    open spec fn obeys_eq_spec() -> bool {
        true
    }

    open spec fn eq_spec(&self, other: &Self) -> bool {
        self.spec_is_valid() == other.spec_is_valid() && (!self.spec_is_valid()
            || self.spec_value() == other.spec_value())
    }
}

impl From<Option<bool>> for BooleanScalar {
    fn from(v: Option<bool>) -> (r: BooleanScalar) {
        BooleanScalar::new(v)
    }
}

impl vstd::std_specs::convert::FromSpecImpl<Option<bool>> for BooleanScalar {
    open spec fn obeys_from_spec() -> bool {
        true
    }

    open spec fn from_spec(v: Option<bool>) -> BooleanScalar {
        BooleanScalar::new_spec(v)
    }
}

impl BooleanScalar {
    /// The scalar that `new` builds, as a specification value.
    pub closed spec fn new_spec(v: Option<bool>) -> BooleanScalar {
        BooleanScalar { value: v == Some(true), is_valid: v is Some }
    }

    pub proof fn lemma_new_spec(v: Option<bool>)
        ensures
            BooleanScalar::new_spec(v).spec_is_valid() == (v is Some),
            BooleanScalar::new_spec(v).spec_value() == (v == Some(true)),
    {
    }
}

} // verus!
