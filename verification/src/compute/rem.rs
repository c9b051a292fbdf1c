use crate::array::primitive::PrimitiveArray;
use crate::bitmap::Bitmap;
use crate::buffer::Buffer;
use crate::error::ArrowError;
use crate::types::{rem_defined, rem_value, NativeType};
use vstd::prelude::*;

verus! {

/// What the unchecked remainder kernel produces: per slot, the native
/// remainder of the raw payloads, valid where both operands are valid.
pub open spec fn is_rem_output<T: NativeType>(
    lhs: PrimitiveArray<T>,
    rhs: PrimitiveArray<T>,
    out: PrimitiveArray<T>,
) -> bool {
    &&& out.spec_data_type() == lhs.spec_data_type()
    &&& out.spec_len() == lhs.spec_len()
    &&& forall|i: int|
        0 <= i < out.spec_len() ==> out.valid_at(i) == (lhs.valid_at(i) && rhs.valid_at(i))
    &&& forall|i: int|
        0 <= i < out.spec_len() ==> (#[trigger] out.spec_values()[i]).to_int() == rem_value(
            lhs.spec_values()[i],
            rhs.spec_values()[i],
        )
}

/// What the checked remainder kernel produces: per slot, the native
/// remainder where it is defined, and an invalid slot with a zero payload
/// where the native operator would fault.
pub open spec fn is_checked_rem_output<T: NativeType>(
    lhs: PrimitiveArray<T>,
    rhs: PrimitiveArray<T>,
    out: PrimitiveArray<T>,
) -> bool {
    &&& out.spec_data_type() == lhs.spec_data_type()
    &&& out.spec_len() == lhs.spec_len()
    &&& forall|i: int|
        0 <= i < out.spec_len() ==> out.valid_at(i) == (lhs.valid_at(i) && rhs.valid_at(i)
            && rem_defined(lhs.spec_values()[i], rhs.spec_values()[i]))
    &&& forall|i: int|
        0 <= i < out.spec_len() ==> (#[trigger] out.spec_values()[i]).to_int() == if rem_defined(
            lhs.spec_values()[i],
            rhs.spec_values()[i],
        ) {
            rem_value(lhs.spec_values()[i], rhs.spec_values()[i])
        } else {
            0
        }
}

/// Remainder of two primitive arrays of the same logical type, slot by slot.
/// The native operator faults on a zero divisor or an overflowing pair, so
/// such pairs are excluded up front; `checked_rem` accepts them instead.
/// Mismatched logical types or lengths fail before any slot is processed.
pub fn rem<T: NativeType>(lhs: &PrimitiveArray<T>, rhs: &PrimitiveArray<T>) -> (r: Result<
    PrimitiveArray<T>,
    ArrowError,
>)
    requires
        (lhs.spec_data_type() == rhs.spec_data_type() && lhs.spec_len() == rhs.spec_len())
            ==> forall|i: int|
            0 <= i < lhs.spec_len() ==> rem_defined(
                #[trigger] lhs.spec_values()[i],
                rhs.spec_values()[i],
            ),
    ensures
        r is Ok <==> (lhs.spec_data_type() == rhs.spec_data_type() && lhs.spec_len()
            == rhs.spec_len()),
        match r {
            Ok(out) => is_rem_output(*lhs, *rhs, out),
            Err(e) => (e == ArrowError::TypeMismatch && lhs.spec_data_type()
                != rhs.spec_data_type()) || (e == ArrowError::LengthMismatch
                && lhs.spec_data_type() == rhs.spec_data_type() && lhs.spec_len()
                != rhs.spec_len()),
        },
{
    if lhs.data_type() != rhs.data_type() {
        return Err(ArrowError::TypeMismatch);
    }
    let n = lhs.len();
    if n != rhs.len() {
        return Err(ArrowError::LengthMismatch);
    }
    let lv = lhs.values();
    let rv = rhs.values();
    let mut values: Vec<T> = Vec::new();
    let mut vbits: Vec<bool> = Vec::new();
    let mut i: usize = 0;
    while i < n
        invariant
            i <= n,
            n == lhs.spec_len(),
            n == rhs.spec_len(),
            lv@ == lhs.spec_values(),
            rv@ == rhs.spec_values(),
            forall|j: int|
                0 <= j < n ==> rem_defined(#[trigger] lhs.spec_values()[j], rhs.spec_values()[j]),
            values@.len() == i,
            vbits@.len() == i,
            forall|j: int|
                0 <= j < i ==> (#[trigger] values@[j]).to_int() == rem_value(
                    lhs.spec_values()[j],
                    rhs.spec_values()[j],
                ),
            forall|j: int|
                0 <= j < i ==> vbits@[j] == (lhs.valid_at(j) && rhs.valid_at(j)),
        decreases n - i,
    {
        let a = *lv.get(i);
        let b = *rv.get(i);
        values.push(a.rem_op(b));
        vbits.push(lhs.is_valid(i) && rhs.is_valid(i));
        i = i + 1;
    }
    let validity = if lhs.validity().is_some() || rhs.validity().is_some() {
        Some(Bitmap::from_vec(vbits))
    } else {
        None
    };
    let out = PrimitiveArray::from_data(lhs.data_type(), Buffer::from_vec(values), validity);
    Ok(out)
}

/// Checked remainder of two primitive arrays: where the native operator
/// would fault (zero divisor, overflow), the slot becomes invalid instead,
/// and the kernel always completes. Mismatched logical types or lengths
/// still fail before any slot is processed.
pub fn checked_rem<T: NativeType>(lhs: &PrimitiveArray<T>, rhs: &PrimitiveArray<T>) -> (r: Result<
    PrimitiveArray<T>,
    ArrowError,
>)
    ensures
        r is Ok <==> (lhs.spec_data_type() == rhs.spec_data_type() && lhs.spec_len()
            == rhs.spec_len()),
        match r {
            Ok(out) => is_checked_rem_output(*lhs, *rhs, out),
            Err(e) => (e == ArrowError::TypeMismatch && lhs.spec_data_type()
                != rhs.spec_data_type()) || (e == ArrowError::LengthMismatch
                && lhs.spec_data_type() == rhs.spec_data_type() && lhs.spec_len()
                != rhs.spec_len()),
        },
{
    if lhs.data_type() != rhs.data_type() {
        return Err(ArrowError::TypeMismatch);
    }
    let n = lhs.len();
    if n != rhs.len() {
        return Err(ArrowError::LengthMismatch);
    }
    let lv = lhs.values();
    let rv = rhs.values();
    let mut values: Vec<T> = Vec::new();
    let mut vbits: Vec<bool> = Vec::new();
    let mut any_invalid = false;
    let mut i: usize = 0;
    while i < n
        invariant
            i <= n,
            n == lhs.spec_len(),
            n == rhs.spec_len(),
            lv@ == lhs.spec_values(),
            rv@ == rhs.spec_values(),
            values@.len() == i,
            vbits@.len() == i,
            forall|j: int|
                0 <= j < i ==> (#[trigger] values@[j]).to_int() == if rem_defined(
                    lhs.spec_values()[j],
                    rhs.spec_values()[j],
                ) {
                    rem_value(lhs.spec_values()[j], rhs.spec_values()[j])
                } else {
                    0
                },
            forall|j: int|
                0 <= j < i ==> vbits@[j] == (lhs.valid_at(j) && rhs.valid_at(j) && rem_defined(
                    lhs.spec_values()[j],
                    rhs.spec_values()[j],
                )),
            any_invalid == exists|j: int| 0 <= j < i && !vbits@[j],
        decreases n - i,
    {
        let a = *lv.get(i);
        let b = *rv.get(i);
        let defined = match a.checked_rem_op(b) {
            Some(v) => {
                values.push(v);
                true
            },
            None => {
                values.push(T::zero());
                false
            },
        };
        let vb = lhs.is_valid(i) && rhs.is_valid(i) && defined;
        let ghost prev = vbits@;
        vbits.push(vb);
        if !vb {
            any_invalid = true;
        }
        proof {
            if exists|j: int| 0 <= j < prev.len() && !prev[j] {
                let j = choose|j: int| 0 <= j < prev.len() && !prev[j];
                assert(!vbits@[j]);
            }
            if !vb {
                assert(!vbits@[prev.len() as int]);
            }
            assert forall|j: int| 0 <= j < vbits@.len() && !vbits@[j] implies (0 <= j < prev.len()
                && !prev[j]) || !vb by {
                if j < prev.len() {
                    assert(!prev[j]);
                }
            }
        }
        i = i + 1;
    }
    let validity = if any_invalid {
        Some(Bitmap::from_vec(vbits))
    } else {
        None
    };
    let out = PrimitiveArray::from_data(lhs.data_type(), Buffer::from_vec(values), validity);
    Ok(out)
}

/// Remainder of a primitive array by a broadcast scalar. Unsigned widths
/// route through a reciprocal-based strength reduction in place of the
/// native operator; the result is bit-identical to the generic path, as
/// `lemma_rem_scalar_agrees` states. The native operator faults where the
/// remainder is undefined, so such inputs are excluded;
/// `checked_rem_scalar` accepts them instead.
pub fn rem_scalar<T: NativeType>(lhs: &PrimitiveArray<T>, rhs: &T) -> (out: PrimitiveArray<T>)
    requires
        forall|i: int|
            0 <= i < lhs.spec_len() ==> rem_defined(#[trigger] lhs.spec_values()[i], *rhs),
    ensures
        out.spec_data_type() == lhs.spec_data_type(),
        out.spec_len() == lhs.spec_len(),
        out.spec_validity() == lhs.spec_validity(),
        forall|i: int|
            0 <= i < out.spec_len() ==> (#[trigger] out.spec_values()[i]).to_int() == rem_value(
                lhs.spec_values()[i],
                *rhs,
            ),
{
    let n = lhs.len();
    let lv = lhs.values();
    let d = *rhs;
    let mut values: Vec<T> = Vec::new();
    let mut i: usize = 0;
    while i < n
        invariant
            i <= n,
            n == lhs.spec_len(),
            lv@ == lhs.spec_values(),
            d == *rhs,
            forall|j: int|
                0 <= j < n ==> rem_defined(#[trigger] lhs.spec_values()[j], *rhs),
            values@.len() == i,
            forall|j: int|
                0 <= j < i ==> (#[trigger] values@[j]).to_int() == rem_value(
                    lhs.spec_values()[j],
                    *rhs,
                ),
        decreases n - i,
    {
        let a = *lv.get(i);
        values.push(a.rem_scalar_op(d));
        i = i + 1;
    }
    let validity = match lhs.validity() {
        Some(b) => Some(b.clone_shared()),
        None => None,
    };
    PrimitiveArray::from_data(lhs.data_type(), Buffer::from_vec(values), validity)
}

/// Checked remainder of a primitive array by a broadcast scalar: a slot
/// where the native operator would fault becomes invalid with a zero
/// payload, and the kernel always completes.
pub fn checked_rem_scalar<T: NativeType>(lhs: &PrimitiveArray<T>, rhs: &T) -> (out: PrimitiveArray<
    T,
>)
    ensures
        out.spec_data_type() == lhs.spec_data_type(),
        out.spec_len() == lhs.spec_len(),
        forall|i: int|
            0 <= i < out.spec_len() ==> out.valid_at(i) == (lhs.valid_at(i) && rem_defined(
                lhs.spec_values()[i],
                *rhs,
            )),
        forall|i: int|
            0 <= i < out.spec_len() ==> (#[trigger] out.spec_values()[i]).to_int() == if rem_defined(
                lhs.spec_values()[i],
                *rhs,
            ) {
                rem_value(lhs.spec_values()[i], *rhs)
            } else {
                0
            },
{
    let n = lhs.len();
    let lv = lhs.values();
    let d = *rhs;
    let mut values: Vec<T> = Vec::new();
    let mut vbits: Vec<bool> = Vec::new();
    let mut any_invalid = false;
    let mut i: usize = 0;
    while i < n
        invariant
            i <= n,
            n == lhs.spec_len(),
            lv@ == lhs.spec_values(),
            d == *rhs,
            values@.len() == i,
            vbits@.len() == i,
            forall|j: int|
                0 <= j < i ==> (#[trigger] values@[j]).to_int() == if rem_defined(
                    lhs.spec_values()[j],
                    *rhs,
                ) {
                    rem_value(lhs.spec_values()[j], *rhs)
                } else {
                    0
                },
            forall|j: int|
                0 <= j < i ==> vbits@[j] == (lhs.valid_at(j) && rem_defined(
                    lhs.spec_values()[j],
                    *rhs,
                )),
            any_invalid == exists|j: int| 0 <= j < i && !vbits@[j],
        decreases n - i,
    {
        let a = *lv.get(i);
        let defined = match a.checked_rem_op(d) {
            Some(v) => {
                values.push(v);
                true
            },
            None => {
                values.push(T::zero());
                false
            },
        };
        let vb = lhs.is_valid(i) && defined;
        let ghost prev = vbits@;
        vbits.push(vb);
        if !vb {
            any_invalid = true;
        }
        proof {
            if exists|j: int| 0 <= j < prev.len() && !prev[j] {
                let j = choose|j: int| 0 <= j < prev.len() && !prev[j];
                assert(!vbits@[j]);
            }
            if !vb {
                assert(!vbits@[prev.len() as int]);
            }
            assert forall|j: int| 0 <= j < vbits@.len() && !vbits@[j] implies (0 <= j < prev.len()
                && !prev[j]) || !vb by {
                if j < prev.len() {
                    assert(!prev[j]);
                }
            }
        }
        i = i + 1;
    }
    let validity = if any_invalid {
        Some(Bitmap::from_vec(vbits))
    } else {
        None
    };
    PrimitiveArray::from_data(lhs.data_type(), Buffer::from_vec(values), validity)
}

/// Checked/unchecked agreement: on operands whose native remainder is
/// defined at every slot, the checked kernel's logical result is the
/// unchecked kernel's, slot for slot.
pub proof fn lemma_checked_rem_agrees<T: NativeType>(
    lhs: PrimitiveArray<T>,
    rhs: PrimitiveArray<T>,
    out: PrimitiveArray<T>,
    out_checked: PrimitiveArray<T>,
)
    requires
        lhs.spec_len() == rhs.spec_len(),
        forall|i: int|
            0 <= i < lhs.spec_len() ==> rem_defined(
                #[trigger] lhs.spec_values()[i],
                rhs.spec_values()[i],
            ),
        is_rem_output(lhs, rhs, out),
        is_checked_rem_output(lhs, rhs, out_checked),
    ensures
        out@ =~= out_checked@,
{
    assert forall|i: int| 0 <= i < out@.len() implies out@[i] == out_checked@[i] by {
        assert(out.valid_at(i) == out_checked.valid_at(i));
        let a = out.spec_values()[i];
        let b = out_checked.spec_values()[i];
        T::to_int_injective(a, b);
    }
}

/// The scalar fast path agrees with the generic elementwise path: a
/// broadcast divisor gives, slot for slot, the same logical result as the
/// unchecked array kernel applied to any equal-length array that holds that
/// divisor in every slot and is everywhere valid.
pub proof fn lemma_rem_scalar_agrees<T: NativeType>(
    lhs: PrimitiveArray<T>,
    rhs: PrimitiveArray<T>,
    d: T,
    out_scalar: PrimitiveArray<T>,
    out_generic: PrimitiveArray<T>,
)
    requires
        lhs.spec_len() == rhs.spec_len(),
        forall|i: int| 0 <= i < rhs.spec_len() ==> #[trigger] rhs.spec_values()[i] == d,
        forall|i: int| 0 <= i < rhs.spec_len() ==> #[trigger] rhs.valid_at(i),
        out_scalar.spec_len() == lhs.spec_len(),
        out_scalar.spec_validity() == lhs.spec_validity(),
        forall|i: int|
            0 <= i < out_scalar.spec_len() ==> (#[trigger] out_scalar.spec_values()[i]).to_int()
                == rem_value(lhs.spec_values()[i], d),
        is_rem_output(lhs, rhs, out_generic),
    ensures
        out_scalar@ =~= out_generic@,
{
    assert forall|i: int| 0 <= i < out_scalar@.len() implies out_scalar@[i] == out_generic@[i] by {
        assert(out_scalar.valid_at(i) == lhs.valid_at(i));
        let a = out_scalar.spec_values()[i];
        let b = out_generic.spec_values()[i];
        T::to_int_injective(a, b);
    }
}

} // verus!
