use crate::array::boolean::BooleanArray;
use crate::array::primitive::PrimitiveArray;
use crate::bitmap::Bitmap;
use crate::buffer::Buffer;
use crate::datatypes::{DataType, TimeUnit, MICROSECONDS, MILLISECONDS, MILLISECONDS_IN_DAY,
    NANOSECONDS, SECONDS_IN_DAY};
use crate::array::binary::{monotonic, BinaryArray, Utf8Array};
use crate::array::dictionary::DictionaryArray;
use crate::compute::take::generic_binary::extend_bytes;
use crate::error::ArrowError;
use crate::lexical::Lexical;
use crate::temporal_conversions::{fixed_offset_spec, naive_datetime_utf8, parse_fixed_offset,
    render_fixed, render_naive, render_tz, rfc3339_fixed_utf8, timestamp_to_secs_nsecs,
    ts_split_nsecs, ts_split_secs, tz_exists, tz_known, tz_rendered_utf8};
use vstd::string::StringSliceAdditionalSpecFns;
use crate::types::{trunc_div, NativeType};
use vstd::prelude::*;

verus! {

/// A boolean per slot: true where the value differs from the type's zero.
/// Validity is shared unchanged.
pub fn primitive_to_boolean<T: NativeType>(from: &PrimitiveArray<T>, to_type: DataType) -> (r:
    BooleanArray)
    requires
        to_type == DataType::Boolean,
    ensures
        r.spec_data_type() == to_type,
        r.spec_len() == from.spec_len(),
        r.spec_validity() == from.spec_validity(),
        forall|i: int|
            0 <= i < r.spec_len() ==> r.spec_values()[i] == ((
            #[trigger] from.spec_values()[i]).to_int() != 0),
{
    let n = from.len();
    let fv = from.values();
    let mut bits: Vec<bool> = Vec::new();
    let mut i: usize = 0;
    while i < n
        invariant
            i <= n,
            n == from.spec_len(),
            fv@ == from.spec_values(),
            bits@.len() == i,
            forall|j: int|
                0 <= j < i ==> bits@[j] == ((#[trigger] from.spec_values()[j]).to_int() != 0),
        decreases n - i,
    {
        bits.push(fv.get(i).is_nonzero());
        i = i + 1;
    }
    let validity = match from.validity() {
        Some(b) => Some(b.clone_shared()),
        None => None,
    };
    BooleanArray::from_data(to_type, Bitmap::from_vec(bits), validity)
}

/// Checked numeric conversion of each slot: a slot whose value the target
/// type cannot represent exactly becomes invalid; all others keep their
/// value. A bitmap is carried only if some slot is invalid.
pub fn primitive_to_primitive<I: NativeType, O: NativeType>(
    from: &PrimitiveArray<I>,
    to_type: &DataType,
) -> (r: PrimitiveArray<O>)
    ensures
        r.spec_data_type() == *to_type,
        r.spec_len() == from.spec_len(),
        forall|i: int|
            0 <= i < r.spec_len() ==> r.valid_at(i) == (from.valid_at(i) && O::min_int() <= (
            #[trigger] from.spec_values()[i]).to_int() <= O::max_int()),
        forall|i: int|
            0 <= i < r.spec_len() ==> (#[trigger] r.spec_values()[i]).to_int() == if (
            from.valid_at(i) && O::min_int() <= from.spec_values()[i].to_int() <= O::max_int()) {
                from.spec_values()[i].to_int()
            } else {
                0
            },
{
    let n = from.len();
    let fv = from.values();
    let mut values: Vec<O> = Vec::new();
    let mut vbits: Vec<bool> = Vec::new();
    let mut any_invalid = false;
    let mut i: usize = 0;
    while i < n
        invariant
            i <= n,
            n == from.spec_len(),
            fv@ == from.spec_values(),
            values@.len() == i,
            vbits@.len() == i,
            forall|j: int|
                0 <= j < i ==> vbits@[j] == (from.valid_at(j) && O::min_int() <= (
                #[trigger] from.spec_values()[j]).to_int() <= O::max_int()),
            forall|j: int|
                0 <= j < i ==> (#[trigger] values@[j]).to_int() == if (from.valid_at(j)
                    && O::min_int() <= from.spec_values()[j].to_int() <= O::max_int()) {
                    from.spec_values()[j].to_int()
                } else {
                    0
                },
            any_invalid == exists|j: int| 0 <= j < i && !vbits@[j],
        decreases n - i,
    {
        let x = *fv.get(i);
        let valid = from.is_valid(i);
        let vb: bool;
        if valid {
            match O::from_i128_checked(x.to_i128()) {
                Some(v) => {
                    values.push(v);
                    vb = true;
                },
                None => {
                    values.push(O::zero());
                    vb = false;
                },
            }
        } else {
            values.push(O::zero());
            vb = false;
        }
        let ghost prev_vbits = vbits@;
        vbits.push(vb);
        if !vb {
            any_invalid = true;
        }
        proof {
            if exists|j: int| 0 <= j < prev_vbits.len() && !prev_vbits[j] {
                let j = choose|j: int| 0 <= j < prev_vbits.len() && !prev_vbits[j];
                assert(!vbits@[j]);
            }
            if !vb {
                assert(!vbits@[prev_vbits.len() as int]);
            }
            assert forall|j: int|
                0 <= j < vbits@.len() && !vbits@[j] implies (0 <= j < prev_vbits.len()
                && !prev_vbits[j]) || !vb by {
                if j < prev_vbits.len() {
                    assert(!prev_vbits[j]);
                }
            }
            if !valid {
                assert(!from.valid_at(i as int));
            }
            assert(vbits@[i as int] == (from.valid_at(i as int) && O::min_int()
                <= from.spec_values()[i as int].to_int() <= O::max_int()));
        }
        i = i + 1;
    }
    let validity = if any_invalid {
        Some(Bitmap::from_vec(vbits))
    } else {
        None
    };
    PrimitiveArray::from_data(*to_type, Buffer::from_vec(values), validity)
}

/// Raw numeric reinterpretation of each slot with Rust's native
/// truncation/wraparound rule; it always succeeds and validity is shared
/// unchanged.
pub fn primitive_as_primitive<I: NativeType, O: NativeType>(
    from: &PrimitiveArray<I>,
    to_type: &DataType,
) -> (r: PrimitiveArray<O>)
    ensures
        r.spec_data_type() == *to_type,
        r.spec_len() == from.spec_len(),
        r.spec_validity() == from.spec_validity(),
        forall|i: int|
            0 <= i < r.spec_len() ==> #[trigger] r.spec_values()[i] == O::wrap_from_i128(
                from.spec_values()[i].to_int() as i128,
            ),
{
    let n = from.len();
    let fv = from.values();
    let mut values: Vec<O> = Vec::new();
    let mut i: usize = 0;
    while i < n
        invariant
            i <= n,
            n == from.spec_len(),
            fv@ == from.spec_values(),
            values@.len() == i,
            forall|j: int|
                0 <= j < i ==> #[trigger] values@[j] == O::wrap_from_i128(
                    from.spec_values()[j].to_int() as i128,
                ),
        decreases n - i,
    {
        let x = *fv.get(i);
        values.push(O::from_i128_wrap(x.to_i128()));
        i = i + 1;
    }
    let validity = match from.validity() {
        Some(b) => Some(b.clone_shared()),
        None => None,
    };
    PrimitiveArray::from_data(*to_type, Buffer::from_vec(values), validity)
}

/// Relabeling cast to the same physical type: O(1) and zero-copy, both
/// buffers are shared and only the logical tag changes; the result is
/// bit-identical to the source.
pub fn primitive_to_same_primitive<T: NativeType>(
    from: &PrimitiveArray<T>,
    to_type: &DataType,
) -> (r: PrimitiveArray<T>)
    ensures
        r.spec_data_type() == *to_type,
        r.spec_values() == from.spec_values(),
        r.spec_validity() == from.spec_validity(),
{
    let values = from.values().clone_shared();
    let validity = match from.validity() {
        Some(b) => Some(b.clone_shared()),
        None => None,
    };
    PrimitiveArray::from_data(*to_type, values, validity)
}

/// The length of a time unit as the number of its parts in one second.
pub open spec fn time_unit_multiple_spec(unit: TimeUnit) -> i64 {
    match unit {
        TimeUnit::Second => 1,
        TimeUnit::Millisecond => MILLISECONDS,
        TimeUnit::Microsecond => MICROSECONDS,
        TimeUnit::Nanosecond => NANOSECONDS,
    }
}

/// Get the time unit as a multiple of a second.
pub fn time_unit_multiple(unit: TimeUnit) -> (r: i64)
    ensures
        r == time_unit_multiple_spec(unit),
        1 <= r <= NANOSECONDS,
{
    match unit {
        TimeUnit::Second => 1,
        TimeUnit::Millisecond => MILLISECONDS,
        TimeUnit::Microsecond => MICROSECONDS,
        TimeUnit::Nanosecond => NANOSECONDS,
    }
}

/// Multiplies every slot of an `i32` array into an `i64`, exactly. Validity
/// is shared unchanged.
fn scale_i32_to_i64(from: &PrimitiveArray<i32>, factor: i64, to_type: DataType) -> (r:
    PrimitiveArray<i64>)
    requires
        0 <= factor <= NANOSECONDS,
    ensures
        r.spec_data_type() == to_type,
        r.spec_len() == from.spec_len(),
        r.spec_validity() == from.spec_validity(),
        forall|i: int|
            0 <= i < r.spec_len() ==> (#[trigger] r.spec_values()[i]) == from.spec_values()[i]
                * factor,
{
    let n = from.len();
    let fv = from.values();
    let mut values: Vec<i64> = Vec::new();
    let mut i: usize = 0;
    while i < n
        invariant
            i <= n,
            n == from.spec_len(),
            fv@ == from.spec_values(),
            0 <= factor <= NANOSECONDS,
            values@.len() == i,
            forall|j: int|
                0 <= j < i ==> (#[trigger] values@[j]) == from.spec_values()[j] * factor,
        decreases n - i,
    {
        let x = *fv.get(i);
        let wide: i64 = x as i64;
        proof {
            assert(wide * factor <= 2147483647i64 * 1000000000i64) by (nonlinear_arith)
                requires
                    wide <= 2147483647,
                    0 <= factor <= 1000000000,
            ;
            assert(wide * factor >= -2147483648i64 * 1000000000i64) by (nonlinear_arith)
                requires
                    wide >= -2147483648,
                    0 <= factor <= 1000000000,
            ;
        }
        values.push(wide * factor);
        i = i + 1;
    }
    let validity = match from.validity() {
        Some(b) => Some(b.clone_shared()),
        None => None,
    };
    PrimitiveArray::from_data(to_type, Buffer::from_vec(values), validity)
}

/// Divides every slot of an `i64` array by a positive divisor, truncating
/// toward zero. Validity is shared unchanged.
fn div_i64(from: &PrimitiveArray<i64>, divisor: i64, to_type: DataType) -> (r: PrimitiveArray<i64>)
    requires
        divisor > 0,
    ensures
        r.spec_data_type() == to_type,
        r.spec_len() == from.spec_len(),
        r.spec_validity() == from.spec_validity(),
        forall|i: int|
            0 <= i < r.spec_len() ==> (#[trigger] r.spec_values()[i]) == trunc_div(
                from.spec_values()[i] as int,
                divisor as int,
            ),
{
    let n = from.len();
    let fv = from.values();
    let mut values: Vec<i64> = Vec::new();
    let mut i: usize = 0;
    while i < n
        invariant
            i <= n,
            n == from.spec_len(),
            fv@ == from.spec_values(),
            divisor > 0,
            values@.len() == i,
            forall|j: int|
                0 <= j < i ==> (#[trigger] values@[j]) == trunc_div(
                    from.spec_values()[j] as int,
                    divisor as int,
                ),
        decreases n - i,
    {
        let x = *fv.get(i);
        match x.checked_div(divisor) {
            Some(q) => values.push(q),
            None => {
                proof {
                    assert(false);
                }
            },
        }
        i = i + 1;
    }
    let validity = match from.validity() {
        Some(b) => Some(b.clone_shared()),
        None => None,
    };
    PrimitiveArray::from_data(to_type, Buffer::from_vec(values), validity)
}

/// Multiplies every slot of an `i64` array, which must stay representable.
/// Validity is shared unchanged.
fn mul_i64(from: &PrimitiveArray<i64>, factor: i64, to_type: DataType) -> (r: PrimitiveArray<i64>)
    requires
        factor >= 1,
        forall|i: int|
            0 <= i < from.spec_len() ==> i64::MIN <= (#[trigger] from.spec_values()[i]) * factor
                <= i64::MAX,
    ensures
        r.spec_data_type() == to_type,
        r.spec_len() == from.spec_len(),
        r.spec_validity() == from.spec_validity(),
        forall|i: int|
            0 <= i < r.spec_len() ==> (#[trigger] r.spec_values()[i]) == from.spec_values()[i]
                * factor,
{
    let n = from.len();
    let fv = from.values();
    let mut values: Vec<i64> = Vec::new();
    let mut i: usize = 0;
    while i < n
        invariant
            i <= n,
            n == from.spec_len(),
            fv@ == from.spec_values(),
            forall|j: int|
                0 <= j < n ==> i64::MIN <= (#[trigger] from.spec_values()[j]) * factor <= i64::MAX,
            values@.len() == i,
            forall|j: int|
                0 <= j < i ==> (#[trigger] values@[j]) == from.spec_values()[j] * factor,
        decreases n - i,
    {
        let x = *fv.get(i);
        values.push(x * factor);
        i = i + 1;
    }
    let validity = match from.validity() {
        Some(b) => Some(b.clone_shared()),
        None => None,
    };
    PrimitiveArray::from_data(to_type, Buffer::from_vec(values), validity)
}

/// Divides every slot of an `i64` array by a positive divisor, truncating
/// toward zero, then narrows to `i32` with the native wraparound rule.
/// Validity is shared unchanged.
fn div_i64_to_i32(from: &PrimitiveArray<i64>, divisor: i64, to_type: DataType) -> (r:
    PrimitiveArray<i32>)
    requires
        divisor > 0,
    ensures
        r.spec_data_type() == to_type,
        r.spec_len() == from.spec_len(),
        r.spec_validity() == from.spec_validity(),
        forall|i: int|
            0 <= i < r.spec_len() ==> (#[trigger] r.spec_values()[i]) == (trunc_div(
                from.spec_values()[i] as int,
                divisor as int,
            ) as i32),
{
    let wide = div_i64(from, divisor, to_type);
    let n = wide.len();
    let wv = wide.values();
    let mut values: Vec<i32> = Vec::new();
    let mut i: usize = 0;
    while i < n
        invariant
            i <= n,
            n == wide.spec_len(),
            wv@ == wide.spec_values(),
            values@.len() == i,
            forall|j: int|
                0 <= j < i ==> (#[trigger] values@[j]) == (wide.spec_values()[j] as i32),
        decreases n - i,
    {
        let x = *wv.get(i);
        values.push(
            #[verifier::truncate]
            (x as i32),
        );
        i = i + 1;
    }
    let validity = match wide.validity() {
        Some(b) => Some(b.clone_shared()),
        None => None,
    };
    PrimitiveArray::from_data(to_type, Buffer::from_vec(values), validity)
}

/// Days since the epoch become milliseconds since the epoch: an exact
/// multiplication into the wider type.
pub fn date32_to_date64(from: &PrimitiveArray<i32>) -> (r: PrimitiveArray<i64>)
    ensures
        r.spec_data_type() == DataType::Date64,
        r.spec_len() == from.spec_len(),
        r.spec_validity() == from.spec_validity(),
        forall|i: int|
            0 <= i < r.spec_len() ==> (#[trigger] r.spec_values()[i]) == from.spec_values()[i]
                * MILLISECONDS_IN_DAY,
{
    scale_i32_to_i64(from, MILLISECONDS_IN_DAY, DataType::Date64)
}

/// Milliseconds since the epoch become days since the epoch: truncating
/// division, then the native narrowing to 32 bits.
pub fn date64_to_date32(from: &PrimitiveArray<i64>) -> (r: PrimitiveArray<i32>)
    ensures
        r.spec_data_type() == DataType::Date32,
        r.spec_len() == from.spec_len(),
        r.spec_validity() == from.spec_validity(),
        forall|i: int|
            0 <= i < r.spec_len() ==> (#[trigger] r.spec_values()[i]) == (trunc_div(
                from.spec_values()[i] as int,
                MILLISECONDS_IN_DAY as int,
            ) as i32),
{
    div_i64_to_i32(from, MILLISECONDS_IN_DAY, DataType::Date32)
}

/// Multiplies every slot of an `i32` array, which must stay representable.
/// Validity is shared unchanged.
fn mul_i32(from: &PrimitiveArray<i32>, factor: i32, to_type: DataType) -> (r: PrimitiveArray<i32>)
    requires
        factor >= 1,
        forall|i: int|
            0 <= i < from.spec_len() ==> i32::MIN <= (#[trigger] from.spec_values()[i]) * factor
                <= i32::MAX,
    ensures
        r.spec_data_type() == to_type,
        r.spec_len() == from.spec_len(),
        r.spec_validity() == from.spec_validity(),
        forall|i: int|
            0 <= i < r.spec_len() ==> (#[trigger] r.spec_values()[i]) == from.spec_values()[i]
                * factor,
{
    let n = from.len();
    let fv = from.values();
    let mut values: Vec<i32> = Vec::new();
    let mut i: usize = 0;
    while i < n
        invariant
            i <= n,
            n == from.spec_len(),
            fv@ == from.spec_values(),
            forall|j: int|
                0 <= j < n ==> i32::MIN <= (#[trigger] from.spec_values()[j]) * factor <= i32::MAX,
            values@.len() == i,
            forall|j: int|
                0 <= j < i ==> (#[trigger] values@[j]) == from.spec_values()[j] * factor,
        decreases n - i,
    {
        let x = *fv.get(i);
        values.push(x * factor);
        i = i + 1;
    }
    let validity = match from.validity() {
        Some(b) => Some(b.clone_shared()),
        None => None,
    };
    PrimitiveArray::from_data(to_type, Buffer::from_vec(values), validity)
}

/// Divides every slot of an `i32` array by a positive divisor, truncating
/// toward zero. Validity is shared unchanged.
fn div_i32(from: &PrimitiveArray<i32>, divisor: i32, to_type: DataType) -> (r: PrimitiveArray<i32>)
    requires
        divisor > 0,
    ensures
        r.spec_data_type() == to_type,
        r.spec_len() == from.spec_len(),
        r.spec_validity() == from.spec_validity(),
        forall|i: int|
            0 <= i < r.spec_len() ==> (#[trigger] r.spec_values()[i]) == trunc_div(
                from.spec_values()[i] as int,
                divisor as int,
            ),
{
    let n = from.len();
    let fv = from.values();
    let mut values: Vec<i32> = Vec::new();
    let mut i: usize = 0;
    while i < n
        invariant
            i <= n,
            n == from.spec_len(),
            fv@ == from.spec_values(),
            divisor > 0,
            values@.len() == i,
            forall|j: int|
                0 <= j < i ==> (#[trigger] values@[j]) == trunc_div(
                    from.spec_values()[j] as int,
                    divisor as int,
                ),
        decreases n - i,
    {
        let x = *fv.get(i);
        match x.checked_div(divisor) {
            Some(q) => values.push(q),
            None => {
                proof {
                    assert(false);
                }
            },
        }
        i = i + 1;
    }
    let validity = match from.validity() {
        Some(b) => Some(b.clone_shared()),
        None => None,
    };
    PrimitiveArray::from_data(to_type, Buffer::from_vec(values), validity)
}

/// Seconds-of-day become milliseconds-of-day; every slot must stay
/// representable in 32 bits, as the native multiplication would fault
/// otherwise.
pub fn time32s_to_time32ms(from: &PrimitiveArray<i32>) -> (r: PrimitiveArray<i32>)
    requires
        forall|i: int|
            0 <= i < from.spec_len() ==> i32::MIN <= (#[trigger] from.spec_values()[i]) * 1000
                <= i32::MAX,
    ensures
        r.spec_data_type() == DataType::Time32(TimeUnit::Millisecond),
        r.spec_len() == from.spec_len(),
        r.spec_validity() == from.spec_validity(),
        forall|i: int|
            0 <= i < r.spec_len() ==> (#[trigger] r.spec_values()[i]) == from.spec_values()[i]
                * 1000,
{
    mul_i32(from, 1000, DataType::Time32(TimeUnit::Millisecond))
}

/// Milliseconds-of-day become seconds-of-day, truncating toward zero.
pub fn time32ms_to_time32s(from: &PrimitiveArray<i32>) -> (r: PrimitiveArray<i32>)
    ensures
        r.spec_data_type() == DataType::Time32(TimeUnit::Second),
        r.spec_len() == from.spec_len(),
        r.spec_validity() == from.spec_validity(),
        forall|i: int|
            0 <= i < r.spec_len() ==> (#[trigger] r.spec_values()[i]) == trunc_div(
                from.spec_values()[i] as int,
                1000,
            ),
{
    div_i32(from, 1000, DataType::Time32(TimeUnit::Second))
}

/// Microseconds-of-day become nanoseconds-of-day; every slot must stay
/// representable in 64 bits.
pub fn time64us_to_time64ns(from: &PrimitiveArray<i64>) -> (r: PrimitiveArray<i64>)
    requires
        forall|i: int|
            0 <= i < from.spec_len() ==> i64::MIN <= (#[trigger] from.spec_values()[i]) * 1000
                <= i64::MAX,
    ensures
        r.spec_data_type() == DataType::Time64(TimeUnit::Nanosecond),
        r.spec_len() == from.spec_len(),
        r.spec_validity() == from.spec_validity(),
        forall|i: int|
            0 <= i < r.spec_len() ==> (#[trigger] r.spec_values()[i]) == from.spec_values()[i]
                * 1000,
{
    mul_i64(from, 1000, DataType::Time64(TimeUnit::Nanosecond))
}

/// Nanoseconds-of-day become microseconds-of-day, truncating toward zero.
pub fn time64ns_to_time64us(from: &PrimitiveArray<i64>) -> (r: PrimitiveArray<i64>)
    ensures
        r.spec_data_type() == DataType::Time64(TimeUnit::Microsecond),
        r.spec_len() == from.spec_len(),
        r.spec_validity() == from.spec_validity(),
        forall|i: int|
            0 <= i < r.spec_len() ==> (#[trigger] r.spec_values()[i]) == trunc_div(
                from.spec_values()[i] as int,
                1000,
            ),
{
    div_i64(from, 1000, DataType::Time64(TimeUnit::Microsecond))
}

/// Timestamps in any unit become milliseconds since the epoch: one exact
/// integer scaling per slot, dividing when the source unit is finer than a
/// millisecond and multiplying when it is coarser. A multiplied slot must
/// stay representable.
pub fn timestamp_to_date64(from: &PrimitiveArray<i64>, from_unit: TimeUnit) -> (r: PrimitiveArray<
    i64,
>)
    requires
        time_unit_multiple_spec(from_unit) < MILLISECONDS ==> forall|i: int|
            0 <= i < from.spec_len() ==> i64::MIN <= (#[trigger] from.spec_values()[i]) * (
            MILLISECONDS as int / time_unit_multiple_spec(from_unit) as int) <= i64::MAX,
    ensures
        r.spec_data_type() == DataType::Date64,
        r.spec_len() == from.spec_len(),
        r.spec_validity() == from.spec_validity(),
        time_unit_multiple_spec(from_unit) > MILLISECONDS ==> forall|i: int|
            0 <= i < r.spec_len() ==> (#[trigger] r.spec_values()[i]) == trunc_div(
                from.spec_values()[i] as int,
                time_unit_multiple_spec(from_unit) as int / MILLISECONDS as int,
            ),
        time_unit_multiple_spec(from_unit) == MILLISECONDS ==> r.spec_values()
            == from.spec_values(),
        time_unit_multiple_spec(from_unit) < MILLISECONDS ==> forall|i: int|
            0 <= i < r.spec_len() ==> (#[trigger] r.spec_values()[i]) == from.spec_values()[i] * (
            MILLISECONDS as int / time_unit_multiple_spec(from_unit) as int),
{
    let from_size = time_unit_multiple(from_unit);
    let to_size = MILLISECONDS;
    let to_type = DataType::Date64;
    proof {
        assert(from_size == 1 || from_size == 1000 || from_size == 1000000 || from_size
            == 1000000000);
        assert(from_size > 1000 ==> from_size / to_size >= 1 && (from_size / to_size) as int
            == from_size as int / to_size as int);
        assert(from_size < 1000 ==> to_size / from_size >= 1 && (to_size / from_size) as int
            == to_size as int / from_size as int);
    }
    if to_size < from_size {
        div_i64(from, from_size / to_size, to_type)
    } else if to_size == from_size {
        primitive_to_same_primitive(from, &to_type)
    } else {
        mul_i64(from, to_size / from_size, to_type)
    }
}

/// Timestamps in any unit become days since the epoch: truncating division
/// by the unit's length of a day, then the native narrowing to 32 bits.
pub fn timestamp_to_date32(from: &PrimitiveArray<i64>, from_unit: TimeUnit) -> (r: PrimitiveArray<
    i32,
>)
    ensures
        r.spec_data_type() == DataType::Date32,
        r.spec_len() == from.spec_len(),
        r.spec_validity() == from.spec_validity(),
        forall|i: int|
            0 <= i < r.spec_len() ==> (#[trigger] r.spec_values()[i]) == (trunc_div(
                from.spec_values()[i] as int,
                time_unit_multiple_spec(from_unit) as int * SECONDS_IN_DAY as int,
            ) as i32),
{
    let mult = time_unit_multiple(from_unit);
    proof {
        assert(mult == 1 || mult == 1000 || mult == 1000000 || mult == 1000000000);
    }
    let from_size = mult * SECONDS_IN_DAY;
    div_i64_to_i32(from, from_size, DataType::Date32)
}

/// A 32-bit time in one unit becomes a 64-bit time in a finer unit: an exact
/// multiplication by the integer ratio of the units. A target unit coarser
/// than the source gives a zero ratio and a zero result, as the native
/// integer ratio does.
pub fn time32_to_time64(
    from: &PrimitiveArray<i32>,
    from_unit: TimeUnit,
    to_unit: TimeUnit,
) -> (r: PrimitiveArray<i64>)
    ensures
        r.spec_data_type() == DataType::Time64(to_unit),
        r.spec_len() == from.spec_len(),
        r.spec_validity() == from.spec_validity(),
        forall|i: int|
            0 <= i < r.spec_len() ==> (#[trigger] r.spec_values()[i]) == from.spec_values()[i] * (
            time_unit_multiple_spec(to_unit) as int / time_unit_multiple_spec(from_unit) as int),
{
    let from_size = time_unit_multiple(from_unit);
    let to_size = time_unit_multiple(to_unit);
    let divisor = to_size / from_size;
    scale_i32_to_i64(from, divisor, DataType::Time64(to_unit))
}

/// A 64-bit time in one unit becomes a 32-bit time in a coarser unit:
/// truncating division by the integer ratio of the units, then the native
/// narrowing. The source unit must be at least as fine as the target, so
/// that the ratio is positive.
pub fn time64_to_time32(
    from: &PrimitiveArray<i64>,
    from_unit: TimeUnit,
    to_unit: TimeUnit,
) -> (r: PrimitiveArray<i32>)
    requires
        time_unit_multiple_spec(from_unit) >= time_unit_multiple_spec(to_unit),
    ensures
        r.spec_data_type() == DataType::Time32(to_unit),
        r.spec_len() == from.spec_len(),
        r.spec_validity() == from.spec_validity(),
        forall|i: int|
            0 <= i < r.spec_len() ==> (#[trigger] r.spec_values()[i]) == (trunc_div(
                from.spec_values()[i] as int,
                time_unit_multiple_spec(from_unit) as int / time_unit_multiple_spec(to_unit) as int,
            ) as i32),
{
    let from_size = time_unit_multiple(from_unit);
    let to_size = time_unit_multiple(to_unit);
    let divisor = match from_size.checked_div(to_size) {
        Some(d) => d,
        None => {
            proof {
                assert(false);
            }
            1
        },
    };
    proof {
        assert(divisor as int == from_size as int / to_size as int);
        vstd::arithmetic::div_mod::lemma_div_non_zero(from_size as int, to_size as int);
        assert(divisor >= 1);
    }
    div_i64_to_i32(from, divisor, DataType::Time32(to_unit))
}

/// Rescales timestamps between units: truncating division when the target
/// unit is coarser, exact multiplication when it is finer. A multiplied slot
/// must stay representable.
pub fn timestamp_to_timestamp(
    from: &PrimitiveArray<i64>,
    from_unit: TimeUnit,
    to_unit: TimeUnit,
) -> (r: PrimitiveArray<i64>)
    requires
        time_unit_multiple_spec(from_unit) < time_unit_multiple_spec(to_unit) ==> forall|i: int|
            0 <= i < from.spec_len() ==> i64::MIN <= (#[trigger] from.spec_values()[i]) * (
            time_unit_multiple_spec(to_unit) / time_unit_multiple_spec(from_unit)) <= i64::MAX,
    ensures
        r.spec_data_type() == DataType::Timestamp(to_unit),
        r.spec_len() == from.spec_len(),
        r.spec_validity() == from.spec_validity(),
        time_unit_multiple_spec(from_unit) >= time_unit_multiple_spec(to_unit) ==> forall|i: int|
            0 <= i < r.spec_len() ==> (#[trigger] r.spec_values()[i]) == trunc_div(
                from.spec_values()[i] as int,
                time_unit_multiple_spec(from_unit) as int / time_unit_multiple_spec(to_unit) as int,
            ),
        time_unit_multiple_spec(from_unit) < time_unit_multiple_spec(to_unit) ==> forall|i: int|
            0 <= i < r.spec_len() ==> (#[trigger] r.spec_values()[i]) == from.spec_values()[i] * (
            time_unit_multiple_spec(to_unit) as int / time_unit_multiple_spec(from_unit) as int),
{
    let from_size = time_unit_multiple(from_unit);
    let to_size = time_unit_multiple(to_unit);
    let to_type = DataType::Timestamp(to_unit);
    proof {
        assert(from_size == 1 || from_size == 1000 || from_size == 1000000 || from_size
            == 1000000000);
        assert(to_size == 1 || to_size == 1000 || to_size == 1000000 || to_size == 1000000000);
        assert(from_size >= to_size ==> from_size / to_size >= 1 && (from_size / to_size) as int
            == from_size as int / to_size as int);
        assert(from_size < to_size ==> to_size / from_size >= 1 && (to_size / from_size) as int
            == to_size as int / from_size as int);
    }
    if from_size >= to_size {
        div_i64(from, from_size / to_size, to_type)
    } else {
        mul_i64(from, to_size / from_size, to_type)
    }
}

/// Renders every valid slot as its decimal bytes in an offset-encoded array;
/// an invalid slot is a zero-width slot. Validity is shared unchanged.
fn lexical_encode<T: Lexical>(from: &PrimitiveArray<T>, to_type: DataType) -> (r: BinaryArray)
    ensures
        r.spec_data_type() == to_type,
        r.spec_len() == from.spec_len(),
        r.spec_validity() == from.spec_validity(),
        forall|i: int|
            0 <= i < r.spec_len() && from.valid_at(i) ==> #[trigger] r.spec_elem(i) == (
            #[trigger] from.spec_values()[i]).lexical_spec(),
        forall|i: int|
            0 <= i < r.spec_len() && !from.valid_at(i) ==> r.spec_offsets()[i + 1]
                == r.spec_offsets()[i],
{
    let n = from.len();
    let fv = from.values();
    let mut out_offsets: Vec<usize> = Vec::new();
    let mut out: Vec<u8> = Vec::new();
    out_offsets.push(0);
    let mut k: usize = 0;
    while k < n
        invariant
            k <= n,
            n == from.spec_len(),
            fv@ == from.spec_values(),
            out_offsets@.len() == k + 1,
            out_offsets@[0] == 0,
            monotonic(out_offsets@),
            out@.len() == out_offsets@[k as int],
            forall|j: int|
                0 <= j < k && from.valid_at(j) ==> out@.subrange(
                    out_offsets@[j] as int,
                    out_offsets@[j + 1] as int,
                ) == (#[trigger] from.spec_values()[j]).lexical_spec(),
            forall|j: int|
                0 <= j < k && !from.valid_at(j) ==> out_offsets@[j + 1] == out_offsets@[j],
        decreases n - k,
    {
        let ghost prev = out@;
        let ghost prev_offsets = out_offsets@;
        if from.is_valid(k) {
            let rendered = fv.get(k).to_lexical_bytes();
            extend_bytes(&mut out, rendered.as_slice(), 0, rendered.len());
            proof {
                assert(rendered@.subrange(0, rendered@.len() as int) =~= rendered@);
            }
        }
        let new_len = out.len();
        out_offsets.push(new_len);
        proof {
            assert forall|a: int, b: int|
                0 <= a <= b < out_offsets@.len() implies out_offsets@[a] <= out_offsets@[b] by {
                if b == out_offsets@.len() - 1 {
                    if a < b {
                        assert(prev_offsets[a] <= prev_offsets[k as int]);
                        assert(prev_offsets[k as int] == prev.len());
                        assert(out_offsets@[b] == new_len);
                    }
                } else {
                    assert(out_offsets@[a] == prev_offsets[a]);
                    assert(out_offsets@[b] == prev_offsets[b]);
                }
            }
            assert(monotonic(out_offsets@));
            if from.valid_at(k as int) {
                assert(out@.subrange(prev_offsets[k as int] as int, new_len as int)
                    =~= from.spec_values()[k as int].lexical_spec());
            }
            assert forall|j: int|
                0 <= j < k && from.valid_at(j) implies out@.subrange(
                out_offsets@[j] as int,
                out_offsets@[j + 1] as int,
            ) == (#[trigger] from.spec_values()[j]).lexical_spec() by {
                assert(out_offsets@[j + 1] == prev_offsets[j + 1]);
                assert(out_offsets@[j] == prev_offsets[j]);
                assert(prev_offsets[j + 1] <= prev_offsets[k as int]);
                assert(out@.subrange(out_offsets@[j] as int, out_offsets@[j + 1] as int)
                    =~= prev.subrange(prev_offsets[j] as int, prev_offsets[j + 1] as int));
            }
        }
        k = k + 1;
    }
    let validity = match from.validity() {
        Some(b) => Some(b.clone_shared()),
        None => None,
    };
    BinaryArray::from_data(to_type, Buffer::from_vec(out_offsets), Buffer::from_vec(out), validity)
}

/// A binary array whose every valid slot holds the decimal rendering of the
/// number; an invalid slot is a zero-width slot, and validity is shared
/// unchanged.
pub fn primitive_to_binary<T: Lexical>(from: &PrimitiveArray<T>) -> (r: BinaryArray)
    ensures
        r.spec_data_type() == DataType::Binary,
        r.spec_len() == from.spec_len(),
        r.spec_validity() == from.spec_validity(),
        forall|i: int|
            0 <= i < r.spec_len() && from.valid_at(i) ==> #[trigger] r.spec_elem(i) == (
            #[trigger] from.spec_values()[i]).lexical_spec(),
{
    lexical_encode(from, DataType::Binary)
}

/// A utf8 array whose every valid slot holds the decimal rendering of the
/// number; an invalid slot is a zero-width slot, and validity is shared
/// unchanged.
pub fn primitive_to_utf8<T: Lexical>(from: &PrimitiveArray<T>) -> (r: Utf8Array)
    ensures
        r.spec_data_type() == DataType::Utf8,
        r.spec_len() == from.spec_len(),
        r.spec_validity() == from.spec_validity(),
        forall|i: int|
            0 <= i < r.spec_len() && from.valid_at(i) ==> #[trigger] r.spec_elem(i) == (
            #[trigger] from.spec_values()[i]).lexical_spec(),
{
    lexical_encode(from, DataType::Utf8)
}

/// Whether the value at slot `i` already occurs at a valid earlier slot.
pub open spec fn val_in_prefix<T: NativeType>(arr: PrimitiveArray<T>, i: int) -> bool {
    exists|j: int|
        0 <= j < i && arr.valid_at(j) && (#[trigger] arr.spec_values()[j]).to_int()
            == arr.spec_values()[i].to_int()
}

/// How many distinct valid values occur among the first `k` slots.
pub open spec fn distinct_count<T: NativeType>(arr: PrimitiveArray<T>, k: int) -> int
    decreases k,
{
    if k <= 0 {
        0
    } else {
        distinct_count(arr, k - 1) + if arr.valid_at(k - 1) && !val_in_prefix(arr, k - 1) {
            1int
        } else {
            0int
        }
    }
}

pub proof fn lemma_distinct_count_monotone<T: NativeType>(arr: PrimitiveArray<T>, a: int, b: int)
    requires
        a <= b,
    ensures
        distinct_count(arr, a) <= distinct_count(arr, b),
    decreases b - a,
{
    if a < b {
        lemma_distinct_count_monotone(arr, a, b - 1);
    }
}

/// Linear scan for a value among the distinct values collected so far.
fn find_value<T: NativeType>(uniq: &Vec<T>, x: T) -> (r: Option<usize>)
    ensures
        match r {
            Some(p) => p < uniq@.len() && (uniq@[p as int]).to_int() == x.to_int(),
            None => forall|j: int|
                0 <= j < uniq@.len() ==> (#[trigger] uniq@[j]).to_int() != x.to_int(),
        },
{
    let n = uniq.len();
    let mut j: usize = 0;
    while j < n
        invariant
            j <= n,
            n == uniq@.len(),
            forall|p: int| 0 <= p < j ==> (#[trigger] uniq@[p]).to_int() != x.to_int(),
        decreases n - j,
    {
        if uniq[j].eq_op(x) {
            return Some(j);
        }
        j = j + 1;
    }
    None
}

/// Dictionary-encodes an array, deduplicating its valid values in first
/// occurrence order. Fails with a key overflow exactly when the chosen key
/// width cannot address every distinct value.
pub fn primitive_to_dictionary<T: NativeType, K: NativeType>(from: &PrimitiveArray<T>) -> (r:
    Result<DictionaryArray<K, T>, ArrowError>)
    ensures
        r is Ok <==> distinct_count(*from, from.spec_len() as int) <= K::max_int() + 1,
        match r {
            Ok(d) => {
                &&& d.spec_keys().spec_len() == from.spec_len()
                &&& d.spec_keys().spec_validity() == from.spec_validity()
                &&& d.spec_dict_values().spec_len() == distinct_count(
                    *from,
                    from.spec_len() as int,
                )
                &&& d.spec_dict_values().spec_validity() is None
                &&& forall|a: int, b: int|
                    0 <= a < b < d.spec_dict_values().spec_len() ==> (
                    #[trigger] d.spec_dict_values().spec_values()[a]).to_int() != (
                    #[trigger] d.spec_dict_values().spec_values()[b]).to_int()
                &&& forall|i: int|
                    0 <= i < from.spec_len() && from.valid_at(i) ==> 0 <= (
                    #[trigger] d.spec_keys().spec_values()[i]).to_int()
                        < d.spec_dict_values().spec_len()
                &&& forall|i: int|
                    0 <= i < from.spec_len() && from.valid_at(i)
                        ==> d.spec_dict_values().spec_values()[(
                    #[trigger] d.spec_keys().spec_values()[i]).to_int()].to_int()
                        == from.spec_values()[i].to_int()
            },
            Err(e) => e == ArrowError::KeyOverflow,
        },
{
    let n = from.len();
    let fv = from.values();
    let mut uniq: Vec<T> = Vec::new();
    let mut keys: Vec<K> = Vec::new();
    let mut i: usize = 0;
    proof {
        K::in_range(vstd::pervasive::arbitrary());
    }
    while i < n
        invariant
            i <= n,
            n == from.spec_len(),
            fv@ == from.spec_values(),
            keys@.len() == i,
            uniq@.len() == distinct_count(*from, i as int),
            uniq@.len() <= K::max_int() + 1,
            K::max_int() >= 1,
            K::min_int() <= 0,
            forall|a: int, b: int|
                0 <= a < b < uniq@.len() ==> (#[trigger] uniq@[a]).to_int() != (
                #[trigger] uniq@[b]).to_int(),
            forall|p: int|
                0 <= p < uniq@.len() ==> exists|j: int|
                    0 <= j < i && from.valid_at(j) && (#[trigger] uniq@[p]).to_int()
                        == from.spec_values()[j].to_int(),
            forall|j: int|
                0 <= j < i && from.valid_at(j) ==> exists|p: int|
                    0 <= p < uniq@.len() && (#[trigger] uniq@[p]).to_int() == (
                    from.spec_values()[j]).to_int(),
            forall|j: int|
                0 <= j < i && from.valid_at(j) ==> 0 <= (#[trigger] keys@[j]).to_int()
                    < uniq@.len() && uniq@[keys@[j].to_int()].to_int()
                    == from.spec_values()[j].to_int(),
        decreases n - i,
    {
        let x = *fv.get(i);
        let ghost prev_uniq = uniq@;
        if from.is_valid(i) {
            match find_value(&uniq, x) {
                Some(p) => {
                    proof {
                        assert(val_in_prefix(*from, i as int)) by {
                            let j = choose|j: int|
                                0 <= j < i && from.valid_at(j) && (#[trigger] uniq@[p as int]).to_int()
                                    == from.spec_values()[j].to_int();
                            assert(from.spec_values()[j].to_int() == from.spec_values()[
                            i as int].to_int());
                        }
                    }
                    match K::from_i128_checked(p as i128) {
                        Some(kv) => keys.push(kv),
                        None => {
                            proof {
                                assert(false);
                            }
                        },
                    }
                },
                None => {
                    proof {
                        assert(!val_in_prefix(*from, i as int)) by {
                            if val_in_prefix(*from, i as int) {
                                let j = choose|j: int|
                                    0 <= j < i && from.valid_at(j) && (
                                    #[trigger] from.spec_values()[j]).to_int()
                                        == from.spec_values()[i as int].to_int();
                                let p = choose|p: int|
                                    0 <= p < uniq@.len() && (#[trigger] uniq@[p]).to_int() == (
                                    from.spec_values()[j]).to_int();
                                assert(uniq@[p].to_int() == x.to_int());
                            }
                        }
                    }
                    let pos = uniq.len();
                    match K::from_i128_checked(pos as i128) {
                        Some(kv) => {
                            uniq.push(x);
                            keys.push(kv);
                            proof {
                                assert forall|j: int|
                                    0 <= j < i + 1 && from.valid_at(j) implies exists|p: int|
                                    0 <= p < uniq@.len() && (#[trigger] uniq@[p]).to_int() == (
                                    from.spec_values()[j]).to_int() by {
                                    if j < i {
                                        let p = choose|p: int|
                                            0 <= p < prev_uniq.len() && (
                                            #[trigger] prev_uniq[p]).to_int() == (
                                            from.spec_values()[j]).to_int();
                                        assert(uniq@[p].to_int() == from.spec_values()[
                                        j].to_int());
                                    } else {
                                        assert(uniq@[pos as int].to_int() == from.spec_values()[
                                        j].to_int());
                                    }
                                }
                            }
                        },
                        None => {
                            proof {
                                assert(uniq@.len() == K::max_int() + 1);
                                assert(distinct_count(*from, i + 1) == K::max_int() + 2);
                                lemma_distinct_count_monotone(
                                    *from,
                                    i + 1,
                                    from.spec_len() as int,
                                );
                            }
                            return Err(ArrowError::KeyOverflow);
                        },
                    }
                },
            }
        } else {
            keys.push(K::from_i128_wrap(0));
        }
        proof {
            assert forall|p: int|
                0 <= p < uniq@.len() implies exists|j: int|
                0 <= j < i + 1 && from.valid_at(j) && (#[trigger] uniq@[p]).to_int()
                    == from.spec_values()[j].to_int() by {
                if p < prev_uniq.len() {
                    let j = choose|j: int|
                        0 <= j < i && from.valid_at(j) && (#[trigger] prev_uniq[p]).to_int()
                            == from.spec_values()[j].to_int();
                    assert(uniq@[p].to_int() == from.spec_values()[j].to_int());
                } else {
                    assert(uniq@[p].to_int() == from.spec_values()[i as int].to_int());
                }
            }
        }
        i = i + 1;
    }
    let validity = match from.validity() {
        Some(b) => Some(b.clone_shared()),
        None => None,
    };
    let keys_arr = PrimitiveArray::from_data(K::data_type(), Buffer::from_vec(keys), validity);
    let values_arr = PrimitiveArray::from_data(T::data_type(), Buffer::from_vec(uniq), None);
    Ok(DictionaryArray::from_data(keys_arr, values_arr))
}

/// Renders every valid slot of a timestamp array as text through chrono's zoneless rendering;
/// an invalid slot is a zero-width slot. Validity is shared unchanged.
fn encode_naive(from: &PrimitiveArray<i64>, time_unit: TimeUnit) -> (r: Utf8Array)
    requires
        forall|i: int|
            0 <= i < from.spec_len() && from.valid_at(i) ==> naive_datetime_utf8(ts_split_secs(#[trigger] from.spec_values()[i], time_unit) as i64, ts_split_nsecs(from.spec_values()[i], time_unit) as u32) is Some,
    ensures
        r.spec_data_type() == DataType::Utf8,
        r.spec_len() == from.spec_len(),
        r.spec_validity() == from.spec_validity(),
        forall|i: int|
            0 <= i < r.spec_len() && from.valid_at(i) ==> #[trigger] r.spec_elem(i)
                == naive_datetime_utf8(ts_split_secs(from.spec_values()[i], time_unit) as i64, ts_split_nsecs(from.spec_values()[i], time_unit) as u32)->0,
        forall|i: int|
            0 <= i < r.spec_len() && !from.valid_at(i) ==> r.spec_offsets()[i + 1]
                == r.spec_offsets()[i],
{
    let n = from.len();
    let fv = from.values();
    let mut out_offsets: Vec<usize> = Vec::new();
    let mut out: Vec<u8> = Vec::new();
    out_offsets.push(0);
    let mut k: usize = 0;
    while k < n
        invariant
            k <= n,
            n == from.spec_len(),
            fv@ == from.spec_values(),
            forall|i: int|
                0 <= i < from.spec_len() && from.valid_at(i) ==> naive_datetime_utf8(ts_split_secs(#[trigger] from.spec_values()[i], time_unit) as i64, ts_split_nsecs(from.spec_values()[i], time_unit) as u32) is Some,
            out_offsets@.len() == k + 1,
            out_offsets@[0] == 0,
            monotonic(out_offsets@),
            out@.len() == out_offsets@[k as int],
            forall|j: int|
                0 <= j < k && from.valid_at(j) ==> out@.subrange(
                    out_offsets@[j] as int,
                    out_offsets@[j + 1] as int,
                ) == naive_datetime_utf8(ts_split_secs(#[trigger] from.spec_values()[j], time_unit) as i64, ts_split_nsecs(from.spec_values()[j], time_unit) as u32)->0,
            forall|j: int|
                0 <= j < k && !from.valid_at(j) ==> out_offsets@[j + 1] == out_offsets@[j],
        decreases n - k,
    {
        let ghost prev = out@;
        let ghost prev_offsets = out_offsets@;
        if from.is_valid(k) {
            let x = *fv.get(k);
            let parts = timestamp_to_secs_nsecs(x, time_unit);
            let rendered = match render_naive(parts.0, parts.1) {
                Some(b) => b,
                None => {
                    proof {
                        assert(false);
                    }
                    Vec::new()
                },
            };
            extend_bytes(&mut out, rendered.as_slice(), 0, rendered.len());
            proof {
                assert(rendered@.subrange(0, rendered@.len() as int) =~= rendered@);
            }
        }
        let new_len = out.len();
        out_offsets.push(new_len);
        proof {
            assert forall|a: int, b: int|
                0 <= a <= b < out_offsets@.len() implies out_offsets@[a] <= out_offsets@[b] by {
                if b == out_offsets@.len() - 1 {
                    if a < b {
                        assert(prev_offsets[a] <= prev_offsets[k as int]);
                        assert(prev_offsets[k as int] == prev.len());
                        assert(out_offsets@[b] == new_len);
                    }
                } else {
                    assert(out_offsets@[a] == prev_offsets[a]);
                    assert(out_offsets@[b] == prev_offsets[b]);
                }
            }
            assert(monotonic(out_offsets@));
            assert forall|j: int|
                0 <= j < k && from.valid_at(j) implies out@.subrange(
                out_offsets@[j] as int,
                out_offsets@[j + 1] as int,
            ) == naive_datetime_utf8(ts_split_secs(#[trigger] from.spec_values()[j], time_unit) as i64, ts_split_nsecs(from.spec_values()[j], time_unit) as u32)->0 by {
                assert(out_offsets@[j + 1] == prev_offsets[j + 1]);
                assert(out_offsets@[j] == prev_offsets[j]);
                assert(prev_offsets[j + 1] <= prev_offsets[k as int]);
                assert(out@.subrange(out_offsets@[j] as int, out_offsets@[j + 1] as int)
                    =~= prev.subrange(prev_offsets[j] as int, prev_offsets[j + 1] as int));
            }
        }
        k = k + 1;
    }
    let validity = match from.validity() {
        Some(b) => Some(b.clone_shared()),
        None => None,
    };
    BinaryArray::from_data(
        DataType::Utf8,
        Buffer::from_vec(out_offsets),
        Buffer::from_vec(out),
        validity,
    )
}

/// Renders every valid slot of a timestamp array as text through chrono's fixed-offset RFC 3339 rendering;
/// an invalid slot is a zero-width slot. Validity is shared unchanged.
fn encode_fixed(from: &PrimitiveArray<i64>, time_unit: TimeUnit, offset_seconds: i32) -> (r: Utf8Array)
    requires
        forall|i: int|
            0 <= i < from.spec_len() && from.valid_at(i) ==> rfc3339_fixed_utf8(ts_split_secs(#[trigger] from.spec_values()[i], time_unit) as i64, ts_split_nsecs(from.spec_values()[i], time_unit) as u32, offset_seconds) is Some,
    ensures
        r.spec_data_type() == DataType::Utf8,
        r.spec_len() == from.spec_len(),
        r.spec_validity() == from.spec_validity(),
        forall|i: int|
            0 <= i < r.spec_len() && from.valid_at(i) ==> #[trigger] r.spec_elem(i)
                == rfc3339_fixed_utf8(ts_split_secs(from.spec_values()[i], time_unit) as i64, ts_split_nsecs(from.spec_values()[i], time_unit) as u32, offset_seconds)->0,
        forall|i: int|
            0 <= i < r.spec_len() && !from.valid_at(i) ==> r.spec_offsets()[i + 1]
                == r.spec_offsets()[i],
{
    let n = from.len();
    let fv = from.values();
    let mut out_offsets: Vec<usize> = Vec::new();
    let mut out: Vec<u8> = Vec::new();
    out_offsets.push(0);
    let mut k: usize = 0;
    while k < n
        invariant
            k <= n,
            n == from.spec_len(),
            fv@ == from.spec_values(),
            forall|i: int|
                0 <= i < from.spec_len() && from.valid_at(i) ==> rfc3339_fixed_utf8(ts_split_secs(#[trigger] from.spec_values()[i], time_unit) as i64, ts_split_nsecs(from.spec_values()[i], time_unit) as u32, offset_seconds) is Some,
            out_offsets@.len() == k + 1,
            out_offsets@[0] == 0,
            monotonic(out_offsets@),
            out@.len() == out_offsets@[k as int],
            forall|j: int|
                0 <= j < k && from.valid_at(j) ==> out@.subrange(
                    out_offsets@[j] as int,
                    out_offsets@[j + 1] as int,
                ) == rfc3339_fixed_utf8(ts_split_secs(#[trigger] from.spec_values()[j], time_unit) as i64, ts_split_nsecs(from.spec_values()[j], time_unit) as u32, offset_seconds)->0,
            forall|j: int|
                0 <= j < k && !from.valid_at(j) ==> out_offsets@[j + 1] == out_offsets@[j],
        decreases n - k,
    {
        let ghost prev = out@;
        let ghost prev_offsets = out_offsets@;
        if from.is_valid(k) {
            let x = *fv.get(k);
            let parts = timestamp_to_secs_nsecs(x, time_unit);
            let rendered = match render_fixed(parts.0, parts.1, offset_seconds) {
                Some(b) => b,
                None => {
                    proof {
                        assert(false);
                    }
                    Vec::new()
                },
            };
            extend_bytes(&mut out, rendered.as_slice(), 0, rendered.len());
            proof {
                assert(rendered@.subrange(0, rendered@.len() as int) =~= rendered@);
            }
        }
        let new_len = out.len();
        out_offsets.push(new_len);
        proof {
            assert forall|a: int, b: int|
                0 <= a <= b < out_offsets@.len() implies out_offsets@[a] <= out_offsets@[b] by {
                if b == out_offsets@.len() - 1 {
                    if a < b {
                        assert(prev_offsets[a] <= prev_offsets[k as int]);
                        assert(prev_offsets[k as int] == prev.len());
                        assert(out_offsets@[b] == new_len);
                    }
                } else {
                    assert(out_offsets@[a] == prev_offsets[a]);
                    assert(out_offsets@[b] == prev_offsets[b]);
                }
            }
            assert(monotonic(out_offsets@));
            assert forall|j: int|
                0 <= j < k && from.valid_at(j) implies out@.subrange(
                out_offsets@[j] as int,
                out_offsets@[j + 1] as int,
            ) == rfc3339_fixed_utf8(ts_split_secs(#[trigger] from.spec_values()[j], time_unit) as i64, ts_split_nsecs(from.spec_values()[j], time_unit) as u32, offset_seconds)->0 by {
                assert(out_offsets@[j + 1] == prev_offsets[j + 1]);
                assert(out_offsets@[j] == prev_offsets[j]);
                assert(prev_offsets[j + 1] <= prev_offsets[k as int]);
                assert(out@.subrange(out_offsets@[j] as int, out_offsets@[j + 1] as int)
                    =~= prev.subrange(prev_offsets[j] as int, prev_offsets[j + 1] as int));
            }
        }
        k = k + 1;
    }
    let validity = match from.validity() {
        Some(b) => Some(b.clone_shared()),
        None => None,
    };
    BinaryArray::from_data(
        DataType::Utf8,
        Buffer::from_vec(out_offsets),
        Buffer::from_vec(out),
        validity,
    )
}

/// Renders every valid slot of a timestamp array as text through chrono-tz's zone-database RFC 3339 rendering;
/// an invalid slot is a zero-width slot. Validity is shared unchanged.
fn encode_tz(from: &PrimitiveArray<i64>, time_unit: TimeUnit, timezone_str: &str) -> (r: Utf8Array)
    requires
        forall|i: int|
            0 <= i < from.spec_len() && from.valid_at(i) ==> tz_rendered_utf8(ts_split_secs(#[trigger] from.spec_values()[i], time_unit) as i64, ts_split_nsecs(from.spec_values()[i], time_unit) as u32, timezone_str.spec_bytes()) is Some,
    ensures
        r.spec_data_type() == DataType::Utf8,
        r.spec_len() == from.spec_len(),
        r.spec_validity() == from.spec_validity(),
        forall|i: int|
            0 <= i < r.spec_len() && from.valid_at(i) ==> #[trigger] r.spec_elem(i)
                == tz_rendered_utf8(ts_split_secs(from.spec_values()[i], time_unit) as i64, ts_split_nsecs(from.spec_values()[i], time_unit) as u32, timezone_str.spec_bytes())->0,
        forall|i: int|
            0 <= i < r.spec_len() && !from.valid_at(i) ==> r.spec_offsets()[i + 1]
                == r.spec_offsets()[i],
{
    let n = from.len();
    let fv = from.values();
    let mut out_offsets: Vec<usize> = Vec::new();
    let mut out: Vec<u8> = Vec::new();
    out_offsets.push(0);
    let mut k: usize = 0;
    while k < n
        invariant
            k <= n,
            n == from.spec_len(),
            fv@ == from.spec_values(),
            forall|i: int|
                0 <= i < from.spec_len() && from.valid_at(i) ==> tz_rendered_utf8(ts_split_secs(#[trigger] from.spec_values()[i], time_unit) as i64, ts_split_nsecs(from.spec_values()[i], time_unit) as u32, timezone_str.spec_bytes()) is Some,
            out_offsets@.len() == k + 1,
            out_offsets@[0] == 0,
            monotonic(out_offsets@),
            out@.len() == out_offsets@[k as int],
            forall|j: int|
                0 <= j < k && from.valid_at(j) ==> out@.subrange(
                    out_offsets@[j] as int,
                    out_offsets@[j + 1] as int,
                ) == tz_rendered_utf8(ts_split_secs(#[trigger] from.spec_values()[j], time_unit) as i64, ts_split_nsecs(from.spec_values()[j], time_unit) as u32, timezone_str.spec_bytes())->0,
            forall|j: int|
                0 <= j < k && !from.valid_at(j) ==> out_offsets@[j + 1] == out_offsets@[j],
        decreases n - k,
    {
        let ghost prev = out@;
        let ghost prev_offsets = out_offsets@;
        if from.is_valid(k) {
            let x = *fv.get(k);
            let parts = timestamp_to_secs_nsecs(x, time_unit);
            let rendered = match render_tz(parts.0, parts.1, timezone_str) {
                Some(b) => b,
                None => {
                    proof {
                        assert(false);
                    }
                    Vec::new()
                },
            };
            extend_bytes(&mut out, rendered.as_slice(), 0, rendered.len());
            proof {
                assert(rendered@.subrange(0, rendered@.len() as int) =~= rendered@);
            }
        }
        let new_len = out.len();
        out_offsets.push(new_len);
        proof {
            assert forall|a: int, b: int|
                0 <= a <= b < out_offsets@.len() implies out_offsets@[a] <= out_offsets@[b] by {
                if b == out_offsets@.len() - 1 {
                    if a < b {
                        assert(prev_offsets[a] <= prev_offsets[k as int]);
                        assert(prev_offsets[k as int] == prev.len());
                        assert(out_offsets@[b] == new_len);
                    }
                } else {
                    assert(out_offsets@[a] == prev_offsets[a]);
                    assert(out_offsets@[b] == prev_offsets[b]);
                }
            }
            assert(monotonic(out_offsets@));
            assert forall|j: int|
                0 <= j < k && from.valid_at(j) implies out@.subrange(
                out_offsets@[j] as int,
                out_offsets@[j + 1] as int,
            ) == tz_rendered_utf8(ts_split_secs(#[trigger] from.spec_values()[j], time_unit) as i64, ts_split_nsecs(from.spec_values()[j], time_unit) as u32, timezone_str.spec_bytes())->0 by {
                assert(out_offsets@[j + 1] == prev_offsets[j + 1]);
                assert(out_offsets@[j] == prev_offsets[j]);
                assert(prev_offsets[j + 1] <= prev_offsets[k as int]);
                assert(out@.subrange(out_offsets@[j] as int, out_offsets@[j + 1] as int)
                    =~= prev.subrange(prev_offsets[j] as int, prev_offsets[j + 1] as int));
            }
        }
        k = k + 1;
    }
    let validity = match from.validity() {
        Some(b) => Some(b.clone_shared()),
        None => None,
    };
    BinaryArray::from_data(
        DataType::Utf8,
        Buffer::from_vec(out_offsets),
        Buffer::from_vec(out),
        validity,
    )
}

/// Renders each timestamp without a zone, as text; the slot must be within
/// the range that the zoneless rendering covers. `checked_naive_timestamp_to_utf8`
/// accepts any input instead.
pub fn naive_timestamp_to_utf8(from: &PrimitiveArray<i64>, time_unit: TimeUnit) -> (r: Utf8Array)
    requires
        forall|i: int|
            0 <= i < from.spec_len() && from.valid_at(i) ==> naive_datetime_utf8(
                ts_split_secs(#[trigger] from.spec_values()[i], time_unit) as i64,
                ts_split_nsecs(from.spec_values()[i], time_unit) as u32,
            ) is Some,
    ensures
        r.spec_data_type() == DataType::Utf8,
        r.spec_len() == from.spec_len(),
        r.spec_validity() == from.spec_validity(),
        forall|i: int|
            0 <= i < r.spec_len() && from.valid_at(i) ==> #[trigger] r.spec_elem(i)
                == naive_datetime_utf8(
                ts_split_secs(from.spec_values()[i], time_unit) as i64,
                ts_split_nsecs(from.spec_values()[i], time_unit) as u32,
            )->0,
        forall|i: int|
            0 <= i < r.spec_len() && !from.valid_at(i) ==> r.spec_offsets()[i + 1]
                == r.spec_offsets()[i],
{
    encode_naive(from, time_unit)
}

/// Renders each timestamp without a zone if every valid slot is within the
/// range that the zoneless rendering covers, and reports nothing otherwise.
pub fn checked_naive_timestamp_to_utf8(from: &PrimitiveArray<i64>, time_unit: TimeUnit) -> (r:
    Option<Utf8Array>)
    ensures
        r is Some <==> forall|i: int|
            0 <= i < from.spec_len() && from.valid_at(i) ==> naive_datetime_utf8(
                ts_split_secs(#[trigger] from.spec_values()[i], time_unit) as i64,
                ts_split_nsecs(from.spec_values()[i], time_unit) as u32,
            ) is Some,
        match r {
            Some(arr) => arr.spec_data_type() == DataType::Utf8 && arr.spec_len()
                == from.spec_len() && arr.spec_validity() == from.spec_validity() && forall|i: int|
                0 <= i < arr.spec_len() && from.valid_at(i) ==> #[trigger] arr.spec_elem(i)
                    == naive_datetime_utf8(
                    ts_split_secs(from.spec_values()[i], time_unit) as i64,
                    ts_split_nsecs(from.spec_values()[i], time_unit) as u32,
                )->0,
            None => true,
        },
{
    let n = from.len();
    let fv = from.values();
    let mut i: usize = 0;
    while i < n
        invariant
            i <= n,
            n == from.spec_len(),
            fv@ == from.spec_values(),
            forall|j: int|
                0 <= j < i && from.valid_at(j) ==> naive_datetime_utf8(
                    ts_split_secs(#[trigger] from.spec_values()[j], time_unit) as i64,
                    ts_split_nsecs(from.spec_values()[j], time_unit) as u32,
                ) is Some,
        decreases n - i,
    {
        if from.is_valid(i) {
            let parts = timestamp_to_secs_nsecs(*fv.get(i), time_unit);
            if render_naive(parts.0, parts.1).is_none() {
                return None;
            }
        }
        i = i + 1;
    }
    Some(naive_timestamp_to_utf8(from, time_unit))
}

/// Renders each timestamp as RFC 3339 text in the named zone. The zone is
/// resolved first as a fixed numeric offset of the shape `+HH:MM` / `-HH:MM`,
/// falling back to the zone database; an unresolvable zone is reported as an
/// invalid-timezone error before any slot is processed. Every valid slot
/// must be within the range the resolved rendering covers;
/// `checked_timestamp_to_utf8` accepts any input instead.
pub fn timestamp_to_utf8(
    from: &PrimitiveArray<i64>,
    time_unit: TimeUnit,
    timezone_str: &str,
) -> (r: Result<Utf8Array, ArrowError>)
    requires
        fixed_offset_spec(timezone_str.spec_bytes()) is Some ==> forall|i: int|
            0 <= i < from.spec_len() && from.valid_at(i) ==> rfc3339_fixed_utf8(
                ts_split_secs(#[trigger] from.spec_values()[i], time_unit) as i64,
                ts_split_nsecs(from.spec_values()[i], time_unit) as u32,
                fixed_offset_spec(timezone_str.spec_bytes())->0 as i32,
            ) is Some,
        (fixed_offset_spec(timezone_str.spec_bytes()) is None && tz_known(
            timezone_str.spec_bytes(),
        )) ==> forall|i: int|
            0 <= i < from.spec_len() && from.valid_at(i) ==> tz_rendered_utf8(
                ts_split_secs(#[trigger] from.spec_values()[i], time_unit) as i64,
                ts_split_nsecs(from.spec_values()[i], time_unit) as u32,
                timezone_str.spec_bytes(),
            ) is Some,
    ensures
        r is Ok <==> (fixed_offset_spec(timezone_str.spec_bytes()) is Some || tz_known(
            timezone_str.spec_bytes(),
        )),
        match r {
            Ok(arr) => {
                &&& arr.spec_data_type() == DataType::Utf8
                &&& arr.spec_len() == from.spec_len()
                &&& arr.spec_validity() == from.spec_validity()
                &&& fixed_offset_spec(timezone_str.spec_bytes()) is Some ==> forall|i: int|
                    0 <= i < arr.spec_len() && from.valid_at(i) ==> #[trigger] arr.spec_elem(i)
                        == rfc3339_fixed_utf8(
                        ts_split_secs(from.spec_values()[i], time_unit) as i64,
                        ts_split_nsecs(from.spec_values()[i], time_unit) as u32,
                        fixed_offset_spec(timezone_str.spec_bytes())->0 as i32,
                    )->0
                &&& fixed_offset_spec(timezone_str.spec_bytes()) is None ==> forall|i: int|
                    0 <= i < arr.spec_len() && from.valid_at(i) ==> #[trigger] arr.spec_elem(i)
                        == tz_rendered_utf8(
                        ts_split_secs(from.spec_values()[i], time_unit) as i64,
                        ts_split_nsecs(from.spec_values()[i], time_unit) as u32,
                        timezone_str.spec_bytes(),
                    )->0
            },
            Err(e) => e == ArrowError::InvalidTimezone,
        },
{
    match parse_fixed_offset(timezone_str) {
        Some(offset_seconds) => Ok(encode_fixed(from, time_unit, offset_seconds)),
        None => {
            if tz_exists(timezone_str) {
                Ok(encode_tz(from, time_unit, timezone_str))
            } else {
                Err(ArrowError::InvalidTimezone)
            }
        },
    }
}

/// Renders each timestamp as RFC 3339 text in the named zone if the zone
/// resolves and every valid slot is within the range the rendering covers,
/// and reports nothing otherwise.
pub fn checked_timestamp_to_utf8(
    from: &PrimitiveArray<i64>,
    time_unit: TimeUnit,
    timezone_str: &str,
) -> (r: Option<Utf8Array>)
    ensures
        match r {
            Some(arr) => arr.spec_data_type() == DataType::Utf8 && arr.spec_len()
                == from.spec_len() && arr.spec_validity() == from.spec_validity(),
            None => true,
        },
        r is None <==> !((fixed_offset_spec(timezone_str.spec_bytes()) matches Some(o) && (forall|
            i: int,
        |
            0 <= i < from.spec_len() && from.valid_at(i) ==> rfc3339_fixed_utf8(
                ts_split_secs(#[trigger] from.spec_values()[i], time_unit) as i64,
                ts_split_nsecs(from.spec_values()[i], time_unit) as u32,
                o as i32,
            ) is Some)) || (fixed_offset_spec(timezone_str.spec_bytes()) is None && tz_known(
            timezone_str.spec_bytes(),
        ) && (forall|i: int|
            0 <= i < from.spec_len() && from.valid_at(i) ==> tz_rendered_utf8(
                ts_split_secs(#[trigger] from.spec_values()[i], time_unit) as i64,
                ts_split_nsecs(from.spec_values()[i], time_unit) as u32,
                timezone_str.spec_bytes(),
            ) is Some))),
{
    let n = from.len();
    let fv = from.values();
    let fixed = parse_fixed_offset(timezone_str);
    if fixed.is_none() && !tz_exists(timezone_str) {
        return None;
    }
    let mut i: usize = 0;
    while i < n
        invariant
            i <= n,
            n == from.spec_len(),
            fv@ == from.spec_values(),
            match fixed {
                Some(o) => fixed_offset_spec(timezone_str.spec_bytes()) == Some(o as int),
                None => fixed_offset_spec(timezone_str.spec_bytes()) is None && tz_known(
                    timezone_str.spec_bytes(),
                ),
            },
            forall|j: int|
                0 <= j < i && from.valid_at(j) ==> match fixed {
                    Some(o) => rfc3339_fixed_utf8(
                        ts_split_secs(#[trigger] from.spec_values()[j], time_unit) as i64,
                        ts_split_nsecs(from.spec_values()[j], time_unit) as u32,
                        o,
                    ) is Some,
                    None => tz_rendered_utf8(
                        ts_split_secs(#[trigger] from.spec_values()[j], time_unit) as i64,
                        ts_split_nsecs(from.spec_values()[j], time_unit) as u32,
                        timezone_str.spec_bytes(),
                    ) is Some,
                },
        decreases n - i,
    {
        if from.is_valid(i) {
            let parts = timestamp_to_secs_nsecs(*fv.get(i), time_unit);
            let rendered = match fixed {
                Some(o) => render_fixed(parts.0, parts.1, o),
                None => render_tz(parts.0, parts.1, timezone_str),
            };
            if rendered.is_none() {
                return None;
            }
        }
        i = i + 1;
    }
    match timestamp_to_utf8(from, time_unit, timezone_str) {
        Ok(arr) => Some(arr),
        Err(_) => {
            proof {
                assert(false);
            }
            None
        },
    }
}

} // verus!




