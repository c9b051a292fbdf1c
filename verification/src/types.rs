use crate::datatypes::DataType;
use vstd::prelude::*;

verus! {

/// Truncated remainder on mathematical integers: the remainder Rust's `%`
/// computes, whose sign follows the dividend. Written with the Euclidean
/// `%` of specifications, case by case on the signs.
pub open spec fn trunc_rem(x: int, d: int) -> int {
    if x == 0 {
        0
    } else if x > 0 && d > 0 {
        x % d
    } else if x < 0 && d < 0 {
        ((x * -1) % (d * -1)) * -1
    } else if x < 0 {
        ((x * -1) % d) * -1
    } else {
        x % (d * -1)
    }
}

/// Truncated quotient on mathematical integers: the quotient Rust's `/`
/// computes, rounded toward zero. Written with the Euclidean `/` of
/// specifications, case by case on the signs.
pub open spec fn trunc_div(x: int, d: int) -> int {
    if x == 0 {
        0
    } else if x > 0 && d > 0 {
        x / d
    } else if x < 0 && d < 0 {
        (x * -1) / (d * -1)
    } else if x < 0 {
        ((x * -1) / d) * -1
    } else {
        (x / (d * -1)) * -1
    }
}

/// When the native remainder is defined for a dividend `x` and divisor `d`
/// of a type whose smallest value is `min`: the divisor is not zero, and the
/// division does not overflow (for signed types, the smallest value divided
/// by minus one).
pub open spec fn rem_defined_int(x: int, d: int, min: int) -> bool {
    d != 0 && !(x == min && d == -1)
}

/// Relies on strength_reduce::StrengthReducedU8: `a % StrengthReducedU8::new(d)`
/// equals `a % d`; `new` panics only on a zero divisor.
#[verifier::external_body]
fn sr_rem_u8(a: u8, d: u8) -> (r: u8)
    requires
        d != 0,
    ensures
        r == a % d,
{
    a % strength_reduce::StrengthReducedU8::new(d)
}

/// Relies on strength_reduce::StrengthReducedU16: `a % StrengthReducedU16::new(d)`
/// equals `a % d`; `new` panics only on a zero divisor.
#[verifier::external_body]
fn sr_rem_u16(a: u16, d: u16) -> (r: u16)
    requires
        d != 0,
    ensures
        r == a % d,
{
    a % strength_reduce::StrengthReducedU16::new(d)
}

/// Relies on strength_reduce::StrengthReducedU32: `a % StrengthReducedU32::new(d)`
/// equals `a % d`; `new` panics only on a zero divisor.
#[verifier::external_body]
fn sr_rem_u32(a: u32, d: u32) -> (r: u32)
    requires
        d != 0,
    ensures
        r == a % d,
{
    a % strength_reduce::StrengthReducedU32::new(d)
}

/// Relies on strength_reduce::StrengthReducedU64: `a % StrengthReducedU64::new(d)`
/// equals `a % d`; `new` panics only on a zero divisor.
#[verifier::external_body]
fn sr_rem_u64(a: u64, d: u64) -> (r: u64)
    requires
        d != 0,
    ensures
        r == a % d,
{
    a % strength_reduce::StrengthReducedU64::new(d)
}

/// The minimal numeric capability that the kernels need of a fixed-width
/// native value type: a mathematical view, native and checked remainder,
/// conversions through `i128`, and a default logical type tag.
pub trait NativeType: Copy + Sized {
    /// The value as a mathematical integer.
    spec fn to_int(self) -> int;

    /// Smallest representable value.
    spec fn min_int() -> int;

    /// Largest representable value.
    spec fn max_int() -> int;

    /// The logical type this physical type carries by default.
    spec fn spec_data_type() -> DataType;

    /// What Rust's `as` conversion from `i128` yields: the wraparound rule.
    spec fn wrap_from_i128(x: i128) -> Self;

    proof fn in_range(a: Self)
        ensures
            Self::min_int() <= a.to_int() <= Self::max_int(),
            Self::min_int() <= 0 < Self::max_int(),
            -170141183460469231731687303715884105728 <= Self::min_int(),
            Self::max_int() <= 170141183460469231731687303715884105727,
    ;

    proof fn to_int_injective(a: Self, b: Self)
        ensures
            (a.to_int() == b.to_int()) <==> (a == b),
    ;

    exec fn data_type() -> (r: DataType)
        ensures
            r == Self::spec_data_type(),
    ;

    exec fn zero() -> (r: Self)
        ensures
            r.to_int() == 0,
    ;

    /// Native remainder. Faults on inputs where it is not defined, so those
    /// are excluded here.
    exec fn rem_op(self, d: Self) -> (r: Self)
        requires
            rem_defined_int(self.to_int(), d.to_int(), Self::min_int()),
        ensures
            r.to_int() == trunc_rem(self.to_int(), d.to_int()),
    ;

    /// Checked remainder: `None` exactly where the native operator faults.
    exec fn checked_rem_op(self, d: Self) -> (r: Option<Self>)
        ensures
            match r {
                Some(v) => rem_defined_int(self.to_int(), d.to_int(), Self::min_int())
                    && v.to_int() == trunc_rem(self.to_int(), d.to_int()),
                None => !rem_defined_int(self.to_int(), d.to_int(), Self::min_int()),
            },
    ;

    /// Remainder by a broadcast scalar. Bit-identical to `rem_op`; unsigned
    /// widths route through a reciprocal-based strength reduction.
    exec fn rem_scalar_op(self, d: Self) -> (r: Self)
        requires
            rem_defined_int(self.to_int(), d.to_int(), Self::min_int()),
        ensures
            r.to_int() == trunc_rem(self.to_int(), d.to_int()),
    ;

    exec fn eq_op(self, o: Self) -> (r: bool)
        ensures
            r == (self.to_int() == o.to_int()),
    ;

    exec fn is_nonzero(self) -> (r: bool)
        ensures
            r == (self.to_int() != 0),
    ;

    exec fn to_i128(self) -> (r: i128)
        ensures
            r as int == self.to_int(),
    ;

    /// Checked numeric conversion: `Some` exactly when the value is
    /// representable, and then the value is kept exactly.
    exec fn from_i128_checked(x: i128) -> (r: Option<Self>)
        ensures
            match r {
                Some(v) => Self::min_int() <= x as int <= Self::max_int() && v.to_int()
                    == x as int,
                None => !(Self::min_int() <= x as int <= Self::max_int()),
            },
    ;

    /// Raw conversion with Rust's native truncation/wraparound rule.
    exec fn from_i128_wrap(x: i128) -> (r: Self)
        ensures
            r == Self::wrap_from_i128(x),
    ;
}

/// When the native remainder of two values is defined.
pub open spec fn rem_defined<T: NativeType>(a: T, d: T) -> bool {
    rem_defined_int(a.to_int(), d.to_int(), T::min_int())
}

/// The value of the native remainder, where it is defined.
pub open spec fn rem_value<T: NativeType>(a: T, d: T) -> int {
    trunc_rem(a.to_int(), d.to_int())
}

impl NativeType for u8 {
    open spec fn to_int(self) -> int {
        self as int
    }

    open spec fn min_int() -> int {
        0
    }

    open spec fn max_int() -> int {
        u8::MAX as int
    }

    open spec fn spec_data_type() -> DataType {
        DataType::UInt8
    }

    open spec fn wrap_from_i128(x: i128) -> u8 {
        x as u8
    }

    proof fn in_range(a: u8) {
    }

    proof fn to_int_injective(a: u8, b: u8) {
    }

    exec fn data_type() -> DataType {
        DataType::UInt8
    }

    exec fn zero() -> u8 {
        0
    }

    exec fn rem_op(self, d: u8) -> u8 {
        let r = self % d;
        proof {
            assert(0int % (d as int) == 0int);
        }
        r
    }

    exec fn checked_rem_op(self, d: u8) -> Option<u8> {
        let r = self.checked_rem(d);
        proof {
            if d != 0 {
                assert(0int % (d as int) == 0int);
            }
        }
        r
    }

    exec fn rem_scalar_op(self, d: u8) -> u8 {
        let r = sr_rem_u8(self, d);
        proof {
            assert(0int % (d as int) == 0int);
        }
        r
    }

    exec fn eq_op(self, o: u8) -> bool {
        self == o
    }

    exec fn is_nonzero(self) -> bool {
        self != 0
    }

    exec fn to_i128(self) -> i128 {
        self as i128
    }

    exec fn from_i128_checked(x: i128) -> Option<u8> {
        if 0 <= x && x <= u8::MAX as i128 {
            Some(x as u8)
        } else {
            None
        }
    }

    exec fn from_i128_wrap(x: i128) -> u8 {
        #[verifier::truncate]
        (x as u8)
    }
}

impl NativeType for u16 {
    open spec fn to_int(self) -> int {
        self as int
    }

    open spec fn min_int() -> int {
        0
    }

    open spec fn max_int() -> int {
        u16::MAX as int
    }

    open spec fn spec_data_type() -> DataType {
        DataType::UInt16
    }

    open spec fn wrap_from_i128(x: i128) -> u16 {
        x as u16
    }

    proof fn in_range(a: u16) {
    }

    proof fn to_int_injective(a: u16, b: u16) {
    }

    exec fn data_type() -> DataType {
        DataType::UInt16
    }

    exec fn zero() -> u16 {
        0
    }

    exec fn rem_op(self, d: u16) -> u16 {
        let r = self % d;
        proof {
            assert(0int % (d as int) == 0int);
        }
        r
    }

    exec fn checked_rem_op(self, d: u16) -> Option<u16> {
        let r = self.checked_rem(d);
        proof {
            if d != 0 {
                assert(0int % (d as int) == 0int);
            }
        }
        r
    }

    exec fn rem_scalar_op(self, d: u16) -> u16 {
        let r = sr_rem_u16(self, d);
        proof {
            assert(0int % (d as int) == 0int);
        }
        r
    }

    exec fn eq_op(self, o: u16) -> bool {
        self == o
    }

    exec fn is_nonzero(self) -> bool {
        self != 0
    }

    exec fn to_i128(self) -> i128 {
        self as i128
    }

    exec fn from_i128_checked(x: i128) -> Option<u16> {
        if 0 <= x && x <= u16::MAX as i128 {
            Some(x as u16)
        } else {
            None
        }
    }

    exec fn from_i128_wrap(x: i128) -> u16 {
        #[verifier::truncate]
        (x as u16)
    }
}

impl NativeType for u32 {
    open spec fn to_int(self) -> int {
        self as int
    }

    open spec fn min_int() -> int {
        0
    }

    open spec fn max_int() -> int {
        u32::MAX as int
    }

    open spec fn spec_data_type() -> DataType {
        DataType::UInt32
    }

    open spec fn wrap_from_i128(x: i128) -> u32 {
        x as u32
    }

    proof fn in_range(a: u32) {
    }

    proof fn to_int_injective(a: u32, b: u32) {
    }

    exec fn data_type() -> DataType {
        DataType::UInt32
    }

    exec fn zero() -> u32 {
        0
    }

    exec fn rem_op(self, d: u32) -> u32 {
        let r = self % d;
        proof {
            assert(0int % (d as int) == 0int);
        }
        r
    }

    exec fn checked_rem_op(self, d: u32) -> Option<u32> {
        let r = self.checked_rem(d);
        proof {
            if d != 0 {
                assert(0int % (d as int) == 0int);
            }
        }
        r
    }

    exec fn rem_scalar_op(self, d: u32) -> u32 {
        let r = sr_rem_u32(self, d);
        proof {
            assert(0int % (d as int) == 0int);
        }
        r
    }

    exec fn eq_op(self, o: u32) -> bool {
        self == o
    }

    exec fn is_nonzero(self) -> bool {
        self != 0
    }

    exec fn to_i128(self) -> i128 {
        self as i128
    }

    exec fn from_i128_checked(x: i128) -> Option<u32> {
        if 0 <= x && x <= u32::MAX as i128 {
            Some(x as u32)
        } else {
            None
        }
    }

    exec fn from_i128_wrap(x: i128) -> u32 {
        #[verifier::truncate]
        (x as u32)
    }
}

impl NativeType for u64 {
    open spec fn to_int(self) -> int {
        self as int
    }

    open spec fn min_int() -> int {
        0
    }

    open spec fn max_int() -> int {
        u64::MAX as int
    }

    open spec fn spec_data_type() -> DataType {
        DataType::UInt64
    }

    open spec fn wrap_from_i128(x: i128) -> u64 {
        x as u64
    }

    proof fn in_range(a: u64) {
    }

    proof fn to_int_injective(a: u64, b: u64) {
    }

    exec fn data_type() -> DataType {
        DataType::UInt64
    }

    exec fn zero() -> u64 {
        0
    }

    exec fn rem_op(self, d: u64) -> u64 {
        let r = self % d;
        proof {
            assert(0int % (d as int) == 0int);
        }
        r
    }

    exec fn checked_rem_op(self, d: u64) -> Option<u64> {
        let r = self.checked_rem(d);
        proof {
            if d != 0 {
                assert(0int % (d as int) == 0int);
            }
        }
        r
    }

    exec fn rem_scalar_op(self, d: u64) -> u64 {
        let r = sr_rem_u64(self, d);
        proof {
            assert(0int % (d as int) == 0int);
        }
        r
    }

    exec fn eq_op(self, o: u64) -> bool {
        self == o
    }

    exec fn is_nonzero(self) -> bool {
        self != 0
    }

    exec fn to_i128(self) -> i128 {
        self as i128
    }

    exec fn from_i128_checked(x: i128) -> Option<u64> {
        if 0 <= x && x <= u64::MAX as i128 {
            Some(x as u64)
        } else {
            None
        }
    }

    exec fn from_i128_wrap(x: i128) -> u64 {
        #[verifier::truncate]
        (x as u64)
    }
}

impl NativeType for i8 {
    open spec fn to_int(self) -> int {
        self as int
    }

    open spec fn min_int() -> int {
        i8::MIN as int
    }

    open spec fn max_int() -> int {
        i8::MAX as int
    }

    open spec fn spec_data_type() -> DataType {
        DataType::Int8
    }

    open spec fn wrap_from_i128(x: i128) -> i8 {
        x as i8
    }

    proof fn in_range(a: i8) {
    }

    proof fn to_int_injective(a: i8, b: i8) {
    }

    exec fn data_type() -> DataType {
        DataType::Int8
    }

    exec fn zero() -> i8 {
        0
    }

    exec fn rem_op(self, d: i8) -> i8 {
        match self.checked_rem(d) {
            Some(v) => v,
            None => {
                proof {
                    assert(false);
                }
                0
            },
        }
    }

    exec fn checked_rem_op(self, d: i8) -> Option<i8> {
        self.checked_rem(d)
    }

    exec fn rem_scalar_op(self, d: i8) -> i8 {
        match self.checked_rem(d) {
            Some(v) => v,
            None => {
                proof {
                    assert(false);
                }
                0
            },
        }
    }

    exec fn eq_op(self, o: i8) -> bool {
        self == o
    }

    exec fn is_nonzero(self) -> bool {
        self != 0
    }

    exec fn to_i128(self) -> i128 {
        self as i128
    }

    exec fn from_i128_checked(x: i128) -> Option<i8> {
        if i8::MIN as i128 <= x && x <= i8::MAX as i128 {
            Some(x as i8)
        } else {
            None
        }
    }

    exec fn from_i128_wrap(x: i128) -> i8 {
        #[verifier::truncate]
        (x as i8)
    }
}

impl NativeType for i16 {
    open spec fn to_int(self) -> int {
        self as int
    }

    open spec fn min_int() -> int {
        i16::MIN as int
    }

    open spec fn max_int() -> int {
        i16::MAX as int
    }

    open spec fn spec_data_type() -> DataType {
        DataType::Int16
    }

    open spec fn wrap_from_i128(x: i128) -> i16 {
        x as i16
    }

    proof fn in_range(a: i16) {
    }

    proof fn to_int_injective(a: i16, b: i16) {
    }

    exec fn data_type() -> DataType {
        DataType::Int16
    }

    exec fn zero() -> i16 {
        0
    }

    exec fn rem_op(self, d: i16) -> i16 {
        match self.checked_rem(d) {
            Some(v) => v,
            None => {
                proof {
                    assert(false);
                }
                0
            },
        }
    }

    exec fn checked_rem_op(self, d: i16) -> Option<i16> {
        self.checked_rem(d)
    }

    exec fn rem_scalar_op(self, d: i16) -> i16 {
        match self.checked_rem(d) {
            Some(v) => v,
            None => {
                proof {
                    assert(false);
                }
                0
            },
        }
    }

    exec fn eq_op(self, o: i16) -> bool {
        self == o
    }

    exec fn is_nonzero(self) -> bool {
        self != 0
    }

    exec fn to_i128(self) -> i128 {
        self as i128
    }

    exec fn from_i128_checked(x: i128) -> Option<i16> {
        if i16::MIN as i128 <= x && x <= i16::MAX as i128 {
            Some(x as i16)
        } else {
            None
        }
    }

    exec fn from_i128_wrap(x: i128) -> i16 {
        #[verifier::truncate]
        (x as i16)
    }
}

impl NativeType for i32 {
    open spec fn to_int(self) -> int {
        self as int
    }

    open spec fn min_int() -> int {
        i32::MIN as int
    }

    open spec fn max_int() -> int {
        i32::MAX as int
    }

    open spec fn spec_data_type() -> DataType {
        DataType::Int32
    }

    open spec fn wrap_from_i128(x: i128) -> i32 {
        x as i32
    }

    proof fn in_range(a: i32) {
    }

    proof fn to_int_injective(a: i32, b: i32) {
    }

    exec fn data_type() -> DataType {
        DataType::Int32
    }

    exec fn zero() -> i32 {
        0
    }

    exec fn rem_op(self, d: i32) -> i32 {
        match self.checked_rem(d) {
            Some(v) => v,
            None => {
                proof {
                    assert(false);
                }
                0
            },
        }
    }

    exec fn checked_rem_op(self, d: i32) -> Option<i32> {
        self.checked_rem(d)
    }

    exec fn rem_scalar_op(self, d: i32) -> i32 {
        match self.checked_rem(d) {
            Some(v) => v,
            None => {
                proof {
                    assert(false);
                }
                0
            },
        }
    }

    exec fn eq_op(self, o: i32) -> bool {
        self == o
    }

    exec fn is_nonzero(self) -> bool {
        self != 0
    }

    exec fn to_i128(self) -> i128 {
        self as i128
    }

    exec fn from_i128_checked(x: i128) -> Option<i32> {
        if i32::MIN as i128 <= x && x <= i32::MAX as i128 {
            Some(x as i32)
        } else {
            None
        }
    }

    exec fn from_i128_wrap(x: i128) -> i32 {
        #[verifier::truncate]
        (x as i32)
    }
}

impl NativeType for i64 {
    open spec fn to_int(self) -> int {
        self as int
    }

    open spec fn min_int() -> int {
        i64::MIN as int
    }

    open spec fn max_int() -> int {
        i64::MAX as int
    }

    open spec fn spec_data_type() -> DataType {
        DataType::Int64
    }

    open spec fn wrap_from_i128(x: i128) -> i64 {
        x as i64
    }

    proof fn in_range(a: i64) {
    }

    proof fn to_int_injective(a: i64, b: i64) {
    }

    exec fn data_type() -> DataType {
        DataType::Int64
    }

    exec fn zero() -> i64 {
        0
    }

    exec fn rem_op(self, d: i64) -> i64 {
        match self.checked_rem(d) {
            Some(v) => v,
            None => {
                proof {
                    assert(false);
                }
                0
            },
        }
    }

    exec fn checked_rem_op(self, d: i64) -> Option<i64> {
        self.checked_rem(d)
    }

    exec fn rem_scalar_op(self, d: i64) -> i64 {
        match self.checked_rem(d) {
            Some(v) => v,
            None => {
                proof {
                    assert(false);
                }
                0
            },
        }
    }

    exec fn eq_op(self, o: i64) -> bool {
        self == o
    }

    exec fn is_nonzero(self) -> bool {
        self != 0
    }

    exec fn to_i128(self) -> i128 {
        self as i128
    }

    exec fn from_i128_checked(x: i128) -> Option<i64> {
        if i64::MIN as i128 <= x && x <= i64::MAX as i128 {
            Some(x as i64)
        } else {
            None
        }
    }

    exec fn from_i128_wrap(x: i128) -> i64 {
        #[verifier::truncate]
        (x as i64)
    }
}

} // verus!
