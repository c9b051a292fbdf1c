use vstd::prelude::*;

verus! {

/// Granularity of a time or timestamp value, as a fraction of one second.
#[derive(Clone, Copy, Debug, PartialEq, Eq, Structural)]
pub enum TimeUnit {
    Second,
    Millisecond,
    Microsecond,
    Nanosecond,
}

/// Logical type tag of an array. The kernels consume it as an opaque,
/// equality-comparable label that fixes the physical layout family.
#[derive(Clone, Copy, Debug, PartialEq, Eq, Structural)]
pub enum DataType {
    Null,
    Boolean,
    Int8,
    Int16,
    Int32,
    Int64,
    UInt8,
    UInt16,
    UInt32,
    UInt64,
    Date32,
    Date64,
    Time32(TimeUnit),
    Time64(TimeUnit),
    Timestamp(TimeUnit),
    Binary,
    Utf8,
    Dictionary,
}

/// Milliseconds in one second.
pub const MILLISECONDS: i64 = 1_000;

/// Microseconds in one second.
pub const MICROSECONDS: i64 = 1_000_000;

/// Nanoseconds in one second.
pub const NANOSECONDS: i64 = 1_000_000_000;

/// Seconds in one day.
pub const SECONDS_IN_DAY: i64 = 86_400;

/// Milliseconds in one day.
pub const MILLISECONDS_IN_DAY: i64 = 86_400_000;

} // verus!
