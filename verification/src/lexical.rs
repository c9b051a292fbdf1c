use crate::types::NativeType;
use vstd::prelude::*;

verus! {

/// The decimal rendering of a `u8`, as `lexical_core::write` produces it.
pub uninterp spec fn lexical_u8(x: u8) -> Seq<u8>;

/// The decimal rendering of a `u16`, as `lexical_core::write` produces it.
pub uninterp spec fn lexical_u16(x: u16) -> Seq<u8>;

/// The decimal rendering of a `u32`, as `lexical_core::write` produces it.
pub uninterp spec fn lexical_u32(x: u32) -> Seq<u8>;

/// The decimal rendering of a `u64`, as `lexical_core::write` produces it.
pub uninterp spec fn lexical_u64(x: u64) -> Seq<u8>;

/// The decimal rendering of an `i8`, as `lexical_core::write` produces it.
pub uninterp spec fn lexical_i8(x: i8) -> Seq<u8>;

/// The decimal rendering of an `i16`, as `lexical_core::write` produces it.
pub uninterp spec fn lexical_i16(x: i16) -> Seq<u8>;

/// The decimal rendering of an `i32`, as `lexical_core::write` produces it.
pub uninterp spec fn lexical_i32(x: i32) -> Seq<u8>;

/// The decimal rendering of an `i64`, as `lexical_core::write` produces it.
pub uninterp spec fn lexical_i64(x: i64) -> Seq<u8>;

/// Relies on lexical_core::write for `u8`: the human-readable decimal bytes
/// of the value, a function of the value alone.
#[verifier::external_body]
fn lexical_bytes_u8(x: u8) -> (r: Vec<u8>)
    ensures
        r@ == lexical_u8(x),
{
    let mut buf = vec![0u8; <u8 as lexical_core::FormattedSize>::FORMATTED_SIZE_DECIMAL];
    let len = lexical_core::write(x, &mut buf).len();
    buf.truncate(len);
    buf
}

/// A native type with a lexical (human-readable decimal) byte rendering.
pub trait Lexical: NativeType {
    /// The rendered bytes, a function of the value alone.
    spec fn lexical_spec(self) -> Seq<u8>;

    exec fn to_lexical_bytes(self) -> (r: Vec<u8>)
        ensures
            r@ == self.lexical_spec(),
    ;
}

impl Lexical for u8 {
    open spec fn lexical_spec(self) -> Seq<u8> {
        lexical_u8(self)
    }

    exec fn to_lexical_bytes(self) -> Vec<u8> {
        lexical_bytes_u8(self)
    }
}

/// Relies on lexical_core::write for `u16`: the human-readable decimal bytes
/// of the value, a function of the value alone.
#[verifier::external_body]
fn lexical_bytes_u16(x: u16) -> (r: Vec<u8>)
    ensures
        r@ == lexical_u16(x),
{
    let mut buf = vec![0u8; <u16 as lexical_core::FormattedSize>::FORMATTED_SIZE_DECIMAL];
    let len = lexical_core::write(x, &mut buf).len();
    buf.truncate(len);
    buf
}

impl Lexical for u16 {
    open spec fn lexical_spec(self) -> Seq<u8> {
        lexical_u16(self)
    }

    exec fn to_lexical_bytes(self) -> Vec<u8> {
        lexical_bytes_u16(self)
    }
}

/// Relies on lexical_core::write for `u32`: the human-readable decimal bytes
/// of the value, a function of the value alone.
#[verifier::external_body]
fn lexical_bytes_u32(x: u32) -> (r: Vec<u8>)
    ensures
        r@ == lexical_u32(x),
{
    let mut buf = vec![0u8; <u32 as lexical_core::FormattedSize>::FORMATTED_SIZE_DECIMAL];
    let len = lexical_core::write(x, &mut buf).len();
    buf.truncate(len);
    buf
}

impl Lexical for u32 {
    open spec fn lexical_spec(self) -> Seq<u8> {
        lexical_u32(self)
    }

    exec fn to_lexical_bytes(self) -> Vec<u8> {
        lexical_bytes_u32(self)
    }
}

/// Relies on lexical_core::write for `u64`: the human-readable decimal bytes
/// of the value, a function of the value alone.
#[verifier::external_body]
fn lexical_bytes_u64(x: u64) -> (r: Vec<u8>)
    ensures
        r@ == lexical_u64(x),
{
    let mut buf = vec![0u8; <u64 as lexical_core::FormattedSize>::FORMATTED_SIZE_DECIMAL];
    let len = lexical_core::write(x, &mut buf).len();
    buf.truncate(len);
    buf
}

impl Lexical for u64 {
    open spec fn lexical_spec(self) -> Seq<u8> {
        lexical_u64(self)
    }

    exec fn to_lexical_bytes(self) -> Vec<u8> {
        lexical_bytes_u64(self)
    }
}

/// Relies on lexical_core::write for `i8`: the human-readable decimal bytes
/// of the value, a function of the value alone.
#[verifier::external_body]
fn lexical_bytes_i8(x: i8) -> (r: Vec<u8>)
    ensures
        r@ == lexical_i8(x),
{
    let mut buf = vec![0u8; <i8 as lexical_core::FormattedSize>::FORMATTED_SIZE_DECIMAL];
    let len = lexical_core::write(x, &mut buf).len();
    buf.truncate(len);
    buf
}

impl Lexical for i8 {
    open spec fn lexical_spec(self) -> Seq<u8> {
        lexical_i8(self)
    }

    exec fn to_lexical_bytes(self) -> Vec<u8> {
        lexical_bytes_i8(self)
    }
}

/// Relies on lexical_core::write for `i16`: the human-readable decimal bytes
/// of the value, a function of the value alone.
#[verifier::external_body]
fn lexical_bytes_i16(x: i16) -> (r: Vec<u8>)
    ensures
        r@ == lexical_i16(x),
{
    let mut buf = vec![0u8; <i16 as lexical_core::FormattedSize>::FORMATTED_SIZE_DECIMAL];
    let len = lexical_core::write(x, &mut buf).len();
    buf.truncate(len);
    buf
}

impl Lexical for i16 {
    open spec fn lexical_spec(self) -> Seq<u8> {
        lexical_i16(self)
    }

    exec fn to_lexical_bytes(self) -> Vec<u8> {
        lexical_bytes_i16(self)
    }
}

/// Relies on lexical_core::write for `i32`: the human-readable decimal bytes
/// of the value, a function of the value alone.
#[verifier::external_body]
fn lexical_bytes_i32(x: i32) -> (r: Vec<u8>)
    ensures
        r@ == lexical_i32(x),
{
    let mut buf = vec![0u8; <i32 as lexical_core::FormattedSize>::FORMATTED_SIZE_DECIMAL];
    let len = lexical_core::write(x, &mut buf).len();
    buf.truncate(len);
    buf
}

impl Lexical for i32 {
    open spec fn lexical_spec(self) -> Seq<u8> {
        lexical_i32(self)
    }

    exec fn to_lexical_bytes(self) -> Vec<u8> {
        lexical_bytes_i32(self)
    }
}

/// Relies on lexical_core::write for `i64`: the human-readable decimal bytes
/// of the value, a function of the value alone.
#[verifier::external_body]
fn lexical_bytes_i64(x: i64) -> (r: Vec<u8>)
    ensures
        r@ == lexical_i64(x),
{
    let mut buf = vec![0u8; <i64 as lexical_core::FormattedSize>::FORMATTED_SIZE_DECIMAL];
    let len = lexical_core::write(x, &mut buf).len();
    buf.truncate(len);
    buf
}

impl Lexical for i64 {
    open spec fn lexical_spec(self) -> Seq<u8> {
        lexical_i64(self)
    }

    exec fn to_lexical_bytes(self) -> Vec<u8> {
        lexical_bytes_i64(self)
    }
}

} // verus!
