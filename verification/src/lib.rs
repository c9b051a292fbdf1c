//! Columnar in-memory arrays: typed, nullable sequences of values with
//! shared immutable buffers, zero-copy slicing, a cross-runtime bridge,
//! incremental construction, and gather / arithmetic / cast kernels.
pub mod array;
pub mod bitmap;
pub mod buffer;
pub mod compute;
pub mod datatypes;
pub mod error;
pub mod ffi;
pub mod lexical;
pub mod scalar;
pub mod temporal_conversions;
pub mod types;
