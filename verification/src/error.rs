use vstd::prelude::*;

verus! {

/// The recoverable failures that the kernels and the bridge report.
/// Every error is returned synchronously, before any output is produced.
#[derive(Clone, Copy, Debug, PartialEq, Eq, Structural)]
pub enum ArrowError {
    /// The logical types of two operands differ.
    TypeMismatch,
    /// The lengths of two operands differ.
    LengthMismatch,
    /// A bridge descriptor's physical shape does not fit its declared logical type.
    FormatError,
    /// A dictionary cast saw more distinct values than its key width can address.
    KeyOverflow,
    /// A timestamp rendering could not resolve the requested time zone.
    InvalidTimezone,
}

impl ArrowError {
    /// A human-readable description of the error.
    pub fn message(&self) -> String {
        match self {
            ArrowError::TypeMismatch => "Arrays must have the same logical type".to_string(),
            ArrowError::LengthMismatch => "Arrays must have the same length".to_string(),
            ArrowError::FormatError => "descriptor does not fit the declared logical type".to_string(),
            ArrowError::KeyOverflow => "dictionary key type cannot address all distinct values".to_string(),
            ArrowError::InvalidTimezone => "timezone cannot be parsed".to_string(),
        }
    }
}

} // verus!
