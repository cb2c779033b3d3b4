//! The failure taxonomy of the JSON value accessor.
//!
//! The accessor itself works on parsed JSON values whose numbers are
//! floating point, so it lives with the host-side code; the errors it
//! reports are plain values and are defined here, with the fixed ASCII
//! identifier each one surfaces as.

use vstd::prelude::*;

verus! {

/// Why a typed lookup on a JSON value failed.
#[derive(Clone, Copy, Debug, PartialEq, Eq, Structural)]
pub enum JsonError {
    /// The value looked into is not an object.
    NotJsonType,
    /// The object has no entry under the requested key.
    MissingValue,
    /// The entry is not a number convertible to `u8`.
    InvalidU8,
    /// The entry is not a number convertible to `u64`.
    InvalidU64,
    /// The entry is not a string holding a `u128`.
    InvalidU128,
    /// The entry is not a boolean.
    InvalidBool,
    /// The entry is not a string.
    InvalidString,
    /// The entry is not an array.
    InvalidArray,
    /// The entry is a number where a numeric string is required.
    ExpectedStringGotNumber,
    /// The entry is a number outside the `u8` range.
    OutOfRangeU8,
    /// The entry is a number outside the `u64` range.
    OutOfRangeU64,
}

impl JsonError {
    /// The fixed ASCII identifier of this failure, for a host-level
    /// message.
    pub fn as_ref(&self) -> (r: &'static str)
        ensures
            r@ == match self {
                JsonError::NotJsonType => "ERR_NOT_A_JSON_TYPE"@,
                JsonError::MissingValue => "ERR_JSON_MISSING_VALUE"@,
                JsonError::InvalidU8 => "ERR_FAILED_PARSE_U8"@,
                JsonError::InvalidU64 => "ERR_FAILED_PARSE_U64"@,
                JsonError::InvalidU128 => "ERR_FAILED_PARSE_U128"@,
                JsonError::InvalidBool => "ERR_FAILED_PARSE_BOOL"@,
                JsonError::InvalidString => "ERR_FAILED_PARSE_STRING"@,
                JsonError::InvalidArray => "ERR_FAILED_PARSE_ARRAY"@,
                JsonError::ExpectedStringGotNumber => "ERR_EXPECTED_STRING_GOT_NUMBER"@,
                JsonError::OutOfRangeU8 => "ERR_OUT_OF_RANGE_U8"@,
                JsonError::OutOfRangeU64 => "ERR_OUT_OF_RANGE_U64"@,
            },
    {
        match self {
            JsonError::NotJsonType => "ERR_NOT_A_JSON_TYPE",
            JsonError::MissingValue => "ERR_JSON_MISSING_VALUE",
            JsonError::InvalidU8 => "ERR_FAILED_PARSE_U8",
            JsonError::InvalidU64 => "ERR_FAILED_PARSE_U64",
            JsonError::InvalidU128 => "ERR_FAILED_PARSE_U128",
            JsonError::InvalidBool => "ERR_FAILED_PARSE_BOOL",
            JsonError::InvalidString => "ERR_FAILED_PARSE_STRING",
            JsonError::InvalidArray => "ERR_FAILED_PARSE_ARRAY",
            JsonError::ExpectedStringGotNumber => "ERR_EXPECTED_STRING_GOT_NUMBER",
            JsonError::OutOfRangeU8 => "ERR_OUT_OF_RANGE_U8",
            JsonError::OutOfRangeU64 => "ERR_OUT_OF_RANGE_U64",
        }
    }
}

} // verus!
