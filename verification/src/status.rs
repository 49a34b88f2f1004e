//! Status codes returned across the boundary.

use vstd::prelude::*;

verus! {

/// Numeric code of a call that succeeded.
pub const SUCCESS: i32 = 0;

/// Numeric code of a call whose arguments were absent or malformed.
pub const ERROR_INVALID_INPUT: i32 = -1;

/// Numeric code of a call whose processing failed downstream.
pub const ERROR_PROCESSING_FAILED: i32 = -2;

/// Numeric code of a call that needed a file or tool that is missing.
pub const ERROR_FILE_NOT_FOUND: i32 = -3;

/// The outcome of an entry point, as the host sees it.
#[derive(Clone, Copy, Debug, PartialEq, Eq, Structural)]
pub enum StatusCode {
    /// The call did what it was asked.
    Success,
    /// A required argument was absent or not valid text.
    InvalidInput,
    /// The engine, the decoder or an external tool failed.
    ProcessingFailed,
    /// An input file or an external tool artifact is missing.
    FileNotFound,
}

impl StatusCode {
    /// The number that stands for this status on the wire.
    pub open spec fn wire_code(self) -> int {
        match self {
            StatusCode::Success => 0,
            StatusCode::InvalidInput => -1,
            StatusCode::ProcessingFailed => -2,
            StatusCode::FileNotFound => -3,
        }
    }

    /// The number handed to the host for this status.
    pub fn code(self) -> (code: i32)
        ensures
            code == self.wire_code(),
    {
        match self {
            StatusCode::Success => SUCCESS,
            StatusCode::InvalidInput => ERROR_INVALID_INPUT,
            StatusCode::ProcessingFailed => ERROR_PROCESSING_FAILED,
            StatusCode::FileNotFound => ERROR_FILE_NOT_FOUND,
        }
    }

    /// Whether this status reports a failure.
    pub fn is_failure(self) -> (failed: bool)
        ensures
            failed == (self != StatusCode::Success),
            failed == (self.wire_code() < 0),
    {
        match self {
            StatusCode::Success => false,
            _ => true,
        }
    }
}

} // verus!
