//! Status codes of the uProtocol status model, as the library reports them.

use vstd::prelude::*;

verus! {

/// The code of a uProtocol status.
///
/// The variants follow the uProtocol `UCode` list; `code_value` gives each its number.
#[allow(non_camel_case_types)]
#[derive(Clone, Copy, Debug, PartialEq, Eq, Structural)]
pub enum StatusCode {
    OK,
    CANCELLED,
    UNKNOWN,
    INVALID_ARGUMENT,
    DEADLINE_EXCEEDED,
    NOT_FOUND,
    ALREADY_EXISTS,
    PERMISSION_DENIED,
    RESOURCE_EXHAUSTED,
    FAILED_PRECONDITION,
    ABORTED,
    OUT_OF_RANGE,
    UNIMPLEMENTED,
    INTERNAL,
    UNAVAILABLE,
    DATA_LOSS,
    UNAUTHENTICATED,
}

/// The number of a status code in the uProtocol status model.
pub open spec fn spec_code_value(code: StatusCode) -> i32 {
    match code {
        StatusCode::OK => 0,
        StatusCode::CANCELLED => 1,
        StatusCode::UNKNOWN => 2,
        StatusCode::INVALID_ARGUMENT => 3,
        StatusCode::DEADLINE_EXCEEDED => 4,
        StatusCode::NOT_FOUND => 5,
        StatusCode::ALREADY_EXISTS => 6,
        StatusCode::PERMISSION_DENIED => 7,
        StatusCode::RESOURCE_EXHAUSTED => 8,
        StatusCode::FAILED_PRECONDITION => 9,
        StatusCode::ABORTED => 10,
        StatusCode::OUT_OF_RANGE => 11,
        StatusCode::UNIMPLEMENTED => 12,
        StatusCode::INTERNAL => 13,
        StatusCode::UNAVAILABLE => 14,
        StatusCode::DATA_LOSS => 15,
        StatusCode::UNAUTHENTICATED => 16,
    }
}

impl StatusCode {
    /// The number of this status code in the uProtocol status model.
    pub fn code_value(&self) -> (value: i32)
        ensures
            value == spec_code_value(*self),
    {
        match self {
            StatusCode::OK => 0,
            StatusCode::CANCELLED => 1,
            StatusCode::UNKNOWN => 2,
            StatusCode::INVALID_ARGUMENT => 3,
            StatusCode::DEADLINE_EXCEEDED => 4,
            StatusCode::NOT_FOUND => 5,
            StatusCode::ALREADY_EXISTS => 6,
            StatusCode::PERMISSION_DENIED => 7,
            StatusCode::RESOURCE_EXHAUSTED => 8,
            StatusCode::FAILED_PRECONDITION => 9,
            StatusCode::ABORTED => 10,
            StatusCode::OUT_OF_RANGE => 11,
            StatusCode::UNIMPLEMENTED => 12,
            StatusCode::INTERNAL => 13,
            StatusCode::UNAVAILABLE => 14,
            StatusCode::DATA_LOSS => 15,
            StatusCode::UNAUTHENTICATED => 16,
        }
    }
}

} // verus!
