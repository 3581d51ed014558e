//! Why an operation did not produce a resource.

use vstd::prelude::*;

verus! {

/// The cause of a failed operation.
#[derive(Clone, Copy, Debug, PartialEq, Eq, Structural)]
pub enum Error {
    /// The identifier that the caller supplied conflicts with the operation:
    /// one was set on creation, or it differs from the addressed one on update.
    InvalidInput,
    /// The engine holds no document under the identifier.
    NotFound,
    /// The engine call did not complete, or the engine reported a failure.
    EngineUnavailable,
    /// The engine answered, but not with a payload of the expected shape.
    DecodeFailure,
}

/// The five resource operations.
#[derive(Clone, Copy, Debug, PartialEq, Eq, Structural)]
pub enum Operation {
    Search,
    Get,
    Create,
    Update,
    Delete,
}

/// Whether `result` is the executable counterpart of `expected`: the same
/// failure, or a value with the expected view.
pub open spec fn yields<T: View>(result: Result<T, Error>, expected: Result<T::V, Error>) -> bool {
    match expected {
        Ok(value) => result is Ok && result->Ok_0@ == value,
        Err(error) => result is Err && result->Err_0 == error,
    }
}

/// Status of a successful response.
pub const STATUS_OK: u16 = 200;

/// Status of a request that was refused for what it carried.
pub const STATUS_BAD_REQUEST: u16 = 400;

/// Status of every other failure.
pub const STATUS_NOT_FOUND: u16 = 404;

/// The status that answers a failure of `operation` with cause `error`.
pub open spec fn failure_status_spec(operation: Operation, error: Error) -> u16 {
    if operation == Operation::Create && error == Error::InvalidInput {
        STATUS_BAD_REQUEST
    } else {
        STATUS_NOT_FOUND
    }
}

/// Maps a failure to its status on the wire. Only an identifier set on
/// creation is answered as a bad request; every other failure, whatever its
/// cause, is answered as not found.
pub fn failure_status(operation: Operation, error: Error) -> (status: u16)
    ensures
        status == failure_status_spec(operation, error),
{
    match (operation, error) {
        (Operation::Create, Error::InvalidInput) => STATUS_BAD_REQUEST,
        _ => STATUS_NOT_FOUND,
    }
}

/// The status that answers the outcome of `operation`.
pub open spec fn response_status_spec<T>(operation: Operation, result: Result<T, Error>) -> u16 {
    match result {
        Ok(_) => STATUS_OK,
        Err(error) => failure_status_spec(operation, error),
    }
}

/// The status on the wire for the outcome of `operation`: success, or the
/// status of its failure.
pub fn response_status<T>(operation: Operation, result: &Result<T, Error>) -> (status: u16)
    ensures
        status == response_status_spec(operation, *result),
{
    match result {
        Ok(_) => STATUS_OK,
        Err(error) => failure_status(operation, *error),
    }
}

} // verus!
