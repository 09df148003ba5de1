//! Status codes of the C interface and the mapping of an operation's outcome
//! onto one of them.

use vstd::prelude::*;

verus! {

/// Operation completed successfully.
pub const META_AEC3_OK: i32 = 0;
/// A required pointer was null or not suitably aligned.
pub const META_AEC3_NULL_POINTER: i32 = -1;
/// A creation or reconfiguration option is unsupported or internally invalid.
pub const META_AEC3_INVALID_CONFIG: i32 = -2;
/// An operation argument is invalid for the handle's fixed audio format.
pub const META_AEC3_INVALID_ARGUMENT: i32 = -3;
/// A supplied output buffer cannot hold the requested result.
pub const META_AEC3_BUFFER_TOO_SMALL: i32 = -4;
/// An internal panic was caught before it could cross the C interface.
pub const META_AEC3_PANIC: i32 = -99;

/// The status reported for an operation: `None` stands for an operation that
/// panicked; otherwise the status it returned, success or failure alike.
pub fn ffi_status(outcome: Option<Result<i32, i32>>) -> (status: i32)
    ensures
        status == match outcome {
            Some(Ok(s)) => s,
            Some(Err(s)) => s,
            None => META_AEC3_PANIC,
        },
{
    match outcome {
        Some(Ok(status)) => status,
        Some(Err(status)) => status,
        None => META_AEC3_PANIC,
    }
}

/// The object a creation call hands out: the instance only when the
/// operation neither panicked nor failed (the caller hands out null otherwise).
pub fn ffi_create<T>(outcome: Option<Result<T, i32>>) -> (created: Option<T>)
    ensures
        created == match outcome {
            Some(Ok(instance)) => Some(instance),
            _ => None::<T>,
        },
{
    match outcome {
        Some(Ok(instance)) => Some(instance),
        _ => None,
    }
}

/// The value of a query that answers either a count or an error status.
pub fn query_status(result: Result<i32, i32>) -> (value: i32)
    ensures
        value == match result {
            Ok(v) => v,
            Err(s) => s,
        },
{
    match result {
        Ok(value) => value,
        Err(status) => status,
    }
}

} // verus!
