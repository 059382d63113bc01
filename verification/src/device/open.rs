//! The open flow for a device path.
//!
//! A device is opened with the least privilege that still allows control
//! operations: read-write first and, only when that is denied for
//! permission, once more read-only. Whatever error remains is surfaced
//! after one reclassification: an OS "invalid argument" during open really
//! means the path was not a valid device path.

use vstd::prelude::*;

use crate::error::{Error, ErrorKind, OS_INVALID_ARGUMENT};

verus! {

/// Whether the read-write attempt's outcome calls for a read-only retry:
/// only a permission denial does.
pub open spec fn spec_should_retry_read_only(outcome: Result<i32, Error>) -> bool {
    outcome matches Err(e) && e.kind == ErrorKind::AccessDenied
}

/// An open error, with an OS "invalid argument" reclassified as an invalid
/// path: the OS conflates the two for device paths.
pub open spec fn spec_reclassify_open_error(e: Error) -> Error {
    if e.code == OS_INVALID_ARGUMENT {
        Error { kind: ErrorKind::InvalidPath, ..e }
    } else {
        e
    }
}

/// The final outcome of whichever open attempt stood last.
pub open spec fn spec_finish_open(outcome: Result<i32, Error>) -> Result<i32, Error> {
    match outcome {
        Ok(fd) => Ok(fd),
        Err(e) => Err(spec_reclassify_open_error(e)),
    }
}

/// The outcome of the whole open flow, given the read-write attempt's
/// outcome and — consulted only when that was denied — the read-only
/// attempt's outcome.
pub open spec fn spec_open_outcome(
    read_write: Result<i32, Error>,
    read_only: Result<i32, Error>,
) -> Result<i32, Error> {
    if spec_should_retry_read_only(read_write) {
        spec_finish_open(read_only)
    } else {
        spec_finish_open(read_write)
    }
}

/// Decides whether the read-write attempt must be retried read-only.
pub fn should_retry_read_only(outcome: &Result<i32, Error>) -> (retry: bool)
    ensures
        retry == spec_should_retry_read_only(*outcome),
{
    match outcome {
        Err(e) => e.kind() == ErrorKind::AccessDenied,
        Ok(_) => false,
    }
}

/// Finishes the last open attempt, reclassifying an OS "invalid argument"
/// as an invalid path.
pub fn finish_open(outcome: Result<i32, Error>) -> (out: Result<i32, Error>)
    ensures
        out == spec_finish_open(outcome),
{
    match outcome {
        Ok(fd) => Ok(fd),
        Err(mut e) => {
            if e.code == OS_INVALID_ARGUMENT {
                e.kind = ErrorKind::InvalidPath;
            }
            Err(e)
        },
    }
}

/// Resolves the open flow from its attempts' outcomes. The read-only
/// outcome must be there if and only if the flow called for the retry.
pub fn resolve_open(
    read_write: Result<i32, Error>,
    read_only: Option<Result<i32, Error>>,
) -> (out: Result<i32, Error>)
    requires
        (read_only is Some) == spec_should_retry_read_only(read_write),
    ensures
        read_only matches Some(ro) ==> out == spec_open_outcome(read_write, ro),
        read_only is None ==> out == spec_finish_open(read_write),
{
    match read_only {
        Some(ro) => finish_open(ro),
        None => finish_open(read_write),
    }
}

/// Law: an open denied for permission on the read-write attempt is retried
/// read-only, and when that retry fails too, the retry's error — after
/// reclassification — is what the caller sees, not the read-write error.
pub proof fn lemma_denied_open_surfaces_read_only_error(
    read_write: Result<i32, Error>,
    read_only: Result<i32, Error>,
)
    requires
        read_write matches Err(e) && e.kind == ErrorKind::AccessDenied,
        read_only is Err,
    ensures
        spec_should_retry_read_only(read_write),
        read_only matches Err(ro_err) ==> spec_open_outcome(read_write, read_only) == Result::<
            i32,
            Error,
        >::Err(spec_reclassify_open_error(ro_err)),
        spec_open_outcome(read_write, read_only) is Err,
{
}

} // verus!
