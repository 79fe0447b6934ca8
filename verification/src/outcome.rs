//! The outcome of an I/O operation, reduced to the error it may have left.

use vstd::prelude::*;

verus! {

/// `std::io::Error`, carried through as an opaque value.
#[verifier::external_type_specification]
#[verifier::external_body]
pub struct ExIoError(std::io::Error);

/// The error of an outcome: none where the operation succeeded, else the
/// error it failed with.
pub open spec fn opt_error<T>(r: Result<T, std::io::Error>) -> Option<std::io::Error> {
    match r {
        Ok(_) => None,
        Err(e) => Some(e),
    }
}

/// Drops the value of a successful outcome and keeps the error of a failed
/// one.
pub fn io_result_to_opt_error<T>(r: std::io::Result<T>) -> (res: Option<std::io::Error>)
    ensures
        res == opt_error(r),
        res is None <==> r is Ok,
        r matches Err(e) ==> res == Some(e),
{
    match r {
        Ok(_) => None,
        Err(e) => Some(e),
    }
}

} // verus!
