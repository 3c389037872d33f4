//! From the status code of a native call to a typed result.

use crate::enums::ZenseError;
use vstd::prelude::*;

verus! {

pub type ZenseResult<T> = Result<T, ZenseError>;

/// The error that a non-zero status code stands for.
///
/// A code of the table gives its own error. A positive code outside the
/// table means that the native library left its documented contract, which
/// is one category of its own; a negative code outside the table is
/// `Unknown`.
pub open spec fn status_error(status: int) -> ZenseError {
    if status > 0 && ZenseError::of_code(status) == ZenseError::Unknown {
        ZenseError::FfiError
    } else {
        ZenseError::of_code(status)
    }
}

/// What a status code means for a call without output: `Ok` for exactly the
/// code 0, and otherwise the error of [`status_error`].
pub open spec fn status_outcome(status: int) -> ZenseResult<()> {
    if status == 0 {
        Ok(())
    } else {
        Err(status_error(status))
    }
}

/// Maps the status code of a native call that has no output.
pub fn check_status(status: i32) -> (r: ZenseResult<()>)
    ensures
        r == status_outcome(status as int),
{
    if status == 0 {
        Ok(())
    } else {
        let e = ZenseError::from_int(status);
        if status > 0 && e.is_unknown() {
            Err(ZenseError::FfiError)
        } else {
            Err(e)
        }
    }
}

/// Maps the status code of a native call with one output value. The value is
/// handed on only under status 0: on any other status the native side has
/// not promised to have written it, and it is dropped unread.
pub fn value_or_error<T>(status: i32, value: T) -> (r: ZenseResult<T>)
    ensures
        status == 0 ==> r == Ok::<T, ZenseError>(value),
        status != 0 ==> r == Err::<T, ZenseError>(status_error(status as int)),
{
    match check_status(status) {
        Ok(()) => Ok(value),
        Err(e) => Err(e),
    }
}

/// A status code other than 0 never yields `Ok`, and never the error
/// `Unknown` unless the code is negative and outside the table.
pub proof fn lemma_status_outcome_total(status: int)
    ensures
        status_outcome(status) is Ok <==> status == 0,
        status > 0 ==> status_error(status) != ZenseError::Unknown,
        status < 0 ==> status_error(status) == ZenseError::of_code(status),
{
}

} // verus!
