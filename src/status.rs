use crate::StrError;
use vstd::prelude::*;

verus! {

/// The status that a native call returns on success; any other value is a failure.
pub const C_MPI_SUCCESS: i32 = 0;

/// The status of a threaded initialization whose requested thread mode the
/// runtime could not honour.
pub const C_MPI_ERROR_INIT_THREADED: i32 = 1000;

/// The message for a threaded initialization whose thread mode was refused.
pub const THREAD_MODE_REFUSED: StrError = "MPI failed to match the required thread option";

/// The message for a threaded initialization that failed for another reason.
pub const INIT_THREADED_FAILED: StrError = "MPI failed to initialize (threaded)";

/// Turns the status of a native call into a result: `Ok` on success, else
/// the given message.
pub fn check_status(status: i32, failure: StrError) -> (r: Result<(), StrError>)
    ensures
        r is Ok <==> status == C_MPI_SUCCESS,
        r matches Err(e) ==> e == failure,
{
    if status == C_MPI_SUCCESS {
        Ok(())
    } else {
        Err(failure)
    }
}

/// Interprets the status of a threaded initialization, telling a refused thread
/// mode apart from any other failure.
pub fn init_thread_outcome(status: i32) -> (r: Result<(), StrError>)
    ensures
        r is Ok <==> status == C_MPI_SUCCESS,
        status == C_MPI_ERROR_INIT_THREADED ==> r == Err::<(), StrError>(THREAD_MODE_REFUSED),
        status != C_MPI_ERROR_INIT_THREADED && status != C_MPI_SUCCESS ==> r == Err::<(), StrError>(
            INIT_THREADED_FAILED,
        ),
{
    if status == C_MPI_ERROR_INIT_THREADED {
        Err(THREAD_MODE_REFUSED)
    } else if status != C_MPI_SUCCESS {
        Err(INIT_THREADED_FAILED)
    } else {
        Ok(())
    }
}

/// Interprets a native yes/no query: on success the answer is whether the flag
/// the runtime wrote is one.
pub fn flag_outcome(status: i32, flag: i32, failure: StrError) -> (r: Result<bool, StrError>)
    ensures
        status == C_MPI_SUCCESS ==> r == Ok::<bool, StrError>(flag == 1),
        status != C_MPI_SUCCESS ==> r == Err::<bool, StrError>(failure),
{
    if status != C_MPI_SUCCESS {
        Err(failure)
    } else {
        Ok(flag == 1)
    }
}

/// Interprets a native rank or size query. A negative value reported with a
/// success status is no rank or size, and counts as a failure.
pub fn count_outcome(status: i32, value: i32, failure: StrError) -> (r: Result<usize, StrError>)
    ensures
        r is Ok <==> status == C_MPI_SUCCESS && value >= 0,
        r matches Ok(c) ==> c as int == value as int,
        r matches Err(e) ==> e == failure,
{
    if status != C_MPI_SUCCESS || value < 0 {
        Err(failure)
    } else {
        Ok(value as usize)
    }
}

} // verus!
