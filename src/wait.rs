//! Reading what the system's waits report: the wait on one completion signal, the
//! select-one and the join-all wait over a list of them, and the result of an
//! overlapped request.
use vstd::prelude::*;
use crate::error::PipeError;
use crate::os::{MAXIMUM_WAIT_OBJECTS, WAIT_FAILED, WAIT_OBJECT_0, WAIT_TIMEOUT};

verus! {

/// A wait list that the multi-object waits accept: not empty, and no longer than the
/// system's ceiling. Any other list is a misuse by the caller.
pub open spec fn valid_wait_len(len: nat) -> bool {
    0 < len <= MAXIMUM_WAIT_OBJECTS
}

/// What a wait on one signal reported: `Some(0)` when the signal was set, `None` when
/// the timeout elapsed first.
pub open spec fn spec_single_wait(status: u32, last_error: u32) -> Result<Option<usize>, PipeError> {
    if status == WAIT_OBJECT_0 {
        Ok(Some(0))
    } else if status == WAIT_TIMEOUT {
        Ok(None)
    } else if status == WAIT_FAILED {
        Err(PipeError::Os(last_error))
    } else {
        Err(PipeError::UnexpectedWaitStatus(status))
    }
}

/// The index that a select-one wait over `len` signals reported.
pub open spec fn spec_wait_any(len: nat, status: u32, last_error: u32) -> Result<usize, PipeError> {
    if WAIT_OBJECT_0 <= status < WAIT_OBJECT_0 + len {
        Ok((status - WAIT_OBJECT_0) as usize)
    } else if status == WAIT_FAILED {
        Err(PipeError::Os(last_error))
    } else {
        Err(PipeError::UnexpectedWaitStatus(status))
    }
}

/// Whether a join-all wait over `len` signals reported that all of them are set.
pub open spec fn spec_wait_all(len: nat, status: u32, last_error: u32) -> Result<(), PipeError> {
    if WAIT_OBJECT_0 <= status < WAIT_OBJECT_0 + len {
        Ok(())
    } else if status == WAIT_FAILED {
        Err(PipeError::Os(last_error))
    } else {
        Err(PipeError::UnexpectedWaitStatus(status))
    }
}

/// The transfer count of a finished overlapped request, or the system's failure.
pub open spec fn spec_overlapped_count(succeeded: bool, count: u32, last_error: u32) -> Result<u32, PipeError> {
    if succeeded {
        Ok(count)
    } else {
        Err(PipeError::Os(last_error))
    }
}

/// Whether a list of `len` objects may be waited on.
pub fn wait_list_ok(len: usize) -> (r: bool)
    ensures
        r == valid_wait_len(len as nat),
{
    0 < len && len <= MAXIMUM_WAIT_OBJECTS
}

/// Reads the status of a wait on one signal (`last_error` is the system's error code
/// after the wait).
pub fn decode_single_wait(status: u32, last_error: u32) -> (r: Result<Option<usize>, PipeError>)
    ensures
        r == spec_single_wait(status, last_error),
{
    if status == WAIT_OBJECT_0 {
        Ok(Some(0))
    } else if status == WAIT_TIMEOUT {
        Ok(None)
    } else if status == WAIT_FAILED {
        Err(PipeError::Os(last_error))
    } else {
        Err(PipeError::UnexpectedWaitStatus(status))
    }
}

/// Reads the result of fetching an overlapped request's outcome.
pub fn overlapped_count(succeeded: bool, count: u32, last_error: u32) -> (r: Result<u32, PipeError>)
    ensures
        r == spec_overlapped_count(succeeded, count, last_error),
{
    if succeeded {
        Ok(count)
    } else {
        Err(PipeError::Os(last_error))
    }
}

/// Select-one wait: from the status that waiting without end on the signals of `list`,
/// in order, returned, the index in `list` of the first finished operation.
pub fn wait<T>(list: &[T], status: u32, last_error: u32) -> (r: Result<usize, PipeError>)
    requires
        valid_wait_len(list@.len()),
    ensures
        r == spec_wait_any(list@.len(), status, last_error),
        r is Ok ==> r->Ok_0 < list@.len(),
{
    let len = list.len();
    if status < len as u32 {
        Ok(status as usize)
    } else if status == WAIT_FAILED {
        Err(PipeError::Os(last_error))
    } else {
        Err(PipeError::UnexpectedWaitStatus(status))
    }
}

/// Join-all wait: from the status that waiting without end for all the signals of
/// `list` returned, whether every operation of `list` has finished.
pub fn wait_all<T>(list: &[T], status: u32, last_error: u32) -> (r: Result<(), PipeError>)
    requires
        valid_wait_len(list@.len()),
    ensures
        r == spec_wait_all(list@.len(), status, last_error),
{
    let len = list.len();
    if status < len as u32 {
        Ok(())
    } else if status == WAIT_FAILED {
        Err(PipeError::Os(last_error))
    } else {
        Err(PipeError::UnexpectedWaitStatus(status))
    }
}

/// An empty wait list and one longer than the system's ceiling are both refused.
pub proof fn lemma_wait_list_bounds(len: nat)
    ensures
        len == 0 ==> !valid_wait_len(len),
        len > MAXIMUM_WAIT_OBJECTS ==> !valid_wait_len(len),
        1 <= len <= MAXIMUM_WAIT_OBJECTS ==> valid_wait_len(len),
{
}

/// The select-one wait reports the index of the member whose signal was set, for
/// every member of an accepted list.
pub proof fn lemma_wait_reports_member(len: nat, i: nat, last_error: u32)
    requires
        valid_wait_len(len),
        i < len,
    ensures
        spec_wait_any(len, (WAIT_OBJECT_0 + i) as u32, last_error) == Ok::<usize, PipeError>(
            i as usize,
        ),
{
}

/// A join-all wait succeeds only on a status that reports all members set, and a list
/// reduced to the members still incomplete (some, not none) is accepted again.
pub proof fn lemma_wait_all_on_remaining(len: nat, remaining: nat, status: u32, last_error: u32)
    requires
        valid_wait_len(len),
        0 < remaining <= len,
    ensures
        valid_wait_len(remaining),
        spec_wait_all(remaining, status, last_error) is Ok <==> (WAIT_OBJECT_0 <= status
            < WAIT_OBJECT_0 + remaining),
{
}

} // verus!
