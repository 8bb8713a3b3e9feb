//! Classification of the raw return codes of the join-family calls.
//!
//! Both underlying primitives report their outcome as an errno-style code:
//! `0` for success, a positive errno otherwise. Everything the caller may
//! rely on is decided here, by total functions from the code to a
//! [`PollOutcome`], so that no unexpected error is ever folded silently
//! into "still running".

use vstd::prelude::*;

verus! {

/// Linux errno: the target thread had not yet terminated when the
/// non-blocking join looked.
pub const EBUSY: i32 = 16;

/// Linux errno: the deadline passed before the target thread terminated.
pub const ETIMEDOUT: i32 = 110;

/// Linux errno: invalid argument; for the join family this means a handle
/// that is not joinable (already waited on, detached) or a malformed
/// absolute time.
pub const EINVAL: i32 = 22;

/// Linux errno: no thread with the given identifier could be found.
pub const ESRCH: i32 = 3;

/// Linux errno: a deadlock was detected, for instance a thread trying to
/// join itself.
pub const EDEADLK: i32 = 35;

/// Linux errno: the platform does not implement the requested primitive.
/// This is the stable reason code reported when no non-blocking join
/// exists on the running system.
pub const ENOSYS: i32 = 38;

/// Linux errno: the operation is not supported on this object.
pub const EOPNOTSUPP: i32 = 95;

/// What one poll of a thread's termination state observed.
///
/// A poll never finalizes the handle: after `Terminated` the thread's
/// result is still retrievable by an ordinary blocking join, and after
/// `StillRunning` every join-family operation remains available.
#[derive(Clone, Copy, Debug, PartialEq, Eq, Structural)]
pub enum PollOutcome {
    /// The thread has terminated.
    Terminated,
    /// The thread had not terminated when the poll gave up: immediately
    /// for a non-blocking poll, at the deadline for a timed one. Expected,
    /// not an error; the caller may simply try again later.
    StillRunning,
    /// The platform offers no non-blocking or timed join primitive. The
    /// payload is the errno-style reason code; it is permanent for the
    /// life of the process.
    Unsupported(i32),
    /// The handle does not denote a joinable thread: a caller bug, not a
    /// state to retry. The payload is the errno that identified it.
    InvalidHandle(i32),
    /// Any other error the operating system reported, by its raw code.
    OsError(i32),
}

/// How a non-blocking join's return code reads as an outcome.
pub open spec fn try_join_outcome(code: i32) -> PollOutcome {
    if code == 0 {
        PollOutcome::Terminated
    } else if code == EBUSY {
        PollOutcome::StillRunning
    } else if code == EINVAL || code == ESRCH || code == EDEADLK {
        PollOutcome::InvalidHandle(code)
    } else if code == ENOSYS || code == EOPNOTSUPP {
        PollOutcome::Unsupported(code)
    } else {
        PollOutcome::OsError(code)
    }
}

/// How a timed join's return code reads as an outcome. It differs from the
/// non-blocking reading in one point only: "not yet terminated" arrives as
/// `ETIMEDOUT` (the deadline passed) instead of `EBUSY`.
pub open spec fn timed_join_outcome(code: i32) -> PollOutcome {
    if code == 0 {
        PollOutcome::Terminated
    } else if code == ETIMEDOUT {
        PollOutcome::StillRunning
    } else if code == EINVAL || code == ESRCH || code == EDEADLK {
        PollOutcome::InvalidHandle(code)
    } else if code == ENOSYS || code == EOPNOTSUPP {
        PollOutcome::Unsupported(code)
    } else {
        PollOutcome::OsError(code)
    }
}

/// Classifies the return code of a non-blocking join.
pub fn classify_try_join(code: i32) -> (r: PollOutcome)
    ensures
        r == try_join_outcome(code),
{
    if code == 0 {
        PollOutcome::Terminated
    } else if code == EBUSY {
        PollOutcome::StillRunning
    } else if code == EINVAL || code == ESRCH || code == EDEADLK {
        PollOutcome::InvalidHandle(code)
    } else if code == ENOSYS || code == EOPNOTSUPP {
        PollOutcome::Unsupported(code)
    } else {
        PollOutcome::OsError(code)
    }
}

/// Classifies the return code of a timed join.
pub fn classify_timed_join(code: i32) -> (r: PollOutcome)
    ensures
        r == timed_join_outcome(code),
{
    if code == 0 {
        PollOutcome::Terminated
    } else if code == ETIMEDOUT {
        PollOutcome::StillRunning
    } else if code == EINVAL || code == ESRCH || code == EDEADLK {
        PollOutcome::InvalidHandle(code)
    } else if code == ENOSYS || code == EOPNOTSUPP {
        PollOutcome::Unsupported(code)
    } else {
        PollOutcome::OsError(code)
    }
}

/// Law: a non-blocking poll reports `StillRunning` exactly on the one
/// documented "not yet terminated" code, `Terminated` exactly on success,
/// and `Unsupported` exactly on the two capability-absent codes. No other
/// error is ever folded into one of these; it surfaces distinctly as
/// `InvalidHandle` or `OsError`.
pub proof fn lemma_try_join_classification(code: i32)
    ensures
        try_join_outcome(code) == PollOutcome::StillRunning <==> code == EBUSY,
        try_join_outcome(code) == PollOutcome::Terminated <==> code == 0,
        try_join_outcome(code) is Unsupported <==> (code == ENOSYS || code == EOPNOTSUPP),
        try_join_outcome(code) is InvalidHandle <==> (code == EINVAL || code == ESRCH
            || code == EDEADLK),
{
}

/// Law: a timed poll reports `StillRunning` exactly on the one documented
/// "deadline passed" code and `Terminated` exactly on success; every other
/// code surfaces distinctly.
pub proof fn lemma_timed_join_classification(code: i32)
    ensures
        timed_join_outcome(code) == PollOutcome::StillRunning <==> code == ETIMEDOUT,
        timed_join_outcome(code) == PollOutcome::Terminated <==> code == 0,
        timed_join_outcome(code) is Unsupported <==> (code == ENOSYS || code == EOPNOTSUPP),
        timed_join_outcome(code) is InvalidHandle <==> (code == EINVAL || code == ESRCH
            || code == EDEADLK),
{
}

/// The failure side of a poll, for callers that want a `Result` shaped
/// like an ordinary join attempt.
#[derive(Clone, Copy, Debug, PartialEq, Eq, Structural)]
pub enum JoinError {
    /// The thread had not terminated yet; try again later.
    StillRunning,
    /// The platform offers no non-blocking or timed join; the payload is
    /// the errno-style reason code.
    Unsupported(i32),
    /// The handle does not denote a joinable thread; the payload is the
    /// errno that identified the caller bug.
    InvalidHandle(i32),
    /// Any other error the operating system reported, by its raw code.
    Os(i32),
}

/// How an outcome reads as a `Result`: success exactly on `Terminated`,
/// and each failure kept distinct.
pub open spec fn outcome_as_result(o: PollOutcome) -> Result<(), JoinError> {
    match o {
        PollOutcome::Terminated => Ok(()),
        PollOutcome::StillRunning => Err(JoinError::StillRunning),
        PollOutcome::Unsupported(code) => Err(JoinError::Unsupported(code)),
        PollOutcome::InvalidHandle(code) => Err(JoinError::InvalidHandle(code)),
        PollOutcome::OsError(code) => Err(JoinError::Os(code)),
    }
}

/// Turns an outcome into a `Result`, `Ok` exactly on `Terminated`.
pub fn outcome_to_result(o: PollOutcome) -> (r: Result<(), JoinError>)
    ensures
        r == outcome_as_result(o),
        r is Ok <==> o == PollOutcome::Terminated,
{
    match o {
        PollOutcome::Terminated => Ok(()),
        PollOutcome::StillRunning => Err(JoinError::StillRunning),
        PollOutcome::Unsupported(code) => Err(JoinError::Unsupported(code)),
        PollOutcome::InvalidHandle(code) => Err(JoinError::InvalidHandle(code)),
        PollOutcome::OsError(code) => Err(JoinError::Os(code)),
    }
}

} // verus!
