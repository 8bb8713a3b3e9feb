//! The poller: a platform seam and the two poll operations over it.
//!
//! The poller is stateless; each call borrows the backend, derives what it
//! needs (for a timed poll, the absolute deadline), makes one raw call and
//! classifies the code that came back. On a platform without the
//! primitive it reports `Unsupported` deterministically instead of
//! silently falling back to a blocking join.

use vstd::prelude::*;
use crate::outcome::{
    classify_timed_join, classify_try_join, outcome_as_result, outcome_to_result,
    timed_join_outcome, try_join_outcome, JoinError, PollOutcome, ENOSYS,
};
use crate::timepoint::{deadline_after_saturating, TimeSpec, WaitDuration};

verus! {

/// The platform seam: everything the poller needs from the runtime that
/// owns a joinable thread, implemented once per supported backend.
///
/// Access to one handle races at the operating-system level if two
/// join-family operations run on it at once; the caller keeps access
/// exclusive per logical owner and must not defeat the borrow by cloning
/// the underlying handle.
pub trait JoinBackend {
    /// Whether the platform offers a non-blocking (and timed) join
    /// primitive at all, at the specification level. Fixed for the life
    /// of the process.
    spec fn supported(&self) -> bool;

    /// Whether the platform offers a non-blocking (and timed) join
    /// primitive at all: the executable reading of `supported`.
    fn nonblocking_supported(&self) -> (b: bool)
        ensures
            b == self.supported(),
    ;

    /// One immediate, never-blocking query of the thread's termination
    /// state, reported as an errno-style code: `0` once the thread has
    /// terminated, `EBUSY` while it has not, another errno on failure.
    /// The query must leave the handle joinable by an ordinary join.
    fn raw_try_join(&self) -> i32;

    /// One bounded wait for the thread's termination: the caller is
    /// suspended by the operating system (not busy-polled) until the
    /// thread terminates or the absolute `deadline` on this backend's
    /// clock passes, whichever is first. Reported as an errno-style code:
    /// `0` once the thread has terminated, `ETIMEDOUT` at the deadline,
    /// another errno on failure. A deadline already in the past still
    /// gets one final immediate check.
    fn raw_timed_join(&self, deadline: &TimeSpec) -> i32
        requires
            deadline.wf(),
    ;

    /// The current time on the clock `raw_timed_join` measures deadlines
    /// against.
    fn now_realtime(&self) -> (t: TimeSpec)
        ensures
            t.wf(),
    ;
}

/// The default backend for a platform without the primitive: it supports
/// nothing, and reports `ENOSYS` should a raw call be reached anyway.
pub struct UnsupportedBackend;

impl JoinBackend for UnsupportedBackend {
    open spec fn supported(&self) -> bool {
        false
    }

    fn nonblocking_supported(&self) -> (b: bool) {
        false
    }

    fn raw_try_join(&self) -> (code: i32)
        ensures
            code == ENOSYS,
    {
        ENOSYS
    }

    fn raw_timed_join(&self, _deadline: &TimeSpec) -> (code: i32)
        ensures
            code == ENOSYS,
    {
        ENOSYS
    }

    fn now_realtime(&self) -> (t: TimeSpec) {
        TimeSpec { sec: 0, nsec: 0 }
    }
}

/// Immediately observes whether the thread behind `backend` has
/// terminated, never blocking beyond the cost of the query itself:
/// `Terminated` once it has finished (its result stays retrievable by an
/// ordinary blocking join), `StillRunning` while it has not, and
/// `Unsupported` with the stable reason `ENOSYS` — always and exactly
/// that, never a silent fallback to blocking — where the platform lacks
/// the primitive. Every outcome is the classification of some raw code;
/// no unexpected error is folded into `StillRunning`.
pub fn poll_nonblocking<B: JoinBackend>(backend: &B) -> (r: PollOutcome)
    ensures
        exists|code: i32| r == try_join_outcome(code),
        !backend.supported() ==> r == PollOutcome::Unsupported(ENOSYS),
{
    if !backend.nonblocking_supported() {
        proof {
            assert(try_join_outcome(ENOSYS) == PollOutcome::Unsupported(ENOSYS));
        }
        return PollOutcome::Unsupported(ENOSYS);
    }
    let code = backend.raw_try_join();
    classify_try_join(code)
}

/// Blocks until the thread behind `backend` terminates or the absolute
/// deadline "now plus `wait`" passes, whichever happens first:
/// `Terminated` or `StillRunning` accordingly, and `Unsupported` with the
/// stable reason `ENOSYS` — always and exactly that — without blocking,
/// where the platform lacks the primitive.
/// The deadline is recomputed from the backend's clock at
/// every call and keeps the wait's sub-second part exactly; a zero `wait`
/// or an already-passed deadline still gets one final immediate check.
/// Every outcome is the classification of some raw code; no unexpected
/// error is folded into `StillRunning`.
pub fn poll_with_deadline<B: JoinBackend>(backend: &B, wait: WaitDuration) -> (r: PollOutcome)
    requires
        wait.wf(),
    ensures
        exists|code: i32| r == timed_join_outcome(code),
        !backend.supported() ==> r == PollOutcome::Unsupported(ENOSYS),
{
    if !backend.nonblocking_supported() {
        proof {
            assert(timed_join_outcome(ENOSYS) == PollOutcome::Unsupported(ENOSYS));
        }
        return PollOutcome::Unsupported(ENOSYS);
    }
    let now = backend.now_realtime();
    let deadline = deadline_after_saturating(&now, &wait);
    let code = backend.raw_timed_join(&deadline);
    classify_timed_join(code)
}

/// Try joining a thread: the `Result`-shaped face of the two poll
/// operations, `Ok` exactly on a `Terminated` observation. Neither method
/// consumes the handle's ability to be joined again later. Where the
/// platform lacks the primitive, both methods deterministically return
/// the stable reason `Unsupported(ENOSYS)`.
pub trait TryJoinHandle: JoinBackend {
    /// Try joining a thread, without blocking.
    fn try_join(&self) -> (r: Result<(), JoinError>)
        ensures
            exists|code: i32| r == outcome_as_result(try_join_outcome(code)),
            !self.supported() ==> r == Err::<(), JoinError>(JoinError::Unsupported(ENOSYS)),
    ;

    /// Try joining a thread, waiting up to `wait`.
    ///
    /// If the wait expires before the thread terminates, the call returns
    /// `Err(JoinError::StillRunning)`; otherwise it succeeds.
    fn try_timed_join(&self, wait: WaitDuration) -> (r: Result<(), JoinError>)
        requires
            wait.wf(),
        ensures
            exists|code: i32| r == outcome_as_result(timed_join_outcome(code)),
            !self.supported() ==> r == Err::<(), JoinError>(JoinError::Unsupported(ENOSYS)),
    ;
}

impl<B: JoinBackend> TryJoinHandle for B {
    fn try_join(&self) -> (r: Result<(), JoinError>) {
        let o = poll_nonblocking(self);
        let r = outcome_to_result(o);
        proof {
            let code = choose|code: i32| o == try_join_outcome(code);
            assert(r == outcome_as_result(try_join_outcome(code)));
        }
        r
    }

    fn try_timed_join(&self, wait: WaitDuration) -> (r: Result<(), JoinError>) {
        let o = poll_with_deadline(self, wait);
        let r = outcome_to_result(o);
        proof {
            let code = choose|code: i32| o == timed_join_outcome(code);
            assert(r == outcome_as_result(timed_join_outcome(code)));
        }
        r
    }
}

} // verus!
