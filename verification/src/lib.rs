//! Non-blocking and bounded-wait observation of thread termination.
//!
//! An ordinary join blocks until the target thread finishes. This library
//! offers two alternatives over a borrowed handle: an immediate check
//! (`poll_nonblocking`) and a wait bounded by a deadline
//! (`poll_with_deadline`). Neither consumes the handle's ability to be
//! joined again later by an ordinary blocking join.
//!
//! The operating-system call itself is reached through the [`JoinBackend`]
//! seam, implemented once per platform by the embedding application; the
//! library contributes what is worth getting right: the construction of an
//! absolute deadline from a relative wait without losing sub-second
//! precision, and the classification of every raw return code into a
//! [`PollOutcome`].

mod outcome;
mod poller;
mod timepoint;

pub use outcome::{
    JoinError, PollOutcome, classify_timed_join, classify_try_join,
    lemma_timed_join_classification, lemma_try_join_classification, outcome_as_result,
    outcome_to_result, timed_join_outcome, try_join_outcome, EBUSY, EDEADLK, EINVAL, ENOSYS,
    EOPNOTSUPP, ESRCH, ETIMEDOUT,
};
pub use timepoint::{
    deadline_after, deadline_after_saturating, lemma_ts_nanos_injective, max_time_spec, ts_nanos,
    wd_nanos, TimeSpec, WaitDuration, NANOS_PER_SEC,
};
pub use poller::{
    poll_nonblocking, poll_with_deadline, JoinBackend, TryJoinHandle, UnsupportedBackend,
};
