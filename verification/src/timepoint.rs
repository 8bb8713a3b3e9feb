//! Absolute time points, relative waits, and the deadline arithmetic.
//!
//! A timed poll blocks until an absolute point in time. That point is
//! derived once per call as "now plus the requested wait", and the whole
//! value of the derivation is exactness: the sub-second part of the wait
//! must survive into the absolute representation, or short waits collapse
//! to an already-passed deadline and falsely report "still running".

use vstd::prelude::*;

verus! {

/// Nanoseconds in one second.
pub const NANOS_PER_SEC: u32 = 1_000_000_000;

/// A non-negative relative wait: whole seconds plus a sub-second
/// nanosecond part.
#[derive(Clone, Copy, Debug, PartialEq, Eq, Structural)]
pub struct WaitDuration {
    /// Whole seconds.
    pub secs: u64,
    /// Sub-second part in nanoseconds; well-formed when `< NANOS_PER_SEC`.
    pub nanos: u32,
}

/// The wait's total length in nanoseconds.
pub open spec fn wd_nanos(d: WaitDuration) -> int {
    d.secs * (NANOS_PER_SEC as int) + d.nanos
}

impl WaitDuration {
    /// The sub-second part stays below one second.
    pub open spec fn wf(self) -> bool {
        self.nanos < NANOS_PER_SEC
    }

    /// A wait of whole seconds and a sub-second nanosecond part.
    pub fn new(secs: u64, nanos: u32) -> (r: WaitDuration)
        requires
            nanos < NANOS_PER_SEC,
        ensures
            r.wf(),
            r.secs == secs,
            r.nanos == nanos,
    {
        WaitDuration { secs, nanos }
    }

    /// A wait of whole seconds.
    pub fn from_secs(secs: u64) -> (r: WaitDuration)
        ensures
            r.wf(),
            wd_nanos(r) == secs * (NANOS_PER_SEC as int),
    {
        WaitDuration { secs, nanos: 0 }
    }

    /// A wait of milliseconds, kept exact: no rounding to whole seconds.
    pub fn from_millis(ms: u64) -> (r: WaitDuration)
        ensures
            r.wf(),
            wd_nanos(r) == ms * 1_000_000,
    {
        let secs: u64 = ms / 1000;
        let rem: u64 = ms % 1000;
        let r = WaitDuration { secs, nanos: (rem as u32) * 1_000_000 };
        proof {
            assert(ms == 1000 * (ms / 1000) + (ms % 1000)) by (nonlinear_arith);
            assert(wd_nanos(r) == ms * 1_000_000) by (nonlinear_arith)
                requires
                    r.secs == ms / 1000,
                    r.nanos == (ms % 1000) * 1_000_000,
                    ms == 1000 * (ms / 1000) + (ms % 1000),
            ;
        }
        r
    }

    /// A wait of microseconds, kept exact: no rounding to milliseconds or
    /// seconds.
    pub fn from_micros(us: u64) -> (r: WaitDuration)
        ensures
            r.wf(),
            wd_nanos(r) == us * 1000,
    {
        let secs: u64 = us / 1_000_000;
        let rem: u64 = us % 1_000_000;
        let r = WaitDuration { secs, nanos: (rem as u32) * 1000 };
        proof {
            assert(us == 1_000_000 * (us / 1_000_000) + (us % 1_000_000)) by (nonlinear_arith);
            assert(wd_nanos(r) == us * 1000) by (nonlinear_arith)
                requires
                    r.secs == us / 1_000_000,
                    r.nanos == (us % 1_000_000) * 1000,
                    us == 1_000_000 * (us / 1_000_000) + (us % 1_000_000),
            ;
        }
        r
    }

    /// A wait of nanoseconds, kept exact.
    pub fn from_nanos(ns: u64) -> (r: WaitDuration)
        ensures
            r.wf(),
            wd_nanos(r) == ns,
    {
        let secs: u64 = ns / (NANOS_PER_SEC as u64);
        let rem: u64 = ns % (NANOS_PER_SEC as u64);
        let r = WaitDuration { secs, nanos: rem as u32 };
        proof {
            assert(ns == (NANOS_PER_SEC as u64) * (ns / (NANOS_PER_SEC as u64)) + (ns % (
            NANOS_PER_SEC as u64))) by (nonlinear_arith);
            assert(wd_nanos(r) == ns) by (nonlinear_arith)
                requires
                    r.secs == ns / (NANOS_PER_SEC as u64),
                    r.nanos == ns % (NANOS_PER_SEC as u64),
                    NANOS_PER_SEC == 1_000_000_000,
                    ns == (NANOS_PER_SEC as u64) * (ns / (NANOS_PER_SEC as u64)) + (ns % (
                    NANOS_PER_SEC as u64)),
            ;
        }
        r
    }
}

/// An absolute point in time: whole seconds and nanoseconds since the
/// epoch of the clock it was read from, mirroring the operating system's
/// native two-field representation.
#[derive(Clone, Copy, Debug, PartialEq, Eq, Structural)]
pub struct TimeSpec {
    /// Whole seconds since the epoch.
    pub sec: i64,
    /// Nanoseconds within the second; well-formed when in
    /// `[0, NANOS_PER_SEC)`.
    pub nsec: i64,
}

/// The time point's total offset from the epoch, in nanoseconds.
pub open spec fn ts_nanos(t: TimeSpec) -> int {
    t.sec * (NANOS_PER_SEC as int) + t.nsec
}

/// The latest representable time point.
pub open spec fn max_time_spec() -> TimeSpec {
    TimeSpec { sec: i64::MAX, nsec: 999_999_999 }
}

impl TimeSpec {
    /// Not before the epoch, with the nanosecond field inside one second.
    pub open spec fn wf(self) -> bool {
        0 <= self.sec && 0 <= self.nsec && self.nsec < NANOS_PER_SEC
    }

    /// Builds a time point from an epoch offset given as unsigned whole
    /// seconds and sub-second nanoseconds, as wall clocks report it.
    /// `None` exactly when the value is unrepresentable or malformed.
    pub fn from_unix(secs: u64, nanos: u32) -> (r: Option<TimeSpec>)
        ensures
            r is Some <==> (secs <= i64::MAX && nanos < NANOS_PER_SEC),
            r matches Some(t) ==> t.wf() && t.sec == secs && t.nsec == nanos,
    {
        if secs <= (i64::MAX as u64) && nanos < NANOS_PER_SEC {
            Some(TimeSpec { sec: secs as i64, nsec: nanos as i64 })
        } else {
            None
        }
    }
}

/// The absolute deadline `wait` after `now`, exact to the nanosecond.
///
/// The sub-second parts are added with carry, never truncated: the result
/// is the unique well-formed time point whose total nanosecond offset is
/// the sum of the inputs' (uniqueness is `lemma_ts_nanos_injective`).
pub fn deadline_after(now: &TimeSpec, wait: &WaitDuration) -> (r: TimeSpec)
    requires
        now.wf(),
        wait.wf(),
        now.sec + wait.secs + 1 <= i64::MAX,
    ensures
        r.wf(),
        ts_nanos(r) == ts_nanos(*now) + wd_nanos(*wait),
{
    let mut sec: i64 = now.sec + (wait.secs as i64);
    let mut nsec: i64 = now.nsec + (wait.nanos as i64);
    if nsec >= (NANOS_PER_SEC as i64) {
        sec = sec + 1;
        nsec = nsec - (NANOS_PER_SEC as i64);
    }
    TimeSpec { sec, nsec }
}

/// Like `deadline_after`, but total: a sum too large to represent
/// saturates to the latest representable time point, hundreds of billions
/// of years away, which to a bounded wait means "no effective deadline".
pub fn deadline_after_saturating(now: &TimeSpec, wait: &WaitDuration) -> (r: TimeSpec)
    requires
        now.wf(),
        wait.wf(),
    ensures
        r.wf(),
        now.sec + wait.secs + 1 <= i64::MAX ==> ts_nanos(r) == ts_nanos(*now) + wd_nanos(*wait),
        now.sec + wait.secs + 1 > i64::MAX ==> r == max_time_spec(),
{
    if wait.secs <= (i64::MAX as u64) && now.sec <= i64::MAX - 1 - (wait.secs as i64) {
        deadline_after(now, wait)
    } else {
        TimeSpec { sec: i64::MAX, nsec: 999_999_999 }
    }
}

/// Law: a well-formed time point is determined by its total nanosecond
/// offset; the two-field representation the deadline arithmetic produces
/// is canonical.
pub proof fn lemma_ts_nanos_injective(a: TimeSpec, b: TimeSpec)
    requires
        a.wf(),
        b.wf(),
        ts_nanos(a) == ts_nanos(b),
    ensures
        a == b,
{
    assert(a.sec == b.sec) by (nonlinear_arith)
        requires
            a.wf(),
            b.wf(),
            ts_nanos(a) == ts_nanos(b),
    ;
}

} // verus!
