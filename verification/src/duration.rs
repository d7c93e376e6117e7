//! The resolved time value: elapsed time since the UNIX epoch, held as
//! whole seconds plus a sub-second nanosecond remainder.

use vstd::prelude::*;

verus! {

pub const NANOS_PER_SEC: u32 = 1_000_000_000;

pub const NANOS_PER_MILLI: u32 = 1_000_000;

pub const MILLIS_PER_SEC: u64 = 1_000;

/// Elapsed time since the UNIX epoch.
///
/// The invariant `nanos < NANOS_PER_SEC` makes the representation of every
/// instant unique, so two durations are equal exactly when they denote the
/// same total number of nanoseconds.
#[derive(Clone, Copy, Debug, PartialEq, Eq)]
pub struct Duration {
    pub secs: u64,
    pub nanos: u32,
}

impl Duration {
    /// Well-formed: the sub-second part is less than one second.
    pub open spec fn wf(&self) -> bool {
        self.nanos < NANOS_PER_SEC
    }

    /// The duration as a total number of nanoseconds.
    pub open spec fn total_nanos(&self) -> int {
        self.secs * (NANOS_PER_SEC as int) + self.nanos
    }

    pub open spec fn spec_secs(&self) -> u64 {
        self.secs
    }

    pub open spec fn spec_nanos(&self) -> u32 {
        self.nanos
    }

    /// The duration denoted by `millis` milliseconds.
    pub open spec fn spec_from_millis(millis: u64) -> Duration {
        Duration {
            secs: (millis / (MILLIS_PER_SEC as u64)) as u64,
            nanos: ((millis % (MILLIS_PER_SEC as u64)) * (NANOS_PER_MILLI as u64)) as u32,
        }
    }

    pub fn from_millis(millis: u64) -> (r: Duration)
        ensures
            r == Self::spec_from_millis(millis),
            r.wf(),
            r.spec_secs() == millis / 1000,
            r.spec_nanos() == (millis % 1000) * 1_000_000,
    {
        Duration { secs: millis / MILLIS_PER_SEC, nanos: ((millis % MILLIS_PER_SEC) as u32) * NANOS_PER_MILLI }
    }

    /// Builds a duration directly from seconds and a nanosecond remainder.
    pub fn new(secs: u64, nanos: u32) -> (r: Duration)
        requires
            nanos < NANOS_PER_SEC,
        ensures
            r.spec_secs() == secs,
            r.spec_nanos() == nanos,
            r.wf(),
    {
        Duration { secs, nanos }
    }

    pub fn as_secs(&self) -> (r: u64)
        ensures
            r == self.spec_secs(),
    {
        self.secs
    }

    pub fn subsec_nanos(&self) -> (r: u32)
        ensures
            r == self.spec_nanos(),
    {
        self.nanos
    }

    pub fn subsec_millis(&self) -> (r: u32)
        ensures
            r == self.spec_nanos() / 1_000_000,
    {
        self.nanos / NANOS_PER_MILLI
    }

    /// Law: the duration built from `m` milliseconds denotes exactly `m`
    /// milliseconds — its whole seconds and sub-second milliseconds
    /// recompose to `m`, with no rounding in either direction.
    pub proof fn lemma_from_millis_components(m: u64)
        ensures
            Self::spec_from_millis(m).wf(),
            Self::spec_from_millis(m).spec_secs() * 1000 + Self::spec_from_millis(
                m,
            ).spec_nanos() / 1_000_000 == m,
    {
        let r = m % 1000;
        assert((r * 1_000_000) / 1_000_000 == r) by (nonlinear_arith)
            requires
                0 <= r < 1000,
        ;
    }

    /// The difference `self - other`, or zero when `other` is the larger,
    /// measured on the total-nanosecond value.
    pub fn saturating_sub(&self, other: &Duration) -> (r: Duration)
        requires
            self.wf(),
            other.wf(),
        ensures
            r.wf(),
            self.total_nanos() >= other.total_nanos() ==> r.total_nanos() == self.total_nanos()
                - other.total_nanos(),
            self.total_nanos() < other.total_nanos() ==> r.total_nanos() == 0,
    {
        if self.secs > other.secs {
            if self.nanos >= other.nanos {
                Duration { secs: self.secs - other.secs, nanos: self.nanos - other.nanos }
            } else {
                Duration {
                    secs: self.secs - other.secs - 1,
                    nanos: self.nanos + NANOS_PER_SEC - other.nanos,
                }
            }
        } else if self.secs == other.secs && self.nanos >= other.nanos {
            Duration { secs: 0, nanos: self.nanos - other.nanos }
        } else {
            Duration { secs: 0, nanos: 0 }
        }
    }
}

} // verus!
