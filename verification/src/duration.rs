//! A plain duration value with nanosecond resolution, the unit in which
//! timer states are expressed.

use vstd::prelude::*;

verus! {

/// Number of nanoseconds in one second.
pub const NANOS_PER_SEC: u32 = 1_000_000_000;

/// A span of time: whole seconds plus a sub-second nanosecond part.
///
/// A well-formed duration keeps `nanos` strictly below one second
/// (see [`Duration::wf`]); the constructor normalizes its arguments so
/// that this always holds for values it returns.
#[derive(Clone, Copy, Debug, PartialEq, Eq, Structural)]
pub struct Duration {
    /// Whole seconds.
    pub secs: u64,
    /// Sub-second part, in nanoseconds.
    pub nanos: u32,
}

impl Duration {
    /// Well-formedness: the nanosecond part is a genuine sub-second value.
    pub open spec fn wf(self) -> bool {
        self.nanos < NANOS_PER_SEC
    }

    /// A duration of no time at all.
    pub open spec fn spec_is_zero(self) -> bool {
        self.secs == 0 && self.nanos == 0
    }

    /// The seconds part fits the native time field, which is a signed
    /// 64-bit integer.
    pub open spec fn representable(self) -> bool {
        self.secs <= i64::MAX
    }

    /// Builds a duration from seconds and nanoseconds, carrying whole
    /// seconds out of the nanosecond part.
    pub fn new(secs: u64, nanos: u32) -> (r: Duration)
        requires
            secs + nanos / NANOS_PER_SEC <= u64::MAX,
        ensures
            r.wf(),
            r.secs == secs + nanos / NANOS_PER_SEC,
            r.nanos == nanos % NANOS_PER_SEC,
    {
        let carry: u32 = nanos / NANOS_PER_SEC;
        Duration { secs: secs + carry as u64, nanos: nanos % NANOS_PER_SEC }
    }

    /// The whole-seconds part.
    pub fn as_secs(&self) -> (r: u64)
        ensures
            r == self.secs,
    {
        self.secs
    }

    /// The sub-second part, in nanoseconds.
    pub fn subsec_nanos(&self) -> (r: u32)
        ensures
            r == self.nanos,
    {
        self.nanos
    }

    /// Whether this duration is zero.
    pub fn is_zero(&self) -> (r: bool)
        ensures
            r == self.spec_is_zero(),
    {
        self.secs == 0 && self.nanos == 0
    }
}

} // verus!
