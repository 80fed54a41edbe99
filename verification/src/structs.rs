//! The native-time conversion layer: a pure, bidirectional mapping between
//! [`TimerState`] and the kernel's native two-duration structure.
//!
//! The kernel describes a timer as a pair of durations, `it_value` (time
//! until the next firing) and `it_interval` (time between later firings),
//! each a `(seconds, nanoseconds)` pair. A zero `it_value` means the timer
//! is disarmed, whatever `it_interval` holds; a non-zero `it_value` with a
//! zero `it_interval` is a one-shot timer; both non-zero is a periodic
//! timer. Lowering and lifting here follow that convention exactly.

use vstd::prelude::*;

use crate::duration::Duration;
use crate::duration::NANOS_PER_SEC;
use crate::TimerFdError;
use crate::TimerState;

verus! {

/// One native duration: whole seconds and a sub-second nanosecond part, as
/// the kernel's binary interface lays it out (both fields signed 64-bit).
#[allow(non_camel_case_types)]
#[derive(Clone, Copy, Debug, PartialEq, Eq, Structural)]
pub struct timespec {
    /// Whole seconds.
    pub tv_sec: i64,
    /// Sub-second part, in nanoseconds.
    pub tv_nsec: i64,
}

/// The kernel's native timer description: the firing interval first, then
/// the time until the next firing, as the binary interface orders them.
#[allow(non_camel_case_types)]
#[derive(Clone, Copy, Debug, PartialEq, Eq, Structural)]
pub struct itimerspec {
    /// Time between firings after the first.
    pub it_interval: timespec,
    /// Time until the next firing; zero means disarmed.
    pub it_value: timespec,
}

impl timespec {
    /// Both fields are zero: the kernel's encoding of "no time".
    pub open spec fn spec_is_zero(self) -> bool {
        self.tv_sec == 0 && self.tv_nsec == 0
    }

    /// The ranges the kernel documents for a duration it hands out: a
    /// non-negative second count and a genuine sub-second nanosecond part.
    pub open spec fn wf(self) -> bool {
        0 <= self.tv_sec && 0 <= self.tv_nsec < NANOS_PER_SEC
    }

    /// The zero duration.
    pub open spec fn spec_zero() -> timespec {
        timespec { tv_sec: 0, tv_nsec: 0 }
    }

    /// Returns the zero duration.
    pub fn zero() -> (r: timespec)
        ensures
            r == timespec::spec_zero(),
    {
        timespec { tv_sec: 0, tv_nsec: 0 }
    }

    /// Whether both fields are zero.
    pub fn is_zero(&self) -> (r: bool)
        ensures
            r == self.spec_is_zero(),
    {
        self.tv_sec == 0 && self.tv_nsec == 0
    }
}

impl itimerspec {
    /// Returns the pair with both durations zero: a disarmed timer.
    pub fn null() -> (r: itimerspec)
        ensures
            r.it_interval == timespec::spec_zero(),
            r.it_value == timespec::spec_zero(),
    {
        itimerspec { it_interval: timespec::zero(), it_value: timespec::zero() }
    }
}

/// A duration lowered into the native field widths.
pub open spec fn spec_duration_to_timespec(d: Duration) -> timespec {
    timespec { tv_sec: d.secs as i64, tv_nsec: d.nanos as i64 }
}

/// A native duration lifted into a [`Duration`] value.
pub open spec fn spec_timespec_to_duration(ts: timespec) -> Duration {
    Duration { secs: ts.tv_sec as u64, nanos: ts.tv_nsec as u32 }
}

/// Lowers one duration into the native field widths.
pub fn duration_to_timespec(d: &Duration) -> (r: timespec)
    requires
        d.wf(),
        d.representable(),
    ensures
        r == spec_duration_to_timespec(*d),
        r.wf(),
{
    timespec { tv_sec: d.secs as i64, tv_nsec: d.nanos as i64 }
}

/// Lifts one well-formed native duration into a [`Duration`] value.
pub fn timespec_to_duration(ts: &timespec) -> (r: Duration)
    requires
        ts.wf(),
    ensures
        r == spec_timespec_to_duration(*ts),
        r.wf(),
        r.representable(),
{
    Duration { secs: ts.tv_sec as u64, nanos: ts.tv_nsec as u32 }
}

/// A timer state lowered into the kernel's native pair: `Disarmed` becomes
/// the all-zero pair, `Oneshot` fills only the value field, and `Periodic`
/// fills both.
pub open spec fn spec_lower(state: TimerState) -> itimerspec {
    match state {
        TimerState::Disarmed => itimerspec {
            it_interval: timespec::spec_zero(),
            it_value: timespec::spec_zero(),
        },
        TimerState::Oneshot(d) => itimerspec {
            it_interval: timespec::spec_zero(),
            it_value: spec_duration_to_timespec(d),
        },
        TimerState::Periodic { current, interval } => itimerspec {
            it_interval: spec_duration_to_timespec(interval),
            it_value: spec_duration_to_timespec(current),
        },
    }
}

/// A native pair lifted back into a timer state. A zero value field means
/// `Disarmed` whatever the interval field holds; otherwise a field outside
/// its documented range is surfaced as [`TimerFdError::InvalidNativeTime`].
pub open spec fn spec_lift(its: itimerspec) -> Result<TimerState, TimerFdError> {
    if its.it_value.spec_is_zero() {
        Ok(TimerState::Disarmed)
    } else if !its.it_value.wf() {
        Err(TimerFdError::InvalidNativeTime)
    } else if its.it_interval.spec_is_zero() {
        Ok(TimerState::Oneshot(spec_timespec_to_duration(its.it_value)))
    } else if !its.it_interval.wf() {
        Err(TimerFdError::InvalidNativeTime)
    } else {
        Ok(
            TimerState::Periodic {
                current: spec_timespec_to_duration(its.it_value),
                interval: spec_timespec_to_duration(its.it_interval),
            },
        )
    }
}

/// Lowers a timer state into the kernel's native pair.
pub fn state_to_itimerspec(state: &TimerState) -> (r: itimerspec)
    requires
        state.wf(),
        state.representable(),
    ensures
        r == spec_lower(*state),
{
    match state {
        TimerState::Disarmed => itimerspec { it_interval: timespec::zero(), it_value: timespec::zero() },
        TimerState::Oneshot(d) => itimerspec {
            it_interval: timespec::zero(),
            it_value: duration_to_timespec(d),
        },
        TimerState::Periodic { current, interval } => itimerspec {
            it_interval: duration_to_timespec(interval),
            it_value: duration_to_timespec(current),
        },
    }
}

/// Lifts a native pair into a timer state, surfacing out-of-range fields as
/// [`TimerFdError::InvalidNativeTime`] instead of hiding or panicking on
/// them.
pub fn itimerspec_to_state(its: &itimerspec) -> (r: Result<TimerState, TimerFdError>)
    ensures
        r == spec_lift(*its),
{
    if its.it_value.is_zero() {
        Ok(TimerState::Disarmed)
    } else if !timespec_in_range(&its.it_value) {
        Err(TimerFdError::InvalidNativeTime)
    } else if its.it_interval.is_zero() {
        Ok(TimerState::Oneshot(timespec_to_duration(&its.it_value)))
    } else if !timespec_in_range(&its.it_interval) {
        Err(TimerFdError::InvalidNativeTime)
    } else {
        Ok(
            TimerState::Periodic {
                current: timespec_to_duration(&its.it_value),
                interval: timespec_to_duration(&its.it_interval),
            },
        )
    }
}

/// Whether a native duration lies in the ranges the kernel documents.
fn timespec_in_range(ts: &timespec) -> (r: bool)
    ensures
        r == ts.wf(),
{
    0 <= ts.tv_sec && 0 <= ts.tv_nsec && ts.tv_nsec < NANOS_PER_SEC as i64
}

/// Law: every state a lifted pair yields is well formed, fits the native
/// field widths, and has the round-trippable shape — never a zero-duration
/// one-shot, never a periodic state with a zero current or interval.
pub proof fn lemma_lift_wf(its: itimerspec)
    ensures
        spec_lift(its) matches Ok(s) ==> s.wf() && s.representable() && s.round_trippable(),
{
}

/// Law: lowering a representable timer state and lifting the result
/// reproduces the state exactly. The kernel encodes `Disarmed` as a zero
/// value duration, so an armed state whose value duration is zero (such as
/// a one-shot of no time) lifts back as `Disarmed` and is excluded, as is a
/// periodic state with a zero interval, which lowers to the same pair as a
/// one-shot.
pub proof fn lemma_round_trip(state: TimerState)
    requires
        state.wf(),
        state.representable(),
        state.round_trippable(),
    ensures
        spec_lift(spec_lower(state)) == Ok::<TimerState, TimerFdError>(state),
{
}

/// Law: a native pair whose value duration is zero lifts to `Disarmed`,
/// whatever its interval duration holds.
pub proof fn lemma_zero_value_lifts_disarmed(its: itimerspec)
    requires
        its.it_value.spec_is_zero(),
    ensures
        spec_lift(its) == Ok::<TimerState, TimerFdError>(TimerState::Disarmed),
{
}

} // verus!
