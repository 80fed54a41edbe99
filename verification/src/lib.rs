//! A typed handle to the Linux kernel's timerfd facility.
//!
//! A [`TimerFd`] owns one kernel timer that is observable as file-descriptor
//! readiness: the descriptor becomes readable exactly when at least one
//! expiration is pending. The handle creates the timer against a chosen
//! [`ClockId`], arms, disarms or rearms it with a [`TimerState`], queries the
//! remaining time, and reads the expiration count. Registering the raw
//! descriptor with a readiness multiplexer is the caller's business.
//!
//! The heart of the crate is the conversion layer in [`structs`]: a pure,
//! bidirectional mapping between [`TimerState`] and the kernel's native
//! two-duration structure, verified to be exact and round-trip-safe.

use vstd::prelude::*;

pub mod duration;
pub mod structs;
mod sys;

pub use duration::Duration;

verus! {

/// Identifier of the settable system-wide real-time clock.
pub const CLOCK_REALTIME: i32 = 0;

/// Identifier of the non-settable monotonic clock.
pub const CLOCK_MONOTONIC: i32 = 1;

/// Identifier of the monotonic clock that keeps counting while the system
/// is suspended.
pub const CLOCK_BOOTTIME: i32 = 7;

/// Identifier of the real-time clock variant that can wake a suspended
/// system.
pub const CLOCK_REALTIME_ALARM: i32 = 8;

/// Identifier of the boottime clock variant that can wake a suspended
/// system.
pub const CLOCK_BOOTTIME_ALARM: i32 = 9;

/// Creation flag: reads on the descriptor do not block.
pub const TFD_NONBLOCK: i32 = 2048;

/// Creation flag: the descriptor is closed on process-image replacement.
pub const TFD_CLOEXEC: i32 = 524288;

/// Arming flag: interpret the value duration as an absolute point on the
/// timer's clock rather than as relative to now.
pub const TFD_TIMER_ABSTIME: i32 = 1;

/// Arming flag: a discontinuous change to the backing real-time clock makes
/// a pending or future read fail as canceled. Meaningful only together with
/// the absolute-time flag.
pub const TFD_TIMER_CANCEL_ON_SET: i32 = 2;

/// Errno value meaning a read would have to block.
pub const EAGAIN: i32 = 11;

/// Errno value meaning a call was interrupted by a signal.
pub const EINTR: i32 = 4;

/// Errno value meaning a timed wait was canceled by a clock change.
pub const ECANCELED: i32 = 125;

/// Which kernel clock backs a timer. Chosen at creation and immutable for
/// the life of the handle.
#[derive(Clone, Copy, Debug, PartialEq, Eq, Structural)]
pub enum ClockId {
    /// The settable system-wide real-time clock.
    Realtime,
    /// Like `Realtime`, but wakes the system if it is suspended. Arming a
    /// timer against it needs an elevated capability.
    RealtimeAlarm,
    /// The non-settable monotonically increasing clock; it does not advance
    /// while the system is suspended.
    Monotonic,
    /// Like `Monotonic`, but also counts time spent suspended.
    Boottime,
    /// Like `Boottime`, but wakes the system if it is suspended. Arming a
    /// timer against it needs an elevated capability.
    BoottimeAlarm,
}

impl ClockId {
    /// The numeric identifier the operating system defines for this clock.
    pub open spec fn spec_raw(self) -> i32 {
        match self {
            ClockId::Realtime => CLOCK_REALTIME,
            ClockId::RealtimeAlarm => CLOCK_REALTIME_ALARM,
            ClockId::Monotonic => CLOCK_MONOTONIC,
            ClockId::Boottime => CLOCK_BOOTTIME,
            ClockId::BoottimeAlarm => CLOCK_BOOTTIME_ALARM,
        }
    }

    /// Returns the OS-defined numeric identifier of this clock.
    pub fn as_raw(&self) -> (r: i32)
        ensures
            r == self.spec_raw(),
    {
        match self {
            ClockId::Realtime => CLOCK_REALTIME,
            ClockId::RealtimeAlarm => CLOCK_REALTIME_ALARM,
            ClockId::Monotonic => CLOCK_MONOTONIC,
            ClockId::Boottime => CLOCK_BOOTTIME,
            ClockId::BoottimeAlarm => CLOCK_BOOTTIME_ALARM,
        }
    }

    /// The conventional name of this clock.
    pub open spec fn spec_name(self) -> Seq<char> {
        match self {
            ClockId::Realtime => "CLOCK_REALTIME"@,
            ClockId::RealtimeAlarm => "CLOCK_REALTIME_ALARM"@,
            ClockId::Monotonic => "CLOCK_MONOTONIC"@,
            ClockId::Boottime => "CLOCK_BOOTTIME"@,
            ClockId::BoottimeAlarm => "CLOCK_BOOTTIME_ALARM"@,
        }
    }
}

/// Returns the conventional name of a clock identifier.
pub fn clock_name(clock: &ClockId) -> (r: &'static str)
    ensures
        r@ == clock.spec_name(),
{
    match clock {
        ClockId::Realtime => "CLOCK_REALTIME",
        ClockId::RealtimeAlarm => "CLOCK_REALTIME_ALARM",
        ClockId::Monotonic => "CLOCK_MONOTONIC",
        ClockId::Boottime => "CLOCK_BOOTTIME",
        ClockId::BoottimeAlarm => "CLOCK_BOOTTIME_ALARM",
    }
}

/// How an arming call interprets the value duration of the new state.
#[derive(Clone, Copy, Debug, PartialEq, Eq, Structural)]
pub enum SetTimeFlags {
    /// Relative interpretation: the value duration counts from now. No flag
    /// bits are set.
    Default,
    /// Absolute interpretation: the timer expires when its clock reaches the
    /// value duration.
    Abstime,
    /// Absolute interpretation, and additionally the timer is marked so that
    /// a discontinuous change to a real-time clock cancels a pending or
    /// future read. Implies the absolute-time flag.
    TimerCancelOnSet,
}

impl SetTimeFlags {
    /// The flag bits this choice passes to the arming call. The two flag
    /// bits are disjoint, so their sum is their bitwise or.
    pub open spec fn spec_raw(self) -> int {
        match self {
            SetTimeFlags::Default => 0int,
            SetTimeFlags::Abstime => TFD_TIMER_ABSTIME as int,
            SetTimeFlags::TimerCancelOnSet => TFD_TIMER_ABSTIME + TFD_TIMER_CANCEL_ON_SET,
        }
    }

    /// Returns the OS-defined flag bits for this choice. The two flag bits
    /// are disjoint, so their sum is their bitwise or.
    pub fn as_raw(&self) -> (r: i32)
        ensures
            r == self.spec_raw(),
    {
        match self {
            SetTimeFlags::Default => 0,
            SetTimeFlags::Abstime => TFD_TIMER_ABSTIME,
            SetTimeFlags::TimerCancelOnSet => TFD_TIMER_ABSTIME + TFD_TIMER_CANCEL_ON_SET,
        }
    }
}

/// The flag bits a creation call passes for the two descriptor options.
pub open spec fn spec_create_flags(nonblocking: bool, cloexec: bool) -> int {
    (if nonblocking {
        TFD_NONBLOCK
    } else {
        0
    }) + (if cloexec {
        TFD_CLOEXEC
    } else {
        0
    })
}

/// Returns the OS-defined creation flag bits for the two descriptor
/// options. The two flag bits are disjoint, so their sum is their bitwise
/// or.
pub fn create_flags(nonblocking: bool, cloexec: bool) -> (r: i32)
    ensures
        r == spec_create_flags(nonblocking, cloexec),
{
    (if nonblocking {
        TFD_NONBLOCK
    } else {
        0
    }) + (if cloexec {
        TFD_CLOEXEC
    } else {
        0
    })
}

/// Why a timer operation failed.
#[derive(Clone, Copy, Debug, PartialEq, Eq, Structural)]
pub enum TimerFdError {
    /// A read found no pending expiration and the handle is non-blocking.
    WouldBlock,
    /// A read was interrupted by a signal before any expiration arrived.
    Interrupted,
    /// A pending or future wait was invalidated by a discontinuous change to
    /// the timer's real-time clock. Possible only after arming with
    /// [`SetTimeFlags::TimerCancelOnSet`].
    Canceled,
    /// The kernel handed back a native time pair with a field outside its
    /// documented range. This violates the kernel's own contract; it is
    /// surfaced rather than hidden.
    InvalidNativeTime,
    /// A read completed with a byte count other than eight, or with a zero
    /// payload. The kernel guarantees all-or-nothing eight-byte reads with a
    /// non-zero count, so this is an unrecoverable contract violation;
    /// callers should not continue past it.
    ProtocolViolation,
    /// Any other operating-system failure, by its errno value.
    Os(i32),
}

/// What a timer is set to do.
#[derive(Clone, Copy, Debug, PartialEq, Eq, Structural)]
pub enum TimerState {
    /// The timer will never fire.
    Disarmed,
    /// The timer fires once after the duration (or, under absolute-time
    /// interpretation, when the clock reaches it) and then disarms.
    Oneshot(Duration),
    /// The timer fires once after `current`, then rearms with `interval` as
    /// the new current duration for every later firing.
    Periodic {
        /// Time until the next firing.
        current: Duration,
        /// Time between subsequent firings.
        interval: Duration,
    },
}

impl TimerState {
    /// Well-formedness: every duration held keeps its nanosecond part below
    /// one second.
    pub open spec fn wf(self) -> bool {
        match self {
            TimerState::Disarmed => true,
            TimerState::Oneshot(d) => d.wf(),
            TimerState::Periodic { current, interval } => current.wf() && interval.wf(),
        }
    }

    /// Every duration held fits the native time fields.
    pub open spec fn representable(self) -> bool {
        match self {
            TimerState::Disarmed => true,
            TimerState::Oneshot(d) => d.representable(),
            TimerState::Periodic { current, interval } => current.representable()
                && interval.representable(),
        }
    }

    /// States that survive lowering to the native pair and lifting back
    /// unchanged. A zero value duration is the kernel's encoding of
    /// `Disarmed`, and a periodic state with a zero interval lowers to the
    /// same pair as a one-shot state, so those armed states are excluded.
    pub open spec fn round_trippable(self) -> bool {
        match self {
            TimerState::Disarmed => true,
            TimerState::Oneshot(d) => !d.spec_is_zero(),
            TimerState::Periodic { current, interval } => !current.spec_is_zero()
                && !interval.spec_is_zero(),
        }
    }
}

/// How the three raw outcomes of a read on a timer descriptor are
/// understood: exactly eight bytes with a non-zero payload carry the
/// expiration count; any other byte count, or a zero payload, breaks the
/// kernel's all-or-nothing contract; an errno is told apart into
/// would-block, interrupted, canceled, or any other OS failure.
pub open spec fn spec_interpret_read(raw: Result<(usize, u64), i32>) -> Result<
    u64,
    TimerFdError,
> {
    match raw {
        Ok(p) => if p.0 == 8 && p.1 != 0 {
            Ok(p.1)
        } else {
            Err(TimerFdError::ProtocolViolation)
        },
        Err(e) => if e == EAGAIN {
            Err(TimerFdError::WouldBlock)
        } else if e == EINTR {
            Err(TimerFdError::Interrupted)
        } else if e == ECANCELED {
            Err(TimerFdError::Canceled)
        } else {
            Err(TimerFdError::Os(e))
        },
    }
}

/// Classifies the raw outcome of one read on a timer descriptor: the byte
/// count and native-order payload on success, or the errno on failure.
pub fn interpret_read(raw: Result<(usize, u64), i32>) -> (r: Result<u64, TimerFdError>)
    ensures
        r == spec_interpret_read(raw),
{
    match raw {
        Ok((n, count)) => {
            if n == 8 && count != 0 {
                Ok(count)
            } else {
                Err(TimerFdError::ProtocolViolation)
            }
        },
        Err(e) => {
            if e == EAGAIN {
                Err(TimerFdError::WouldBlock)
            } else if e == EINTR {
                Err(TimerFdError::Interrupted)
            } else if e == ECANCELED {
                Err(TimerFdError::Canceled)
            } else {
                Err(TimerFdError::Os(e))
            }
        },
    }
}

/// What the retrying read does with the outcome of one attempt.
#[derive(Clone, Copy, Debug, PartialEq, Eq)]
pub enum ReadStep {
    /// The read is finished, with this result.
    Done(Result<u64, TimerFdError>),
    /// The attempt was interrupted by a signal; read again.
    Retry,
}

/// The retrying read's policy for each single-attempt outcome: a successful
/// count is final; a would-block is a final zero-count success, this crate's
/// chosen reading of "no expirations are pending" on a non-blocking handle;
/// an interruption is retried transparently; every other error is final.
pub open spec fn spec_read_step(r: Result<u64, TimerFdError>) -> ReadStep {
    match r {
        Ok(count) => ReadStep::Done(Ok(count)),
        Err(TimerFdError::WouldBlock) => ReadStep::Done(Ok(0)),
        Err(TimerFdError::Interrupted) => ReadStep::Retry,
        Err(e) => ReadStep::Done(Err(e)),
    }
}

/// Decides how the retrying read proceeds after one attempt, following
/// [`spec_read_step`] exactly.
pub fn read_step(r: Result<u64, TimerFdError>) -> (s: ReadStep)
    ensures
        s == spec_read_step(r),
{
    match r {
        Ok(count) => ReadStep::Done(Ok(count)),
        Err(TimerFdError::WouldBlock) => ReadStep::Done(Ok(0)),
        Err(TimerFdError::Interrupted) => ReadStep::Retry,
        Err(e) => ReadStep::Done(Err(e)),
    }
}

/// A handle owning exactly one kernel timer, identified by a file
/// descriptor. The descriptor is released exactly once, when the handle is
/// dropped; release never fails observably and its outcome is not
/// propagated.
pub struct TimerFd {
    fd: rustix::fd::OwnedFd,
}

impl TimerFd {
    /// Creates a new timer bound to `clock`. `nonblocking` decides whether
    /// a later [`read`](TimerFd::read) blocks when no expiration is
    /// pending; `cloexec` decides whether the descriptor survives
    /// process-image replacement. Fails with the underlying OS error on
    /// resource exhaustion, an unsupported clock, or (on very old kernels)
    /// use of either flag.
    pub fn new_custom(clock: ClockId, nonblocking: bool, cloexec: bool) -> (r: Result<
        TimerFd,
        TimerFdError,
    >)
        ensures
            r matches Err(e) ==> e matches TimerFdError::Os(_),
            r matches Err(TimerFdError::Os(c)) ==> 0 < c < 4096,
    {
        match sys::sys_timerfd_create(&clock, create_flags(nonblocking, cloexec)) {
            Ok(fd) => Ok(TimerFd { fd }),
            Err(e) => Err(TimerFdError::Os(e)),
        }
    }

    /// Creates a new timer with the common choices: the monotonic clock,
    /// blocking reads, and no close-on-exec.
    pub fn new() -> (r: Result<TimerFd, TimerFdError>)
        ensures
            r matches Err(e) ==> e matches TimerFdError::Os(_),
            r matches Err(TimerFdError::Os(c)) ==> 0 < c < 4096,
    {
        TimerFd::new_custom(ClockId::Monotonic, false, false)
    }

    /// Adopts an already-open descriptor the caller asserts is a valid,
    /// compatible timer descriptor, taking over responsibility for closing
    /// it. Nothing here can check that assertion; a descriptor of another
    /// kind makes every later operation on the handle fail or misbehave at
    /// the OS level.
    pub fn from_fd(fd: rustix::fd::OwnedFd) -> TimerFd {
        TimerFd { fd }
    }

    /// Returns the raw descriptor value for registration with a readiness
    /// multiplexer, without giving up ownership.
    pub fn as_raw_fd(&self) -> i32 {
        sys::sys_raw_fd(&self.fd)
    }

    /// Installs `state` on the timer under the interpretation `sflags`
    /// chooses, atomically with respect to the kernel, and returns the
    /// state that was in effect immediately before the call. Either the
    /// call fully succeeds — old state observed, new state installed — or
    /// it fails as a whole with an error and installs nothing.
    pub fn set_state(&mut self, state: TimerState, sflags: SetTimeFlags) -> (r: Result<
        TimerState,
        TimerFdError,
    >)
        requires
            state.wf(),
            state.representable(),
        ensures
            *final(self) == *old(self),
            r matches Ok(prev) ==> prev.wf() && prev.representable() && prev.round_trippable(),
            r matches Err(e) ==> e == TimerFdError::InvalidNativeTime || e matches TimerFdError::Os(
                _,
            ),
            r matches Err(TimerFdError::Os(c)) ==> 0 < c < 4096,
    {
        let new = structs::state_to_itimerspec(&state);
        match sys::sys_timerfd_settime(&self.fd, sflags.as_raw(), &new) {
            Ok(prev_pair) => {
                proof {
                    structs::lemma_lift_wf(prev_pair);
                }
                structs::itimerspec_to_state(&prev_pair)
            },
            Err(e) => Err(TimerFdError::Os(e)),
        }
    }

    /// Queries the timer's current state — remaining time and interval —
    /// without changing it.
    pub fn get_state(&self) -> (r: Result<TimerState, TimerFdError>)
        ensures
            r matches Ok(s) ==> s.wf() && s.representable() && s.round_trippable(),
            r matches Err(e) ==> e == TimerFdError::InvalidNativeTime || e matches TimerFdError::Os(
                _,
            ),
            r matches Err(TimerFdError::Os(c)) ==> 0 < c < 4096,
    {
        match sys::sys_timerfd_gettime(&self.fd) {
            Ok(pair) => {
                proof {
                    structs::lemma_lift_wf(pair);
                }
                structs::itimerspec_to_state(&pair)
            },
            Err(e) => Err(TimerFdError::Os(e)),
        }
    }

    /// Attempts a single read of the expiration count. A successful read
    /// returns the number of expirations since the last successful read —
    /// never zero — and resets that count as an atomic side effect. Every
    /// raw failure is surfaced, so callers can tell a would-block from an
    /// interruption; nothing is retried here.
    pub fn try_read(&mut self) -> (r: Result<u64, TimerFdError>)
        ensures
            *final(self) == *old(self),
            r matches Ok(count) ==> count != 0,
            r != Err::<u64, TimerFdError>(TimerFdError::InvalidNativeTime),
            r matches Err(TimerFdError::Os(c)) ==> 0 < c < 4096,
    {
        interpret_read(sys::sys_read_counter(&self.fd))
    }

    /// Reads the expiration count, treating the outcome of each attempt as
    /// [`spec_read_step`] says: a would-block becomes a zero-count success
    /// rather than an error, a signal interruption is retried transparently,
    /// and everything else is handed through. On a blocking handle this
    /// suspends the caller until the timer expires at least once — forever,
    /// if the timer is disarmed. An interruption reaches the caller only in
    /// the impossible event that nearly 2^64 consecutive attempts were all
    /// interrupted, a cap that keeps this function provably terminating.
    pub fn read(&mut self) -> (r: Result<u64, TimerFdError>)
        ensures
            *final(self) == *old(self),
            r matches Err(e) ==> e != TimerFdError::WouldBlock && e
                != TimerFdError::InvalidNativeTime,
            r matches Err(TimerFdError::Os(c)) ==> 0 < c < 4096,
    {
        let mut attempts: u64 = 0;
        while attempts < u64::MAX
            invariant
                *self == *old(self),
            decreases u64::MAX - attempts,
        {
            match read_step(self.try_read()) {
                ReadStep::Done(result) => {
                    return result;
                },
                ReadStep::Retry => {},
            }
            attempts += 1;
        }
        Err(TimerFdError::Interrupted)
    }
}

} // verus!
