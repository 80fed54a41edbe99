//! The trusted boundary to the operating system: one wrapper per kernel
//! call the handle makes. Each wrapper converts between this crate's plain
//! types and the callee's, and nothing more; every error is handed back as
//! the raw errno value, which the OS documents as a positive number below
//! 4096.

use vstd::prelude::*;

use crate::structs::itimerspec;
use crate::structs::timespec;
use crate::ClockId;

verus! {

/// An owned file descriptor, closed exactly once when the value is dropped.
#[verifier::external_type_specification]
#[verifier::external_body]
pub struct ExOwnedFd(rustix::fd::OwnedFd);

/// Relies on rustix::time::timerfd_create: allocates a new timer bound to
/// the given clock, honouring the non-blocking and close-on-exec flag bits,
/// and returns its descriptor, or the OS errno on failure.
#[verifier::external_body]
pub(crate) fn sys_timerfd_create(clock: &ClockId, flags: i32) -> (r: Result<
    rustix::fd::OwnedFd,
    i32,
>)
    ensures
        r matches Err(e) ==> 0 < e < 4096,
{
    let clockid = match clock {
        ClockId::Realtime => rustix::time::TimerfdClockId::Realtime,
        ClockId::RealtimeAlarm => rustix::time::TimerfdClockId::RealtimeAlarm,
        ClockId::Monotonic => rustix::time::TimerfdClockId::Monotonic,
        ClockId::Boottime => rustix::time::TimerfdClockId::Boottime,
        ClockId::BoottimeAlarm => rustix::time::TimerfdClockId::BoottimeAlarm,
    };
    match rustix::time::timerfd_create(clockid, rustix::time::TimerfdFlags::from_bits_retain(flags as u32)) {
        Ok(fd) => Ok(fd),
        Err(e) => Err(e.raw_os_error()),
    }
}

/// Relies on rustix::time::timerfd_settime: atomically installs the new
/// native timer value under the given flag bits and returns the value that
/// was in effect before the call, or the OS errno on failure (in which case
/// nothing was installed).
#[verifier::external_body]
pub(crate) fn sys_timerfd_settime(fd: &rustix::fd::OwnedFd, flags: i32, new: &itimerspec) -> (r:
    Result<itimerspec, i32>)
    ensures
        r matches Err(e) ==> 0 < e < 4096,
{
    let cv = |t: &timespec| rustix::time::Timespec { tv_sec: t.tv_sec, tv_nsec: t.tv_nsec };
    let vc = |t: &rustix::time::Timespec| timespec { tv_sec: t.tv_sec, tv_nsec: t.tv_nsec };
    let nv = rustix::time::Itimerspec { it_interval: cv(&new.it_interval), it_value: cv(&new.it_value) };
    let tf = rustix::time::TimerfdTimerFlags::from_bits_retain(flags as u32);
    match rustix::time::timerfd_settime(fd, tf, &nv) {
        Ok(o) => Ok(itimerspec { it_interval: vc(&o.it_interval), it_value: vc(&o.it_value) }),
        Err(e) => Err(e.raw_os_error()),
    }
}

/// Relies on rustix::time::timerfd_gettime: reports the timer's remaining
/// time and interval without changing its state, or the OS errno on
/// failure.
#[verifier::external_body]
pub(crate) fn sys_timerfd_gettime(fd: &rustix::fd::OwnedFd) -> (r: Result<itimerspec, i32>)
    ensures
        r matches Err(e) ==> 0 < e < 4096,
{
    let vc = |t: &rustix::time::Timespec| timespec { tv_sec: t.tv_sec, tv_nsec: t.tv_nsec };
    match rustix::time::timerfd_gettime(fd) {
        Ok(o) => Ok(itimerspec { it_interval: vc(&o.it_interval), it_value: vc(&o.it_value) }),
        Err(e) => Err(e.raw_os_error()),
    }
}

/// Relies on rustix::io::read: reads up to eight bytes from the descriptor
/// into a zeroed buffer and returns the byte count together with the buffer
/// interpreted as a native-byte-order unsigned count, or the OS errno on
/// failure. A successful read of a timer descriptor drains its expiration
/// count as an atomic side effect.
#[verifier::external_body]
pub(crate) fn sys_read_counter(fd: &rustix::fd::OwnedFd) -> (r: Result<(usize, u64), i32>)
    ensures
        r matches Ok(p) ==> p.0 <= 8,
        r matches Err(e) ==> 0 < e < 4096,
{
    let mut buf = [0u8; 8];
    match rustix::io::read(fd, &mut buf) {
        Ok(n) => Ok((n, u64::from_ne_bytes(buf))),
        Err(e) => Err(e.raw_os_error()),
    }
}

/// Relies on std's AsRawFd for OwnedFd: reports the raw descriptor value
/// without giving up ownership of it.
#[verifier::external_body]
pub(crate) fn sys_raw_fd(fd: &rustix::fd::OwnedFd) -> i32 {
    rustix::fd::AsRawFd::as_raw_fd(fd)
}

} // verus!
