//! Tests of the timer handle against the live kernel facility, and of the
//! OS-defined numeric constants against the platform's own headers.

use std::time::SystemTime;
use std::time::UNIX_EPOCH;

use timerfd::clock_name;
use timerfd::create_flags;
use timerfd::duration::Duration;
use timerfd::ClockId;
use timerfd::SetTimeFlags;
use timerfd::TimerFd;
use timerfd::TimerFdError;
use timerfd::TimerState;

/// Seconds from now for timers that must not fire during a test.
const TEST_TIMER_OFFSET: u64 = 100;

fn realtime_now_secs() -> u64 {
    SystemTime::now()
        .duration_since(UNIX_EPOCH)
        .unwrap()
        .as_secs()
}

#[test]
fn clockid_new_custom() {
    let tfd = TimerFd::new_custom(ClockId::Realtime, true, false).unwrap();
    assert_eq!(tfd.get_state().unwrap(), TimerState::Disarmed);

    let tfd = TimerFd::new_custom(ClockId::Monotonic, true, false).unwrap();
    assert_eq!(tfd.get_state().unwrap(), TimerState::Disarmed);

    let tfd = TimerFd::new_custom(ClockId::Boottime, true, false).unwrap();
    assert_eq!(tfd.get_state().unwrap(), TimerState::Disarmed);
    // ClockId::RealtimeAlarm and ClockId::BoottimeAlarm need CAP_WAKE_ALARM.
}

/// trivial monotonic timer some seconds into the future
#[test]
fn timerfd_settime_flags_default() {
    let mut tfd = TimerFd::new().unwrap();
    assert_eq!(tfd.get_state().unwrap(), TimerState::Disarmed);

    tfd.set_state(
        TimerState::Oneshot(Duration::new(TEST_TIMER_OFFSET, 0)),
        SetTimeFlags::Default,
    )
    .unwrap();
    assert!(match tfd.get_state().unwrap() {
        TimerState::Oneshot(_) => true,
        _ => false,
    });
}

/// timer set from realtime clock
#[test]
fn timerfd_settime_flags_abstime() {
    let mut tfd = TimerFd::new_custom(ClockId::Realtime, true, true).unwrap();
    assert_eq!(tfd.get_state().unwrap(), TimerState::Disarmed);

    let now = realtime_now_secs();
    tfd.set_state(
        TimerState::Oneshot(Duration::new(now + TEST_TIMER_OFFSET, 0)),
        SetTimeFlags::Abstime,
    )
    .unwrap();
    assert!(match tfd.get_state().unwrap() {
        TimerState::Oneshot(_) => true,
        _ => false,
    });
}

/// same as abstime, with `TimerCancelOnSet`
#[test]
fn timerfd_settime_flags_abstime_cancel() {
    let mut tfd = TimerFd::new_custom(ClockId::Realtime, true, true).unwrap();
    assert_eq!(tfd.get_state().unwrap(), TimerState::Disarmed);

    let now = realtime_now_secs();
    tfd.set_state(
        TimerState::Oneshot(Duration::new(now + TEST_TIMER_OFFSET, 0)),
        SetTimeFlags::TimerCancelOnSet,
    )
    .unwrap();
    assert!(match tfd.get_state().unwrap() {
        TimerState::Oneshot(_) => true,
        _ => false,
    });
}

#[test]
fn fresh_handle_reports_disarmed() {
    let tfd = TimerFd::new().unwrap();
    assert_eq!(tfd.get_state().unwrap(), TimerState::Disarmed);
}

#[test]
fn oneshot_remaining_is_positive_and_at_most_one_second() {
    let mut tfd = TimerFd::new().unwrap();
    tfd.set_state(
        TimerState::Oneshot(Duration::new(1, 0)),
        SetTimeFlags::Default,
    )
    .unwrap();
    match tfd.get_state().unwrap() {
        TimerState::Oneshot(remaining) => {
            assert!(!remaining.is_zero());
            assert!(
                remaining.as_secs() == 0
                    || (remaining.as_secs() == 1 && remaining.subsec_nanos() == 0)
            );
        }
        other => panic!("expected a one-shot state, got {:?}", other),
    }
}

#[test]
fn elapsed_oneshot_blocking_read_then_disarmed() {
    let mut tfd = TimerFd::new().unwrap();
    tfd.set_state(
        TimerState::Oneshot(Duration::new(0, 10_000_000)),
        SetTimeFlags::Default,
    )
    .unwrap();
    let count = tfd.read().unwrap();
    assert!(count >= 1);
    assert_eq!(tfd.get_state().unwrap(), TimerState::Disarmed);
}

#[test]
fn periodic_timer_rearms_after_read() {
    let mut tfd = TimerFd::new().unwrap();
    tfd.set_state(
        TimerState::Periodic {
            current: Duration::new(0, 10_000_000),
            interval: Duration::new(0, 10_000_000),
        },
        SetTimeFlags::Default,
    )
    .unwrap();
    let count = tfd.read().unwrap();
    assert!(count >= 1);
    match tfd.get_state().unwrap() {
        TimerState::Periodic { interval, .. } => {
            assert_eq!(interval, Duration::new(0, 10_000_000));
        }
        other => panic!("expected a periodic state, got {:?}", other),
    }
}

#[test]
fn setting_zero_oneshot_disarms() {
    let mut tfd = TimerFd::new_custom(ClockId::Monotonic, true, false).unwrap();
    assert_eq!(tfd.get_state().unwrap(), TimerState::Disarmed);

    let old = tfd
        .set_state(
            TimerState::Oneshot(Duration::new(0, 0)),
            SetTimeFlags::Default,
        )
        .unwrap();
    assert_eq!(old, TimerState::Disarmed);
    assert_eq!(tfd.get_state().unwrap(), TimerState::Disarmed);
}

#[test]
fn nonblocking_read_on_disarmed_or_pending_timer_is_zero() {
    let mut tfd = TimerFd::new_custom(ClockId::Monotonic, true, false).unwrap();
    assert_eq!(tfd.read().unwrap(), 0);
    assert_eq!(tfd.try_read(), Err(TimerFdError::WouldBlock));

    tfd.set_state(
        TimerState::Oneshot(Duration::new(TEST_TIMER_OFFSET, 0)),
        SetTimeFlags::Default,
    )
    .unwrap();
    assert_eq!(tfd.read().unwrap(), 0);
}

#[test]
fn constants_match_platform_headers() {
    assert_eq!(timerfd::CLOCK_REALTIME, libc::CLOCK_REALTIME);
    assert_eq!(timerfd::CLOCK_MONOTONIC, libc::CLOCK_MONOTONIC);
    assert_eq!(timerfd::CLOCK_BOOTTIME, libc::CLOCK_BOOTTIME);
    assert_eq!(timerfd::CLOCK_REALTIME_ALARM, libc::CLOCK_REALTIME_ALARM);
    assert_eq!(timerfd::CLOCK_BOOTTIME_ALARM, libc::CLOCK_BOOTTIME_ALARM);
    assert_eq!(timerfd::TFD_NONBLOCK, libc::TFD_NONBLOCK);
    assert_eq!(timerfd::TFD_CLOEXEC, libc::TFD_CLOEXEC);
    assert_eq!(timerfd::TFD_TIMER_ABSTIME, libc::TFD_TIMER_ABSTIME);
    assert_eq!(
        timerfd::TFD_TIMER_CANCEL_ON_SET,
        libc::TFD_TIMER_CANCEL_ON_SET
    );
    assert_eq!(timerfd::EAGAIN, libc::EAGAIN);
    assert_eq!(timerfd::EINTR, libc::EINTR);
    assert_eq!(timerfd::ECANCELED, libc::ECANCELED);

    assert_eq!(ClockId::Realtime.as_raw(), libc::CLOCK_REALTIME);
    assert_eq!(ClockId::RealtimeAlarm.as_raw(), libc::CLOCK_REALTIME_ALARM);
    assert_eq!(ClockId::Monotonic.as_raw(), libc::CLOCK_MONOTONIC);
    assert_eq!(ClockId::Boottime.as_raw(), libc::CLOCK_BOOTTIME);
    assert_eq!(ClockId::BoottimeAlarm.as_raw(), libc::CLOCK_BOOTTIME_ALARM);

    assert_eq!(SetTimeFlags::Default.as_raw(), 0);
    assert_eq!(SetTimeFlags::Abstime.as_raw(), libc::TFD_TIMER_ABSTIME);
    assert_eq!(
        SetTimeFlags::TimerCancelOnSet.as_raw(),
        libc::TFD_TIMER_ABSTIME | libc::TFD_TIMER_CANCEL_ON_SET
    );

    assert_eq!(create_flags(false, false), 0);
    assert_eq!(create_flags(true, false), libc::TFD_NONBLOCK);
    assert_eq!(create_flags(false, true), libc::TFD_CLOEXEC);
    assert_eq!(
        create_flags(true, true),
        libc::TFD_NONBLOCK | libc::TFD_CLOEXEC
    );
}

#[test]
fn clock_names() {
    assert_eq!(clock_name(&ClockId::Realtime), "CLOCK_REALTIME");
    assert_eq!(clock_name(&ClockId::RealtimeAlarm), "CLOCK_REALTIME_ALARM");
    assert_eq!(clock_name(&ClockId::Monotonic), "CLOCK_MONOTONIC");
    assert_eq!(clock_name(&ClockId::Boottime), "CLOCK_BOOTTIME");
    assert_eq!(clock_name(&ClockId::BoottimeAlarm), "CLOCK_BOOTTIME_ALARM");
}

#[test]
fn raw_descriptor_is_exposed() {
    let tfd = TimerFd::new().unwrap();
    assert!(tfd.as_raw_fd() >= 0);
}

#[test]
fn adopted_descriptor_behaves_like_a_fresh_handle() {
    let fd = rustix::time::timerfd_create(
        rustix::time::TimerfdClockId::Monotonic,
        rustix::time::TimerfdFlags::NONBLOCK,
    )
    .unwrap();
    let mut tfd = TimerFd::from_fd(fd);
    assert_eq!(tfd.get_state().unwrap(), TimerState::Disarmed);
    assert_eq!(tfd.read().unwrap(), 0);
}

#[test]
fn set_state_returns_the_previous_state() {
    let mut tfd = TimerFd::new_custom(ClockId::Monotonic, true, false).unwrap();
    let old = tfd
        .set_state(
            TimerState::Oneshot(Duration::new(TEST_TIMER_OFFSET, 0)),
            SetTimeFlags::Default,
        )
        .unwrap();
    assert_eq!(old, TimerState::Disarmed);

    let old = tfd
        .set_state(
            TimerState::Periodic {
                current: Duration::new(1, 0),
                interval: Duration::new(1, 0),
            },
            SetTimeFlags::Default,
        )
        .unwrap();
    match old {
        TimerState::Oneshot(remaining) => {
            assert!(!remaining.is_zero());
            assert!(remaining.as_secs() < TEST_TIMER_OFFSET + 1);
        }
        other => panic!("expected the earlier one-shot state, got {:?}", other),
    }
}
