//! Sleeping on a clock. A sleep is driven in steps: these functions decide
//! each step, and the caller performs it (reads the clock, suspends on a
//! waiter) and hands back what happened.
use vstd::prelude::*;

use crate::clock::{host_time_result, ClockId, HostTime};
use crate::error::Error;
use crate::span::{lemma_span_sub, span_sub, TimeSpan};
use crate::time::{lemma_timespec_of_span, span_of_timespec, timespec_of_span, timespec_t};

verus! {

/// `flags` bit of an absolute-time sleep: the lowest, so a `flags` value
/// asks for one exactly when it is odd.
pub const TIMER_ABSTIME: i32 = 0x01;

/// What the caller of a sleep does next.
#[derive(Clone, Copy, Debug, PartialEq, Eq, Structural)]
pub enum SleepStep {
    /// The target already passed: the sleep ends at once, with success.
    Done,
    /// Read the current time of `clockid`, then plan the wait towards `target`.
    ReadClock { clockid: ClockId, target: TimeSpan },
    /// Suspend on a fresh waiter for `duration`.
    Wait { duration: TimeSpan, relative: bool },
}

/// How a wait on a waiter ended.
#[derive(Clone, Copy, Debug, PartialEq, Eq, Structural)]
pub enum WaitOutcome {
    /// Another party woke the waiter.
    Woken,
    /// The deadline passed.
    TimedOut,
    /// A signal arrived.
    Interrupted,
}

/// How a sleep ended: the result for the caller, and the time left to write
/// back, if any.
#[derive(Clone, Copy, Debug)]
pub struct SleepEnd {
    pub result: Result<isize, Error>,
    pub remaining: Option<timespec_t>,
}

/// The clocks a process can sleep on.
pub open spec fn sleep_clock_ok(clockid: ClockId) -> bool {
    clockid == ClockId::CLOCK_REALTIME || clockid == ClockId::CLOCK_MONOTONIC || clockid
        == ClockId::CLOCK_BOOTTIME
}

/// Whether `flags` asks for an absolute target: its lowest bit,
/// `TIMER_ABSTIME`, is set.
pub open spec fn is_absolute(flags: i32) -> bool {
    flags % 2 != 0
}

/// The first step of a sleep on `clockid` for the request `req`.
pub open spec fn sleep_start(clockid: ClockId, flags: i32, req: timespec_t) -> Result<
    SleepStep,
    Error,
> {
    if !sleep_clock_ok(clockid) || !req.wf() {
        Err(Error::InvalidArgument)
    } else if is_absolute(flags) {
        Ok(SleepStep::ReadClock { clockid, target: span_of_timespec(req) })
    } else {
        Ok(SleepStep::Wait { duration: span_of_timespec(req), relative: true })
    }
}

/// Starts a sleep on `clockid`: relative for `req`, or until the time `req`
/// where `flags` holds `TIMER_ABSTIME`. Other clocks and malformed requests
/// are `InvalidArgument`.
pub fn do_clock_nanosleep(clockid: ClockId, flags: i32, req: &timespec_t) -> (r: Result<
    SleepStep,
    Error,
>)
    ensures
        r == sleep_start(clockid, flags, *req),
{
    match clockid {
        ClockId::CLOCK_REALTIME | ClockId::CLOCK_MONOTONIC | ClockId::CLOCK_BOOTTIME => {},
        _ => {
            return Err(Error::InvalidArgument);
        },
    }
    req.validate()?;
    let target = req.as_duration();
    let absolute = flags % 2 != 0;
    if absolute {
        Ok(SleepStep::ReadClock { clockid, target })
    } else {
        Ok(SleepStep::Wait { duration: target, relative: true })
    }
}

/// Starts a relative sleep on the real-time clock.
pub fn do_nanosleep(req: &timespec_t) -> (r: Result<SleepStep, Error>)
    ensures
        r == sleep_start(ClockId::CLOCK_REALTIME, 0, *req),
{
    do_clock_nanosleep(ClockId::CLOCK_REALTIME, 0, req)
}

/// The step after reading the clock, for an absolute sleep towards `target`.
pub open spec fn absolute_step(target: TimeSpan, now: HostTime) -> Result<SleepStep, Error> {
    match host_time_result(now) {
        Err(e) => Err(e),
        Ok(t) => if target.total() > span_of_timespec(t).total() {
            Ok(SleepStep::Wait { duration: span_sub(target, span_of_timespec(t)), relative: false })
        } else {
            Ok(SleepStep::Done)
        },
    }
}

/// Plans an absolute sleep towards `target` from the host's answer `now` for
/// the current time: done at once where the target is not in the future,
/// else a wait for the difference.
pub fn plan_absolute_sleep(target: TimeSpan, now: HostTime) -> (r: Result<SleepStep, Error>)
    requires
        target.wf(),
    ensures
        r == absolute_step(target, now),
{
    let t = crate::clock::accept_host_time(now)?;
    let now_span = t.as_duration();
    if target.longer_than(&now_span) {
        Ok(SleepStep::Wait { duration: target.saturating_sub(&now_span), relative: false })
    } else {
        Ok(SleepStep::Done)
    }
}

/// How a sleep of `duration` ends when its wait ends with `outcome` after
/// `elapsed`.
pub open spec fn sleep_end(
    duration: TimeSpan,
    relative: bool,
    outcome: WaitOutcome,
    elapsed: TimeSpan,
) -> SleepEnd {
    if outcome == WaitOutcome::TimedOut {
        SleepEnd { result: Ok(0), remaining: None }
    } else if relative {
        SleepEnd {
            result: Err(Error::Interrupted),
            remaining: Some(timespec_of_span(span_sub(duration, elapsed))),
        }
    } else {
        SleepEnd { result: Err(Error::Interrupted), remaining: None }
    }
}

/// Ends a sleep whose wait for `duration` ended with `outcome` after
/// `elapsed`. Running to the deadline is success; a signal is
/// `Interrupted`, and a relative sleep then reports the time left. Nothing
/// wakes a sleeping waiter but its deadline or a signal.
pub fn complete_sleep(
    duration: TimeSpan,
    relative: bool,
    outcome: WaitOutcome,
    elapsed: TimeSpan,
) -> (r: SleepEnd)
    requires
        outcome != WaitOutcome::Woken,
        duration.wf(),
        elapsed.wf(),
        duration.spec_secs() <= i64::MAX,
    ensures
        r == sleep_end(duration, relative, outcome, elapsed),
        r.remaining matches Some(t) ==> t.wf(),
{
    match outcome {
        WaitOutcome::TimedOut => SleepEnd { result: Ok(0), remaining: None },
        _ => {
            let remaining = if relative {
                let left = duration.saturating_sub(&elapsed);
                proof {
                    lemma_span_sub(duration, elapsed);
                    lemma_timespec_of_span(left);
                }
                Some(timespec_t::from(left))
            } else {
                None
            };
            SleepEnd { result: Err(Error::Interrupted), remaining }
        },
    }
}

/// An absolute sleep whose target is not after the current time ends at
/// once, with success, and never waits: it reads the clock and is done.
pub proof fn lemma_past_target_done(clockid: ClockId, flags: i32, req: timespec_t, sec: i64, nsec: i64)
    requires
        sleep_clock_ok(clockid),
        is_absolute(flags),
        req.wf(),
        crate::time::valid_timespec(sec as int, nsec as int),
        req.total_nanos() <= sec * 1_000_000_000 + nsec,
    ensures
        sleep_start(clockid, flags, req) == Ok::<SleepStep, Error>(
            SleepStep::ReadClock { clockid, target: span_of_timespec(req) },
        ),
        absolute_step(span_of_timespec(req), HostTime::Value { sec, nsec })
            == Ok::<SleepStep, Error>(SleepStep::Done),
{
    broadcast use crate::span::lemma_span_of;

    crate::time::lemma_timespec_round_trip(sec, nsec);
}

/// A relative sleep that runs to its deadline succeeds and writes back no
/// time.
pub proof fn lemma_relative_timeout(duration: TimeSpan, elapsed: TimeSpan)
    ensures
        sleep_end(duration, true, WaitOutcome::TimedOut, elapsed) == (SleepEnd {
            result: Ok(0),
            remaining: None,
        }),
{
}

/// A relative sleep of `duration` interrupted after `elapsed` is
/// `Interrupted` and writes back the time left: `duration - elapsed` where
/// that is positive, else zero, and never more than `duration`.
pub proof fn lemma_interrupted_remaining(duration: TimeSpan, elapsed: TimeSpan)
    requires
        duration.wf(),
        elapsed.wf(),
        duration.spec_secs() <= i64::MAX,
    ensures
        sleep_end(duration, true, WaitOutcome::Interrupted, elapsed).result == Err::<isize, Error>(
            Error::Interrupted,
        ),
        sleep_end(duration, true, WaitOutcome::Interrupted, elapsed).remaining matches Some(t) && t.wf()
            && t.total_nanos() == (if duration.total() > elapsed.total() {
            duration.total() - elapsed.total()
        } else {
            0
        }) && 0 <= t.total_nanos() <= duration.total(),
{
    lemma_span_sub(duration, elapsed);
    lemma_timespec_of_span(span_sub(duration, elapsed));
}

} // verus!
