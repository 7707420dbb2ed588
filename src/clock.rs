//! Clock reads. Every time value comes from the untrusted host; it is checked
//! here before the rest of the kernel sees it.
use vstd::prelude::*;

use crate::error::Error;
use crate::time::{
    clockid_t, lemma_timespec_of, lemma_timeval_of, timespec_of, timespec_t, timeval_of,
    timeval_t, valid_timespec,
};

verus! {

/// The clocks that a process can name.
#[allow(non_camel_case_types)]
#[derive(Clone, Copy, Debug, PartialEq, Eq, Structural)]
pub enum ClockId {
    CLOCK_REALTIME,
    CLOCK_MONOTONIC,
    CLOCK_PROCESS_CPUTIME_ID,
    CLOCK_THREAD_CPUTIME_ID,
    CLOCK_MONOTONIC_RAW,
    CLOCK_REALTIME_COARSE,
    CLOCK_MONOTONIC_COARSE,
    CLOCK_BOOTTIME,
}

/// The clock that a process names by the number `id`, if any.
pub open spec fn clock_of_raw(id: int) -> Option<ClockId> {
    if id == 0 {
        Some(ClockId::CLOCK_REALTIME)
    } else if id == 1 {
        Some(ClockId::CLOCK_MONOTONIC)
    } else if id == 2 {
        Some(ClockId::CLOCK_PROCESS_CPUTIME_ID)
    } else if id == 3 {
        Some(ClockId::CLOCK_THREAD_CPUTIME_ID)
    } else if id == 4 {
        Some(ClockId::CLOCK_MONOTONIC_RAW)
    } else if id == 5 {
        Some(ClockId::CLOCK_REALTIME_COARSE)
    } else if id == 6 {
        Some(ClockId::CLOCK_MONOTONIC_COARSE)
    } else if id == 7 {
        Some(ClockId::CLOCK_BOOTTIME)
    } else {
        None
    }
}

impl ClockId {
    /// The clock with the number `id`; an unknown number is `InvalidArgument`.
    pub fn from_raw(id: clockid_t) -> (r: Result<ClockId, Error>)
        ensures
            clock_of_raw(id as int) matches Some(c) ==> r == Ok::<ClockId, Error>(c),
            clock_of_raw(id as int) is None ==> r == Err::<ClockId, Error>(
                Error::InvalidArgument,
            ),
    {
        match id {
            0 => Ok(ClockId::CLOCK_REALTIME),
            1 => Ok(ClockId::CLOCK_MONOTONIC),
            2 => Ok(ClockId::CLOCK_PROCESS_CPUTIME_ID),
            3 => Ok(ClockId::CLOCK_THREAD_CPUTIME_ID),
            4 => Ok(ClockId::CLOCK_MONOTONIC_RAW),
            5 => Ok(ClockId::CLOCK_REALTIME_COARSE),
            6 => Ok(ClockId::CLOCK_MONOTONIC_COARSE),
            7 => Ok(ClockId::CLOCK_BOOTTIME),
            _ => Err(Error::InvalidArgument),
        }
    }
}

/// What the host answered to a request for a time.
#[derive(Clone, Copy, Debug, PartialEq, Eq, Structural)]
pub enum HostTime {
    /// The call across the boundary itself failed.
    TransportFailed,
    /// The host ran the call and it failed with this errno.
    Errno(i32),
    /// The host's answer, not yet checked.
    Value { sec: i64, nsec: i64 },
}

/// What a host answer is worth: a valid time, or the error it stands for.
pub open spec fn host_time_result(reply: HostTime) -> Result<timespec_t, Error> {
    match reply {
        HostTime::TransportFailed => Err(Error::HostTrustViolation),
        HostTime::Errno(e) => Err(Error::HostErrno(e)),
        HostTime::Value { sec, nsec } => if valid_timespec(sec as int, nsec as int) {
            Ok(timespec_of(sec, nsec))
        } else {
            Err(Error::HostTrustViolation)
        },
    }
}

/// Checks a host answer; a malformed time is never passed on.
pub fn accept_host_time(reply: HostTime) -> (r: Result<timespec_t, Error>)
    ensures
        r == host_time_result(reply),
        r matches Ok(t) ==> t.wf(),
{
    broadcast use lemma_timespec_of;

    match reply {
        HostTime::TransportFailed => Err(Error::HostTrustViolation),
        HostTime::Errno(e) => Err(Error::HostErrno(e)),
        HostTime::Value { sec, nsec } => match timespec_t::try_new(sec, nsec) {
            Ok(t) => Ok(t),
            Err(_) => Err(Error::HostTrustViolation),
        },
    }
}

/// Whether the current time of `clockid` can be read from the host.
pub open spec fn gettime_supported(clockid: ClockId) -> bool {
    clockid != ClockId::CLOCK_PROCESS_CPUTIME_ID && clockid != ClockId::CLOCK_THREAD_CPUTIME_ID
}

/// The result of reading `clockid` when the host answers `reply`.
pub open spec fn gettime_result(clockid: ClockId, reply: HostTime) -> Result<timespec_t, Error> {
    if gettime_supported(clockid) {
        host_time_result(reply)
    } else {
        Err(Error::InvalidArgument)
    }
}

/// Refuses, before any host call, a clock whose time cannot be read: the
/// process and thread CPU clocks.
pub fn check_gettime_clock(clockid: ClockId) -> (r: Result<(), Error>)
    ensures
        gettime_supported(clockid) ==> r is Ok,
        !gettime_supported(clockid) ==> r == Err::<(), Error>(Error::InvalidArgument),
{
    if clockid == ClockId::CLOCK_PROCESS_CPUTIME_ID || clockid == ClockId::CLOCK_THREAD_CPUTIME_ID {
        Err(Error::InvalidArgument)
    } else {
        Ok(())
    }
}

/// The current time of `clockid`, from the host's answer `reply`.
pub fn do_clock_gettime(clockid: ClockId, reply: HostTime) -> (r: Result<timespec_t, Error>)
    ensures
        r == gettime_result(clockid, reply),
        r matches Ok(t) ==> t.wf(),
{
    check_gettime_clock(clockid)?;
    accept_host_time(reply)
}

/// Whether `(sec, nsec)` is a plausible clock resolution: above zero and
/// under one second.
pub open spec fn valid_resolution(sec: int, nsec: int) -> bool {
    sec == 0 && 0 < nsec < 1_000_000_000
}

/// The resolution of a clock, from the host's answer `reply`.
pub open spec fn getres_result(reply: HostTime) -> Result<timespec_t, Error> {
    match reply {
        HostTime::TransportFailed => Err(Error::HostTrustViolation),
        HostTime::Errno(e) => Err(Error::HostErrno(e)),
        HostTime::Value { sec, nsec } => if valid_resolution(sec as int, nsec as int) {
            Ok(timespec_of(sec, nsec))
        } else {
            Err(Error::HostTrustViolation)
        },
    }
}

/// The resolution of `clockid`, from the host's answer `reply` for that clock.
pub fn do_clock_getres(clockid: ClockId, reply: HostTime) -> (r: Result<timespec_t, Error>)
    ensures
        r == getres_result(reply),
        r matches Ok(t) ==> t.wf(),
{
    broadcast use lemma_timespec_of;

    let res = accept_host_time(reply)?;
    if res.sec() == 0 && res.nsec() > 0 {
        Ok(res)
    } else {
        Err(Error::HostTrustViolation)
    }
}

/// The time of day in seconds and microseconds, from the host's answer
/// `reply` for the real-time clock.
pub open spec fn gettimeofday_result(reply: HostTime) -> Result<timeval_t, Error> {
    match host_time_result(reply) {
        Ok(t) => Ok(timeval_of(t.spec_sec(), (t.spec_nsec() / 1000) as i64)),
        Err(e) => Err(e),
    }
}

/// The time of day, from the host's answer `reply` for the real-time clock;
/// nanoseconds past the last whole microsecond are dropped.
pub fn do_gettimeofday(reply: HostTime) -> (r: Result<timeval_t, Error>)
    ensures
        r == gettimeofday_result(reply),
        r matches Ok(t) ==> t.wf(),
{
    broadcast use lemma_timespec_of, lemma_timeval_of;

    let t = accept_host_time(reply)?;
    Ok(timeval_t::new(t.sec(), t.nsec() / 1000))
}

/// The CPU time of the current thread, from the host's answer `reply`.
pub fn do_thread_getcpuclock(reply: HostTime) -> (r: Result<timespec_t, Error>)
    ensures
        r == host_time_result(reply),
        r matches Ok(t) ==> t.wf(),
{
    accept_host_time(reply)
}

/// The host's cycle counter as its low and high halves; `None` stands for a
/// failed boundary call. The counter is not a time and is passed on as it is.
pub fn do_rdtsc(reply: Option<(u32, u32)>) -> (r: Result<(u32, u32), Error>)
    ensures
        reply matches Some(c) ==> r == Ok::<(u32, u32), Error>(c),
        reply is None ==> r == Err::<(u32, u32), Error>(Error::HostTrustViolation),
{
    match reply {
        Some(c) => Ok(c),
        None => Err(Error::HostTrustViolation),
    }
}

/// The file system's source of timestamps: the real-time clock.
pub struct OcclumTimeProvider;

impl OcclumTimeProvider {
    /// The current real time, from the host's answer `reply`.
    pub fn current_time(&self, reply: HostTime) -> (r: Result<timespec_t, Error>)
        ensures
            r == gettime_result(ClockId::CLOCK_REALTIME, reply),
            r == host_time_result(reply),
    {
        do_clock_gettime(ClockId::CLOCK_REALTIME, reply)
    }
}

/// The CPU clocks are refused whatever the host would answer: their result
/// does not depend on any host call.
pub proof fn lemma_cpu_clocks_refused(clockid: ClockId, a: HostTime, b: HostTime)
    requires
        clockid == ClockId::CLOCK_PROCESS_CPUTIME_ID || clockid
            == ClockId::CLOCK_THREAD_CPUTIME_ID,
    ensures
        gettime_result(clockid, a) == Err::<timespec_t, Error>(Error::InvalidArgument),
        gettime_result(clockid, a) == gettime_result(clockid, b),
{
}

} // verus!
