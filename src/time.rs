//! Clock values in the two C layouts, seconds with microseconds and seconds
//! with nanoseconds, and the interval-timer pair built from them.
use vstd::prelude::*;

use crate::error::Error;
use crate::span::{lemma_span_of, lemma_span_parts, span_of, TimeSpan, NANOS_PER_SEC};

verus! {

#[allow(non_camel_case_types)]
pub type time_t = i64;

#[allow(non_camel_case_types)]
pub type clockid_t = i32;

#[allow(non_camel_case_types)]
pub type suseconds_t = i64;

/// Microseconds in one second.
pub const MICROS_PER_SEC: i64 = 1_000_000;

/// Seconds and microseconds.
#[allow(non_camel_case_types)]
#[derive(Clone, Copy, Debug, PartialEq, Eq, Structural)]
pub struct timeval_t {
    sec: time_t,
    usec: suseconds_t,
}

/// Whether `(sec, usec)` is a structurally valid time.
pub open spec fn valid_timeval(sec: int, usec: int) -> bool {
    sec >= 0 && 0 <= usec < 1_000_000
}

/// Whether `(sec, nsec)` is a structurally valid time.
pub open spec fn valid_timespec(sec: int, nsec: int) -> bool {
    sec >= 0 && 0 <= nsec < 1_000_000_000
}

/// The time of `sec` seconds and `usec` microseconds.
pub closed spec fn timeval_of(sec: time_t, usec: suseconds_t) -> timeval_t {
    timeval_t { sec, usec }
}

pub broadcast proof fn lemma_timeval_of(sec: time_t, usec: suseconds_t)
    ensures
        (#[trigger] timeval_of(sec, usec)).spec_sec() == sec,
        timeval_of(sec, usec).spec_usec() == usec,
{
}

/// The time of `sec` seconds and `nsec` nanoseconds.
pub closed spec fn timespec_of(sec: time_t, nsec: i64) -> timespec_t {
    timespec_t { sec, nsec }
}

pub broadcast proof fn lemma_timespec_of(sec: time_t, nsec: i64)
    ensures
        (#[trigger] timespec_of(sec, nsec)).spec_sec() == sec,
        timespec_of(sec, nsec).spec_nsec() == nsec,
{
}

/// The span that a valid time in seconds and microseconds stands for.
pub open spec fn span_of_timeval(t: timeval_t) -> TimeSpan {
    span_of(t.spec_sec() as u64, (t.spec_usec() * 1000) as u32)
}

/// The span that a valid time in seconds and nanoseconds stands for.
pub open spec fn span_of_timespec(t: timespec_t) -> TimeSpan {
    span_of(t.spec_sec() as u64, t.spec_nsec() as u32)
}

impl timeval_t {
    pub closed spec fn spec_sec(&self) -> time_t {
        self.sec
    }

    pub closed spec fn spec_usec(&self) -> suseconds_t {
        self.usec
    }

    pub open spec fn wf(&self) -> bool {
        valid_timeval(self.spec_sec() as int, self.spec_usec() as int)
    }

    /// The time in nanoseconds.
    pub open spec fn total_nanos(&self) -> int {
        self.spec_sec() * 1_000_000_000 + self.spec_usec() * 1000
    }

    /// A time from valid parts.
    pub fn new(sec: time_t, usec: suseconds_t) -> (r: timeval_t)
        requires
            valid_timeval(sec as int, usec as int),
        ensures
            r.wf(),
            r == timeval_of(sec, usec),
    {
        timeval_t { sec, usec }
    }

    /// A time from parts, refused with `InvalidArgument` unless they are valid.
    pub fn try_new(sec: time_t, usec: suseconds_t) -> (r: Result<timeval_t, Error>)
        ensures
            valid_timeval(sec as int, usec as int) ==> r == Ok::<timeval_t, Error>(
                timeval_of(sec, usec),
            ),
            !valid_timeval(sec as int, usec as int) ==> r == Err::<timeval_t, Error>(
                Error::InvalidArgument,
            ),
    {
        let t = timeval_t { sec, usec };
        match t.validate() {
            Ok(()) => Ok(t),
            Err(e) => Err(e),
        }
    }

    pub fn validate(&self) -> (r: Result<(), Error>)
        ensures
            self.wf() ==> r is Ok,
            !self.wf() ==> r == Err::<(), Error>(Error::InvalidArgument),
    {
        if self.sec >= 0 && self.usec >= 0 && self.usec < MICROS_PER_SEC {
            Ok(())
        } else {
            Err(Error::InvalidArgument)
        }
    }

    pub fn sec(&self) -> (r: time_t)
        ensures
            r == self.spec_sec(),
    {
        self.sec
    }

    pub fn usec(&self) -> (r: suseconds_t)
        ensures
            r == self.spec_usec(),
    {
        self.usec
    }

    /// The time as a span, without loss.
    pub fn as_duration(&self) -> (r: TimeSpan)
        requires
            self.wf(),
        ensures
            r.wf(),
            r == span_of_timeval(*self),
            r.total() == self.total_nanos(),
    {
        TimeSpan::new(self.sec as u64, (self.usec * 1000) as u32)
    }
}

impl Default for timeval_t {
    fn default() -> (r: timeval_t)
        ensures
            r.wf(),
            r.spec_sec() == 0,
            r.spec_usec() == 0,
    {
        timeval_t { sec: 0, usec: 0 }
    }
}

impl From<TimeSpan> for timeval_t {
    /// The span in seconds and microseconds; nanoseconds past the last whole
    /// microsecond are dropped.
    fn from(d: TimeSpan) -> (r: timeval_t) {
        timeval_t { sec: d.as_secs() as time_t, usec: d.subsec_micros() as i64 }
    }
}

impl vstd::std_specs::convert::FromSpecImpl<TimeSpan> for timeval_t {
    open spec fn obeys_from_spec() -> bool {
        true
    }

    open spec fn from_spec(d: TimeSpan) -> timeval_t {
        timeval_of_span(d)
    }
}

/// The span in seconds and microseconds, truncated to whole microseconds.
pub closed spec fn timeval_of_span(d: TimeSpan) -> timeval_t {
    timeval_t { sec: d.spec_secs() as time_t, usec: (d.spec_nanos() / 1000) as i64 }
}

/// Seconds and nanoseconds.
#[allow(non_camel_case_types)]
#[derive(Clone, Copy, Debug, PartialEq, Eq, Structural)]
pub struct timespec_t {
    sec: time_t,
    nsec: i64,
}

impl timespec_t {
    pub closed spec fn spec_sec(&self) -> time_t {
        self.sec
    }

    pub closed spec fn spec_nsec(&self) -> i64 {
        self.nsec
    }

    pub open spec fn wf(&self) -> bool {
        valid_timespec(self.spec_sec() as int, self.spec_nsec() as int)
    }

    /// The time in nanoseconds.
    pub open spec fn total_nanos(&self) -> int {
        self.spec_sec() * 1_000_000_000 + self.spec_nsec()
    }

    /// A time from valid parts.
    pub fn new(sec: time_t, nsec: i64) -> (r: timespec_t)
        requires
            valid_timespec(sec as int, nsec as int),
        ensures
            r.wf(),
            r == timespec_of(sec, nsec),
    {
        timespec_t { sec, nsec }
    }

    /// A time from parts, refused with `InvalidArgument` unless they are valid.
    pub fn try_new(sec: time_t, nsec: i64) -> (r: Result<timespec_t, Error>)
        ensures
            valid_timespec(sec as int, nsec as int) ==> r == Ok::<timespec_t, Error>(
                timespec_of(sec, nsec),
            ),
            !valid_timespec(sec as int, nsec as int) ==> r == Err::<timespec_t, Error>(
                Error::InvalidArgument,
            ),
    {
        let t = timespec_t { sec, nsec };
        match t.validate() {
            Ok(()) => Ok(t),
            Err(e) => Err(e),
        }
    }

    pub fn validate(&self) -> (r: Result<(), Error>)
        ensures
            self.wf() ==> r is Ok,
            !self.wf() ==> r == Err::<(), Error>(Error::InvalidArgument),
    {
        if self.sec >= 0 && self.nsec >= 0 && self.nsec < NANOS_PER_SEC as i64 {
            Ok(())
        } else {
            Err(Error::InvalidArgument)
        }
    }

    pub fn sec(&self) -> (r: time_t)
        ensures
            r == self.spec_sec(),
    {
        self.sec
    }

    pub fn nsec(&self) -> (r: i64)
        ensures
            r == self.spec_nsec(),
    {
        self.nsec
    }

    /// The time as a span, without loss.
    pub fn as_duration(&self) -> (r: TimeSpan)
        requires
            self.wf(),
        ensures
            r.wf(),
            r == span_of_timespec(*self),
            r.total() == self.total_nanos(),
    {
        TimeSpan::new(self.sec as u64, self.nsec as u32)
    }

    /// Whether the time is zero.
    pub fn is_zero(&self) -> (r: bool)
        ensures
            r == (self.spec_sec() == 0 && self.spec_nsec() == 0),
    {
        self.sec == 0 && self.nsec == 0
    }
}

impl Default for timespec_t {
    fn default() -> (r: timespec_t)
        ensures
            r.wf(),
            r.spec_sec() == 0,
            r.spec_nsec() == 0,
    {
        timespec_t { sec: 0, nsec: 0 }
    }
}

/// The span in seconds and nanoseconds.
pub closed spec fn timespec_of_span(d: TimeSpan) -> timespec_t {
    timespec_t { sec: d.spec_secs() as time_t, nsec: d.spec_nanos() as i64 }
}

impl From<TimeSpan> for timespec_t {
    fn from(d: TimeSpan) -> (r: timespec_t) {
        timespec_t { sec: d.as_secs() as time_t, nsec: d.subsec_nanos() as i64 }
    }
}

impl vstd::std_specs::convert::FromSpecImpl<TimeSpan> for timespec_t {
    open spec fn obeys_from_spec() -> bool {
        true
    }

    open spec fn from_spec(d: TimeSpan) -> timespec_t {
        timespec_of_span(d)
    }
}

impl From<timeval_t> for timespec_t {
    fn from(tv: timeval_t) -> (r: timespec_t) {
        timespec_t { sec: tv.sec, nsec: widen_micros(tv.usec) }
    }
}

/// Microseconds as nanoseconds, wrapping where the product leaves `i64`.
pub open spec fn micros_to_nanos(usec: i64) -> i64 {
    vstd::wrapping::i64_specs::wrapping_mul(usec, 1000)
}

fn widen_micros(usec: i64) -> (r: i64)
    ensures
        r == micros_to_nanos(usec),
{
    usec.wrapping_mul(1000)
}

/// The same time in seconds and nanoseconds.
pub closed spec fn timespec_of_timeval(tv: timeval_t) -> timespec_t {
    timespec_t { sec: tv.spec_sec(), nsec: micros_to_nanos(tv.spec_usec()) }
}

/// Widening a valid time from microseconds to nanoseconds loses nothing.
pub proof fn lemma_timespec_of_timeval(tv: timeval_t)
    requires
        tv.wf(),
    ensures
        timespec_of_timeval(tv).wf(),
        timespec_of_timeval(tv).spec_sec() == tv.spec_sec(),
        timespec_of_timeval(tv).spec_nsec() == tv.spec_usec() * 1000,
        timespec_of_timeval(tv).total_nanos() == tv.total_nanos(),
{
    let u = tv.spec_usec() as int;
    assert((u * 1000) % 0x1_0000_0000_0000_0000int == u * 1000);
}

impl vstd::std_specs::convert::FromSpecImpl<timeval_t> for timespec_t {
    open spec fn obeys_from_spec() -> bool {
        true
    }

    open spec fn from_spec(tv: timeval_t) -> timespec_t {
        timespec_of_timeval(tv)
    }
}

impl From<time_t> for timespec_t {
    fn from(time: time_t) -> (r: timespec_t) {
        timespec_t { sec: time, nsec: 0 }
    }
}

/// Whole seconds as seconds and nanoseconds.
pub closed spec fn timespec_of_secs(time: time_t) -> timespec_t {
    timespec_t { sec: time, nsec: 0 }
}

impl vstd::std_specs::convert::FromSpecImpl<time_t> for timespec_t {
    open spec fn obeys_from_spec() -> bool {
        true
    }

    open spec fn from_spec(time: time_t) -> timespec_t {
        timespec_of_secs(time)
    }
}

/// An interval timer's setting: the period after the first expiration
/// (zero for a one-shot timer) and the time until the first expiration
/// (zero for a disarmed timer).
#[allow(non_camel_case_types)]
#[derive(Clone, Copy, Debug, PartialEq, Eq, Structural)]
pub struct itimerspec_t {
    pub it_interval: timespec_t,
    pub it_value: timespec_t,
}

/// The all-zero setting of a disarmed timer.
pub open spec fn zero_itimerspec() -> itimerspec_t {
    itimerspec_t { it_interval: timespec_of(0, 0), it_value: timespec_of(0, 0) }
}

impl itimerspec_t {
    pub open spec fn wf(&self) -> bool {
        self.it_interval.wf() && self.it_value.wf()
    }

    /// The setting of a disarmed timer.
    pub fn zero() -> (r: itimerspec_t)
        ensures
            r.wf(),
            r == zero_itimerspec(),
    {
        itimerspec_t { it_interval: timespec_t::default(), it_value: timespec_t::default() }
    }

    pub fn validate(&self) -> (r: Result<(), Error>)
        ensures
            self.wf() ==> r is Ok,
            !self.wf() ==> r == Err::<(), Error>(Error::InvalidArgument),
    {
        self.it_interval.validate()?;
        self.it_value.validate()?;
        Ok(())
    }
}

impl Default for itimerspec_t {
    fn default() -> (r: itimerspec_t)
        ensures
            r.wf(),
            r == zero_itimerspec(),
    {
        itimerspec_t::zero()
    }
}

/// An interval timer's setting as two spans.
#[derive(Clone, Copy, Debug, PartialEq, Eq, Structural)]
pub struct TimerfileDurations {
    pub it_interval: TimeSpan,
    pub it_value: TimeSpan,
}

impl TimerfileDurations {
    pub open spec fn wf(&self) -> bool {
        self.it_interval.wf() && self.it_value.wf()
    }

    /// The setting as spans; the result pins each span to its time exactly.
    pub fn from_itimerspec(itime: itimerspec_t) -> (r: TimerfileDurations)
        requires
            itime.wf(),
        ensures
            r.wf(),
            r.it_interval.total() == itime.it_interval.total_nanos(),
            r.it_value.total() == itime.it_value.total_nanos(),
    {
        TimerfileDurations {
            it_interval: itime.it_interval.as_duration(),
            it_value: itime.it_value.as_duration(),
        }
    }
}

impl Default for TimerfileDurations {
    fn default() -> (r: TimerfileDurations)
        ensures
            r.wf(),
            r.it_interval.total() == 0,
            r.it_value.total() == 0,
    {
        TimerfileDurations { it_interval: TimeSpan::zero(), it_value: TimeSpan::zero() }
    }
}

impl From<TimerfileDurations> for itimerspec_t {
    fn from(durations: TimerfileDurations) -> (r: itimerspec_t) {
        itimerspec_t {
            it_interval: timespec_t::from(durations.it_interval),
            it_value: timespec_t::from(durations.it_value),
        }
    }
}

impl vstd::std_specs::convert::FromSpecImpl<TimerfileDurations> for itimerspec_t {
    open spec fn obeys_from_spec() -> bool {
        true
    }

    open spec fn from_spec(durations: TimerfileDurations) -> itimerspec_t {
        itimerspec_t {
            it_interval: timespec_of_span(durations.it_interval),
            it_value: timespec_of_span(durations.it_value),
        }
    }
}

/// A valid time in seconds and nanoseconds is accepted, and turning it into a
/// span and back gives the same time.
pub proof fn lemma_timespec_round_trip(sec: time_t, nsec: i64)
    requires
        valid_timespec(sec as int, nsec as int),
    ensures
        timespec_of(sec, nsec).wf(),
        span_of_timespec(timespec_of(sec, nsec)).wf(),
        span_of_timespec(timespec_of(sec, nsec)).total() == sec * 1_000_000_000 + nsec,
        timespec_of_span(span_of_timespec(timespec_of(sec, nsec))) == timespec_of(sec, nsec),
{
    broadcast use lemma_span_of;
}

/// A valid time in seconds and microseconds is accepted, and turning it into
/// a span and back gives the same time.
pub proof fn lemma_timeval_round_trip(sec: time_t, usec: suseconds_t)
    requires
        valid_timeval(sec as int, usec as int),
    ensures
        timeval_of(sec, usec).wf(),
        span_of_timeval(timeval_of(sec, usec)).wf(),
        span_of_timeval(timeval_of(sec, usec)).total() == sec * 1_000_000_000 + usec * 1000,
        timeval_of_span(span_of_timeval(timeval_of(sec, usec))) == timeval_of(sec, usec),
{
    broadcast use lemma_span_of;

    assert((usec * 1000) / 1000 == usec) by (nonlinear_arith);
}

/// A span taken to seconds and microseconds and back loses exactly the
/// nanoseconds past its last whole microsecond.
pub proof fn lemma_timeval_truncates(d: TimeSpan)
    requires
        d.wf(),
        d.spec_secs() <= i64::MAX,
    ensures
        timeval_of_span(d).wf(),
        span_of_timeval(timeval_of_span(d)).total() == d.total() - d.spec_nanos() % 1000,
{
    broadcast use lemma_span_of;

    let n = d.spec_nanos() as int;
    assert((n / 1000) * 1000 == n - n % 1000) by (nonlinear_arith);
}

/// A span within range taken to seconds and nanoseconds keeps its value.
pub proof fn lemma_timespec_of_span(d: TimeSpan)
    requires
        d.wf(),
        d.spec_secs() <= i64::MAX,
    ensures
        timespec_of_span(d).wf(),
        timespec_of_span(d).total_nanos() == d.total(),
        span_of_timespec(timespec_of_span(d)) == d,
{
    broadcast use lemma_span_of;

    lemma_span_parts(d);
}

} // verus!
