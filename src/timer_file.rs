//! An interval timer behind a file descriptor. The timer's state and every
//! transition live here; a background loop, run by the caller, sleeps as the
//! returned actions say and reports each expiration back.
use vstd::prelude::*;

use crate::error::Error;
use crate::span::TimeSpan;
use crate::time::{itimerspec_t, lemma_timespec_of, span_of_timespec, zero_itimerspec};

verus! {

broadcast use lemma_timespec_of;

#[derive(Clone, Copy, Debug, PartialEq, Eq, Structural)]
pub enum TimerState {
    Disarmed,
    /// Armed to expire once.
    ArmedOneShot,
    /// Armed to expire, then again after every interval.
    ArmedPeriodic,
}

/// What the caller does with the timer's background loop.
#[derive(Clone, Copy, Debug, PartialEq, Eq, Structural)]
pub enum TimerAction {
    /// Cancel the running loop, if any, and start none.
    Stop,
    /// Cancel the running loop, if any, then start one that carries `token`,
    /// sleeps for `first` (until the time `first` where `absolute`), and
    /// reports the expiration.
    Start { token: u64, first: TimeSpan, absolute: bool },
    /// The loop sleeps for `interval` and reports again.
    Rearm { interval: TimeSpan },
}

/// The abstract state of a timer file.
pub ghost struct TimerModel {
    pub setting: itimerspec_t,
    pub state: TimerState,
    pub expirations: u64,
    pub absolute: bool,
    /// The token of the one background loop whose reports count.
    pub token: u64,
    pub nonblocking: bool,
}

pub struct TimerFile {
    setting: itimerspec_t,
    state: TimerState,
    expirations: u64,
    absolute: bool,
    token: u64,
    nonblocking: bool,
}

impl View for TimerFile {
    type V = TimerModel;

    closed spec fn view(&self) -> TimerModel {
        TimerModel {
            setting: self.setting,
            state: self.state,
            expirations: self.expirations,
            absolute: self.absolute,
            token: self.token,
            nonblocking: self.nonblocking,
        }
    }
}

/// Whether a time is zero.
pub open spec fn is_zero_time(t: crate::time::timespec_t) -> bool {
    t.spec_sec() == 0 && t.spec_nsec() == 0
}

impl TimerModel {
    /// A disarmed timer has an all-zero setting; an armed one has a first
    /// expiration, and is one-shot exactly when its interval is zero.
    pub open spec fn wf(&self) -> bool {
        &&& self.setting.wf()
        &&& (self.state == TimerState::Disarmed) == is_zero_time(self.setting.it_value)
        &&& self.state == TimerState::Disarmed ==> is_zero_time(self.setting.it_interval)
        &&& self.state == TimerState::ArmedOneShot ==> is_zero_time(self.setting.it_interval)
        &&& self.state == TimerState::ArmedPeriodic ==> !is_zero_time(self.setting.it_interval)
    }
}

/// The timer after being disarmed.
pub open spec fn after_disarm(m: TimerModel) -> TimerModel {
    TimerModel {
        setting: zero_itimerspec(),
        state: TimerState::Disarmed,
        token: vstd::wrapping::u64_specs::wrapping_add(m.token, 1),
        ..m
    }
}

/// The timer after `set(new_value, absolute)`.
pub open spec fn after_set(m: TimerModel, new_value: itimerspec_t, absolute: bool) -> TimerModel {
    if !new_value.wf() {
        m
    } else if is_zero_time(new_value.it_value) {
        after_disarm(m)
    } else {
        TimerModel {
            setting: new_value,
            state: if is_zero_time(new_value.it_interval) {
                TimerState::ArmedOneShot
            } else {
                TimerState::ArmedPeriodic
            },
            absolute,
            token: vstd::wrapping::u64_specs::wrapping_add(m.token, 1),
            ..m
        }
    }
}

/// What `set(new_value, absolute)` returns.
pub open spec fn set_result(m: TimerModel, new_value: itimerspec_t, absolute: bool) -> Result<
    TimerAction,
    Error,
> {
    if !new_value.wf() {
        Err(Error::InvalidArgument)
    } else if is_zero_time(new_value.it_value) {
        Ok(TimerAction::Stop)
    } else {
        Ok(
            TimerAction::Start {
                token: vstd::wrapping::u64_specs::wrapping_add(m.token, 1),
                first: span_of_timespec(new_value.it_value),
                absolute,
            },
        )
    }
}

/// Whether a report of the loop that carries `token` counts.
pub open spec fn report_counts(m: TimerModel, token: u64) -> bool {
    m.state != TimerState::Disarmed && token == m.token
}

/// The timer after its loop that carries `token` reports an expiration.
pub open spec fn after_expire(m: TimerModel, token: u64) -> TimerModel {
    if !report_counts(m, token) {
        m
    } else {
        let n = if m.expirations < u64::MAX {
            (m.expirations + 1) as u64
        } else {
            m.expirations
        };
        if m.state == TimerState::ArmedOneShot {
            TimerModel {
                expirations: n,
                setting: zero_itimerspec(),
                state: TimerState::Disarmed,
                ..m
            }
        } else {
            TimerModel { expirations: n, ..m }
        }
    }
}

/// What the loop does after reporting with `token`.
pub open spec fn expire_action(m: TimerModel, token: u64) -> TimerAction {
    if report_counts(m, token) && m.state == TimerState::ArmedPeriodic {
        TimerAction::Rearm { interval: span_of_timespec(m.setting.it_interval) }
    } else {
        TimerAction::Stop
    }
}

/// What a read returns.
pub open spec fn read_result(m: TimerModel) -> Result<Option<u64>, Error> {
    if m.expirations > 0 {
        Ok(Some(m.expirations))
    } else if m.nonblocking {
        Err(Error::WouldBlock)
    } else {
        Ok(None)
    }
}

/// The timer after a read.
pub open spec fn after_read(m: TimerModel) -> TimerModel {
    TimerModel { expirations: 0, ..m }
}

impl TimerFile {
    /// A disarmed timer with no expirations; reads fail with `WouldBlock`
    /// rather than wait where `nonblocking`.
    pub fn new(nonblocking: bool) -> (r: TimerFile)
        ensures
            r@.wf(),
            r@.state == TimerState::Disarmed,
            r@.expirations == 0,
            r@.nonblocking == nonblocking,
            !r@.absolute,
    {
        TimerFile {
            setting: itimerspec_t::zero(),
            state: TimerState::Disarmed,
            expirations: 0,
            absolute: false,
            token: 0,
            nonblocking,
        }
    }

    /// Arms the timer with `new_value`, or disarms it where the first
    /// expiration is zero. A malformed setting is `InvalidArgument` and
    /// changes nothing. Any loop already running is cancelled first.
    pub fn set(&mut self, new_value: itimerspec_t, absolute: bool) -> (r: Result<
        TimerAction,
        Error,
    >)
        requires
            old(self)@.wf(),
        ensures
            final(self)@.wf(),
            r == set_result(old(self)@, new_value, absolute),
            final(self)@ == after_set(old(self)@, new_value, absolute),
    {
        new_value.validate()?;
        if new_value.it_value.is_zero() {
            return Ok(self.disarm());
        }
        self.setting = new_value;
        self.state = if new_value.it_interval.is_zero() {
            TimerState::ArmedOneShot
        } else {
            TimerState::ArmedPeriodic
        };
        self.absolute = absolute;
        self.token = self.token.wrapping_add(1);
        Ok(TimerAction::Start { token: self.token, first: new_value.it_value.as_duration(), absolute })
    }

    /// Disarms the timer; once the loop is stopped no report of it counts.
    pub fn disarm(&mut self) -> (r: TimerAction)
        requires
            old(self)@.wf(),
        ensures
            r == TimerAction::Stop,
            final(self)@.wf(),
            final(self)@ == after_disarm(old(self)@),
    {
        self.setting = itimerspec_t::zero();
        self.state = TimerState::Disarmed;
        self.token = self.token.wrapping_add(1);
        TimerAction::Stop
    }

    /// Records an expiration reported by the loop that carries `token`.
    /// A report from a cancelled loop, or on a disarmed timer, is ignored. A
    /// one-shot timer disarms after its expiration; a periodic one re-arms
    /// for its interval.
    pub fn on_expire(&mut self, token: u64) -> (r: TimerAction)
        requires
            old(self)@.wf(),
        ensures
            final(self)@.wf(),
            r == expire_action(old(self)@, token),
            final(self)@ == after_expire(old(self)@, token),
    {
        if token != self.token {
            return TimerAction::Stop;
        }
        match self.state {
            TimerState::Disarmed => TimerAction::Stop,
            TimerState::ArmedOneShot => {
                self.expirations = self.expirations.saturating_add(1);
                self.setting = itimerspec_t::zero();
                self.state = TimerState::Disarmed;
                TimerAction::Stop
            },
            TimerState::ArmedPeriodic => {
                self.expirations = self.expirations.saturating_add(1);
                TimerAction::Rearm { interval: self.setting.it_interval.as_duration() }
            },
        }
    }

    /// Takes the expirations so far and resets the count to zero. With none
    /// yet, a blocking timer gives `None` (the reader waits and reads again)
    /// and a non-blocking one fails with `WouldBlock`.
    pub fn read_expirations(&mut self) -> (r: Result<Option<u64>, Error>)
        requires
            old(self)@.wf(),
        ensures
            final(self)@.wf(),
            r == read_result(old(self)@),
            final(self)@ == if old(self)@.expirations > 0 {
                after_read(old(self)@)
            } else {
                old(self)@
            },
    {
        if self.expirations > 0 {
            let n = self.expirations;
            self.expirations = 0;
            Ok(Some(n))
        } else if self.nonblocking {
            Err(Error::WouldBlock)
        } else {
            Ok(None)
        }
    }

    /// The most recent setting, all zero while disarmed.
    pub fn current_spec(&self) -> (r: itimerspec_t)
        ensures
            r == self@.setting,
    {
        self.setting
    }

    pub fn state(&self) -> (r: TimerState)
        ensures
            r == self@.state,
    {
        self.state
    }

    /// Expirations recorded since the last read.
    pub fn expirations(&self) -> (r: u64)
        ensures
            r == self@.expirations,
    {
        self.expirations
    }
}

/// Once a timer is disarmed, no report of any loop records an expiration.
pub proof fn lemma_no_expiry_after_disarm(m: TimerModel, token: u64)
    ensures
        after_expire(after_disarm(m), token) == after_disarm(m),
        after_expire(after_disarm(m), token).expirations == m.expirations,
{
}

/// A one-shot timer is disarmed by its expiration, which it counts once;
/// later reports change nothing, and a read then takes that one expiration
/// and leaves none.
pub proof fn lemma_one_shot_expires_once(m: TimerModel, token: u64, later: u64)
    requires
        m.state == TimerState::ArmedOneShot,
        token == m.token,
        m.expirations == 0,
    ensures
        after_expire(m, token).state == TimerState::Disarmed,
        read_result(after_expire(m, token)) == Ok::<Option<u64>, Error>(Some(1)),
        after_expire(after_read(after_expire(m, token)), later) == after_read(
            after_expire(m, token),
        ),
        after_read(after_expire(m, token)).expirations == 0,
{
}

} // verus!
