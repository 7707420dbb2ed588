//! Errors of the time subsystem and their errno codes.
use vstd::prelude::*;

verus! {

pub const EINTR: i32 = 4;

pub const EAGAIN: i32 = 11;

pub const EINVAL: i32 = 22;

pub const ETIMEDOUT: i32 = 110;

#[derive(Clone, Copy, Debug, PartialEq, Eq, Structural)]
pub enum Error {
    /// A malformed time value, an unsupported clock or bad flags.
    InvalidArgument,
    /// A wait was ended by a signal.
    Interrupted,
    /// A wait ran to its deadline.
    TimedOut,
    /// A non-blocking read found nothing to return.
    WouldBlock,
    /// The host failed the boundary call or answered with a malformed value.
    HostTrustViolation,
    /// The host reported this errno for the call.
    HostErrno(i32),
}

impl Error {
    /// The errno that a system call reports for this error; a host that broke
    /// trust is reported as `EINVAL`.
    pub fn errno(&self) -> (r: i32)
        ensures
            r == match *self {
                Error::InvalidArgument => EINVAL,
                Error::Interrupted => EINTR,
                Error::TimedOut => ETIMEDOUT,
                Error::WouldBlock => EAGAIN,
                Error::HostTrustViolation => EINVAL,
                Error::HostErrno(e) => e,
            },
    {
        match *self {
            Error::InvalidArgument => EINVAL,
            Error::Interrupted => EINTR,
            Error::TimedOut => ETIMEDOUT,
            Error::WouldBlock => EAGAIN,
            Error::HostTrustViolation => EINVAL,
            Error::HostErrno(e) => e,
        }
    }
}

} // verus!
