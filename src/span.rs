//! A non-negative span of time in whole seconds and nanoseconds.
use vstd::arithmetic::div_mod::lemma_fundamental_div_mod_converse;
use vstd::prelude::*;

verus! {

/// Nanoseconds in one second.
pub const NANOS_PER_SEC: u32 = 1_000_000_000;

/// A span of time: `secs` whole seconds plus `nanos` nanoseconds, with
/// `nanos` always below one second.
#[derive(Clone, Copy, Debug, PartialEq, Eq, Structural)]
pub struct TimeSpan {
    secs: u64,
    nanos: u32,
}

/// The span of `secs` seconds and `nanos` nanoseconds.
pub closed spec fn span_of(secs: u64, nanos: u32) -> TimeSpan {
    TimeSpan { secs, nanos }
}

pub broadcast proof fn lemma_span_of(secs: u64, nanos: u32)
    ensures
        (#[trigger] span_of(secs, nanos)).spec_secs() == secs,
        span_of(secs, nanos).spec_nanos() == nanos,
{
}

/// A span is determined by its seconds and nanoseconds.
pub broadcast proof fn lemma_span_parts(d: TimeSpan)
    ensures
        span_of(#[trigger] d.spec_secs(), d.spec_nanos()) == d,
{
}

/// The span of `n` nanoseconds.
pub open spec fn span_from_total(n: nat) -> TimeSpan {
    span_of((n / 1_000_000_000) as u64, (n % 1_000_000_000) as u32)
}

/// `a - b`, or the empty span where `b` is the longer.
pub open spec fn span_sub(a: TimeSpan, b: TimeSpan) -> TimeSpan {
    if a.total() > b.total() {
        span_from_total((a.total() - b.total()) as nat)
    } else {
        span_from_total(0)
    }
}

/// A valid span is the span of its own length.
pub proof fn lemma_span_from_own_total(d: TimeSpan)
    requires
        d.wf(),
    ensures
        span_from_total(d.total() as nat) == d,
{
    lemma_fundamental_div_mod_converse(
        d.total(),
        1_000_000_000,
        d.spec_secs() as int,
        d.spec_nanos() as int,
    );
}

/// The difference of two spans is a valid span no longer than the first.
pub proof fn lemma_span_sub(a: TimeSpan, b: TimeSpan)
    requires
        a.wf(),
        b.wf(),
    ensures
        span_sub(a, b).wf(),
        span_sub(a, b).total() == if a.total() > b.total() {
            a.total() - b.total()
        } else {
            0
        },
        span_sub(a, b).spec_secs() <= a.spec_secs(),
{
    let n: int = if a.total() > b.total() {
        a.total() - b.total()
    } else {
        0
    };
    let q = n / 1_000_000_000;
    let r = n % 1_000_000_000;
    assert(n == q * 1_000_000_000 + r && 0 <= r < 1_000_000_000);
    assert(q <= a.spec_secs()) by {
        if q > a.spec_secs() {
            assert(q * 1_000_000_000 >= (a.spec_secs() + 1) * 1_000_000_000);
        }
    }
}

impl TimeSpan {
    /// Whole seconds of the span.
    pub closed spec fn spec_secs(&self) -> u64 {
        self.secs
    }

    /// Nanoseconds past the whole seconds.
    pub closed spec fn spec_nanos(&self) -> u32 {
        self.nanos
    }

    /// The span in nanoseconds.
    pub open spec fn total(&self) -> int {
        self.spec_secs() * 1_000_000_000 + self.spec_nanos()
    }

    pub open spec fn wf(&self) -> bool {
        self.spec_nanos() < 1_000_000_000
    }

    pub fn new(secs: u64, nanos: u32) -> (r: TimeSpan)
        requires
            nanos < NANOS_PER_SEC,
        ensures
            r.wf(),
            r == span_of(secs, nanos),
            r.spec_secs() == secs,
            r.spec_nanos() == nanos,
    {
        TimeSpan { secs, nanos }
    }

    pub fn zero() -> (r: TimeSpan)
        ensures
            r.wf(),
            r.total() == 0,
            r.spec_secs() == 0,
            r.spec_nanos() == 0,
    {
        TimeSpan { secs: 0, nanos: 0 }
    }

    pub fn as_secs(&self) -> (r: u64)
        ensures
            r == self.spec_secs(),
    {
        self.secs
    }

    pub fn subsec_nanos(&self) -> (r: u32)
        ensures
            r == self.spec_nanos(),
    {
        self.nanos
    }

    /// Microseconds past the whole seconds, extra precision discarded.
    pub fn subsec_micros(&self) -> (r: u32)
        ensures
            r == self.spec_nanos() / 1000,
    {
        self.nanos / 1000
    }

    pub fn is_zero(&self) -> (r: bool)
        ensures
            r == (self.total() == 0),
    {
        self.secs == 0 && self.nanos == 0
    }

    /// Whether `self` is a strictly longer span than `other`.
    pub fn longer_than(&self, other: &TimeSpan) -> (r: bool)
        requires
            self.wf(),
            other.wf(),
        ensures
            r == (self.total() > other.total()),
    {
        self.secs > other.secs || (self.secs == other.secs && self.nanos > other.nanos)
    }

    /// `self - other`, or zero where `other` is the longer span.
    pub fn saturating_sub(&self, other: &TimeSpan) -> (r: TimeSpan)
        requires
            self.wf(),
            other.wf(),
        ensures
            r.wf(),
            r == span_sub(*self, *other),
            r.total() == if self.total() > other.total() {
                self.total() - other.total()
            } else {
                0
            },
    {
        proof {
            lemma_span_sub(*self, *other);
        }
        if !self.longer_than(other) {
            let z = TimeSpan::zero();
            proof {
                lemma_span_from_own_total(z);
            }
            return z;
        }
        let r = if self.nanos >= other.nanos {
            TimeSpan { secs: self.secs - other.secs, nanos: self.nanos - other.nanos }
        } else {
            TimeSpan {
                secs: self.secs - other.secs - 1,
                nanos: NANOS_PER_SEC - other.nanos + self.nanos,
            }
        };
        proof {
            lemma_span_from_own_total(r);
        }
        r
    }
}

} // verus!
