//! Spans of time with nanosecond precision, as `std::time::Duration` holds them.

use vstd::prelude::*;

verus! {

/// Nanoseconds in a second.
pub const NANOS_PER_SEC: u128 = 1_000_000_000;

/// The longest span a `Duration` can hold, in nanoseconds.
pub open spec fn max_nanos() -> nat {
    (u64::MAX as nat) * 1_000_000_000 + 999_999_999
}

/// A non-negative span of time, counted in nanoseconds.
#[derive(Debug, Clone, Copy, PartialEq, Eq)]
pub struct TimeSpan {
    nanos: u128,
}

impl View for TimeSpan {
    type V = nat;

    closed spec fn view(&self) -> nat {
        self.nanos as nat
    }
}

impl TimeSpan {
    /// Every span fits in a `Duration`.
    #[verifier::type_invariant]
    closed spec fn fits(self) -> bool {
        self.nanos <= max_nanos()
    }

    /// No time at all.
    pub fn zero() -> (t: TimeSpan)
        ensures
            t@ == 0,
    {
        TimeSpan { nanos: 0 }
    }

    /// A whole number of seconds.
    pub fn from_secs(secs: u64) -> (t: TimeSpan)
        ensures
            t@ == secs * 1_000_000_000,
    {
        TimeSpan { nanos: secs as u128 * NANOS_PER_SEC }
    }

    /// Seconds and nanoseconds, where the nanoseconds may exceed a second (they carry
    /// into the seconds, as `Duration::new` does).
    pub fn new(secs: u64, nanos: u32) -> (t: TimeSpan)
        requires
            secs * 1_000_000_000 + nanos <= max_nanos(),
        ensures
            t@ == secs * 1_000_000_000 + nanos,
    {
        TimeSpan { nanos: secs as u128 * NANOS_PER_SEC + nanos as u128 }
    }

    /// A span of `nanos` nanoseconds, if a `Duration` can hold it.
    pub fn from_nanos(nanos: u128) -> (t: Option<TimeSpan>)
        ensures
            nanos <= max_nanos() ==> (t matches Some(s) && s@ == nanos),
            nanos > max_nanos() ==> t is None,
    {
        if nanos <= u64::MAX as u128 * NANOS_PER_SEC + 999_999_999 {
            Some(TimeSpan { nanos })
        } else {
            None
        }
    }

    /// The span in nanoseconds.
    pub fn as_nanos(&self) -> (n: u128)
        ensures
            n == self@,
            n <= max_nanos(),
    {
        proof {
            use_type_invariant(self);
        }
        self.nanos
    }

    /// The whole seconds of the span.
    pub fn as_secs(&self) -> (s: u64)
        ensures
            s == self@ / 1_000_000_000,
    {
        proof {
            use_type_invariant(self);
        }
        (self.nanos / NANOS_PER_SEC) as u64
    }

    /// The nanoseconds past the whole seconds.
    pub fn subsec_nanos(&self) -> (n: u32)
        ensures
            n == self@ % 1_000_000_000,
    {
        (self.nanos % NANOS_PER_SEC) as u32
    }

    /// The span in whole microseconds.
    pub fn as_micros(&self) -> (m: u128)
        ensures
            m == self@ / 1000,
    {
        self.nanos / 1000
    }

    /// Whether this span is shorter than `other`.
    pub fn lt(&self, other: &TimeSpan) -> (b: bool)
        ensures
            b == (self@ < other@),
    {
        self.nanos < other.nanos
    }

    /// Whether this span is no longer than `other`.
    pub fn le(&self, other: &TimeSpan) -> (b: bool)
        ensures
            b == (self@ <= other@),
    {
        self.nanos <= other.nanos
    }

    /// `self - other`, or `None` when `other` is longer.
    pub fn checked_sub(&self, other: &TimeSpan) -> (d: Option<TimeSpan>)
        ensures
            other@ <= self@ ==> (d matches Some(t) && t@ == self@ - other@),
            other@ > self@ ==> d is None,
    {
        proof {
            use_type_invariant(self);
        }
        if other.nanos <= self.nanos {
            Some(TimeSpan { nanos: self.nanos - other.nanos })
        } else {
            None
        }
    }
}

} // verus!
