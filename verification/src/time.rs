//! Spans of time with nanosecond precision.
//!
//! Positions and track lengths are carried as `Duration` values whose
//! mathematical model (`d@`) is a number of nanoseconds. The range is the
//! one of `std::time::Duration`: at most `u64::MAX` whole seconds plus
//! 999_999_999 nanoseconds, so that every value converts to and from the
//! standard type without loss (`new`, `as_secs`, `subsec_nanos`).

use vstd::prelude::*;

verus! {

/// Nanoseconds in one second.
pub const NANOS_PER_SEC: u128 = 1_000_000_000;

/// Nanoseconds in one millisecond.
pub const NANOS_PER_MILLI: u128 = 1_000_000;

/// Largest number of nanoseconds a span can hold.
pub const MAX_NANOS: u128 = 18_446_744_073_709_551_615_999_999_999;

#[derive(Debug, Clone, Copy, PartialEq, Eq, Hash, PartialOrd, Ord, Structural)]
pub struct Duration {
    nanos: u128,
}

impl View for Duration {
    type V = nat;

    closed spec fn view(&self) -> nat {
        self.nanos as nat
    }
}

impl Duration {
    #[verifier::type_invariant]
    closed spec fn in_range(self) -> bool {
        self.nanos <= MAX_NANOS
    }

    /// Two spans are the same value exactly when they hold the same
    /// number of nanoseconds.
    pub proof fn lemma_eq_iff_view_eq(a: Duration, b: Duration)
        ensures
            a == b <==> a@ == b@,
    {
    }

    /// The empty span.
    pub closed spec fn zero_spec() -> Duration {
        Duration { nanos: 0 }
    }

    /// The empty span has no nanoseconds.
    pub proof fn lemma_zero_spec()
        ensures
            Duration::zero_spec()@ == 0,
    {
    }

    /// The empty span.
    pub fn zero() -> (d: Duration)
        ensures
            d@ == 0,
            d == Duration::zero_spec(),
    {
        Duration { nanos: 0 }
    }

    /// A span of `secs` whole seconds plus `nanos` nanoseconds; nanoseconds
    /// beyond one second carry into the seconds.
    pub fn new(secs: u64, nanos: u32) -> (d: Duration)
        requires
            secs * NANOS_PER_SEC + nanos <= MAX_NANOS,
        ensures
            d@ == secs * NANOS_PER_SEC + nanos,
    {
        Duration { nanos: (secs as u128) * NANOS_PER_SEC + (nanos as u128) }
    }

    /// A span of `secs` whole seconds.
    pub fn from_secs(secs: u64) -> (d: Duration)
        ensures
            d@ == secs * NANOS_PER_SEC,
    {
        Duration { nanos: (secs as u128) * NANOS_PER_SEC }
    }

    /// A span of `millis` milliseconds.
    pub fn from_millis(millis: u64) -> (d: Duration)
        ensures
            d@ == millis * NANOS_PER_MILLI,
    {
        Duration { nanos: (millis as u128) * NANOS_PER_MILLI }
    }

    /// Whole milliseconds in the span, rounded down.
    pub fn as_millis(&self) -> (m: u128)
        ensures
            m == self@ / (NANOS_PER_MILLI as nat),
    {
        self.nanos / NANOS_PER_MILLI
    }

    /// Whole seconds in the span, rounded down.
    pub fn as_secs(&self) -> (s: u64)
        ensures
            s == self@ / (NANOS_PER_SEC as nat),
    {
        proof {
            use_type_invariant(self);
        }
        (self.nanos / NANOS_PER_SEC) as u64
    }

    /// Nanoseconds beyond the whole seconds.
    pub fn subsec_nanos(&self) -> (n: u32)
        ensures
            n == self@ % (NANOS_PER_SEC as nat),
    {
        (self.nanos % NANOS_PER_SEC) as u32
    }

    /// All nanoseconds in the span.
    pub fn as_nanos(&self) -> (n: u128)
        ensures
            n == self@,
            n <= MAX_NANOS,
    {
        proof {
            use_type_invariant(self);
        }
        self.nanos
    }

    /// The sum of two spans, or `None` where it leaves the range.
    pub fn checked_add(self, other: Duration) -> (r: Option<Duration>)
        ensures
            self@ + other@ <= MAX_NANOS ==> r == Some(Duration::sum_spec(self, other)),
            self@ + other@ > MAX_NANOS ==> r is None,
            r matches Some(d) ==> d@ == self@ + other@,
    {
        proof {
            use_type_invariant(&self);
            use_type_invariant(&other);
        }
        if self.nanos <= MAX_NANOS - other.nanos {
            Some(Duration { nanos: self.nanos + other.nanos })
        } else {
            None
        }
    }

    /// The sum of two spans, which must stay within the range.
    pub fn add(self, other: Duration) -> (d: Duration)
        requires
            self@ + other@ <= MAX_NANOS,
        ensures
            d == Duration::sum_spec(self, other),
            d@ == self@ + other@,
    {
        Duration { nanos: self.nanos + other.nanos }
    }

    /// The span holding `a@ + b@` nanoseconds.
    pub closed spec fn sum_spec(a: Duration, b: Duration) -> Duration {
        Duration { nanos: (a.nanos + b.nanos) as u128 }
    }

    /// The model of a sum is the sum of the models, within the range.
    pub proof fn lemma_sum_spec(a: Duration, b: Duration)
        requires
            a@ + b@ <= MAX_NANOS,
        ensures
            Duration::sum_spec(a, b)@ == a@ + b@,
    {
    }
}

} // verus!
