//! A span of time, held as whole nanoseconds.

use vstd::prelude::*;

verus! {

/// Nanoseconds in one second.
pub const NANOS_PER_SEC: u128 = 1_000_000_000;

/// Nanoseconds in one millisecond.
pub const NANOS_PER_MILLI: u128 = 1_000_000;

/// The longest span a `Duration` holds, in nanoseconds: `u64::MAX` whole seconds
/// and one nanosecond short of another second.
pub open spec fn max_nanos() -> nat {
    (u64::MAX as nat) * 1_000_000_000 + 999_999_999
}

/// A span of time with nanosecond precision, with the same range as
/// `std::time::Duration`. Its view is the number of nanoseconds it spans.
#[derive(Clone, Copy, Debug, PartialEq, Eq, Structural, PartialOrd, Ord, Hash)]
pub struct Duration {
    nanos: u128,
}

impl Duration {
    #[verifier::type_invariant]
    spec fn fits(self) -> bool {
        self.nanos <= max_nanos()
    }
}

impl View for Duration {
    type V = nat;

    closed spec fn view(&self) -> nat {
        self.nanos as nat
    }
}

impl Duration {
    /// The empty span.
    pub fn zero() -> (d: Duration)
        ensures
            d@ == 0,
    {
        Duration { nanos: 0 }
    }

    /// A span of `secs` whole seconds.
    pub fn from_secs(secs: u64) -> (d: Duration)
        ensures
            d@ == secs * 1_000_000_000,
    {
        assert(secs * 1_000_000_000 <= (u64::MAX as nat) * 1_000_000_000) by (nonlinear_arith)
            requires
                secs <= u64::MAX,
        ;
        Duration { nanos: secs as u128 * NANOS_PER_SEC }
    }

    /// A span of `millis` milliseconds.
    pub fn from_millis(millis: u64) -> (d: Duration)
        ensures
            d@ == millis * 1_000_000,
    {
        assert(millis * 1_000_000 <= (u64::MAX as nat) * 1_000_000) by (nonlinear_arith)
            requires
                millis <= u64::MAX,
        ;
        Duration { nanos: millis as u128 * NANOS_PER_MILLI }
    }

    /// A span of `secs` seconds and `nanos` nanoseconds. Nanoseconds beyond a
    /// second carry over into the seconds, which must not overflow.
    pub fn new(secs: u64, nanos: u32) -> (d: Duration)
        requires
            secs + nanos / 1_000_000_000 <= u64::MAX,
        ensures
            d@ == secs * 1_000_000_000 + nanos,
    {
        let total: u128 = secs as u128 * NANOS_PER_SEC + nanos as u128;
        assert(total <= max_nanos()) by (nonlinear_arith)
            requires
                total == secs * 1_000_000_000 + nanos,
                secs + nanos / 1_000_000_000 <= u64::MAX,
                nanos <= u32::MAX,
        {
            let q = nanos / 1_000_000_000;
            let r = nanos % 1_000_000_000;
            assert(nanos == q * 1_000_000_000 + r);
            assert(secs + q <= u64::MAX);
            assert(total == (secs + q) * 1_000_000_000 + r);
        }
        Duration { nanos: total }
    }

    /// The number of whole seconds in the span.
    pub fn as_secs(&self) -> (s: u64)
        ensures
            s == self@ / 1_000_000_000,
    {
        proof {
            use_type_invariant(self);
        }
        assert(self.nanos / NANOS_PER_SEC <= u64::MAX) by (nonlinear_arith)
            requires
                self.nanos <= max_nanos(),
        ;
        (self.nanos / NANOS_PER_SEC) as u64
    }

    /// The nanoseconds of the span past its whole seconds.
    pub fn subsec_nanos(&self) -> (n: u32)
        ensures
            n == self@ % 1_000_000_000,
            n < 1_000_000_000,
    {
        (self.nanos % NANOS_PER_SEC) as u32
    }

    /// Whether this span is at least as long as `other`.
    pub fn is_at_least(&self, other: &Duration) -> (b: bool)
        ensures
            b == (self@ >= other@),
    {
        self.nanos >= other.nanos
    }

    /// The span by which this one exceeds `other`, which must not be longer.
    pub fn minus(&self, other: &Duration) -> (d: Duration)
        requires
            other@ <= self@,
        ensures
            d@ == self@ - other@,
    {
        proof {
            use_type_invariant(self);
        }
        Duration { nanos: self.nanos - other.nanos }
    }
}

/// The whole seconds of a span (what `as_secs` returns) and the nanoseconds past
/// them (what `subsec_nanos` returns) add back up to the span, and the nanoseconds
/// carry nothing over into the seconds. With the contracts of those two methods and
/// of `Duration::new`, a span rebuilt from its two parts spans the same time.
pub proof fn parts_rebuild_the_span(d: Duration)
    ensures
        (d@ / 1_000_000_000) * 1_000_000_000 + d@ % 1_000_000_000 == d@,
        (d@ % 1_000_000_000) / 1_000_000_000 == 0,
{
    let total = d@;
    assert((total / 1_000_000_000) * 1_000_000_000 + total % 1_000_000_000 == total)
        by (nonlinear_arith);
}

} // verus!
