//! Keeps track of the time spent since a poll started, against an optional timeout.

use vstd::prelude::*;
use std::time::Instant;
use crate::time::Duration;

verus! {

#[verifier::external_type_specification]
#[verifier::external_body]
pub struct ExInstant(std::time::Instant);

/// Calls `std::time::Instant::now`. The reading comes from the clock, so nothing
/// is stated of it.
#[verifier::external_body]
fn clock_now() -> Instant {
    Instant::now()
}

/// Calls `std::time::Instant::elapsed` on `start` and hands the span back as whole
/// seconds and the nanoseconds past them. The span comes from the clock; std
/// documents the nanosecond part (`subsec_nanos`) as less than one billion, and that
/// is all that is stated.
#[verifier::external_body]
fn clock_elapsed_since(start: &Instant) -> (parts: (u64, u32))
    ensures
        parts.1 < 1_000_000_000,
{
    let spent = start.elapsed();
    (spent.as_secs(), spent.subsec_nanos())
}

/// The optional timeout as a number of nanoseconds.
pub open spec fn span_of(timeout: Option<Duration>) -> Option<nat> {
    match timeout {
        Some(d) => Some(d@),
        None => None,
    }
}

/// Whether a poll with the given timeout has run out after `spent` nanoseconds:
/// never without a timeout, otherwise once `spent` reaches it.
pub open spec fn expired(timeout: Option<nat>, spent: nat) -> bool {
    match timeout {
        Some(t) => spent >= t,
        None => false,
    }
}

/// What is left of the given timeout after `spent` nanoseconds: the timeout minus
/// the time spent, and no less than nothing; no timeout leaves nothing to count.
pub open spec fn remaining(timeout: Option<nat>, spent: nat) -> Option<nat> {
    match timeout {
        Some(t) => Some(if spent >= t { 0 } else { (t - spent) as nat }),
        None => None,
    }
}

/// Keeps track of the elapsed time since the moment the polling started.
pub struct PollTimer {
    timeout: Option<Duration>,
    start: Instant,
}

impl PollTimer {
    /// The timeout the timer was made with.
    pub closed spec fn timeout(&self) -> Option<Duration> {
        self.timeout
    }

    /// Constructs a new `PollTimer` with the given optional `Duration`; the clock
    /// starts now.
    pub fn new(timeout: Option<Duration>) -> (timer: PollTimer)
        ensures
            timer.timeout() == timeout,
    {
        PollTimer { timeout, start: clock_now() }
    }

    /// The time spent since the timer started, as read from the clock.
    pub fn time_spent(&self) -> Duration {
        let parts = clock_elapsed_since(&self.start);
        Duration::new(parts.0, parts.1)
    }

    /// Whether the timeout has run out once `spent` has passed since the start.
    pub fn elapsed_after(&self, spent: Duration) -> (out: bool)
        ensures
            out == expired(span_of(self.timeout()), spent@),
            self.timeout() is None ==> !out,
            self.timeout() matches Some(t) ==> (out <==> spent@ >= t@),
    {
        match &self.timeout {
            Some(timeout) => spent.is_at_least(timeout),
            None => false,
        }
    }

    /// What is left of the timeout once `spent` has passed since the start.
    pub fn left_over_after(&self, spent: Duration) -> (left: Option<Duration>)
        ensures
            span_of(left) == remaining(span_of(self.timeout()), spent@),
            self.timeout() is None ==> left is None,
            self.timeout() matches Some(t) ==> (left matches Some(l) && (spent@ >= t@ ==> l@ == 0)
                && (spent@ < t@ ==> l@ + spent@ == t@)),
    {
        match &self.timeout {
            Some(timeout) => {
                if spent.is_at_least(timeout) {
                    Some(Duration::from_secs(0))
                } else {
                    Some(timeout.minus(&spent))
                }
            },
            None => None,
        }
    }

    /// Returns whether the timeout has elapsed.
    ///
    /// It always returns `false` if the initial timeout was set to `None`.
    pub fn elapsed(&mut self) -> (out: bool)
        ensures
            *final(self) == *old(self),
            old(self).timeout() is None ==> !out,
            exists|spent: nat| out == #[trigger] expired(span_of(old(self).timeout()), spent),
    {
        let spent = self.time_spent();
        let out = self.elapsed_after(spent);
        assert(out == expired(span_of(self.timeout()), spent@));
        out
    }

    /// Returns the timeout leftover (initial timeout duration - elapsed duration).
    pub fn left_over(&self) -> (left: Option<Duration>)
        ensures
            left is Some <==> self.timeout() is Some,
            left matches Some(d) ==> d@ <= self.timeout().unwrap()@,
            exists|spent: nat| span_of(left) == #[trigger] remaining(span_of(self.timeout()), spent),
    {
        let spent = self.time_spent();
        let left = self.left_over_after(spent);
        assert(span_of(left) == remaining(span_of(self.timeout()), spent@));
        left
    }
}

/// Once the timeout has run out it stays run out: a timer that has expired after
/// `earlier` nanoseconds has expired after any later time as well.
pub proof fn expiry_is_permanent(timeout: Option<nat>, earlier: nat, later: nat)
    requires
        earlier <= later,
        expired(timeout, earlier),
    ensures
        expired(timeout, later),
{
}

/// A timer with a timeout has expired exactly when nothing is left of its timeout.
pub proof fn expired_iff_nothing_left(timeout: Option<nat>, spent: nat)
    requires
        timeout is Some,
    ensures
        expired(timeout, spent) <==> remaining(timeout, spent) == Some(0nat),
{
}

/// Until the timeout runs out, what is left of it and the time spent add up to the
/// whole timeout.
pub proof fn left_over_and_spent_make_the_timeout(timeout: Option<nat>, spent: nat)
    requires
        timeout is Some,
        !expired(timeout, spent),
    ensures
        remaining(timeout, spent).unwrap() + spent == timeout.unwrap(),
{
}

} // verus!
