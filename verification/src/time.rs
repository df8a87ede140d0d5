//! Spans of time, and the clock the kernel reads them from.

use vstd::prelude::*;

verus! {

/// Nanoseconds in one millisecond.
pub const NANOS_PER_MILLI: u128 = 1_000_000;

/// Nanoseconds in one second.
pub const NANOS_PER_SEC: u128 = 1_000_000_000;

/// A span of time, counted in whole nanoseconds.
#[derive(Clone, Copy, Debug, PartialEq, Eq, Structural)]
pub struct Duration {
    nanos: u128,
}

impl View for Duration {
    type V = nat;

    closed spec fn view(&self) -> nat {
        self.nanos as nat
    }
}

impl Duration {
    /// The span of the given number of nanoseconds.
    pub fn from_nanos(nanos: u128) -> (d: Duration)
        ensures
            d@ == nanos,
    {
        Duration { nanos }
    }

    /// The span of the given number of milliseconds.
    pub fn from_millis(millis: u64) -> (d: Duration)
        ensures
            d@ == millis * NANOS_PER_MILLI,
    {
        let wide: u128 = millis as u128;
        assert(wide * NANOS_PER_MILLI <= u128::MAX) by (nonlinear_arith)
            requires
                wide <= u64::MAX,
                NANOS_PER_MILLI == 1_000_000,
        ;
        Duration { nanos: wide * NANOS_PER_MILLI }
    }

    /// The span of the given number of seconds.
    pub fn from_secs(secs: u64) -> (d: Duration)
        ensures
            d@ == secs * NANOS_PER_SEC,
    {
        let wide: u128 = secs as u128;
        assert(wide * NANOS_PER_SEC <= u128::MAX) by (nonlinear_arith)
            requires
                wide <= u64::MAX,
                NANOS_PER_SEC == 1_000_000_000,
        ;
        Duration { nanos: wide * NANOS_PER_SEC }
    }

    /// The empty span.
    pub fn zero() -> (d: Duration)
        ensures
            d@ == 0,
    {
        Duration { nanos: 0 }
    }

    /// The number of nanoseconds in this span.
    pub fn as_nanos(&self) -> (n: u128)
        ensures
            n == self@,
    {
        self.nanos
    }

    /// Whether this span is empty.
    pub fn is_zero(&self) -> (b: bool)
        ensures
            b == (self@ == 0),
    {
        self.nanos == 0
    }

    /// This span shortened by `earlier`, or the empty span where `earlier` is the longer one.
    pub fn saturating_sub(&self, earlier: Duration) -> (d: Duration)
        ensures
            d@ == elapsed_between(earlier@, self@),
    {
        if self.nanos >= earlier.nanos {
            Duration { nanos: self.nanos - earlier.nanos }
        } else {
            Duration { nanos: 0 }
        }
    }
}

/// The time that has passed from `start` to `now` on a clock that may have been set back:
/// never negative.
pub open spec fn elapsed_between(start: nat, now: nat) -> nat {
    if now >= start {
        (now - start) as nat
    } else {
        0
    }
}

/// Whether, on a clock that showed `start` at the beginning and shows `now`, the span
/// `budget` has been used up. A clock that was set back has used up nothing.
pub fn time_is_up(start: Duration, now: Duration, budget: Duration) -> (up: bool)
    ensures
        up == (elapsed_between(start@, now@) >= budget@),
{
    now.saturating_sub(start).as_nanos() >= budget.as_nanos()
}

/// The count that a counter has gone up from `start` to `now`; nothing where the counter
/// has gone down.
pub fn counted_between(start: u64, now: u64) -> (elapsed: u64)
    ensures
        elapsed == elapsed_between(start as nat, now as nat),
{
    if now >= start {
        now - start
    } else {
        0
    }
}

/// The time since the Unix epoch, as `libafl_bolts::current_time` reports it, in whole
/// nanoseconds. Nothing is claimed of the value: it is the system clock's, which may
/// stand still or be set back between two calls. The outside function fails only on a
/// machine whose clock is set before the epoch.
#[verifier::external_body]
pub(crate) fn current_time() -> Duration {
    Duration { nanos: libafl_bolts::current_time().as_nanos() }
}

/// The processor's count of cycles, or of whatever else `libafl_bolts::cpu::read_time_counter`
/// counts on this machine, for measurements. Nothing is claimed of the value: the
/// counter is the machine's, and may wrap around between two calls.
#[verifier::external_body]
pub(crate) fn read_time_counter() -> u64 {
    libafl_bolts::cpu::read_time_counter()
}

} // verus!
