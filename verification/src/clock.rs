//! Times and durations in milliseconds.

use vstd::prelude::*;

verus! {

/// Milliseconds of the system clock since the Unix epoch
/// (`std::time::SystemTime::now`), zero for a clock before it. Nothing is
/// promised of the reading.
#[verifier::external_body]
fn system_clock_millis() -> u128 {
    std::time::SystemTime::now().duration_since(std::time::UNIX_EPOCH).map_or(
        0,
        |since| since.as_millis(),
    )
}

/// A number of milliseconds held to what 64 bits can hold.
pub open spec fn held_millis(millis: u128) -> u64 {
    if millis <= u64::MAX {
        millis as u64
    } else {
        u64::MAX
    }
}

/// A duration in milliseconds, held to what 64 bits can hold.
pub fn duration_millis_u64(millis: u128) -> (held: u64)
    ensures
        held == held_millis(millis),
{
    if millis <= 0xffff_ffff_ffff_ffff {
        millis as u64
    } else {
        0xffff_ffff_ffff_ffff
    }
}

/// Milliseconds since the Unix epoch.
pub fn unix_time_millis() -> u64 {
    duration_millis_u64(system_clock_millis())
}

/// Whole seconds of a number of milliseconds.
pub fn whole_seconds(millis: u64) -> (seconds: u64)
    ensures
        seconds == millis / 1_000,
{
    millis / 1_000
}

/// Whole seconds since the Unix epoch.
pub fn unix_time_secs() -> (seconds: u64)
    ensures
        seconds <= u64::MAX / 1_000,
{
    whole_seconds(unix_time_millis())
}

/// A size as a 64-bit number.
pub fn usize_to_u64(value: usize) -> (wide: u64)
    ensures
        wide == value,
{
    value as u64
}

/// The time from `earlier` to `later`, zero where the order is reversed.
pub open spec fn since(later: u64, earlier: u64) -> u64 {
    if later >= earlier {
        (later - earlier) as u64
    } else {
        0
    }
}

/// The sum of two durations, held to what 64 bits can hold.
pub open spec fn held_sum(a: u64, b: u64) -> u64 {
    if a + b <= u64::MAX {
        (a + b) as u64
    } else {
        u64::MAX
    }
}

/// The smaller of two numbers.
pub open spec fn smaller(a: u64, b: u64) -> u64 {
    if a <= b {
        a
    } else {
        b
    }
}

/// The smaller of two numbers.
pub fn min_u64(a: u64, b: u64) -> (least: u64)
    ensures
        least == smaller(a, b),
{
    if a <= b {
        a
    } else {
        b
    }
}

/// A time limit that runs from a starting time.
#[derive(Clone, Copy, Debug, PartialEq, Eq, Structural)]
pub struct ShieldedRequestDeadline {
    pub started_at_ms: u64,
    pub max_duration_ms: u64,
}

impl ShieldedRequestDeadline {
    /// What is left of the time at `now`; none once it has been overrun.
    pub open spec fn left(self, now_ms: u64) -> Option<u64> {
        let spent = since(now_ms, self.started_at_ms);
        if spent <= self.max_duration_ms {
            Some((self.max_duration_ms - spent) as u64)
        } else {
            None
        }
    }

    /// Whether no time is left at `now`.
    pub open spec fn over(self, now_ms: u64) -> bool {
        since(now_ms, self.started_at_ms) >= self.max_duration_ms
    }

    /// A time limit that runs from `now`.
    pub fn new(now_ms: u64, max_duration_ms: u64) -> (deadline: ShieldedRequestDeadline)
        ensures
            deadline.left(now_ms) == Some(max_duration_ms),
            deadline.started_at_ms == now_ms,
            deadline.max_duration_ms == max_duration_ms,
    {
        ShieldedRequestDeadline { started_at_ms: now_ms, max_duration_ms }
    }

    /// What is left of the time at `now`; none once it has been overrun.
    pub fn remaining(self, now_ms: u64) -> (left: Option<u64>)
        ensures
            left == self.left(now_ms),
    {
        self.max_duration_ms.checked_sub(now_ms.saturating_sub(self.started_at_ms))
    }

    /// Whether no time is left at `now`.
    pub fn is_exhausted(self, now_ms: u64) -> (over: bool)
        ensures
            over == self.over(now_ms),
    {
        match self.remaining(now_ms) {
            Some(left) => left == 0,
            None => true,
        }
    }
}

/// A time limit that is over stays over.
pub proof fn deadlines_stay_over(deadline: ShieldedRequestDeadline, now_ms: u64, later_ms: u64)
    requires
        now_ms <= later_ms,
        deadline.over(now_ms),
    ensures
        deadline.over(later_ms),
{
}

/// What is left of a time limit and what has been spent make up the whole, until it is
/// over; then nothing is left.
pub proof fn time_left_and_spent_make_up_the_limit(deadline: ShieldedRequestDeadline, now_ms: u64)
    ensures
        now_ms < deadline.started_at_ms ==> deadline.left(now_ms) == Some(deadline.max_duration_ms),
        now_ms >= deadline.started_at_ms ==> match deadline.left(now_ms) {
            Some(left) => left + (now_ms - deadline.started_at_ms) == deadline.max_duration_ms,
            None => now_ms - deadline.started_at_ms > deadline.max_duration_ms,
        },
        deadline.over(now_ms) <==> !(deadline.left(now_ms) matches Some(left) && left > 0),
{
}

/// Sums and differences of times are those of numbers, as far as 64 bits hold them.
pub proof fn times_are_numbers(a: u64, b: u64)
    ensures
        a + b <= 0xffff_ffff_ffff_ffff ==> held_sum(a, b) == a + b,
        a + b > 0xffff_ffff_ffff_ffff ==> held_sum(a, b) == 0xffff_ffff_ffff_ffffu64,
        a >= b ==> since(a, b) + b == a,
        a <= b ==> since(a, b) == 0,
        smaller(a, b) <= a,
        smaller(a, b) <= b,
        smaller(a, b) == a || smaller(a, b) == b,
        held_millis(a as u128) == a,
{
}

} // verus!
