//! Arithmetic on readings of the monotonic millisecond clock.

use vstd::prelude::*;

verus! {

/// Time from `from_ms` to `to_ms`; a clock that went backwards counts as
/// no time at all.
pub open spec fn span(from_ms: u64, to_ms: u64) -> int {
    if to_ms >= from_ms {
        to_ms - from_ms
    } else {
        0
    }
}

/// The reading `delay` milliseconds after `now_ms`; a time beyond the
/// clock's range is its last value.
pub open spec fn later(now_ms: u64, delay: nat) -> u64 {
    if now_ms + delay > u64::MAX {
        u64::MAX
    } else {
        (now_ms + delay) as u64
    }
}

/// Time from `from_ms` to `to_ms`.
pub fn elapsed_between(from_ms: u64, to_ms: u64) -> (elapsed: u64)
    ensures
        elapsed == span(from_ms, to_ms),
{
    if to_ms >= from_ms {
        to_ms - from_ms
    } else {
        0
    }
}

/// The reading `delay_ms` after `now_ms`.
pub fn after_delay(now_ms: u64, delay_ms: u64) -> (at: u64)
    ensures
        at == later(now_ms, delay_ms as nat),
        at >= now_ms,
{
    if delay_ms > u64::MAX - now_ms {
        u64::MAX
    } else {
        now_ms + delay_ms
    }
}

} // verus!
