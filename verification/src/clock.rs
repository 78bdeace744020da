use vstd::prelude::*;

verus! {

/// Nanoseconds in one second.
pub const NANOS_PER_SECOND: u64 = 1_000_000_000;

/// The time from the clock mark `since` to the clock mark `now`, in
/// nanoseconds. Clock marks are readings of one monotonic clock, counted in
/// nanoseconds from an origin of the host's choosing; a mark that lies before
/// `since` counts as no time at all.
pub open spec fn elapsed_between(since: u64, now: u64) -> nat {
    if now >= since {
        (now - since) as nat
    } else {
        0
    }
}

/// The time from `since` to `now`, in nanoseconds.
pub fn elapsed(since: u64, now: u64) -> (nanos: u64)
    ensures
        nanos == elapsed_between(since, now),
{
    now.saturating_sub(since)
}

} // verus!
