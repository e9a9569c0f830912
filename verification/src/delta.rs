//! Deltas between two readings of a cumulative counter, and rates over an interval.

use vstd::prelude::*;

verus! {

/// The activity between two readings of a cumulative counter.
///
/// A reading below the previous one means the counter was reinitialised in between,
/// so everything it now holds was counted since.
pub open spec fn delta_spec(previous: u64, current: u64) -> u64 {
    if current >= previous {
        (current - previous) as u64
    } else {
        current
    }
}

/// Computes the activity between two readings of a cumulative counter.
pub fn delta(previous: u64, current: u64) -> (d: u64)
    ensures
        current >= previous ==> d == current - previous,
        current < previous ==> d == current,
        d == delta_spec(previous, current),
{
    if current >= previous {
        current - previous
    } else {
        current
    }
}

/// Nanoseconds in one second.
pub const NANOS_PER_SEC: u64 = 1_000_000_000;

/// The rate per second of `amount` events within `interval_ns` nanoseconds, rounded
/// down and held at `u64::MAX` where it would not fit.
///
/// Over an interval of no length nothing has a rate: no events read as zero, any
/// events as the largest rate there is.
pub open spec fn rate_per_sec_spec(amount: u64, interval_ns: u64) -> u64 {
    if interval_ns == 0 {
        if amount == 0 {
            0
        } else {
            u64::MAX
        }
    } else if amount * NANOS_PER_SEC / (interval_ns as int) > u64::MAX {
        u64::MAX
    } else {
        (amount * NANOS_PER_SEC / (interval_ns as int)) as u64
    }
}

/// Computes the rate per second of `amount` events within `interval_ns` nanoseconds.
pub fn rate_per_sec(amount: u64, interval_ns: u64) -> (rate: u64)
    ensures
        rate == rate_per_sec_spec(amount, interval_ns),
        amount == 0 ==> rate == 0,
{
    if interval_ns == 0 {
        return if amount == 0 {
            0
        } else {
            u64::MAX
        };
    }
    assert(amount * NANOS_PER_SEC <= 0xffff_ffff_ffff_ffff * 1_000_000_000) by (nonlinear_arith)
        requires
            amount <= 0xffff_ffff_ffff_ffff,
            NANOS_PER_SEC == 1_000_000_000,
    ;
    let scaled: u128 = (amount as u128) * (NANOS_PER_SEC as u128);
    let per_sec: u128 = scaled / (interval_ns as u128);
    if per_sec > u64::MAX as u128 {
        u64::MAX
    } else {
        per_sec as u64
    }
}

/// Nothing counted gives a rate of zero over any interval.
pub proof fn lemma_rate_of_nothing(interval_ns: u64)
    ensures
        rate_per_sec_spec(0, interval_ns) == 0,
{
}

} // verus!
