//! The snowflake clock: creation time of a platform-issued identifier.

use vstd::prelude::*;

verus! {

/// Milliseconds between the Unix epoch and the first second of 2015, the
/// instant that snowflake timestamps count from.
pub const SNOWFLAKE_EPOCH_MS: u64 = 1_420_070_400_000;

/// Number of identifiers that share one millisecond: the low 22 bits of a
/// snowflake hold worker, process and sequence numbers.
pub const SNOWFLAKES_PER_MS: u64 = 4_194_304;

/// Creation time of `snowflake`, in milliseconds since the Unix epoch.
pub open spec fn snowflake_time(snowflake: u64) -> int {
    snowflake as int / SNOWFLAKES_PER_MS as int + SNOWFLAKE_EPOCH_MS as int
}

/// Maps a snowflake to the time at which it was issued, in milliseconds
/// since the Unix epoch.
pub fn snowflake_to_time(snowflake: u64) -> (time: u64)
    ensures
        time == snowflake_time(snowflake),
        time == (snowflake >> 22) + SNOWFLAKE_EPOCH_MS,
{
    assert(snowflake >> 22 == snowflake / 4_194_304) by (bit_vector);
    assert(snowflake >> 22 <= 0x3ff_ffff_ffff) by (bit_vector);
    (snowflake >> 22) + 1_420_070_400_000
}

/// Snowflakes are issued in increasing order, so the clock never runs
/// backwards: a larger identifier is never older than a smaller one.
pub proof fn lemma_snowflake_time_monotonic(earlier: u64, later: u64)
    requires
        earlier <= later,
    ensures
        snowflake_time(earlier) <= snowflake_time(later),
{
    assert(earlier as int / 4_194_304 <= later as int / 4_194_304) by (nonlinear_arith)
        requires
            earlier as int <= later as int,
    ;
}

/// Two identifiers issued in different milliseconds are ordered by their
/// clock values exactly as they are ordered as numbers.
pub proof fn lemma_snowflake_time_orders(a: u64, b: u64)
    requires
        snowflake_time(a) < snowflake_time(b),
    ensures
        a < b,
{
    if a >= b {
        lemma_snowflake_time_monotonic(b, a);
    }
}

} // verus!
