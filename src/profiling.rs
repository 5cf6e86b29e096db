//! When a throughput sample is due.
use vstd::prelude::*;

verus! {

/// Cycles between two looks at the clock.
pub const CYCLE_INTERVAL: u64 = 1_000_000;

/// Whether the host should look at the clock at this cycle count.
pub fn is_sample_point(cycles: u64) -> (r: bool)
    ensures
        r == (cycles % CYCLE_INTERVAL == 0),
{
    cycles % CYCLE_INTERVAL == 0
}

/// Cycles run since the last sample; a counter that wrapped counts on from zero.
pub fn cycles_since(last: u64, now: u64) -> (r: u64)
    ensures
        r == now.wrapping_sub(last),
{
    now.wrapping_sub(last)
}

} // verus!
