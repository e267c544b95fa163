//! Conversion of DHT metrics into the figures the terminal UI displays.

use vstd::prelude::*;

verus! {

/// Converts metrics into display figures.
pub struct StatsBridge;

/// Estimated peers in bucket `i` (of 256) when `routing_size` peers fill
/// `buckets_filled` buckets: closer buckets, with lower `i`, hold more, up
/// to twice the average; unfilled buckets hold none.
pub open spec fn bucket_estimate(routing_size: u64, buckets_filled: u64, i: int) -> int {
    if buckets_filled == 0 || i >= buckets_filled {
        0
    } else {
        let avg = routing_size / buckets_filled;
        let e = avg * (512 - i) / 256;
        if e > usize::MAX { usize::MAX as int } else { e }
    }
}

impl StatsBridge {
    /// Estimated distribution of `routing_size` peers over the 256 buckets,
    /// of which `buckets_filled` hold peers (see [`bucket_estimate`]).
    pub fn estimate_k_buckets(routing_size: u64, buckets_filled: u64) -> (r: Vec<usize>)
        ensures
            r@.len() == 256,
            forall|i: int| 0 <= i < 256 ==> #[trigger] r@[i] == bucket_estimate(routing_size, buckets_filled, i),
    {
        let mut buckets: Vec<usize> = Vec::new();
        let mut i: usize = 0;
        while i < 256
            invariant
                0 <= i <= 256,
                buckets@.len() == i,
                forall|j: int| 0 <= j < i ==> #[trigger] buckets@[j] == bucket_estimate(routing_size, buckets_filled, j),
            decreases 256 - i,
        {
            if buckets_filled == 0 || (i as u64) >= buckets_filled {
                buckets.push(0);
            } else {
                let avg = (routing_size / buckets_filled) as u128;
                let w = (512 - i) as u128;
                assert(avg * w <= u64::MAX as u128 * 512) by (nonlinear_arith)
                    requires avg <= u64::MAX, w <= 512;
                let e = avg * w / 256;
                let v: usize = if e > usize::MAX as u128 { usize::MAX } else { e as usize };
                buckets.push(v);
            }
            i = i + 1;
        }
        buckets
    }
}

} // verus!
