//! Progress reporting policy.
//!
//! The engines' callers may render a liveness indicator; these functions
//! decide what it shows and when. They are pure bookkeeping, kept apart
//! from the timed region so that rendering cannot corrupt a measurement.

use vstd::prelude::*;

verus! {

/// The completion percentage after finishing block `i` of `blocks_count`.
pub fn progress_percent(i: usize, blocks_count: usize) -> (r: u64)
    requires
        blocks_count > 0,
        i < blocks_count,
    ensures
        r as int == ((i + 1) * 100) / blocks_count as int,
        r <= 100,
{
    let done = (i as u128 + 1) * 100;
    proof {
        vstd::arithmetic::mul::lemma_mul_inequality(
            i as int + 1,
            blocks_count as int,
            100,
        );
        vstd::arithmetic::div_mod::lemma_div_is_ordered(
            done as int,
            blocks_count as int * 100,
            blocks_count as int,
        );
        vstd::arithmetic::div_mod::lemma_div_by_multiple(100, blocks_count as int);
    }
    (done / (blocks_count as u128)) as u64
}

/// The read-phase throttling stride: progress is shown every
/// `write_block_kb / read_block_kb` iterations, and at least every
/// iteration when that ratio would be zero or undefined.
pub open spec fn read_progress_stride(write_block_kb: int, read_block_kb: int) -> int {
    if read_block_kb > 0 && write_block_kb / read_block_kb > 0 {
        write_block_kb / read_block_kb
    } else {
        1
    }
}

/// Whether the read phase shows progress at iteration `i`: true on every
/// multiple of the throttling stride.
pub fn should_show_read_progress(i: usize, write_block_kb: usize, read_block_kb: usize) -> (r:
    bool)
    ensures
        r == (i as int % read_progress_stride(write_block_kb as int, read_block_kb as int) == 0),
{
    let stride: usize = if read_block_kb > 0 {
        let s = write_block_kb / read_block_kb;
        if s > 0 {
            s
        } else {
            1
        }
    } else {
        1
    };
    i % stride == 0
}

} // verus!
