//! Block-content and offset generation for the two benchmark phases.
//!
//! Write-phase blocks are filled with random bytes, so that compression
//! or deduplication in the storage stack cannot skew the timings.
//! Read-phase buffers carry a fixed pattern: their content is discarded,
//! only their size matters. Read offsets are drawn uniformly from the
//! inclusive range `[0, blocks_count * block_size]`.

use vstd::prelude::*;

verus! {

/// Relies on rand's `Rng::sample_iter` over the `Standard` distribution:
/// the iterator yields one uniformly random byte per step and never ends,
/// so taking `block_size` of them collects exactly `block_size` bytes.
#[verifier::external_body]
fn random_bytes(block_size: usize) -> (r: Vec<u8>)
    ensures
        r@.len() == block_size,
{
    rand::Rng::sample_iter::<u8, _>(rand::thread_rng(), rand::distributions::Standard)
        .take(block_size)
        .collect()
}

/// Relies on rand's `Rng::gen_range`: the sample lies in the given range,
/// and the inclusive range `0..=bound` is never empty, so the call does
/// not panic.
#[verifier::external_body]
fn random_offset(bound: usize) -> (r: usize)
    ensures
        r <= bound,
{
    rand::Rng::gen_range(&mut rand::thread_rng(), 0..=bound)
}

/// A fresh buffer of `block_size` random bytes for one write call.
pub fn generate_write_block(block_size: usize) -> (r: Vec<u8>)
    ensures
        r@.len() == block_size,
{
    random_bytes(block_size)
}

/// A destination buffer for one read call: `block_size` bytes of a fixed
/// pattern. The content is never inspected, but the buffer must already
/// have the full length before the read so the read has a destination of
/// the correct size.
pub fn generate_read_buffer(block_size: usize) -> (r: Vec<u8>)
    ensures
        r@.len() == block_size,
        forall|i: int| 0 <= i < block_size ==> r@[i] == (i % 256) as u8,
{
    let mut buff: Vec<u8> = Vec::new();
    let mut i: usize = 0;
    while i < block_size
        invariant
            i <= block_size,
            buff@.len() == i,
            forall|j: int| 0 <= j < i ==> buff@[j] == (j % 256) as u8,
        decreases block_size - i,
    {
        buff.push((i % 256) as u8);
        i = i + 1;
    }
    buff
}

/// The read-phase offsets: `blocks_count` byte offsets, each drawn
/// independently and uniformly from `[0, blocks_count * block_size]`
/// (inclusive upper bound, which can reach one full block past the
/// written extent; a read started there returns a short or empty read).
pub fn generate_offsets(blocks_count: usize, block_size: usize) -> (r: Vec<usize>)
    requires
        blocks_count * block_size <= usize::MAX,
    ensures
        r@.len() == blocks_count,
        forall|i: int| 0 <= i < blocks_count ==> r@[i] <= blocks_count * block_size,
{
    let bound = blocks_count * block_size;
    let mut offsets: Vec<usize> = Vec::new();
    let mut i: usize = 0;
    while i < blocks_count
        invariant
            i <= blocks_count,
            offsets@.len() == i,
            bound == blocks_count * block_size,
            forall|j: int| 0 <= j < i ==> offsets@[j] <= bound,
        decreases blocks_count - i,
    {
        offsets.push(random_offset(bound));
        i = i + 1;
    }
    offsets
}

} // verus!
