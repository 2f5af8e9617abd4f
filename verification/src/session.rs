//! The benchmark session and the two phase engines.
//!
//! A `Benchmark` holds the resolved configuration and one ordered sequence
//! of elapsed-time samples per phase, one entry per completed block
//! operation, in completion order. Each phase clears its own samples when
//! it starts, so a session can be re-run without being reconstructed.
//!
//! The engines own the loop, the block and offset generation and the
//! sample bookkeeping; the single block operation itself (write plus
//! durability barrier, or seek plus read, together with its wall-clock
//! timing) is injected by the caller as a closure that returns the
//! elapsed whole nanoseconds, or an `Error` that aborts the phase.

use vstd::prelude::*;

use crate::error::Error;
use crate::gen::{generate_offsets, generate_write_block};

verus! {

/// A benchmark session: the resolved configuration plus the per-block
/// elapsed-time samples (whole nanoseconds) of the two phases.
pub struct Benchmark {
    pub file: String,
    pub write_mb: usize,
    pub write_block_kb: usize,
    pub read_block_kb: usize,
    pub write_results: Vec<u64>,
    pub read_results: Vec<u64>,
    pub bytes_written: usize,
}


/// The number of whole blocks of `block_kb` kilobytes that fit the
/// requested `size_mb` megabytes: a partial trailing block is not written.
pub fn blocks_count(size_mb: usize, block_kb: usize) -> (r: usize)
    requires
        block_kb > 0,
        size_mb * 1024 <= usize::MAX,
    ensures
        r == (size_mb * 1024) / block_kb as int,
{
    (size_mb * 1024) / block_kb
}

/// One elapsed-time sample from two monotonic clock readings in
/// nanoseconds, clamped to zero if the clock stepped backwards, so a
/// sample is never negative.
pub fn elapsed_nanos(start: u64, end: u64) -> (r: u64)
    ensures
        r as int == if end >= start {
            end - start
        } else {
            0
        },
{
    if end >= start {
        end - start
    } else {
        0
    }
}

/// Holds when `t` is a value the injected block operation can return
/// for a successful write-phase block.
pub open spec fn write_sample_from<F: Fn(usize, Vec<u8>) -> Result<u64, Error>>(
    io: F,
    t: u64,
) -> bool {
    exists|args: (usize, Vec<u8>)| call_ensures(io, args, Ok(t))
}

/// Holds when `t` is a value the injected block operation can return for
/// a successful read-phase block whose offset lay within `[0, bound]`.
pub open spec fn read_sample_from<F: Fn(usize, usize) -> Result<u64, Error>>(
    io: F,
    bound: int,
    t: u64,
) -> bool {
    exists|args: (usize, usize)| args.1 <= bound && call_ensures(io, args, Ok(t))
}

impl Benchmark {
    /// A fresh session for the given target file and sizes; no samples yet.
    pub fn new(file: String, size: usize, write_block_kb: usize, read_block_kb: usize) -> (r:
        Result<Benchmark, Error>)
        ensures
            r is Ok,
            r matches Ok(b) ==> {
                &&& b.file@ == file@
                &&& b.write_mb == size
                &&& b.write_block_kb == write_block_kb
                &&& b.read_block_kb == read_block_kb
                &&& b.write_results@ == Seq::<u64>::empty()
                &&& b.read_results@ == Seq::<u64>::empty()
                &&& b.bytes_written == 0
            },
    {
        Ok(
            Benchmark {
                file,
                write_mb: size,
                write_block_kb,
                read_block_kb,
                write_results: Vec::new(),
                read_results: Vec::new(),
                bytes_written: 0,
            },
        )
    }

    /// The write phase. Clears the write samples, then hands `blocks_count`
    /// fresh random blocks of `block_size` bytes, in order, to `io` (which
    /// writes one block to the file, forces it to stable storage, and
    /// returns the elapsed nanoseconds of that pair), recording one sample
    /// per completed block. A failed block operation aborts the phase and
    /// is returned unchanged.
    pub fn write_test<F: Fn(usize, Vec<u8>) -> Result<u64, Error>>(
        &mut self,
        block_size: usize,
        blocks_count: usize,
        io: F,
    ) -> (r: Result<(), Error>)
        requires
            blocks_count * block_size <= usize::MAX,
            forall|args: (usize, Vec<u8>)| #[trigger] call_requires(io, args),
        ensures
            final(self).file@ == old(self).file@,
            final(self).write_mb == old(self).write_mb,
            final(self).write_block_kb == old(self).write_block_kb,
            final(self).read_block_kb == old(self).read_block_kb,
            final(self).read_results@ == old(self).read_results@,
            final(self).write_results@.len() <= blocks_count,
            final(self).bytes_written == final(self).write_results@.len() * block_size,
            forall|k: int|
                0 <= k < final(self).write_results@.len() ==> write_sample_from(
                    io,
                    #[trigger] final(self).write_results@[k],
                ),
            r is Ok ==> final(self).write_results@.len() == blocks_count,
            r is Ok ==> final(self).bytes_written == blocks_count * block_size,
            r matches Err(e) ==> exists|args: (usize, Vec<u8>)|
                call_ensures(io, args, Err::<u64, Error>(e)),
            (forall|args: (usize, Vec<u8>), out: Result<u64, Error>|
                #[trigger] call_ensures(io, args, out) ==> out is Ok) ==> r is Ok,
    {
        self.write_results.clear();
        self.bytes_written = 0;
        let mut i: usize = 0;
        #[verifier::loop_isolation(false)]
        while i < blocks_count
            invariant
                i <= blocks_count,
                blocks_count * block_size <= usize::MAX,
                forall|args: (usize, Vec<u8>)| #[trigger] call_requires(io, args),
                self.file@ == old(self).file@,
                self.write_mb == old(self).write_mb,
                self.write_block_kb == old(self).write_block_kb,
                self.read_block_kb == old(self).read_block_kb,
                self.read_results@ == old(self).read_results@,
                self.write_results@.len() == i,
                self.bytes_written == i * block_size,
                forall|k: int|
                    0 <= k < i ==> write_sample_from(io, #[trigger] self.write_results@[k]),
            decreases blocks_count - i,
        {
            let buff = generate_write_block(block_size);
            let ghost gbuff = buff;
            let ghost pre = self.write_results@;
            let sample = match io(i, buff) {
                Ok(t) => t,
                Err(e) => {
                    return Err(e);
                },
            };
            self.write_results.push(sample);
            proof {
                assert forall|k: int|
                    0 <= k < self.write_results@.len() implies write_sample_from(
                    io,
                    #[trigger] self.write_results@[k],
                ) by {
                    if k < pre.len() {
                        assert(self.write_results@[k] == pre[k]);
                        assert(write_sample_from(io, pre[k]));
                    } else {
                        assert(self.write_results@[k] == sample);
                        assert(call_ensures(io, (i, gbuff), Ok(sample)));
                        assert(write_sample_from(io, sample));
                    }
                }
                vstd::arithmetic::mul::lemma_mul_inequality(
                    i as int + 1,
                    blocks_count as int,
                    block_size as int,
                );
                assert((i as int + 1) * block_size as int
                    == i as int * block_size as int + block_size as int) by (nonlinear_arith);
            }
            self.bytes_written = self.bytes_written + block_size;
            i = i + 1;
        }
        Ok(())
    }

    /// The read phase. Clears the read samples, then draws `blocks_count`
    /// offsets uniformly from `[0, blocks_count * block_size]` and hands
    /// each, in order, to `io` (which seeks there, performs one read
    /// attempt of up to `block_size` bytes — a short or empty read is not
    /// an error — and returns the elapsed nanoseconds of that pair),
    /// recording one sample per completed block. A failed block operation
    /// aborts the phase and is returned unchanged.
    pub fn read_test<F: Fn(usize, usize) -> Result<u64, Error>>(
        &mut self,
        block_size: usize,
        blocks_count: usize,
        io: F,
    ) -> (r: Result<(), Error>)
        requires
            blocks_count * block_size <= usize::MAX,
            forall|args: (usize, usize)| #[trigger] call_requires(io, args),
        ensures
            final(self).file@ == old(self).file@,
            final(self).write_mb == old(self).write_mb,
            final(self).write_block_kb == old(self).write_block_kb,
            final(self).read_block_kb == old(self).read_block_kb,
            final(self).write_results@ == old(self).write_results@,
            final(self).bytes_written == old(self).bytes_written,
            final(self).read_results@.len() <= blocks_count,
            forall|k: int|
                0 <= k < final(self).read_results@.len() ==> read_sample_from(
                    io,
                    blocks_count * block_size,
                    #[trigger] final(self).read_results@[k],
                ),
            r is Ok ==> final(self).read_results@.len() == blocks_count,
            r matches Err(e) ==> exists|args: (usize, usize)|
                call_ensures(io, args, Err::<u64, Error>(e)),
            (forall|args: (usize, usize), out: Result<u64, Error>|
                #[trigger] call_ensures(io, args, out) ==> out is Ok) ==> r is Ok,
    {
        let offsets = generate_offsets(blocks_count, block_size);
        self.read_results.clear();
        let mut i: usize = 0;
        #[verifier::loop_isolation(false)]
        while i < blocks_count
            invariant
                i <= blocks_count,
                offsets@.len() == blocks_count,
                forall|j: int| 0 <= j < blocks_count ==> offsets@[j] <= blocks_count * block_size,
                forall|args: (usize, usize)| #[trigger] call_requires(io, args),
                self.file@ == old(self).file@,
                self.write_mb == old(self).write_mb,
                self.write_block_kb == old(self).write_block_kb,
                self.read_block_kb == old(self).read_block_kb,
                self.write_results@ == old(self).write_results@,
                self.bytes_written == old(self).bytes_written,
                self.read_results@.len() == i,
                forall|k: int|
                    0 <= k < i ==> read_sample_from(
                        io,
                        blocks_count * block_size,
                        #[trigger] self.read_results@[k],
                    ),
            decreases blocks_count - i,
        {
            let offset = offsets[i];
            let ghost pre = self.read_results@;
            let sample = match io(i, offset) {
                Ok(t) => t,
                Err(e) => {
                    return Err(e);
                },
            };
            self.read_results.push(sample);
            proof {
                assert forall|k: int|
                    0 <= k < self.read_results@.len() implies read_sample_from(
                    io,
                    blocks_count * block_size,
                    #[trigger] self.read_results@[k],
                ) by {
                    if k < pre.len() {
                        assert(self.read_results@[k] == pre[k]);
                        assert(read_sample_from(io, blocks_count * block_size, pre[k]));
                    } else {
                        assert(self.read_results@[k] == sample);
                        assert((i, offset).1 <= blocks_count * block_size);
                        assert(call_ensures(io, (i, offset), Ok(sample)));
                        assert(read_sample_from(io, blocks_count * block_size, sample));
                    }
                }
            }
            i = i + 1;
        }
        Ok(())
    }
}

} // verus!
