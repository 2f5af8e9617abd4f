//! Statistics over the per-block elapsed-time samples.
//!
//! Throughput is carried in hundredths of a megabyte per second, computed
//! exactly in integers: a phase that moved `kb` kilobytes in `nanos`
//! nanoseconds ran at `kb / 1024` megabytes per `nanos / 1_000_000_000`
//! seconds, and `100 * (kb / 1024) / (nanos / 10^9)` equals
//! `kb * 97_656_250 / nanos` because `100 * 10^9 / 1024 == 97_656_250`
//! exactly. Throughput is undefined when no work was measured (an empty
//! sample sequence, or one whose sum is zero), and over a single block of
//! zero measured duration; both cases yield an explicit "no data" result
//! instead of a division.

use vstd::prelude::*;

verus! {

/// The sum of a sample sequence, in nanoseconds.
pub open spec fn seq_sum(s: Seq<u64>) -> int
    decreases s.len(),
{
    if s.len() == 0 {
        0
    } else {
        seq_sum(s.drop_last()) + s.last()
    }
}

/// The smallest sample of a non-empty sequence.
pub open spec fn seq_min(s: Seq<u64>) -> int
    recommends
        s.len() > 0,
    decreases s.len(),
{
    if s.len() == 0 {
        0
    } else if s.len() == 1 {
        s[0] as int
    } else {
        let m = seq_min(s.drop_last());
        if s.last() < m {
            s.last() as int
        } else {
            m
        }
    }
}

/// The largest sample of a non-empty sequence.
pub open spec fn seq_max(s: Seq<u64>) -> int
    recommends
        s.len() > 0,
    decreases s.len(),
{
    if s.len() == 0 {
        0
    } else if s.len() == 1 {
        s[0] as int
    } else {
        let m = seq_max(s.drop_last());
        if s.last() > m {
            s.last() as int
        } else {
            m
        }
    }
}

/// Throughput in hundredths of a megabyte per second: `kb` kilobytes
/// moved in `nanos` nanoseconds.
pub open spec fn centi_mbps(kb: int, nanos: int) -> int
    recommends
        nanos > 0,
{
    (kb * 97_656_250) / nanos
}

/// The average throughput is exactly the total data moved over the total
/// time: `kb * 97_656_250 / nanos` equals `(kb * 100 * 10^9) / (1024 * nanos)`,
/// which is one hundred times the megabytes per second.
pub proof fn lemma_avg_is_bytes_over_time(kb: int, nanos: int)
    requires
        kb >= 0,
        nanos > 0,
    ensures
        centi_mbps(kb, nanos) == (kb * 100 * 1_000_000_000) / (1024 * nanos),
{
    let a = kb * 97_656_250;
    assert(kb * 100 * 1_000_000_000 == (kb * 97_656_250) * 1024) by (nonlinear_arith);
    vstd::arithmetic::mul::lemma_mul_inequality(0, kb, 97_656_250);
    vstd::arithmetic::div_mod::lemma_div_denominator(a * 1024, 1024, nanos);
    vstd::arithmetic::div_mod::lemma_div_by_multiple(a, 1024);
    assert(1024 * nanos == nanos * 1024);
}

/// If a sequence sums to something positive, it is non-empty and its
/// largest sample is positive.
pub proof fn lemma_positive_sum_has_positive_max(s: Seq<u64>)
    requires
        seq_sum(s) > 0,
    ensures
        s.len() > 0,
        seq_max(s) > 0,
    decreases s.len(),
{
    if s.len() <= 1 {
    } else {
        if s.last() > 0 {
        } else {
            lemma_positive_sum_has_positive_max(s.drop_last());
        }
    }
}

/// The sum of the samples, computed without overflow.
pub fn sum_samples(samples: &Vec<u64>) -> (r: u128)
    ensures
        r as int == seq_sum(samples@),
{
    let mut total: u128 = 0;
    let mut j: usize = 0;
    while j < samples.len()
        invariant
            j <= samples@.len(),
            total as int == seq_sum(samples@.take(j as int)),
            total as int <= j as int * 0xffff_ffff_ffff_ffff,
        decreases samples@.len() - j,
    {
        proof {
            assert(samples@.take(j as int + 1).drop_last() =~= samples@.take(j as int));
            assert(samples@.take(j as int + 1).last() == samples@[j as int]);
            assert((j as int + 1) * 0xffff_ffff_ffff_ffff == j as int * 0xffff_ffff_ffff_ffff
                + 0xffff_ffff_ffff_ffff) by (nonlinear_arith);
            vstd::arithmetic::mul::lemma_mul_inequality(
                j as int + 1,
                0x1_0000_0000_0000_0000,
                0xffff_ffff_ffff_ffff,
            );
        }
        total = total + (samples[j] as u128);
        j = j + 1;
    }
    proof {
        assert(samples@.take(samples@.len() as int) =~= samples@);
    }
    total
}

/// The smallest sample.
pub fn min_sample(samples: &Vec<u64>) -> (r: u64)
    requires
        samples@.len() > 0,
    ensures
        r as int == seq_min(samples@),
{
    let mut m: u64 = samples[0];
    let mut j: usize = 1;
    proof {
        assert(samples@.take(1) =~= seq![samples@[0]]);
    }
    while j < samples.len()
        invariant
            1 <= j <= samples@.len(),
            m as int == seq_min(samples@.take(j as int)),
        decreases samples@.len() - j,
    {
        proof {
            assert(samples@.take(j as int + 1).drop_last() =~= samples@.take(j as int));
            assert(samples@.take(j as int + 1).last() == samples@[j as int]);
        }
        let x = samples[j];
        if x < m {
            m = x;
        }
        j = j + 1;
    }
    proof {
        assert(samples@.take(samples@.len() as int) =~= samples@);
    }
    m
}

/// The largest sample.
pub fn max_sample(samples: &Vec<u64>) -> (r: u64)
    requires
        samples@.len() > 0,
    ensures
        r as int == seq_max(samples@),
{
    let mut m: u64 = samples[0];
    let mut j: usize = 1;
    proof {
        assert(samples@.take(1) =~= seq![samples@[0]]);
    }
    while j < samples.len()
        invariant
            1 <= j <= samples@.len(),
            m as int == seq_max(samples@.take(j as int)),
        decreases samples@.len() - j,
    {
        proof {
            assert(samples@.take(j as int + 1).drop_last() =~= samples@.take(j as int));
            assert(samples@.take(j as int + 1).last() == samples@[j as int]);
        }
        let x = samples[j];
        if x > m {
            m = x;
        }
        j = j + 1;
    }
    proof {
        assert(samples@.take(samples@.len() as int) =~= samples@);
    }
    m
}

/// Aggregate statistics of one phase, in whole nanoseconds and hundredths
/// of a megabyte per second. The maximum instantaneous throughput comes
/// from the smallest sample and is undefined (`None`) when that sample is
/// zero; the minimum comes from the largest sample, which is positive
/// whenever the statistics exist at all.
pub struct PhaseStats {
    pub total_nanos: u128,
    pub avg_centi_mbps: u128,
    pub max_centi_mbps: Option<u128>,
    pub min_centi_mbps: u128,
}

/// The statistics a completed phase must show: `kb_total` kilobytes moved
/// in `seq_sum(samples)` nanoseconds, at `block_kb` kilobytes per block.
pub open spec fn spec_phase_stats(samples: Seq<u64>, kb_total: int, block_kb: int) -> PhaseStats {
    PhaseStats {
        total_nanos: seq_sum(samples) as u128,
        avg_centi_mbps: centi_mbps(kb_total, seq_sum(samples)) as u128,
        max_centi_mbps: if seq_min(samples) > 0 {
            Some(centi_mbps(block_kb, seq_min(samples)) as u128)
        } else {
            None
        },
        min_centi_mbps: centi_mbps(block_kb, seq_max(samples)) as u128,
    }
}

/// Aggregates one phase's samples: the total time, the average throughput
/// over `kb_total` kilobytes, and the extremal instantaneous throughputs
/// over `block_kb`-kilobyte blocks. Yields `None` exactly when no work
/// was measured: an empty sequence or a zero sum.
pub fn phase_stats(samples: &Vec<u64>, kb_total: u64, block_kb: u64) -> (r: Option<PhaseStats>)
    ensures
        r is Some <==> samples@.len() > 0 && seq_sum(samples@) > 0,
        r matches Some(st) ==> st == spec_phase_stats(samples@, kb_total as int, block_kb as int),
{
    if samples.len() == 0 {
        return None;
    }
    let total = sum_samples(samples);
    if total == 0 {
        return None;
    }
    let mn = min_sample(samples);
    let mx = max_sample(samples);
    proof {
        lemma_positive_sum_has_positive_max(samples@);
        vstd::arithmetic::mul::lemma_mul_inequality(
            kb_total as int,
            0xffff_ffff_ffff_ffff,
            97_656_250,
        );
        vstd::arithmetic::mul::lemma_mul_inequality(
            block_kb as int,
            0xffff_ffff_ffff_ffff,
            97_656_250,
        );
    }
    let avg = (kb_total as u128 * 97_656_250) / total;
    let max_inst = if mn == 0 {
        None
    } else {
        Some((block_kb as u128 * 97_656_250) / (mn as u128))
    };
    let min_inst = (block_kb as u128 * 97_656_250) / (mx as u128);
    Some(
        PhaseStats {
            total_nanos: total,
            avg_centi_mbps: avg,
            max_centi_mbps: max_inst,
            min_centi_mbps: min_inst,
        },
    )
}

} // verus!
