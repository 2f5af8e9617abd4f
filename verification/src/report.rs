//! The human-readable report.
//!
//! Every digit of the report is pinned by the contract: the report string
//! is specified, character for character, as a function of the session's
//! sample sequences and configuration. Durations are shown in seconds
//! with four decimal places, throughput in megabytes per second with two;
//! an undefined maximum throughput (a zero-duration fastest block) is
//! shown as a sentinel instead of being divided by.

use vstd::prelude::*;
use vstd::string::StringExecFns;

use crate::session::Benchmark;
use crate::stats::{centi_mbps, phase_stats, seq_max, seq_min, seq_sum, spec_phase_stats,
    PhaseStats};

verus! {

/// The character of one decimal digit.
pub open spec fn digit_char(d: int) -> char
    recommends
        0 <= d < 10,
{
    if d == 0 {
        '0'
    } else if d == 1 {
        '1'
    } else if d == 2 {
        '2'
    } else if d == 3 {
        '3'
    } else if d == 4 {
        '4'
    } else if d == 5 {
        '5'
    } else if d == 6 {
        '6'
    } else if d == 7 {
        '7'
    } else if d == 8 {
        '8'
    } else {
        '9'
    }
}

/// The decimal digits of `n`, most significant first.
pub open spec fn dec_chars(n: int) -> Seq<char>
    recommends
        n >= 0,
    decreases n,
{
    if n < 10 {
        seq![digit_char(n)]
    } else {
        dec_chars(n / 10) + seq![digit_char(n % 10)]
    }
}

/// Two decimal digits, zero-padded.
pub open spec fn pad2_chars(v: int) -> Seq<char>
    recommends
        0 <= v < 100,
{
    seq![digit_char(v / 10), digit_char(v % 10)]
}

/// Four decimal digits, zero-padded.
pub open spec fn pad4_chars(v: int) -> Seq<char>
    recommends
        0 <= v < 10000,
{
    seq![
        digit_char(v / 1000),
        digit_char((v / 100) % 10),
        digit_char((v / 10) % 10),
        digit_char(v % 10),
    ]
}

/// `nanos` nanoseconds as seconds with four decimal places.
pub open spec fn secs_chars(nanos: int) -> Seq<char>
    recommends
        nanos >= 0,
{
    dec_chars(nanos / 1_000_000_000) + seq!['.'] + pad4_chars((nanos % 1_000_000_000) / 100_000)
}

/// A throughput in hundredths of MB/s as MB/s with two decimal places.
pub open spec fn centi_chars(v: int) -> Seq<char>
    recommends
        v >= 0,
{
    dec_chars(v / 100) + seq!['.'] + pad2_chars(v % 100)
}

/// An optional throughput: the sentinel when it is undefined.
pub open spec fn opt_centi_chars(o: Option<u128>) -> Seq<char> {
    match o {
        Some(v) => centi_chars(v as int),
        None => "n/a"@,
    }
}

/// The whole report, character for character.
pub open spec fn report_chars(
    write_mb: int,
    read_blocks: int,
    read_block_kb: int,
    w: PhaseStats,
    r: PhaseStats,
) -> Seq<char> {
    "\n\nWritten "@ + dec_chars(write_mb) + " MB in "@ + secs_chars(w.total_nanos as int)
        + " s\nWrite speed is "@ + centi_chars(w.avg_centi_mbps as int) + " MB/s\n  max: "@
        + opt_centi_chars(w.max_centi_mbps) + ", min: "@ + centi_chars(w.min_centi_mbps as int)
        + "\n\nRead "@ + dec_chars(read_blocks) + " x "@ + dec_chars(read_block_kb)
        + " KB blocks in "@ + secs_chars(r.total_nanos as int) + " s\nRead speed is "@
        + centi_chars(r.avg_centi_mbps as int) + " MB/s\n  max: "@ + opt_centi_chars(
        r.max_centi_mbps,
    ) + ", min: "@ + centi_chars(r.min_centi_mbps as int) + "\n"@
}

/// Appends one decimal digit.
fn append_digit(out: &mut String, d: u64)
    requires
        d < 10,
    ensures
        final(out)@ == old(out)@ + seq![digit_char(d as int)],
{
    if d == 0 {
        out.append("0");
        proof {
            reveal_strlit("0");
            assert("0"@ =~= seq![digit_char(d as int)]);
        }
    } else if d == 1 {
        out.append("1");
        proof {
            reveal_strlit("1");
            assert("1"@ =~= seq![digit_char(d as int)]);
        }
    } else if d == 2 {
        out.append("2");
        proof {
            reveal_strlit("2");
            assert("2"@ =~= seq![digit_char(d as int)]);
        }
    } else if d == 3 {
        out.append("3");
        proof {
            reveal_strlit("3");
            assert("3"@ =~= seq![digit_char(d as int)]);
        }
    } else if d == 4 {
        out.append("4");
        proof {
            reveal_strlit("4");
            assert("4"@ =~= seq![digit_char(d as int)]);
        }
    } else if d == 5 {
        out.append("5");
        proof {
            reveal_strlit("5");
            assert("5"@ =~= seq![digit_char(d as int)]);
        }
    } else if d == 6 {
        out.append("6");
        proof {
            reveal_strlit("6");
            assert("6"@ =~= seq![digit_char(d as int)]);
        }
    } else if d == 7 {
        out.append("7");
        proof {
            reveal_strlit("7");
            assert("7"@ =~= seq![digit_char(d as int)]);
        }
    } else if d == 8 {
        out.append("8");
        proof {
            reveal_strlit("8");
            assert("8"@ =~= seq![digit_char(d as int)]);
        }
    } else {
        out.append("9");
        proof {
            reveal_strlit("9");
            assert("9"@ =~= seq![digit_char(d as int)]);
        }
    }
}

/// Appends the decimal digits of `n`.
fn append_dec(out: &mut String, n: u128)
    ensures
        final(out)@ == old(out)@ + dec_chars(n as int),
    decreases n,
{
    if n < 10 {
        append_digit(out, n as u64);
    } else {
        append_dec(out, n / 10);
        append_digit(out, (n % 10) as u64);
        proof {
            assert(out@ =~= old(out)@ + dec_chars(n as int));
        }
    }
}

/// Appends two zero-padded decimal digits.
fn append_pad2(out: &mut String, v: u64)
    requires
        v < 100,
    ensures
        final(out)@ == old(out)@ + pad2_chars(v as int),
{
    append_digit(out, v / 10);
    append_digit(out, v % 10);
    proof {
        assert(out@ =~= old(out)@ + pad2_chars(v as int));
    }
}

/// Appends four zero-padded decimal digits.
fn append_pad4(out: &mut String, v: u64)
    requires
        v < 10000,
    ensures
        final(out)@ == old(out)@ + pad4_chars(v as int),
{
    append_digit(out, v / 1000);
    append_digit(out, (v / 100) % 10);
    append_digit(out, (v / 10) % 10);
    append_digit(out, v % 10);
    proof {
        assert(out@ =~= old(out)@ + pad4_chars(v as int));
    }
}

/// Appends `nanos` nanoseconds as seconds with four decimal places.
fn append_secs(out: &mut String, nanos: u128)
    ensures
        final(out)@ == old(out)@ + secs_chars(nanos as int),
{
    append_dec(out, nanos / 1_000_000_000);
    out.append(".");
    append_pad4(out, ((nanos % 1_000_000_000) / 100_000) as u64);
    proof {
        reveal_strlit(".");
        assert("."@ =~= seq!['.']);
        assert(out@ =~= old(out)@ + secs_chars(nanos as int));
    }
}

/// Appends a throughput in hundredths of MB/s with two decimal places.
fn append_centi(out: &mut String, v: u128)
    ensures
        final(out)@ == old(out)@ + centi_chars(v as int),
{
    append_dec(out, v / 100);
    out.append(".");
    append_pad2(out, (v % 100) as u64);
    proof {
        reveal_strlit(".");
        assert("."@ =~= seq!['.']);
        assert(out@ =~= old(out)@ + centi_chars(v as int));
    }
}

/// Appends an optional throughput, or the sentinel when it is undefined.
fn append_opt_centi(out: &mut String, o: &Option<u128>)
    ensures
        final(out)@ == old(out)@ + opt_centi_chars(*o),
{
    match o {
        Some(v) => {
            append_centi(out, *v);
        },
        None => {
            out.append("n/a");
        },
    }
}

impl Benchmark {
    /// The report of a completed run: the data written, the total time,
    /// the average and extremal throughput of each phase. Yields `None`
    /// exactly when either phase has no measured work (no samples, or a
    /// zero sample sum), instead of dividing by zero. The caller keeps
    /// the kilobyte totals within `u64` (the `requires`), which any
    /// configuration a real machine can hold satisfies.
    pub fn print_result(&self) -> (r: Option<String>)
        requires
            self.write_mb * 1024 <= u64::MAX,
            self.read_results@.len() * self.read_block_kb <= u64::MAX,
        ensures
            r is Some <==> (self.write_results@.len() > 0 && seq_sum(self.write_results@) > 0
                && self.read_results@.len() > 0 && seq_sum(self.read_results@) > 0),
            r matches Some(s) ==> s@ == report_chars(
                self.write_mb as int,
                self.read_results@.len() as int,
                self.read_block_kb as int,
                spec_phase_stats(
                    self.write_results@,
                    self.write_mb * 1024,
                    self.write_block_kb as int,
                ),
                spec_phase_stats(
                    self.read_results@,
                    self.read_results@.len() * self.read_block_kb,
                    self.read_block_kb as int,
                ),
            ),
    {
        let write_kb: u64 = (self.write_mb as u64) * 1024;
        let read_kb: u64 = (self.read_results.len() as u64) * (self.read_block_kb as u64);
        let w = match phase_stats(&self.write_results, write_kb, self.write_block_kb as u64) {
            Some(w) => w,
            None => {
                return None;
            },
        };
        let rd = match phase_stats(&self.read_results, read_kb, self.read_block_kb as u64) {
            Some(x) => x,
            None => {
                return None;
            },
        };
        let mut out = String::from_str("\n\nWritten ");
        append_dec(&mut out, self.write_mb as u128);
        out.append(" MB in ");
        append_secs(&mut out, w.total_nanos);
        out.append(" s\nWrite speed is ");
        append_centi(&mut out, w.avg_centi_mbps);
        out.append(" MB/s\n  max: ");
        append_opt_centi(&mut out, &w.max_centi_mbps);
        out.append(", min: ");
        append_centi(&mut out, w.min_centi_mbps);
        out.append("\n\nRead ");
        append_dec(&mut out, self.read_results.len() as u128);
        out.append(" x ");
        append_dec(&mut out, self.read_block_kb as u128);
        out.append(" KB blocks in ");
        append_secs(&mut out, rd.total_nanos);
        out.append(" s\nRead speed is ");
        append_centi(&mut out, rd.avg_centi_mbps);
        out.append(" MB/s\n  max: ");
        append_opt_centi(&mut out, &rd.max_centi_mbps);
        out.append(", min: ");
        append_centi(&mut out, rd.min_centi_mbps);
        out.append("\n");
        Some(out)
    }
}

} // verus!
