//! Per-trial results and the exact integer arithmetic behind the statistics.
//!
//! Elapsed time is carried in whole nanoseconds and throughput in millionths
//! of a megabyte per second, so means, minima and maxima are computed without
//! rounding surprises: every quantity is an integer and every division is a
//! single final truncation.

use vstd::arithmetic::div_mod::{
    lemma_div_basics_1, lemma_div_basics_2, lemma_div_is_ordered,
    lemma_div_is_ordered_by_denominator, lemma_div_multiples_vanish,
};
use vstd::arithmetic::mul::lemma_mul_inequality;
use vstd::prelude::*;

verus! {

/// Nanoseconds in one second times micro-units in one unit: the scale that
/// turns bytes per nanosecond into millionths of a megabyte per second.
pub const THROUGHPUT_SCALE: u128 = 1_000_000_000 * 1_000_000;

/// Bytes in one megabyte.
pub const BYTES_PER_MB: u128 = 0x10_0000;

/// No trial's throughput can exceed this: the largest expressible file size
/// transferred in a single nanosecond.
pub const MAX_THROUGHPUT_MICRO_MBPS: u128 = 0xFFFF_FFFF_FFFF_FFFF * THROUGHPUT_SCALE
    / BYTES_PER_MB;

/// Throughput in millionths of a megabyte per second:
/// `(file_size_bytes / MB) / (elapsed_ns / second)`, scaled by a million and
/// truncated toward zero.
pub open spec fn spec_throughput_micro_mbps(file_size_bytes: int, elapsed_ns: int) -> int
    recommends
        elapsed_ns > 0,
{
    (file_size_bytes * (THROUGHPUT_SCALE as int)) / ((BYTES_PER_MB as int) * elapsed_ns)
}

/// Computes the throughput of one trial exactly, in millionths of a megabyte
/// per second.
pub fn throughput_micro_mbps(file_size_bytes: u64, elapsed_ns: u64) -> (r: u128)
    requires
        elapsed_ns > 0,
    ensures
        r == spec_throughput_micro_mbps(file_size_bytes as int, elapsed_ns as int),
{
    let numerator: u128 = (file_size_bytes as u128) * THROUGHPUT_SCALE;
    let denominator: u128 = BYTES_PER_MB * (elapsed_ns as u128);
    numerator / denominator
}

/// The throughput of a trial is non-negative and never exceeds
/// [`MAX_THROUGHPUT_MICRO_MBPS`].
pub proof fn lemma_throughput_bounded(file_size_bytes: int, elapsed_ns: int)
    requires
        0 <= file_size_bytes <= u64::MAX,
        elapsed_ns >= 1,
    ensures
        0 <= spec_throughput_micro_mbps(file_size_bytes, elapsed_ns),
        spec_throughput_micro_mbps(file_size_bytes, elapsed_ns) <= MAX_THROUGHPUT_MICRO_MBPS,
{
    let scale = THROUGHPUT_SCALE as int;
    let mb = BYTES_PER_MB as int;
    let numerator = file_size_bytes * scale;
    let denominator = mb * elapsed_ns;
    lemma_mul_inequality(file_size_bytes, u64::MAX as int, scale);
    lemma_mul_inequality(1, elapsed_ns, mb);
    lemma_div_basics_1(denominator);
    lemma_div_is_ordered(0, numerator, denominator);
    assert(mb * elapsed_ns == elapsed_ns * mb) by (nonlinear_arith);
    lemma_div_is_ordered_by_denominator(numerator, mb, denominator);
    lemma_div_is_ordered(numerator, (u64::MAX as int) * scale, mb);
}

/// A zero-byte object yields exactly zero throughput for every positive
/// elapsed time: never an error and never an undefined value.
pub proof fn lemma_zero_file_zero_throughput(elapsed_ns: int)
    requires
        elapsed_ns > 0,
    ensures
        spec_throughput_micro_mbps(0, elapsed_ns) == 0,
{
    lemma_div_basics_1((BYTES_PER_MB as int) * elapsed_ns);
}

/// The outcome of one completed trial.
#[derive(Clone, Copy, Debug, PartialEq, Eq, Structural)]
pub struct TrialResult {
    /// Wall-clock time from stream initiation to full drain, in nanoseconds.
    pub elapsed_ns: u64,
    /// Throughput derived from the configured file size and `elapsed_ns`, in
    /// millionths of a megabyte per second.
    pub throughput_micro_mbps: u128,
}

impl TrialResult {
    /// A result is well formed for a given file size when its elapsed time is
    /// positive and its throughput is exactly the derived one.
    pub open spec fn wf(self, file_size_bytes: u64) -> bool {
        &&& self.elapsed_ns > 0
        &&& self.throughput_micro_mbps == spec_throughput_micro_mbps(
            file_size_bytes as int,
            self.elapsed_ns as int,
        )
    }

    /// Builds the result of one trial from the measured elapsed time.
    pub fn new(file_size_bytes: u64, elapsed_ns: u64) -> (r: TrialResult)
        requires
            elapsed_ns > 0,
        ensures
            r.wf(file_size_bytes),
            r.elapsed_ns == elapsed_ns,
    {
        TrialResult { elapsed_ns, throughput_micro_mbps: throughput_micro_mbps(
            file_size_bytes,
            elapsed_ns,
        ) }
    }
}

/// Every entry of a trial sequence is well formed for the given file size.
pub open spec fn spec_trials_wf(s: Seq<TrialResult>, file_size_bytes: u64) -> bool {
    forall|i: int| 0 <= i < s.len() ==> #[trigger] s[i].wf(file_size_bytes)
}

/// Total elapsed nanoseconds over a trial sequence.
pub open spec fn spec_sum_elapsed(s: Seq<TrialResult>) -> int
    decreases s.len(),
{
    if s.len() == 0 {
        0
    } else {
        spec_sum_elapsed(s.drop_last()) + s.last().elapsed_ns
    }
}

/// Total throughput over a trial sequence, in millionths of a MB/s.
pub open spec fn spec_sum_throughput(s: Seq<TrialResult>) -> int
    decreases s.len(),
{
    if s.len() == 0 {
        0
    } else {
        spec_sum_throughput(s.drop_last()) + s.last().throughput_micro_mbps
    }
}

/// Smallest elapsed time over a non-empty trial sequence, in nanoseconds.
pub open spec fn spec_min_elapsed(s: Seq<TrialResult>) -> int
    recommends
        s.len() > 0,
    decreases s.len(),
{
    if s.len() <= 1 {
        s.last().elapsed_ns as int
    } else {
        vstd::math::min(spec_min_elapsed(s.drop_last()), s.last().elapsed_ns as int)
    }
}

/// Largest elapsed time over a non-empty trial sequence, in nanoseconds.
pub open spec fn spec_max_elapsed(s: Seq<TrialResult>) -> int
    recommends
        s.len() > 0,
    decreases s.len(),
{
    if s.len() <= 1 {
        s.last().elapsed_ns as int
    } else {
        vstd::math::max(spec_max_elapsed(s.drop_last()), s.last().elapsed_ns as int)
    }
}

/// The elapsed-time total of a trial sequence is non-negative and at most
/// `len` times the largest expressible elapsed time.
pub proof fn lemma_sum_elapsed_bounded(s: Seq<TrialResult>)
    ensures
        0 <= spec_sum_elapsed(s),
        spec_sum_elapsed(s) <= s.len() * (u64::MAX as int),
    decreases s.len(),
{
    if s.len() > 0 {
        lemma_sum_elapsed_bounded(s.drop_last());
        assert((s.len() - 1) * (u64::MAX as int) + (u64::MAX as int) == s.len() * (
        u64::MAX as int)) by (nonlinear_arith);
    }
}

/// The throughput total of a well-formed trial sequence is non-negative and
/// at most `len` times the largest possible per-trial throughput.
pub proof fn lemma_sum_throughput_bounded(s: Seq<TrialResult>, file_size_bytes: u64)
    requires
        spec_trials_wf(s, file_size_bytes),
    ensures
        0 <= spec_sum_throughput(s),
        spec_sum_throughput(s) <= s.len() * (MAX_THROUGHPUT_MICRO_MBPS as int),
    decreases s.len(),
{
    if s.len() > 0 {
        let pre = s.drop_last();
        assert(spec_trials_wf(pre, file_size_bytes)) by {
            assert(forall|i: int| 0 <= i < pre.len() ==> pre[i] == s[i]);
        }
        lemma_sum_throughput_bounded(pre, file_size_bytes);
        assert(s.last().wf(file_size_bytes));
        lemma_throughput_bounded(file_size_bytes as int, s.last().elapsed_ns as int);
        assert((s.len() - 1) * (MAX_THROUGHPUT_MICRO_MBPS as int) + (
        MAX_THROUGHPUT_MICRO_MBPS as int) == s.len() * (MAX_THROUGHPUT_MICRO_MBPS as int))
            by (nonlinear_arith);
    }
}

/// The elapsed-time total of a non-empty trial sequence lies between `len`
/// times its minimum and `len` times its maximum.
pub proof fn lemma_sum_between_min_max(s: Seq<TrialResult>)
    requires
        s.len() > 0,
    ensures
        s.len() * spec_min_elapsed(s) <= spec_sum_elapsed(s),
        spec_sum_elapsed(s) <= s.len() * spec_max_elapsed(s),
    decreases s.len(),
{
    if s.len() == 1 {
        assert(spec_sum_elapsed(s.drop_last()) == 0);
        assert(spec_sum_elapsed(s) == s.last().elapsed_ns);
        assert(spec_min_elapsed(s) == s.last().elapsed_ns);
        assert(spec_max_elapsed(s) == s.last().elapsed_ns);
        assert(1 * spec_min_elapsed(s) == spec_min_elapsed(s)) by (nonlinear_arith);
        assert(1 * spec_max_elapsed(s) == spec_max_elapsed(s)) by (nonlinear_arith);
    } else {
        let pre = s.drop_last();
        lemma_sum_between_min_max(pre);
        let n: int = s.len() as int;
        let last: int = s.last().elapsed_ns as int;
        assert(n * spec_min_elapsed(s) <= spec_sum_elapsed(s)) by (nonlinear_arith)
            requires
                spec_sum_elapsed(s) == spec_sum_elapsed(pre) + last,
                spec_sum_elapsed(pre) >= pre.len() * spec_min_elapsed(pre),
                spec_min_elapsed(s) <= spec_min_elapsed(pre),
                spec_min_elapsed(s) <= last,
                n == pre.len() + 1,
                pre.len() >= 1,
        ;
        assert(spec_sum_elapsed(s) <= n * spec_max_elapsed(s)) by (nonlinear_arith)
            requires
                spec_sum_elapsed(s) == spec_sum_elapsed(pre) + last,
                spec_sum_elapsed(pre) <= pre.len() * spec_max_elapsed(pre),
                spec_max_elapsed(s) >= spec_max_elapsed(pre),
                spec_max_elapsed(s) >= last,
                n == pre.len() + 1,
                pre.len() >= 1,
        ;
    }
}

/// The truncated mean elapsed time of a non-empty trial sequence lies between
/// the minimum and the maximum, and over a single trial it equals that
/// trial's elapsed time exactly.
pub proof fn lemma_avg_between_min_max(s: Seq<TrialResult>)
    requires
        s.len() > 0,
    ensures
        spec_min_elapsed(s) <= spec_sum_elapsed(s) / (s.len() as int),
        spec_sum_elapsed(s) / (s.len() as int) <= spec_max_elapsed(s),
        s.len() == 1 ==> spec_sum_elapsed(s) / (s.len() as int) == s[0].elapsed_ns
            && spec_min_elapsed(s) == s[0].elapsed_ns && spec_max_elapsed(s) == s[0].elapsed_ns,
{
    let n = s.len() as int;
    let total = spec_sum_elapsed(s);
    let lo = spec_min_elapsed(s);
    let hi = spec_max_elapsed(s);
    lemma_sum_between_min_max(s);
    lemma_div_is_ordered(n * lo, total, n);
    lemma_div_multiples_vanish(lo, n);
    lemma_div_is_ordered(total, n * hi, n);
    lemma_div_multiples_vanish(hi, n);
    if s.len() == 1 {
        lemma_div_basics_2(total);
        assert(s.last() == s[0]);
    }
}

} // verus!
