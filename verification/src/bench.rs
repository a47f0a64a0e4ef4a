//! The benchmark run: ordered trial accumulation and the aggregate report.
//!
//! A [`BenchmarkRun`] is fed one measured elapsed time per completed trial,
//! in execution order. The caller performs the downloads and the timing; this
//! module owns every decision and every computation. Statistics exist only
//! for a run that completed all of its configured iterations: an aborted run
//! can never produce a report, so no partial statistics are ever emitted.

use crate::config::BenchmarkConfig;
use crate::stats::{
    lemma_avg_between_min_max, lemma_sum_elapsed_bounded, lemma_sum_throughput_bounded,
    lemma_throughput_bounded, spec_max_elapsed, spec_min_elapsed, spec_sum_elapsed,
    spec_sum_throughput, spec_throughput_micro_mbps, spec_trials_wf, TrialResult,
    MAX_THROUGHPUT_MICRO_MBPS,
};
use vstd::arithmetic::mul::lemma_mul_inequality;
use vstd::prelude::*;

verus! {

/// Tag naming the transfer strategy this benchmark measures; echoed in every
/// report so that reports from different tools can be told apart downstream.
pub open spec fn spec_tool_tag() -> Seq<char> {
    "rust-transfer-manager"@
}

/// Mathematical content of an [`AggregateReport`].
pub ghost struct ReportModel {
    /// The tool tag, as a character sequence.
    pub tool: Seq<char>,
    /// Echo of the configured concurrency.
    pub concurrency: int,
    /// Echo of the configured part size in megabytes.
    pub part_size_mb: int,
    /// Echo of the configured iteration count.
    pub iterations: int,
    /// Truncated mean elapsed time over all trials, in nanoseconds.
    pub avg_elapsed_ns: int,
    /// Truncated mean throughput over all trials, in millionths of a MB/s.
    pub avg_throughput_micro_mbps: int,
    /// Smallest per-trial elapsed time, in nanoseconds.
    pub min_elapsed_ns: int,
    /// Largest per-trial elapsed time, in nanoseconds.
    pub max_elapsed_ns: int,
}

/// Aggregate statistics of one fully completed benchmark run, self-describing
/// for comparison across runs with different configurations.
pub struct AggregateReport {
    /// Fixed tag naming the transfer strategy measured.
    pub tool: String,
    /// Echo of the configured concurrency.
    pub concurrency: usize,
    /// Echo of the configured part size in megabytes.
    pub part_size_mb: u64,
    /// Echo of the configured iteration count.
    pub iterations: u32,
    /// Truncated mean elapsed time over all trials, in nanoseconds.
    pub avg_elapsed_ns: u64,
    /// Truncated mean throughput over all trials, in millionths of a MB/s.
    pub avg_throughput_micro_mbps: u128,
    /// Smallest per-trial elapsed time, in nanoseconds.
    pub min_elapsed_ns: u64,
    /// Largest per-trial elapsed time, in nanoseconds.
    pub max_elapsed_ns: u64,
}

impl View for AggregateReport {
    type V = ReportModel;

    open spec fn view(&self) -> ReportModel {
        ReportModel {
            tool: self.tool@,
            concurrency: self.concurrency as int,
            part_size_mb: self.part_size_mb as int,
            iterations: self.iterations as int,
            avg_elapsed_ns: self.avg_elapsed_ns as int,
            avg_throughput_micro_mbps: self.avg_throughput_micro_mbps as int,
            min_elapsed_ns: self.min_elapsed_ns as int,
            max_elapsed_ns: self.max_elapsed_ns as int,
        }
    }
}

/// The one report a configuration and a completed trial sequence determine:
/// the tool tag, the echoed configuration, the truncated mean elapsed time
/// and mean throughput, and the extreme elapsed times.
pub open spec fn spec_report(config: BenchmarkConfig, trials: Seq<TrialResult>) -> ReportModel
    recommends
        trials.len() > 0,
{
    ReportModel {
        tool: spec_tool_tag(),
        concurrency: config.concurrency as int,
        part_size_mb: config.part_size_mb as int,
        iterations: config.iterations as int,
        avg_elapsed_ns: spec_sum_elapsed(trials) / trials.len() as int,
        avg_throughput_micro_mbps: spec_sum_throughput(trials) / trials.len() as int,
        min_elapsed_ns: spec_min_elapsed(trials),
        max_elapsed_ns: spec_max_elapsed(trials),
    }
}

/// The trial result one measured elapsed time determines.
pub open spec fn spec_trial(file_size_bytes: u64, elapsed_ns: u64) -> TrialResult
    recommends
        elapsed_ns > 0,
{
    TrialResult {
        elapsed_ns,
        throughput_micro_mbps: spec_throughput_micro_mbps(
            file_size_bytes as int,
            elapsed_ns as int,
        ) as u128,
    }
}

/// The trial sequence a sequence of measured elapsed times determines, in
/// execution order.
pub open spec fn spec_trials(file_size_bytes: u64, elapsed_ns: Seq<u64>) -> Seq<TrialResult> {
    elapsed_ns.map(|i: int, e: u64| spec_trial(file_size_bytes, e))
}

/// One benchmark run in progress: the fixed configuration and the ordered
/// sequence of completed trials.
pub struct BenchmarkRun {
    /// The configuration every trial of this run shares.
    pub config: BenchmarkConfig,
    /// Results of the trials completed so far, in execution order.
    pub trials: Vec<TrialResult>,
}

impl BenchmarkRun {
    /// Well-formedness: a valid configuration, no more trials than requested,
    /// and every recorded trial consistent with the configured file size.
    pub open spec fn wf(self) -> bool {
        &&& self.config.wf()
        &&& self.trials@.len() <= self.config.iterations
        &&& spec_trials_wf(self.trials@, self.config.file_size_bytes)
    }

    /// The run has completed every configured iteration.
    pub open spec fn spec_complete(self) -> bool {
        self.trials@.len() == self.config.iterations
    }

    /// Starts a run: no trials have been recorded yet.
    pub fn new(config: BenchmarkConfig) -> (r: BenchmarkRun)
        requires
            config.wf(),
        ensures
            r.wf(),
            r.config == config,
            r.trials@ =~= Seq::<TrialResult>::empty(),
    {
        BenchmarkRun { config, trials: Vec::new() }
    }

    /// How many trials have completed so far.
    pub fn trials_run(&self) -> (r: usize)
        ensures
            r == self.trials@.len(),
    {
        self.trials.len()
    }

    /// Whether every configured iteration has completed.
    pub fn is_complete(&self) -> (r: bool)
        requires
            self.wf(),
        ensures
            r == self.spec_complete(),
    {
        self.trials.len() == self.config.iterations as usize
    }

    /// Records the elapsed time of the trial that just completed, derives its
    /// throughput, and appends the result to the ordered trial sequence.
    pub fn record_trial(&mut self, elapsed_ns: u64) -> (r: TrialResult)
        requires
            old(self).wf(),
            !old(self).spec_complete(),
            elapsed_ns > 0,
        ensures
            final(self).wf(),
            final(self).config == old(self).config,
            r == spec_trial(old(self).config.file_size_bytes, elapsed_ns),
            final(self).trials@ =~= old(self).trials@.push(r),
            final(self).spec_complete() <==> old(self).trials@.len() + 1
                == old(self).config.iterations,
    {
        let r = TrialResult::new(self.config.file_size_bytes, elapsed_ns);
        self.trials.push(r);
        r
    }

    /// The report of a completed run, or `None` while — or because — any
    /// configured iteration is missing. A run aborted by a failed trial never
    /// reaches completion, so it can never yield a report.
    pub fn try_finish(&self) -> (r: Option<AggregateReport>)
        requires
            self.wf(),
        ensures
            r is Some <==> self.spec_complete(),
            r matches Some(rep) ==> rep@ == spec_report(self.config, self.trials@)
                && rep@.min_elapsed_ns <= rep@.avg_elapsed_ns <= rep@.max_elapsed_ns,
    {
        if self.trials.len() == self.config.iterations as usize {
            Some(self.finish())
        } else {
            None
        }
    }

    /// Reduces a completed run into its aggregate report.
    pub fn finish(&self) -> (r: AggregateReport)
        requires
            self.wf(),
            self.spec_complete(),
        ensures
            r@ == spec_report(self.config, self.trials@),
            r@.min_elapsed_ns <= r@.avg_elapsed_ns <= r@.max_elapsed_ns,
    {
        let ghost file_size = self.config.file_size_bytes;
        let n = self.trials.len();
        let first = self.trials[0];
        let mut sum_elapsed: u128 = first.elapsed_ns as u128;
        let mut sum_throughput: u128 = first.throughput_micro_mbps;
        let mut min_elapsed: u64 = first.elapsed_ns;
        let mut max_elapsed: u64 = first.elapsed_ns;
        let mut i: usize = 1;
        proof {
            assert(self.trials@.subrange(0, 1).drop_last() =~= Seq::<TrialResult>::empty());
            assert(self.trials@.subrange(0, 1).last() == first);
            assert(spec_sum_elapsed(Seq::<TrialResult>::empty()) == 0);
            assert(spec_sum_throughput(Seq::<TrialResult>::empty()) == 0);
        }
        while i < n
            invariant
                1 <= i <= n,
                n == self.trials@.len(),
                n <= u32::MAX,
                self.wf(),
                file_size == self.config.file_size_bytes,
                sum_elapsed == spec_sum_elapsed(self.trials@.subrange(0, i as int)),
                sum_throughput == spec_sum_throughput(self.trials@.subrange(0, i as int)),
                min_elapsed == spec_min_elapsed(self.trials@.subrange(0, i as int)),
                max_elapsed == spec_max_elapsed(self.trials@.subrange(0, i as int)),
            decreases n - i,
        {
            let t = self.trials[i];
            proof {
                let pre = self.trials@.subrange(0, i as int);
                let cur = self.trials@.subrange(0, i as int + 1);
                assert(cur.drop_last() =~= pre);
                assert(cur.last() == t);
                assert(spec_trials_wf(pre, file_size)) by {
                    assert(forall|k: int| 0 <= k < pre.len() ==> pre[k] == self.trials@[k]);
                }
                lemma_sum_elapsed_bounded(pre);
                lemma_sum_throughput_bounded(pre, file_size);
                assert(self.trials@[i as int].wf(file_size));
                lemma_throughput_bounded(file_size as int, t.elapsed_ns as int);
                lemma_mul_inequality(pre.len() as int, u32::MAX as int, u64::MAX as int);
                lemma_mul_inequality(
                    pre.len() as int,
                    u32::MAX as int,
                    MAX_THROUGHPUT_MICRO_MBPS as int,
                );
            }
            sum_elapsed = sum_elapsed + t.elapsed_ns as u128;
            sum_throughput = sum_throughput + t.throughput_micro_mbps;
            if t.elapsed_ns < min_elapsed {
                min_elapsed = t.elapsed_ns;
            }
            if t.elapsed_ns > max_elapsed {
                max_elapsed = t.elapsed_ns;
            }
            i = i + 1;
        }
        proof {
            assert(self.trials@.subrange(0, n as int) =~= self.trials@);
            // The mean cannot exceed the maximum, which is a u64, so the
            // truncated mean itself fits in a u64.
            lemma_avg_between_min_max(self.trials@);
        }
        let avg_elapsed_ns: u64 = (sum_elapsed / (n as u128)) as u64;
        let avg_throughput_micro_mbps: u128 = sum_throughput / (n as u128);
        AggregateReport {
            tool: "rust-transfer-manager".to_owned(),
            concurrency: self.config.concurrency,
            part_size_mb: self.config.part_size_mb,
            iterations: self.config.iterations,
            avg_elapsed_ns,
            avg_throughput_micro_mbps,
            min_elapsed_ns: min_elapsed,
            max_elapsed_ns: max_elapsed,
        }
    }
}

/// Runs a whole benchmark over trials whose elapsed times are already known,
/// one per configured iteration and in execution order — the deterministic
/// core of the benchmark loop, with the measurement itself factored out.
pub fn run_trials(config: BenchmarkConfig, elapsed_ns: &Vec<u64>) -> (r: AggregateReport)
    requires
        config.wf(),
        elapsed_ns@.len() == config.iterations,
        forall|i: int| 0 <= i < elapsed_ns@.len() ==> #[trigger] elapsed_ns@[i] > 0,
    ensures
        r@ == spec_report(config, spec_trials(config.file_size_bytes, elapsed_ns@)),
        r@.min_elapsed_ns <= r@.avg_elapsed_ns <= r@.max_elapsed_ns,
{
    let ghost cfg = config;
    let ghost file_size = config.file_size_bytes;
    let ghost all = spec_trials(file_size, elapsed_ns@);
    let iterations = config.iterations;
    let mut run = BenchmarkRun::new(config);
    let mut i: usize = 0;
    while i < elapsed_ns.len()
        invariant
            0 <= i <= elapsed_ns@.len(),
            elapsed_ns@.len() == iterations,
            forall|k: int| 0 <= k < elapsed_ns@.len() ==> #[trigger] elapsed_ns@[k] > 0,
            run.wf(),
            run.config == cfg,
            cfg.iterations == iterations,
            cfg.file_size_bytes == file_size,
            all == spec_trials(file_size, elapsed_ns@),
            run.trials@ =~= all.subrange(0, i as int),
        decreases elapsed_ns@.len() - i,
    {
        let e = elapsed_ns[i];
        let t = run.record_trial(e);
        proof {
            assert(t == spec_trial(file_size, e));
            assert(all.subrange(0, i as int).push(t) =~= all.subrange(0, i as int + 1));
        }
        i = i + 1;
    }
    proof {
        assert(all.subrange(0, all.len() as int) =~= all);
    }
    let report = run.finish();
    report
}

/// Law: a run over `n` measured elapsed times yields exactly `n` trial
/// results, in execution order — the `i`-th result is derived from the
/// `i`-th elapsed time and nothing else.
pub proof fn lemma_trial_sequence(file_size_bytes: u64, elapsed_ns: Seq<u64>)
    ensures
        spec_trials(file_size_bytes, elapsed_ns).len() == elapsed_ns.len(),
        forall|i: int|
            0 <= i < elapsed_ns.len() ==> #[trigger] spec_trials(file_size_bytes, elapsed_ns)[i]
                == spec_trial(file_size_bytes, elapsed_ns[i]),
{
}

/// Law: the aggregate report is a function of the configuration and the
/// per-trial elapsed times alone, so two runs over identical inputs yield
/// identical reports.
pub proof fn lemma_run_deterministic(
    config: BenchmarkConfig,
    elapsed_ns: Seq<u64>,
    r1: ReportModel,
    r2: ReportModel,
)
    requires
        r1 == spec_report(config, spec_trials(config.file_size_bytes, elapsed_ns)),
        r2 == spec_report(config, spec_trials(config.file_size_bytes, elapsed_ns)),
    ensures
        r1 == r2,
{
}

/// Law: for every completed run the truncated mean elapsed time lies between
/// the minimum and the maximum, and a single-trial run reports its one
/// elapsed time as mean, minimum and maximum alike.
pub proof fn lemma_report_avg_bounds(config: BenchmarkConfig, trials: Seq<TrialResult>)
    requires
        trials.len() >= 1,
    ensures
        spec_report(config, trials).min_elapsed_ns <= spec_report(config, trials).avg_elapsed_ns,
        spec_report(config, trials).avg_elapsed_ns <= spec_report(config, trials).max_elapsed_ns,
        trials.len() == 1 ==> spec_report(config, trials).avg_elapsed_ns == trials[0].elapsed_ns
            && spec_report(config, trials).min_elapsed_ns == trials[0].elapsed_ns
            && spec_report(config, trials).max_elapsed_ns == trials[0].elapsed_ns,
{
    lemma_avg_between_min_max(trials);
}

/// Law: the reported mean throughput is the arithmetic mean of the per-trial
/// throughput values — not the configured file size divided by the mean
/// elapsed time.
pub proof fn lemma_avg_throughput_is_mean(config: BenchmarkConfig, trials: Seq<TrialResult>)
    requires
        trials.len() >= 1,
    ensures
        spec_report(config, trials).avg_throughput_micro_mbps == spec_sum_throughput(trials)
            / trials.len() as int,
{
}

} // verus!
