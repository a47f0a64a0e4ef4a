use s3bench::bench::{run_trials, BenchmarkRun};
use s3bench::config::BenchmarkConfig;
use s3bench::stats::throughput_micro_mbps;

const HUNDRED_MB: u64 = 104857600;

fn config(iterations: u32, file_size_bytes: u64) -> BenchmarkConfig {
    BenchmarkConfig::new(
        "bucket".to_owned(),
        "key".to_owned(),
        "us-east-1".to_owned(),
        None,
        10,
        16,
        iterations,
        file_size_bytes,
    )
    .unwrap()
}

#[test]
fn throughput_of_hundred_mb_in_two_seconds() {
    // 100 MB in 2 s is 50 MB/s exactly.
    assert_eq!(throughput_micro_mbps(HUNDRED_MB, 2_000_000_000), 50_000_000);
}

#[test]
fn throughput_of_hundred_mb_in_one_and_a_half_seconds() {
    // 100 MB in 1.5 s is 66.666666… MB/s, truncated at a millionth.
    assert_eq!(throughput_micro_mbps(HUNDRED_MB, 1_500_000_000), 66_666_666);
}

#[test]
fn throughput_of_hundred_mb_in_two_and_a_half_seconds() {
    // 100 MB in 2.5 s is 40 MB/s exactly.
    assert_eq!(throughput_micro_mbps(HUNDRED_MB, 2_500_000_000), 40_000_000);
}

#[test]
fn zero_file_size_gives_zero_throughput() {
    assert_eq!(throughput_micro_mbps(0, 1), 0);
    assert_eq!(throughput_micro_mbps(0, 2_000_000_000), 0);
    assert_eq!(throughput_micro_mbps(0, u64::MAX), 0);
}

#[test]
fn zero_file_size_run_reports_zero_throughput() {
    let report = run_trials(config(3, 0), &vec![2_000_000_000, 1_500_000_000, 2_500_000_000]);
    assert_eq!(report.avg_throughput_micro_mbps, 0);
    assert_eq!(report.avg_elapsed_ns, 2_000_000_000);
}

#[test]
fn trial_sequence_has_configured_length_in_order() {
    let elapsed = [2_000_000_000u64, 1_500_000_000, 2_500_000_000];
    let mut run = BenchmarkRun::new(config(3, HUNDRED_MB));
    for e in elapsed {
        assert!(!run.is_complete());
        run.record_trial(e);
    }
    assert!(run.is_complete());
    assert_eq!(run.trials_run(), 3);
    for (i, e) in elapsed.iter().enumerate() {
        assert_eq!(run.trials[i].elapsed_ns, *e);
    }
}

#[test]
fn record_trial_derives_throughput() {
    let mut run = BenchmarkRun::new(config(1, HUNDRED_MB));
    let t = run.record_trial(2_000_000_000);
    assert_eq!(t.elapsed_ns, 2_000_000_000);
    assert_eq!(t.throughput_micro_mbps, 50_000_000);
}

#[test]
fn average_elapsed_lies_between_min_and_max() {
    let report = run_trials(
        config(5, HUNDRED_MB),
        &vec![3_100_000_000, 900_000_000, 2_700_000_000, 1_300_000_000, 2_000_000_000],
    );
    assert!(report.min_elapsed_ns <= report.avg_elapsed_ns);
    assert!(report.avg_elapsed_ns <= report.max_elapsed_ns);
    assert_eq!(report.min_elapsed_ns, 900_000_000);
    assert_eq!(report.max_elapsed_ns, 3_100_000_000);
    assert_eq!(report.avg_elapsed_ns, 2_000_000_000);
}

#[test]
fn average_throughput_is_mean_of_trials_not_ratio_of_means() {
    let report = run_trials(
        config(3, HUNDRED_MB),
        &vec![2_000_000_000, 1_500_000_000, 2_500_000_000],
    );
    // Independently computed mean of the three per-trial throughputs.
    let t1 = throughput_micro_mbps(HUNDRED_MB, 2_000_000_000);
    let t2 = throughput_micro_mbps(HUNDRED_MB, 1_500_000_000);
    let t3 = throughput_micro_mbps(HUNDRED_MB, 2_500_000_000);
    assert_eq!(report.avg_throughput_micro_mbps, (t1 + t2 + t3) / 3);
    // The ratio of file size to mean elapsed time would be 50 MB/s — not
    // what is reported.
    let ratio_of_means = throughput_micro_mbps(HUNDRED_MB, report.avg_elapsed_ns);
    assert_eq!(ratio_of_means, 50_000_000);
    assert_ne!(report.avg_throughput_micro_mbps, ratio_of_means);
}

#[test]
fn identical_runs_give_identical_reports() {
    let elapsed = vec![1_750_000_000u64, 2_250_000_000, 1_000_000_000];
    let r1 = run_trials(config(3, HUNDRED_MB), &elapsed);
    let r2 = run_trials(config(3, HUNDRED_MB), &elapsed);
    assert_eq!(r1.tool, r2.tool);
    assert_eq!(r1.concurrency, r2.concurrency);
    assert_eq!(r1.part_size_mb, r2.part_size_mb);
    assert_eq!(r1.iterations, r2.iterations);
    assert_eq!(r1.avg_elapsed_ns, r2.avg_elapsed_ns);
    assert_eq!(r1.avg_throughput_micro_mbps, r2.avg_throughput_micro_mbps);
    assert_eq!(r1.min_elapsed_ns, r2.min_elapsed_ns);
    assert_eq!(r1.max_elapsed_ns, r2.max_elapsed_ns);
}

#[test]
fn incomplete_run_yields_no_report() {
    // Trial 2 of 3 fails: only the first trial's diagnostic exists and no
    // report can be produced.
    let mut run = BenchmarkRun::new(config(3, HUNDRED_MB));
    run.record_trial(2_000_000_000);
    assert_eq!(run.trials_run(), 1);
    assert!(!run.is_complete());
    assert!(run.try_finish().is_none());
}

#[test]
fn fresh_run_yields_no_report() {
    let run = BenchmarkRun::new(config(1, HUNDRED_MB));
    assert!(run.try_finish().is_none());
}

#[test]
fn complete_run_yields_a_report() {
    let mut run = BenchmarkRun::new(config(2, HUNDRED_MB));
    run.record_trial(1_000_000_000);
    run.record_trial(3_000_000_000);
    let report = run.try_finish().unwrap();
    assert_eq!(report.avg_elapsed_ns, 2_000_000_000);
    assert_eq!(report.min_elapsed_ns, 1_000_000_000);
    assert_eq!(report.max_elapsed_ns, 3_000_000_000);
}

#[test]
fn end_to_end_three_iterations_of_hundred_mb() {
    // 100 MB over elapsed times [2.0 s, 1.5 s, 2.5 s]: throughputs
    // [50, 66.67, 40] MB/s, mean elapsed 2.0 s, mean throughput ≈52.22 MB/s.
    let report = run_trials(
        config(3, HUNDRED_MB),
        &vec![2_000_000_000, 1_500_000_000, 2_500_000_000],
    );
    assert_eq!(report.tool, "rust-transfer-manager");
    assert_eq!(report.concurrency, 10);
    assert_eq!(report.part_size_mb, 16);
    assert_eq!(report.iterations, 3);
    assert_eq!(report.avg_elapsed_ns, 2_000_000_000);
    assert_eq!(report.min_elapsed_ns, 1_500_000_000);
    assert_eq!(report.max_elapsed_ns, 2_500_000_000);
    assert_eq!(report.avg_throughput_micro_mbps, 52_222_222);
    let avg_mbps = report.avg_throughput_micro_mbps as f64 / 1e6;
    assert!((avg_mbps - 52.22).abs() < 0.01);
}

#[test]
fn single_trial_report_collapses_to_its_elapsed_time() {
    let t = 1_234_567_890u64;
    let report = run_trials(config(1, HUNDRED_MB), &vec![t]);
    assert_eq!(report.avg_elapsed_ns, t);
    assert_eq!(report.min_elapsed_ns, t);
    assert_eq!(report.max_elapsed_ns, t);
    assert_eq!(
        report.avg_throughput_micro_mbps,
        throughput_micro_mbps(HUNDRED_MB, t)
    );
}
