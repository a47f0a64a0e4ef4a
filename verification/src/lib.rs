//! Core of a download-throughput benchmark for large objects held in remote
//! object storage.
//!
//! The library owns everything with behavioral content: validating the
//! benchmark configuration, turning a measured per-trial elapsed time into a
//! throughput figure, accumulating the ordered sequence of trial results, and
//! reducing them into aggregate statistics (mean, minimum and maximum elapsed
//! time, mean throughput). Time is carried in whole nanoseconds and
//! throughput in millionths of a megabyte per second, so every computation
//! here is exact integer arithmetic.
//!
//! Actually moving bytes — resolving credentials, initiating a chunked
//! concurrent download and draining its stream — is I/O and lives with the
//! caller, which times each trial and feeds the elapsed time back in through
//! [`bench::BenchmarkRun::record_trial`].

pub mod bench;
pub mod config;
pub mod stats;
