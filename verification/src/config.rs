//! The immutable benchmark configuration and its validation.

use vstd::prelude::*;

verus! {

/// Largest part size in whole megabytes whose size in bytes still fits in a
/// `u64` (a machine limit, not a policy choice).
pub const MAX_PART_SIZE_MB: u64 = 0xFFFF_FFFF_FFFF_FFFF / 0x10_0000;

/// Why a benchmark configuration was rejected.
#[derive(Clone, Copy, Debug, PartialEq, Eq, Structural)]
pub enum ConfigError {
    /// The bucket name is empty.
    EmptyBucket,
    /// The object key is empty.
    EmptyKey,
    /// The requested concurrency is zero.
    ZeroConcurrency,
    /// The requested part size is zero megabytes.
    ZeroPartSize,
    /// The requested part size in bytes would not fit in a `u64`.
    PartSizeTooLarge,
    /// Zero iterations were requested; the statistics are undefined then.
    ZeroIterations,
}

/// Everything a benchmark run depends on, fixed once before the first trial.
#[derive(Debug)]
pub struct BenchmarkConfig {
    /// Bucket holding the object to download; non-empty.
    pub bucket: String,
    /// Key of the object to download; non-empty.
    pub key: String,
    /// Region identifier of the storage service.
    pub region: String,
    /// Optional credential profile selector.
    pub profile: Option<String>,
    /// Number of parts the transfer client fetches in parallel; positive.
    pub concurrency: usize,
    /// Target size of each fetched part in megabytes; positive.
    pub part_size_mb: u64,
    /// Number of trials to run; positive.
    pub iterations: u32,
    /// Expected object size in bytes, used only to derive throughput.
    pub file_size_bytes: u64,
}

impl BenchmarkConfig {
    /// Well-formedness: non-empty object coordinates and positive tuning
    /// knobs, with the part size small enough to express in bytes.
    pub open spec fn wf(self) -> bool {
        &&& self.bucket@.len() > 0
        &&& self.key@.len() > 0
        &&& self.concurrency >= 1
        &&& 1 <= self.part_size_mb <= MAX_PART_SIZE_MB
        &&& self.iterations >= 1
    }

    /// Validates the caller's input and builds the configuration. Inputs are
    /// checked in field order; the error names the first field that fails.
    pub fn new(
        bucket: String,
        key: String,
        region: String,
        profile: Option<String>,
        concurrency: usize,
        part_size_mb: u64,
        iterations: u32,
        file_size_bytes: u64,
    ) -> (r: Result<BenchmarkConfig, ConfigError>)
        ensures
            r is Ok <==> (bucket@.len() > 0 && key@.len() > 0 && concurrency >= 1
                && 1 <= part_size_mb <= MAX_PART_SIZE_MB && iterations >= 1),
            r matches Ok(c) ==> {
                &&& c.wf()
                &&& c.bucket == bucket
                &&& c.key == key
                &&& c.region == region
                &&& c.profile == profile
                &&& c.concurrency == concurrency
                &&& c.part_size_mb == part_size_mb
                &&& c.iterations == iterations
                &&& c.file_size_bytes == file_size_bytes
            },
            r == Result::<BenchmarkConfig, ConfigError>::Err(ConfigError::EmptyBucket)
                <==> bucket@.len() == 0,
            r == Result::<BenchmarkConfig, ConfigError>::Err(ConfigError::EmptyKey)
                <==> bucket@.len() > 0 && key@.len() == 0,
            r == Result::<BenchmarkConfig, ConfigError>::Err(ConfigError::ZeroConcurrency)
                <==> bucket@.len() > 0 && key@.len() > 0 && concurrency == 0,
            r == Result::<BenchmarkConfig, ConfigError>::Err(ConfigError::ZeroPartSize)
                <==> bucket@.len() > 0 && key@.len() > 0 && concurrency >= 1
                    && part_size_mb == 0,
            r == Result::<BenchmarkConfig, ConfigError>::Err(ConfigError::PartSizeTooLarge)
                <==> bucket@.len() > 0 && key@.len() > 0 && concurrency >= 1
                    && part_size_mb > MAX_PART_SIZE_MB,
            r == Result::<BenchmarkConfig, ConfigError>::Err(ConfigError::ZeroIterations)
                <==> bucket@.len() > 0 && key@.len() > 0 && concurrency >= 1
                    && 1 <= part_size_mb <= MAX_PART_SIZE_MB && iterations == 0,
    {
        if bucket.as_str().is_empty() {
            return Err(ConfigError::EmptyBucket);
        }
        if key.as_str().is_empty() {
            return Err(ConfigError::EmptyKey);
        }
        if concurrency == 0 {
            return Err(ConfigError::ZeroConcurrency);
        }
        if part_size_mb == 0 {
            return Err(ConfigError::ZeroPartSize);
        }
        if part_size_mb > MAX_PART_SIZE_MB {
            return Err(ConfigError::PartSizeTooLarge);
        }
        if iterations == 0 {
            return Err(ConfigError::ZeroIterations);
        }
        Ok(BenchmarkConfig {
            bucket,
            key,
            region,
            profile,
            concurrency,
            part_size_mb,
            iterations,
            file_size_bytes,
        })
    }

    /// The configured part size converted to bytes, as the transfer client
    /// wants it.
    pub fn part_size_bytes(&self) -> (r: u64)
        requires
            self.wf(),
        ensures
            r == self.part_size_mb * 0x10_0000,
    {
        self.part_size_mb * 0x10_0000
    }
}

} // verus!
