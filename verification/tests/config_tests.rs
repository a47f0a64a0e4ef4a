use s3bench::config::{BenchmarkConfig, ConfigError, MAX_PART_SIZE_MB};

fn new_config(
    bucket: &str,
    key: &str,
    concurrency: usize,
    part_size_mb: u64,
    iterations: u32,
    file_size_bytes: u64,
) -> Result<BenchmarkConfig, ConfigError> {
    BenchmarkConfig::new(
        bucket.to_owned(),
        key.to_owned(),
        "us-east-1".to_owned(),
        None,
        concurrency,
        part_size_mb,
        iterations,
        file_size_bytes,
    )
}

#[test]
fn accepts_valid_configuration() {
    let c = new_config("bucket", "key", 10, 16, 3, 104857600).unwrap();
    assert_eq!(c.bucket, "bucket");
    assert_eq!(c.key, "key");
    assert_eq!(c.region, "us-east-1");
    assert_eq!(c.profile, None);
    assert_eq!(c.concurrency, 10);
    assert_eq!(c.part_size_mb, 16);
    assert_eq!(c.iterations, 3);
    assert_eq!(c.file_size_bytes, 104857600);
}

#[test]
fn keeps_profile_when_given() {
    let c = BenchmarkConfig::new(
        "b".to_owned(),
        "k".to_owned(),
        "eu-west-1".to_owned(),
        Some("dev".to_owned()),
        1,
        1,
        1,
        0,
    )
    .unwrap();
    assert_eq!(c.profile, Some("dev".to_owned()));
    assert_eq!(c.region, "eu-west-1");
}

#[test]
fn rejects_empty_bucket() {
    let r = new_config("", "key", 10, 16, 3, 1);
    assert_eq!(r.unwrap_err(), ConfigError::EmptyBucket);
}

#[test]
fn rejects_empty_key() {
    let r = new_config("bucket", "", 10, 16, 3, 1);
    assert_eq!(r.unwrap_err(), ConfigError::EmptyKey);
}

#[test]
fn rejects_zero_concurrency() {
    let r = new_config("bucket", "key", 0, 16, 3, 1);
    assert_eq!(r.unwrap_err(), ConfigError::ZeroConcurrency);
}

#[test]
fn rejects_zero_part_size() {
    let r = new_config("bucket", "key", 10, 0, 3, 1);
    assert_eq!(r.unwrap_err(), ConfigError::ZeroPartSize);
}

#[test]
fn rejects_oversized_part_size() {
    let r = new_config("bucket", "key", 10, MAX_PART_SIZE_MB + 1, 3, 1);
    assert_eq!(r.unwrap_err(), ConfigError::PartSizeTooLarge);
}

#[test]
fn rejects_zero_iterations() {
    let r = new_config("bucket", "key", 10, 16, 0, 1);
    assert_eq!(r.unwrap_err(), ConfigError::ZeroIterations);
}

#[test]
fn part_size_converts_to_bytes() {
    let c = new_config("bucket", "key", 10, 16, 3, 1).unwrap();
    assert_eq!(c.part_size_bytes(), 16 * 1024 * 1024);
    let c1 = new_config("bucket", "key", 10, 1, 3, 1).unwrap();
    assert_eq!(c1.part_size_bytes(), 1048576);
}

#[test]
fn largest_part_size_still_fits_in_bytes() {
    let c = new_config("bucket", "key", 10, MAX_PART_SIZE_MB, 3, 1).unwrap();
    assert_eq!(c.part_size_bytes(), MAX_PART_SIZE_MB * 1048576);
}
