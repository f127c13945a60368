//! Domain logic: telemetry parsing and storage-benchmark configuration.

pub mod metrics;
pub mod storage;
