//! Telemetry collectors: one module per source, and the sampling policy
//! they share.

pub mod cpuinfo;
pub mod iostat;
pub mod loadavg;
pub mod meminfo;
pub mod mpstat;
pub mod sampling;
pub mod vmstat;
