//! Storage benchmarking: configuration of the I/O generator.

pub mod fio;
