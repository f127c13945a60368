//! Workload-matrix benchmark orchestration and system-telemetry parsing.
//!
//! The library decides and computes; it performs no input or output.  A
//! caller reads files, runs commands and sleeps, and hands the library what
//! came back.

pub mod adapters;
pub mod cli;
pub mod clock;
pub mod database;
pub mod domain;
pub mod number;
pub mod ports;
pub mod text;
