//! Ports: the capabilities that the application expects of its
//! collaborators, and the plain values that cross them.

pub mod benchmark_port;
pub mod log_port;
