//! Adapters: the components behind the ports.

pub mod benchmark_adapter;
pub mod database_adapter;
pub mod matrix;
