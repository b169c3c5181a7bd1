//! Verified core of a Lorentzian-distance k-nearest-neighbour classifier.

pub mod direction;
pub mod features;
pub mod knn;
pub mod errors;
pub mod memory_pool;
pub mod mmap_storage;
pub mod text;
pub mod clock;
pub mod circuit_breaker;
pub mod recovery;
pub mod config;
pub mod engine;
pub mod test_runner;
pub mod profiles;
pub mod tuning;
pub mod recovery_system;
pub mod backtest;
pub mod pipeline;
pub mod threading;
pub mod hnsw_ids;
pub mod junit;
pub mod compact_store;
pub mod perf_report;
