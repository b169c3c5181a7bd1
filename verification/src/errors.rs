use vstd::prelude::*;

verus! {

/// Errors of the performance-optimised paths; each one names the fallback that
/// the engine takes. Floating-point quantities are held as their IEEE-754 bit
/// patterns (`f64` in a `u64`, `f32` in a `u32`).
#[derive(Debug, Clone, PartialEq, Eq)]
pub enum PerformanceOptimizationError {
    HNSWError { message: String },
    SIMDError { message: String },
    MemoryError { requested_mb: usize, available_mb: usize },
    ThreadPoolError { message: String },
    PerformanceDegradation { component: String, actual_ms: u64, expected_ms: u64 },
    MemoryMappingError { message: String },
    ConfigurationError { field: String, value: String, default: String },
    ResourceExhaustion { resource: String, usage_percent: u32 },
}

} // verus!
