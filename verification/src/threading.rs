use vstd::prelude::*;

use crate::config::{LDCConfig, ThreadPoolStrategy};
use crate::errors::PerformanceOptimizationError;
use crate::text::text_with_two;

verus! {

/// How much computation each search does.
#[derive(Debug, Clone, Copy, PartialEq, Eq, Structural)]
pub enum ComputationIntensity {
    Low,
    Medium,
    High,
}

/// How the search reads memory.
#[derive(Debug, Clone, Copy, PartialEq, Eq, Structural)]
pub enum MemoryAccessPattern {
    Sequential,
    Random,
    Mixed,
}

/// The engine's workload. The efficiency and the CPU and I/O shares are `f32`
/// values between 0 and 1, held as their bits.
#[derive(Debug, Clone, Copy, PartialEq, Eq, Structural)]
pub struct WorkloadCharacteristics {
    pub dataset_size: usize,
    pub computation_intensity: ComputationIntensity,
    pub memory_access_pattern: MemoryAccessPattern,
    pub parallelization_efficiency: u32,
    pub cpu_bound_ratio: u32,
    pub io_bound_ratio: u32,
}

// Bit patterns of the `f32` shares.
pub const F32_0_3: u32 = 0x3e99999a;
pub const F32_0_6: u32 = 0x3f19999a;
pub const F32_0_7: u32 = 0x3f333333;
pub const F32_0_8: u32 = 0x3f4ccccd;
pub const F32_0_9: u32 = 0x3f666666;
pub const F32_0_95: u32 = 0x3f733333;
/// `1.0 - 0.95` in `f32` (exact: 0.05000001...).
pub const F32_0_05_ROUNDED: u32 = 0x3d4cccd0;

/// Bit pattern of the `f32` value 0.1.
pub const F32_0_1: u32 = 0x3dcccccd;

impl Default for WorkloadCharacteristics {
    /// The workload assumed before any assessment: no samples, medium intensity,
    /// sequential access, a parallel efficiency of 0.8, 90% CPU-bound and 10%
    /// I/O-bound.
    fn default() -> (w: WorkloadCharacteristics)
        ensures
            w == (WorkloadCharacteristics {
                dataset_size: 0,
                computation_intensity: ComputationIntensity::Medium,
                memory_access_pattern: MemoryAccessPattern::Sequential,
                parallelization_efficiency: F32_0_8,
                cpu_bound_ratio: F32_0_9,
                io_bound_ratio: F32_0_1,
            }),
    {
        WorkloadCharacteristics {
            dataset_size: 0,
            computation_intensity: ComputationIntensity::Medium,
            memory_access_pattern: MemoryAccessPattern::Sequential,
            parallelization_efficiency: F32_0_8,
            cpu_bound_ratio: F32_0_9,
            io_bound_ratio: F32_0_1,
        }
    }
}

/// The workload of `n` samples under `c`: high intensity with SIMD and HNSW, medium
/// with one of them, low with neither; sequential access with chronological
/// spacing, random with HNSW, mixed otherwise; a parallel efficiency of 0.3 under
/// 100 samples, 0.6 under 1000, 0.9 beyond; 70% CPU-bound with memory mapping,
/// 95% otherwise, and the rest I/O-bound.
pub open spec fn workload_of(c: LDCConfig, n: usize) -> WorkloadCharacteristics {
    WorkloadCharacteristics {
        dataset_size: n,
        computation_intensity: if c.use_simd_optimization && c.use_hnsw_index {
            ComputationIntensity::High
        } else if c.use_simd_optimization || c.use_hnsw_index {
            ComputationIntensity::Medium
        } else {
            ComputationIntensity::Low
        },
        memory_access_pattern: if c.use_chronological_spacing {
            MemoryAccessPattern::Sequential
        } else if c.use_hnsw_index {
            MemoryAccessPattern::Random
        } else {
            MemoryAccessPattern::Mixed
        },
        parallelization_efficiency: if n < 100 {
            F32_0_3
        } else if n < 1000 {
            F32_0_6
        } else {
            F32_0_9
        },
        cpu_bound_ratio: if c.enable_memory_mapping {
            F32_0_7
        } else {
            F32_0_95
        },
        io_bound_ratio: if c.enable_memory_mapping {
            F32_0_3
        } else {
            F32_0_05_ROUNDED
        },
    }
}

/// The workload of `dataset_size` samples under `config`.
pub fn assess_workload_characteristics(config: &LDCConfig, dataset_size: usize) -> (w:
    WorkloadCharacteristics)
    ensures
        w == workload_of(*config, dataset_size),
{
    WorkloadCharacteristics {
        dataset_size,
        computation_intensity: if config.use_simd_optimization && config.use_hnsw_index {
            ComputationIntensity::High
        } else if config.use_simd_optimization || config.use_hnsw_index {
            ComputationIntensity::Medium
        } else {
            ComputationIntensity::Low
        },
        memory_access_pattern: if config.use_chronological_spacing {
            MemoryAccessPattern::Sequential
        } else if config.use_hnsw_index {
            MemoryAccessPattern::Random
        } else {
            MemoryAccessPattern::Mixed
        },
        parallelization_efficiency: if dataset_size < 100 {
            F32_0_3
        } else if dataset_size < 1000 {
            F32_0_6
        } else {
            F32_0_9
        },
        cpu_bound_ratio: if config.enable_memory_mapping {
            F32_0_7
        } else {
            F32_0_95
        },
        io_bound_ratio: if config.enable_memory_mapping {
            F32_0_3
        } else {
            F32_0_05_ROUNDED
        },
    }
}

/// The bits are those of a non-negative `f32` that is not NaN; such values order
/// as their bits do.
pub open spec fn nonneg_f32_bits(b: u32) -> bool {
    b <= 0x7f800000
}

/// A dedicated pool for more than 1000 samples that are over 80% CPU-bound and
/// parallelise with over 70% efficiency; the global pool otherwise.
pub fn choose_adaptive_strategy(workload: &WorkloadCharacteristics) -> (s: ThreadPoolStrategy)
    requires
        nonneg_f32_bits(workload.cpu_bound_ratio),
        nonneg_f32_bits(workload.parallelization_efficiency),
    ensures
        s == (if workload.dataset_size > 1000 && workload.cpu_bound_ratio > F32_0_8
            && workload.parallelization_efficiency > F32_0_7 {
            ThreadPoolStrategy::Dedicated
        } else {
            ThreadPoolStrategy::Global
        }),
{
    if workload.dataset_size > 1000 && workload.cpu_bound_ratio > F32_0_8
        && workload.parallelization_efficiency > F32_0_7 {
        ThreadPoolStrategy::Dedicated
    } else {
        ThreadPoolStrategy::Global
    }
}

/// The assessed workload always has non-negative shares, and a dedicated pool is
/// chosen for it exactly when there are more than 1000 samples and no memory
/// mapping.
pub proof fn lemma_assessed_strategy(c: LDCConfig, n: usize)
    ensures
        nonneg_f32_bits(workload_of(c, n).cpu_bound_ratio),
        nonneg_f32_bits(workload_of(c, n).parallelization_efficiency),
        (n > 1000 && workload_of(c, n).cpu_bound_ratio > F32_0_8
            && workload_of(c, n).parallelization_efficiency > F32_0_7) <==> (n > 1000
            && !c.enable_memory_mapping),
{
}

/// Threads for a workload's intensity: half (at least one) for low, three
/// quarters (at least one) for medium, all for high.
pub open spec fn intensity_threads(base: usize, intensity: ComputationIntensity) -> usize {
    match intensity {
        ComputationIntensity::Low => if base / 2 >= 1 {
            (base / 2) as usize
        } else {
            1
        },
        ComputationIntensity::Medium => if base * 3 / 4 >= 1 {
            (base * 3 / 4) as usize
        } else {
            1
        },
        ComputationIntensity::High => base,
    }
}

/// Threads for a workload's intensity, from the configured or detected count.
pub fn intensity_adjusted_threads(base: usize, intensity: ComputationIntensity) -> (n: usize)
    requires
        base * 3 <= usize::MAX,
    ensures
        n == intensity_threads(base, intensity),
{
    match intensity {
        ComputationIntensity::Low => {
            let h = base / 2;
            if h >= 1 {
                h
            } else {
                1
            }
        },
        ComputationIntensity::Medium => {
            let q = base * 3 / 4;
            if q >= 1 {
                q
            } else {
                1
            }
        },
        ComputationIntensity::High => base,
    }
}

/// Most threads a dedicated pool may have.
pub const MAX_POOL_THREADS: usize = 128;

/// A thread count a dedicated pool can be made with: refused when zero or above
/// [`MAX_POOL_THREADS`].
pub fn validate_thread_count(n: usize) -> (r: Result<usize, PerformanceOptimizationError>)
    ensures
        r is Ok <==> (1 <= n <= MAX_POOL_THREADS),
        r matches Ok(m) ==> m == n,
        r matches Err(e) ==> e is ThreadPoolError,
{
    if n == 0 {
        return Err(
            PerformanceOptimizationError::ThreadPoolError { message: "Thread count cannot be 0".to_owned() },
        );
    }
    if n > MAX_POOL_THREADS {
        return Err(
            PerformanceOptimizationError::ThreadPoolError {
                message: text_with_two("Thread count ", n, " exceeds maximum ", MAX_POOL_THREADS, ""),
            },
        );
    }
    Ok(n)
}

/// Whether the dedicated pool must be made anew for `wanted` threads: there is none,
/// or it has another size.
pub fn needs_pool_recreation(has_pool: bool, current: usize, wanted: usize) -> (r: bool)
    ensures
        r == (!has_pool || current != wanted),
{
    !has_pool || current != wanted
}

/// A thread count of at least one and at most twice the CPUs.
pub open spec fn clamped_threads(n: usize, cpu_count: usize) -> int {
    let at_least_one = if n < 1 {
        1
    } else {
        n as int
    };
    if at_least_one <= cpu_count * 2 {
        at_least_one
    } else {
        cpu_count * 2
    }
}

/// A thread count of at least one and at most twice the CPUs.
pub fn clamp_thread_count(n: usize, cpu_count: usize) -> (r: usize)
    requires
        cpu_count * 2 <= usize::MAX,
    ensures
        r == clamped_threads(n, cpu_count),
{
    let at_least_one = if n < 1 {
        1
    } else {
        n
    };
    if at_least_one <= cpu_count * 2 {
        at_least_one
    } else {
        cpu_count * 2
    }
}

/// Elements per chunk: the data split into two chunks per thread (rounded up), kept
/// between a quarter and four times the SIMD chunk size and never below one; the
/// SIMD chunk size when there are no threads.
pub open spec fn chunk_size(dataset_size: nat, threads: nat, simd_chunk: nat) -> nat {
    let total: nat = threads * 2;
    if total == 0 {
        simd_chunk
    } else {
        let c: nat = ((dataset_size + total - 1) as nat) / total;
        let lo: nat = if c >= simd_chunk / 4 {
            c
        } else {
            simd_chunk / 4
        };
        let hi: nat = if lo <= simd_chunk * 4 {
            lo
        } else {
            simd_chunk * 4
        };
        if hi >= 1 {
            hi
        } else {
            1
        }
    }
}

/// Elements per chunk for `dataset_size` samples on `thread_count` threads.
pub fn calculate_optimal_chunk_size(dataset_size: usize, thread_count: usize, simd_chunk_size: usize) -> (r:
    usize)
    requires
        thread_count * 2 + dataset_size <= usize::MAX,
        simd_chunk_size * 4 <= usize::MAX,
    ensures
        r == chunk_size(dataset_size as nat, thread_count as nat, simd_chunk_size as nat),
{
    let total = thread_count * 2;
    if total == 0 {
        return simd_chunk_size;
    }
    let c = (dataset_size + total - 1) / total;
    let lo = if c >= simd_chunk_size / 4 {
        c
    } else {
        simd_chunk_size / 4
    };
    let hi = if lo <= simd_chunk_size * 4 {
        lo
    } else {
        simd_chunk_size * 4
    };
    if hi >= 1 {
        hi
    } else {
        1
    }
}

/// How well recent threads were used: below 60%, above 85%, or in between.
#[derive(Debug, Clone, Copy, PartialEq, Eq, Structural)]
pub enum EfficiencyBand {
    Low,
    Normal,
    High,
}

/// The optimal thread count after an efficiency reading: a quarter fewer (at least
/// one) when low, a quarter more (at most twice the CPUs) when high.
pub open spec fn adjusted_optimal(current: usize, band: EfficiencyBand, cpu_count: usize) -> usize {
    match band {
        EfficiencyBand::Low => if current * 3 / 4 >= 1 {
            (current * 3 / 4) as usize
        } else {
            1
        },
        EfficiencyBand::High => if current * 5 / 4 <= cpu_count * 2 {
            (current * 5 / 4) as usize
        } else {
            (cpu_count * 2) as usize
        },
        EfficiencyBand::Normal => current,
    }
}

/// The optimal thread count after an efficiency reading.
pub fn adjust_optimal_thread_count(current: usize, band: EfficiencyBand, cpu_count: usize) -> (n:
    usize)
    requires
        current * 5 <= usize::MAX,
        cpu_count * 2 <= usize::MAX,
    ensures
        n == adjusted_optimal(current, band, cpu_count),
{
    match band {
        EfficiencyBand::Low => {
            let q = current * 3 / 4;
            if q >= 1 {
                q
            } else {
                1
            }
        },
        EfficiencyBand::High => {
            let q = current * 5 / 4;
            if q <= cpu_count * 2 {
                q
            } else {
                cpu_count * 2
            }
        },
        EfficiencyBand::Normal => current,
    }
}

/// Megabytes the engine holds: samples of 40 bytes, compact samples and mapped
/// samples of 64, the pool's allocation, and 64 bytes per HNSW entry.
pub open spec fn memory_usage_mb(
    samples: nat,
    compact_samples: nat,
    pool_bytes: nat,
    mapped_samples: nat,
    hnsw_entries: nat,
) -> nat {
    (samples * 40 + compact_samples * 64 + pool_bytes + mapped_samples * 64 + hnsw_entries * 64)
        / (1024 * 1024)
}

/// The engine's estimated memory use in megabytes.
pub fn get_estimated_memory_usage_mb(
    samples: usize,
    compact_samples: usize,
    pool_bytes: usize,
    mapped_samples: usize,
    hnsw_entries: usize,
) -> (mb: usize)
    requires
        samples * 40 + compact_samples * 64 + pool_bytes + mapped_samples * 64 + hnsw_entries * 64
            <= usize::MAX,
    ensures
        mb == memory_usage_mb(
            samples as nat,
            compact_samples as nat,
            pool_bytes as nat,
            mapped_samples as nat,
            hnsw_entries as nat,
        ),
{
    let total = samples * 40 + compact_samples * 64 + pool_bytes + mapped_samples * 64 + hnsw_entries
        * 64;
    total / (1024 * 1024)
}

// ---------------------------------------------------------------------------
// Automatic optimisations
// ---------------------------------------------------------------------------

/// For data access: memory mapping on for more than 5000 samples, and a pool of at
/// least 512 MB.
pub open spec fn data_access_optimized(c: LDCConfig, samples: nat) -> LDCConfig {
    LDCConfig {
        enable_memory_mapping: if samples > 5000 {
            true
        } else {
            c.enable_memory_mapping
        },
        memory_pool_size: if c.memory_pool_size < 512 {
            512
        } else {
            c.memory_pool_size
        },
        ..c
    }
}

/// Optimises the configuration for data access with `samples` samples.
pub fn optimize_data_access_pattern(config: &mut LDCConfig, samples: usize)
    ensures
        *final(config) == data_access_optimized(*old(config), samples as nat),
{
    let mapping = if samples > 5000 {
        true
    } else {
        config.enable_memory_mapping
    };
    let pool = if config.memory_pool_size < 512 {
        512
    } else {
        config.memory_pool_size
    };
    let base = config.duplicate();
    *config = LDCConfig { enable_memory_mapping: mapping, memory_pool_size: pool, ..base };
}

/// The optimisation for slow distance calculations: the vectorised distance on,
/// and chunks of at least 128 samples.
pub open spec fn distance_optimized(c: LDCConfig) -> LDCConfig {
    LDCConfig {
        use_simd_optimization: true,
        simd_chunk_size: if c.simd_chunk_size < 128 {
            128
        } else {
            c.simd_chunk_size
        },
        ..c
    }
}

/// Optimises the configuration for distance calculations.
pub fn optimize_distance_calculation(config: &mut LDCConfig)
    ensures
        *final(config) == distance_optimized(*old(config)),
{
    let chunk = if config.simd_chunk_size < 128 {
        128
    } else {
        config.simd_chunk_size
    };
    let base = config.duplicate();
    *config = LDCConfig { use_simd_optimization: true, simd_chunk_size: chunk, ..base };
}

/// The generic optimisation: work stealing on and the adaptive pool strategy.
pub open spec fn generically_optimized(c: LDCConfig) -> LDCConfig {
    LDCConfig {
        work_stealing_enabled: true,
        thread_pool_strategy: ThreadPoolStrategy::Adaptive,
        ..c
    }
}

/// Applies the generic optimisation.
pub fn apply_generic_optimization(config: &mut LDCConfig)
    ensures
        *final(config) == generically_optimized(*old(config)),
{
    let base = config.duplicate();
    *config = LDCConfig {
        work_stealing_enabled: true,
        thread_pool_strategy: ThreadPoolStrategy::Adaptive,
        ..base
    };
}

/// Memory management: memory mapping on when more than 1024 MB are in use.
pub fn optimize_memory_management(config: &mut LDCConfig, current_memory_usage_mb: usize)
    ensures
        *final(config) == (if current_memory_usage_mb > 1024 {
            LDCConfig { enable_memory_mapping: true, ..*old(config) }
        } else {
            *old(config)
        }),
{
    if current_memory_usage_mb > 1024 {
        let base = config.duplicate();
        *config = LDCConfig { enable_memory_mapping: true, ..base };
    }
}

} // verus!
