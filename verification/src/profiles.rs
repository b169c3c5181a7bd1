use vstd::prelude::*;

use crate::config::{
    config_rejection, corrected_config, default_config, ConfigRejection, LDCConfig,
    ThreadPoolStrategy,
};
use crate::engine::{config_change, keep_newest, ConfigChange, LDCEngine};
use crate::text::{chars_equal, chars_of};

verus! {

// IEEE-754 bit patterns of the profiles' floating-point targets.
pub const F64_HALF: u64 = 0x3fe0000000000000;
pub const F64_1: u64 = 0x3ff0000000000000;
pub const F64_10: u64 = 0x4024000000000000;
pub const F64_20: u64 = 0x4034000000000000;
pub const F64_50: u64 = 0x4049000000000000;
pub const F64_100: u64 = 0x4059000000000000;
pub const F64_200: u64 = 0x4069000000000000;
pub const F64_500: u64 = 0x407f400000000000;
pub const F64_1000: u64 = 0x408f400000000000;
pub const F64_2000: u64 = 0x409f400000000000;
pub const F32_15: u32 = 0x41700000;
pub const F32_25: u32 = 0x41c80000;
pub const F32_50: u32 = 0x42480000;
pub const F32_60: u32 = 0x42700000;
pub const F32_70: u32 = 0x428c0000;
pub const F32_85: u32 = 0x42aa0000;
pub const F32_90: u32 = 0x42b40000;
pub const F32_98: u32 = 0x42c40000;
pub const F32_99: u32 = 0x42c60000;
pub const F32_100: u32 = 0x42c80000;

/// Storage behind the training data.
#[derive(Debug, Clone, Copy, PartialEq, Eq, Structural)]
pub enum StorageType {
    HDD,
    SSD,
    NVMe,
    InMemory,
}

/// What a configuration is tuned for.
#[derive(Debug, Clone, Copy, PartialEq, Eq, Structural)]
pub enum UseCase {
    /// Ultra-low latency.
    RealTimeTrading,
    /// High throughput, moderate latency.
    BackTesting,
    /// Accuracy over speed.
    Research,
    /// Balanced performance and reliability.
    Production,
    /// Maximum speed.
    HighFrequency,
}

/// The machine a profile is meant for. The bandwidth is an `f32` held as its bits.
#[derive(Debug, Clone, Copy, PartialEq, Eq, Structural)]
pub struct HardwareProfile {
    pub cpu_cores: usize,
    pub memory_gb: usize,
    pub has_simd_support: bool,
    pub numa_nodes: usize,
    pub storage_type: StorageType,
    pub estimated_memory_bandwidth_gbps: u32,
}

/// The targets a profile is expected to meet. Latency and throughput are `f64`,
/// the percentages `f32`, each held as its bits.
#[derive(Debug, Clone, Copy, PartialEq, Eq, Structural)]
pub struct PerformanceBaseline {
    pub target_latency_p95_ms: u64,
    pub target_throughput_qps: u64,
    pub target_memory_usage_mb: usize,
    pub target_cpu_utilization_percent: u32,
    pub minimum_accuracy_percent: u32,
}

/// A named configuration for a use case and a machine.
#[derive(Debug)]
pub struct ConfigurationProfile {
    pub name: String,
    pub description: String,
    pub config: LDCConfig,
    pub target_hardware: HardwareProfile,
    pub use_case: UseCase,
    /// Unix time in seconds.
    pub created_at: i64,
    pub performance_baseline: Option<PerformanceBaseline>,
}

/// The profile's fields are the given values.
pub open spec fn profile_is(
    p: ConfigurationProfile,
    name: Seq<char>,
    description: Seq<char>,
    config: LDCConfig,
    hardware: HardwareProfile,
    use_case: UseCase,
    created_at: i64,
    baseline: PerformanceBaseline,
) -> bool {
    &&& p.name@ == name
    &&& p.description@ == description
    &&& p.config == config
    &&& p.target_hardware == hardware
    &&& p.use_case == use_case
    &&& p.created_at == created_at
    &&& p.performance_baseline == Some(baseline)
}

pub open spec fn max_usize(a: int, b: int) -> usize {
    (if a >= b {
        a
    } else {
        b
    }) as usize
}

pub open spec fn min_usize(a: int, b: int) -> usize {
    (if a <= b {
        a
    } else {
        b
    }) as usize
}

// ---------------------------------------------------------------------------
// Recommendations for a machine
// ---------------------------------------------------------------------------

/// Real-time trading: small HNSW graph (when the machine has more than 8 GB), at
/// most 4 dedicated threads, an eighth of the memory (at least 256 MB) as pool.
pub open spec fn realtime_config(hw: HardwareProfile) -> LDCConfig {
    LDCConfig {
        use_hnsw_index: hw.memory_gb > 8,
        hnsw_m: 8,
        hnsw_ef_search: 16,
        use_simd_optimization: hw.has_simd_support,
        max_threads: Some(min_usize(hw.cpu_cores as int, 4)),
        thread_pool_strategy: ThreadPoolStrategy::Dedicated,
        memory_pool_size: max_usize(hw.memory_gb * 1024 / 8, 256),
        parallel_threshold: 50,
        ..default_config()
    }
}

pub open spec fn realtime_baseline(hw: HardwareProfile) -> PerformanceBaseline {
    PerformanceBaseline {
        target_latency_p95_ms: F64_1,
        target_throughput_qps: F64_1000,
        target_memory_usage_mb: (hw.memory_gb * 1024 / 4) as usize,
        target_cpu_utilization_percent: F32_60,
        minimum_accuracy_percent: F32_98,
    }
}

/// Backtesting: HNSW, every core on the global pool, half the memory (at least
/// 512 MB) as pool, memory mapping below 16 GB.
pub open spec fn backtesting_config(hw: HardwareProfile) -> LDCConfig {
    LDCConfig {
        use_hnsw_index: true,
        hnsw_m: 16,
        hnsw_ef_search: 50,
        use_simd_optimization: hw.has_simd_support,
        max_threads: Some(hw.cpu_cores),
        thread_pool_strategy: ThreadPoolStrategy::Global,
        memory_pool_size: max_usize(hw.memory_gb * 1024 / 2, 512),
        parallel_threshold: 100,
        enable_memory_mapping: hw.memory_gb < 16,
        ..default_config()
    }
}

pub open spec fn backtesting_baseline(hw: HardwareProfile) -> PerformanceBaseline {
    PerformanceBaseline {
        target_latency_p95_ms: F64_10,
        target_throughput_qps: F64_500,
        target_memory_usage_mb: (hw.memory_gb * 1024 / 2) as usize,
        target_cpu_utilization_percent: F32_85,
        minimum_accuracy_percent: F32_99,
    }
}

/// Research: exact search, every core on an adaptive pool, a quarter of the memory
/// (at least 256 MB) as pool, debug and performance logging.
pub open spec fn research_config(hw: HardwareProfile) -> LDCConfig {
    LDCConfig {
        use_hnsw_index: false,
        use_simd_optimization: hw.has_simd_support,
        max_threads: Some(hw.cpu_cores),
        thread_pool_strategy: ThreadPoolStrategy::Adaptive,
        memory_pool_size: max_usize(hw.memory_gb * 1024 / 4, 256),
        parallel_threshold: 200,
        enable_debug_logging: true,
        log_performance_metrics: true,
        ..default_config()
    }
}

pub open spec fn research_baseline(hw: HardwareProfile) -> PerformanceBaseline {
    PerformanceBaseline {
        target_latency_p95_ms: F64_50,
        target_throughput_qps: F64_100,
        target_memory_usage_mb: (hw.memory_gb * 1024 / 2) as usize,
        target_cpu_utilization_percent: F32_70,
        minimum_accuracy_percent: F32_100,
    }
}

fn realtime_config_exec(hw: &HardwareProfile) -> (c: LDCConfig)
    requires
        hw.memory_gb * 1024 <= usize::MAX,
    ensures
        c == realtime_config(*hw),
{
    let mut c = LDCConfig::default();
    c.use_hnsw_index = hw.memory_gb > 8;
    c.hnsw_m = 8;
    c.hnsw_ef_search = 16;
    c.use_simd_optimization = hw.has_simd_support;
    c.max_threads = Some(if hw.cpu_cores <= 4 { hw.cpu_cores } else { 4 });
    c.thread_pool_strategy = ThreadPoolStrategy::Dedicated;
    let pool = hw.memory_gb * 1024 / 8;
    c.memory_pool_size = if pool >= 256 { pool } else { 256 };
    c.parallel_threshold = 50;
    c
}

fn backtesting_config_exec(hw: &HardwareProfile) -> (c: LDCConfig)
    requires
        hw.memory_gb * 1024 <= usize::MAX,
    ensures
        c == backtesting_config(*hw),
{
    let mut c = LDCConfig::default();
    c.use_hnsw_index = true;
    c.hnsw_m = 16;
    c.hnsw_ef_search = 50;
    c.use_simd_optimization = hw.has_simd_support;
    c.max_threads = Some(hw.cpu_cores);
    c.thread_pool_strategy = ThreadPoolStrategy::Global;
    let pool = hw.memory_gb * 1024 / 2;
    c.memory_pool_size = if pool >= 512 { pool } else { 512 };
    c.parallel_threshold = 100;
    c.enable_memory_mapping = hw.memory_gb < 16;
    c
}

fn research_config_exec(hw: &HardwareProfile) -> (c: LDCConfig)
    requires
        hw.memory_gb * 1024 <= usize::MAX,
    ensures
        c == research_config(*hw),
{
    let mut c = LDCConfig::default();
    c.use_hnsw_index = false;
    c.use_simd_optimization = hw.has_simd_support;
    c.max_threads = Some(hw.cpu_cores);
    c.thread_pool_strategy = ThreadPoolStrategy::Adaptive;
    let pool = hw.memory_gb * 1024 / 4;
    c.memory_pool_size = if pool >= 256 { pool } else { 256 };
    c.parallel_threshold = 200;
    c.enable_debug_logging = true;
    c.log_performance_metrics = true;
    c
}

/// `out` are the profiles recommended for a use case on a machine, stamped with
/// `created_at` (Unix seconds): real-time trading for real-time and high-frequency
/// use, one each for backtesting and research, none for production.
pub open spec fn recommended(
    out: Seq<ConfigurationProfile>,
    use_case: UseCase,
    hardware: HardwareProfile,
    created_at: i64,
) -> bool {
    match use_case {
        UseCase::RealTimeTrading | UseCase::HighFrequency => out.len() == 1 && profile_is(
            out[0],
            "Real-Time Trading"@,
            "Optimized for ultra-low latency trading applications"@,
            realtime_config(hardware),
            hardware,
            UseCase::RealTimeTrading,
            created_at,
            realtime_baseline(hardware),
        ),
        UseCase::BackTesting => out.len() == 1 && profile_is(
            out[0],
            "Backtesting"@,
            "Optimized for high-throughput backtesting workloads"@,
            backtesting_config(hardware),
            hardware,
            UseCase::BackTesting,
            created_at,
            backtesting_baseline(hardware),
        ),
        UseCase::Research => out.len() == 1 && profile_is(
            out[0],
            "Research"@,
            "Optimized for research with maximum accuracy"@,
            research_config(hardware),
            hardware,
            UseCase::Research,
            created_at,
            research_baseline(hardware),
        ),
        UseCase::Production => out.len() == 0,
    }
}

/// The profiles recommended for a use case on a machine, stamped with `created_at`;
/// see [`recommended`].
pub fn recommend_profiles_at(use_case: UseCase, hardware: &HardwareProfile, created_at: i64) -> (out:
    Vec<ConfigurationProfile>)
    requires
        !(use_case is Production) ==> hardware.memory_gb * 1024 <= usize::MAX,
    ensures
        recommended(out@, use_case, *hardware, created_at),
{
    let mut profiles: Vec<ConfigurationProfile> = Vec::new();
    match use_case {
        UseCase::RealTimeTrading | UseCase::HighFrequency => {
            let config = realtime_config_exec(hardware);
            profiles.push(
                ConfigurationProfile {
                    name: "Real-Time Trading".to_owned(),
                    description: "Optimized for ultra-low latency trading applications".to_owned(),
                    config,
                    target_hardware: *hardware,
                    use_case: UseCase::RealTimeTrading,
                    created_at,
                    performance_baseline: Some(
                        PerformanceBaseline {
                            target_latency_p95_ms: F64_1,
                            target_throughput_qps: F64_1000,
                            target_memory_usage_mb: hardware.memory_gb * 1024 / 4,
                            target_cpu_utilization_percent: F32_60,
                            minimum_accuracy_percent: F32_98,
                        },
                    ),
                },
            );
        },
        UseCase::BackTesting => {
            let config = backtesting_config_exec(hardware);
            profiles.push(
                ConfigurationProfile {
                    name: "Backtesting".to_owned(),
                    description: "Optimized for high-throughput backtesting workloads".to_owned(),
                    config,
                    target_hardware: *hardware,
                    use_case: UseCase::BackTesting,
                    created_at,
                    performance_baseline: Some(
                        PerformanceBaseline {
                            target_latency_p95_ms: F64_10,
                            target_throughput_qps: F64_500,
                            target_memory_usage_mb: hardware.memory_gb * 1024 / 2,
                            target_cpu_utilization_percent: F32_85,
                            minimum_accuracy_percent: F32_99,
                        },
                    ),
                },
            );
        },
        UseCase::Research => {
            let config = research_config_exec(hardware);
            profiles.push(
                ConfigurationProfile {
                    name: "Research".to_owned(),
                    description: "Optimized for research with maximum accuracy".to_owned(),
                    config,
                    target_hardware: *hardware,
                    use_case: UseCase::Research,
                    created_at,
                    performance_baseline: Some(
                        PerformanceBaseline {
                            target_latency_p95_ms: F64_50,
                            target_throughput_qps: F64_100,
                            target_memory_usage_mb: hardware.memory_gb * 1024 / 2,
                            target_cpu_utilization_percent: F32_70,
                            minimum_accuracy_percent: F32_100,
                        },
                    ),
                },
            );
        },
        UseCase::Production => {},
    }
    profiles
}

/// The profiles recommended for a use case on a machine, stamped with the current
/// time (which the clock decides); see [`recommended`].
pub fn generate_configuration_recommendations(use_case: UseCase, hardware: &HardwareProfile) -> (out:
    Vec<ConfigurationProfile>)
    requires
        !(use_case is Production) ==> hardware.memory_gb * 1024 <= usize::MAX,
    ensures
        exists|t: i64| #[trigger] recommended(out@, use_case, *hardware, t),
{
    let now = crate::clock::unix_seconds_now();
    let out = recommend_profiles_at(use_case, hardware, now);
    assert(recommended(out@, use_case, *hardware, now));
    out
}

// ---------------------------------------------------------------------------
// Predefined profiles
// ---------------------------------------------------------------------------

/// The machine the predefined profiles assume unless they name another one.
pub open spec fn default_hardware() -> HardwareProfile {
    HardwareProfile {
        cpu_cores: 8,
        memory_gb: 16,
        has_simd_support: true,
        numa_nodes: 1,
        storage_type: StorageType::SSD,
        estimated_memory_bandwidth_gbps: F32_25,
    }
}

/// The machine of the memory-efficient profile.
pub open spec fn small_hardware() -> HardwareProfile {
    HardwareProfile {
        cpu_cores: 4,
        memory_gb: 4,
        has_simd_support: true,
        numa_nodes: 1,
        storage_type: StorageType::SSD,
        estimated_memory_bandwidth_gbps: F32_15,
    }
}

pub open spec fn ultra_low_latency_config() -> LDCConfig {
    LDCConfig {
        use_hnsw_index: true,
        hnsw_m: 8,
        hnsw_ef_search: 16,
        use_simd_optimization: true,
        max_threads: Some(4usize),
        thread_pool_strategy: ThreadPoolStrategy::Dedicated,
        memory_pool_size: 512,
        parallel_threshold: 50,
        simd_chunk_size: 32,
        ..default_config()
    }
}

pub open spec fn high_throughput_config() -> LDCConfig {
    LDCConfig {
        use_hnsw_index: true,
        hnsw_m: 16,
        hnsw_ef_search: 50,
        use_simd_optimization: true,
        max_threads: Some(16usize),
        thread_pool_strategy: ThreadPoolStrategy::Global,
        memory_pool_size: 1024,
        parallel_threshold: 100,
        enable_memory_mapping: true,
        ..default_config()
    }
}

pub open spec fn memory_efficient_config() -> LDCConfig {
    LDCConfig {
        use_hnsw_index: false,
        use_simd_optimization: true,
        max_threads: Some(4usize),
        thread_pool_strategy: ThreadPoolStrategy::Adaptive,
        memory_pool_size: 128,
        parallel_threshold: 200,
        enable_memory_mapping: true,
        max_bars_back: 10000,
        ..default_config()
    }
}

pub open spec fn research_profile_config() -> LDCConfig {
    LDCConfig {
        use_hnsw_index: false,
        use_simd_optimization: true,
        max_threads: Some(8usize),
        thread_pool_strategy: ThreadPoolStrategy::Adaptive,
        memory_pool_size: 512,
        parallel_threshold: 500,
        enable_debug_logging: true,
        log_performance_metrics: true,
        log_predictions: true,
        ..default_config()
    }
}

/// The configuration of the predefined profile with key `key`, if there is one.
pub open spec fn predefined_config(key: Seq<char>) -> Option<LDCConfig> {
    if key == "ultra-low-latency"@ {
        Some(ultra_low_latency_config())
    } else if key == "high-throughput"@ {
        Some(high_throughput_config())
    } else if key == "memory-efficient"@ {
        Some(memory_efficient_config())
    } else if key == "research"@ {
        Some(research_profile_config())
    } else {
        None
    }
}

fn ultra_low_latency_config_exec() -> (c: LDCConfig)
    ensures
        c == ultra_low_latency_config(),
{
    let mut c = LDCConfig::default();
    c.use_hnsw_index = true;
    c.hnsw_m = 8;
    c.hnsw_ef_search = 16;
    c.use_simd_optimization = true;
    c.max_threads = Some(4);
    c.thread_pool_strategy = ThreadPoolStrategy::Dedicated;
    c.memory_pool_size = 512;
    c.parallel_threshold = 50;
    c.simd_chunk_size = 32;
    c
}

fn high_throughput_config_exec() -> (c: LDCConfig)
    ensures
        c == high_throughput_config(),
{
    let mut c = LDCConfig::default();
    c.use_hnsw_index = true;
    c.hnsw_m = 16;
    c.hnsw_ef_search = 50;
    c.use_simd_optimization = true;
    c.max_threads = Some(16);
    c.thread_pool_strategy = ThreadPoolStrategy::Global;
    c.memory_pool_size = 1024;
    c.parallel_threshold = 100;
    c.enable_memory_mapping = true;
    c
}

fn memory_efficient_config_exec() -> (c: LDCConfig)
    ensures
        c == memory_efficient_config(),
{
    let mut c = LDCConfig::default();
    c.use_hnsw_index = false;
    c.use_simd_optimization = true;
    c.max_threads = Some(4);
    c.thread_pool_strategy = ThreadPoolStrategy::Adaptive;
    c.memory_pool_size = 128;
    c.parallel_threshold = 200;
    c.enable_memory_mapping = true;
    c.max_bars_back = 10000;
    c
}

fn research_profile_config_exec() -> (c: LDCConfig)
    ensures
        c == research_profile_config(),
{
    let mut c = LDCConfig::default();
    c.use_hnsw_index = false;
    c.use_simd_optimization = true;
    c.max_threads = Some(8);
    c.thread_pool_strategy = ThreadPoolStrategy::Adaptive;
    c.memory_pool_size = 512;
    c.parallel_threshold = 500;
    c.enable_debug_logging = true;
    c.log_performance_metrics = true;
    c.log_predictions = true;
    c
}

fn default_hardware_exec() -> (h: HardwareProfile)
    ensures
        h == default_hardware(),
{
    HardwareProfile {
        cpu_cores: 8,
        memory_gb: 16,
        has_simd_support: true,
        numa_nodes: 1,
        storage_type: StorageType::SSD,
        estimated_memory_bandwidth_gbps: F32_25,
    }
}

/// The four predefined profiles, each under its key: `ultra-low-latency`,
/// `high-throughput`, `memory-efficient` and `research`.
pub fn create_predefined_profiles() -> (out: Vec<(String, ConfigurationProfile)>)
    ensures
        out@.len() == 4,
        out@[0].0@ == "ultra-low-latency"@,
        profile_is(
            out@[0].1,
            "Ultra Low Latency"@,
            "Optimized for sub-millisecond query times in high-frequency trading"@,
            ultra_low_latency_config(),
            default_hardware(),
            UseCase::HighFrequency,
            0,
            PerformanceBaseline {
                target_latency_p95_ms: F64_HALF,
                target_throughput_qps: F64_2000,
                target_memory_usage_mb: 1024,
                target_cpu_utilization_percent: F32_50,
                minimum_accuracy_percent: F32_98,
            },
        ),
        out@[1].0@ == "high-throughput"@,
        profile_is(
            out@[1].1,
            "High Throughput"@,
            "Optimized for maximum throughput in backtesting and batch processing"@,
            high_throughput_config(),
            default_hardware(),
            UseCase::BackTesting,
            0,
            PerformanceBaseline {
                target_latency_p95_ms: F64_10,
                target_throughput_qps: F64_1000,
                target_memory_usage_mb: 2048,
                target_cpu_utilization_percent: F32_90,
                minimum_accuracy_percent: F32_99,
            },
        ),
        out@[2].0@ == "memory-efficient"@,
        profile_is(
            out@[2].1,
            "Memory Efficient"@,
            "Optimized for systems with limited memory resources"@,
            memory_efficient_config(),
            small_hardware(),
            UseCase::Production,
            0,
            PerformanceBaseline {
                target_latency_p95_ms: F64_20,
                target_throughput_qps: F64_200,
                target_memory_usage_mb: 512,
                target_cpu_utilization_percent: F32_70,
                minimum_accuracy_percent: F32_100,
            },
        ),
        out@[3].0@ == "research"@,
        profile_is(
            out@[3].1,
            "Research"@,
            "Optimized for research and development with maximum accuracy and detailed logging"@,
            research_profile_config(),
            default_hardware(),
            UseCase::Research,
            0,
            PerformanceBaseline {
                target_latency_p95_ms: F64_100,
                target_throughput_qps: F64_50,
                target_memory_usage_mb: 1024,
                target_cpu_utilization_percent: F32_60,
                minimum_accuracy_percent: F32_100,
            },
        ),
{
    let mut profiles: Vec<(String, ConfigurationProfile)> = Vec::new();
    profiles.push(
        (
            "ultra-low-latency".to_owned(),
            ConfigurationProfile {
                name: "Ultra Low Latency".to_owned(),
                description: "Optimized for sub-millisecond query times in high-frequency trading".to_owned(),
                config: ultra_low_latency_config_exec(),
                target_hardware: default_hardware_exec(),
                use_case: UseCase::HighFrequency,
                created_at: 0,
                performance_baseline: Some(
                    PerformanceBaseline {
                        target_latency_p95_ms: F64_HALF,
                        target_throughput_qps: F64_2000,
                        target_memory_usage_mb: 1024,
                        target_cpu_utilization_percent: F32_50,
                        minimum_accuracy_percent: F32_98,
                    },
                ),
            },
        ),
    );
    profiles.push(
        (
            "high-throughput".to_owned(),
            ConfigurationProfile {
                name: "High Throughput".to_owned(),
                description: "Optimized for maximum throughput in backtesting and batch processing".to_owned(),
                config: high_throughput_config_exec(),
                target_hardware: default_hardware_exec(),
                use_case: UseCase::BackTesting,
                created_at: 0,
                performance_baseline: Some(
                    PerformanceBaseline {
                        target_latency_p95_ms: F64_10,
                        target_throughput_qps: F64_1000,
                        target_memory_usage_mb: 2048,
                        target_cpu_utilization_percent: F32_90,
                        minimum_accuracy_percent: F32_99,
                    },
                ),
            },
        ),
    );
    profiles.push(
        (
            "memory-efficient".to_owned(),
            ConfigurationProfile {
                name: "Memory Efficient".to_owned(),
                description: "Optimized for systems with limited memory resources".to_owned(),
                config: memory_efficient_config_exec(),
                target_hardware: HardwareProfile {
                    cpu_cores: 4,
                    memory_gb: 4,
                    has_simd_support: true,
                    numa_nodes: 1,
                    storage_type: StorageType::SSD,
                    estimated_memory_bandwidth_gbps: F32_15,
                },
                use_case: UseCase::Production,
                created_at: 0,
                performance_baseline: Some(
                    PerformanceBaseline {
                        target_latency_p95_ms: F64_20,
                        target_throughput_qps: F64_200,
                        target_memory_usage_mb: 512,
                        target_cpu_utilization_percent: F32_70,
                        minimum_accuracy_percent: F32_100,
                    },
                ),
            },
        ),
    );
    profiles.push(
        (
            "research".to_owned(),
            ConfigurationProfile {
                name: "Research".to_owned(),
                description: "Optimized for research and development with maximum accuracy and detailed logging".to_owned(),
                config: research_profile_config_exec(),
                target_hardware: default_hardware_exec(),
                use_case: UseCase::Research,
                created_at: 0,
                performance_baseline: Some(
                    PerformanceBaseline {
                        target_latency_p95_ms: F64_100,
                        target_throughput_qps: F64_50,
                        target_memory_usage_mb: 1024,
                        target_cpu_utilization_percent: F32_60,
                        minimum_accuracy_percent: F32_100,
                    },
                ),
            },
        ),
    );
    profiles
}

/// Why a predefined profile could not be applied.
#[derive(Debug, Clone, Copy, PartialEq, Eq, Structural)]
pub enum ProfileError {
    /// No predefined profile has that key.
    UnknownProfile,
    /// The profile's configuration was refused.
    Rejected(ConfigRejection),
}

impl LDCEngine {
    /// Applies the predefined profile with key `profile_name` through
    /// [`LDCEngine::update_config`]; an unknown key changes nothing.
    pub fn apply_predefined_profile(&mut self, profile_name: &str) -> (r: Result<
        ConfigChange,
        ProfileError,
    >)
        ensures
            match predefined_config(profile_name@) {
                None => r == Err::<ConfigChange, ProfileError>(ProfileError::UnknownProfile)
                    && final(self).samples() == old(self).samples() && final(self).cfg() == old(
                    self,
                ).cfg(),
                Some(c) => r == Ok::<ConfigChange, ProfileError>(
                    config_change(old(self).cfg(), corrected_config(c)),
                ) && final(self).cfg() == corrected_config(c) && final(self).samples()
                    == keep_newest(old(self).samples(), corrected_config(c).max_bars_back as nat),
            },
            final(self).hnsw_active() == old(self).hnsw_active(),
            final(self).since_rebuild() == old(self).since_rebuild(),
    {
        let profiles = create_predefined_profiles();
        let wanted = chars_of(profile_name);
        let mut i: usize = 0;
        while i < profiles.len()
            invariant
                i <= profiles@.len(),
                profiles@.len() == 4,
                profiles@[0].0@ == "ultra-low-latency"@,
                profiles@[1].0@ == "high-throughput"@,
                profiles@[2].0@ == "memory-efficient"@,
                profiles@[3].0@ == "research"@,
                profiles@[0].1.config == ultra_low_latency_config(),
                profiles@[1].1.config == high_throughput_config(),
                profiles@[2].1.config == memory_efficient_config(),
                profiles@[3].1.config == research_profile_config(),
                wanted@ == profile_name@,
                self.samples() == old(self).samples(),
                self.cfg() == old(self).cfg(),
                self.hnsw_active() == old(self).hnsw_active(),
                self.since_rebuild() == old(self).since_rebuild(),
                forall|j: int| 0 <= j < i ==> profiles@[j].0@ != profile_name@,
            decreases profiles.len() - i,
        {
            let key = chars_of(profiles[i].0.as_str());
            if chars_equal(&key, &wanted) {
                let config = profiles[i].1.config.duplicate();
                assert(config_rejection(config) is None);
                return match self.update_config(config) {
                    Ok(change) => Ok(change),
                    Err(reason) => Err(ProfileError::Rejected(reason)),
                };
            }
            i = i + 1;
        }
        Err(ProfileError::UnknownProfile)
    }
}

} // verus!
