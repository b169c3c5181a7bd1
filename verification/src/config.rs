use vstd::prelude::*;

use crate::errors::PerformanceOptimizationError;
use crate::text::{decimal, text_with};

verus! {

/// How the engine gets its worker threads.
#[derive(Debug, Clone, Copy, PartialEq, Eq, Structural)]
pub enum ThreadPoolStrategy {
    /// The process-wide pool.
    Global,
    /// A pool of the engine's own.
    Dedicated,
    /// Chosen from the workload.
    Adaptive,
}

/// The default thread-pool strategy: the global pool.
pub fn default_thread_pool_strategy() -> (s: ThreadPoolStrategy)
    ensures
        s == ThreadPoolStrategy::Global,
{
    ThreadPoolStrategy::Global
}

/// Bit pattern of the `f32` value -0.1.
pub const F32_MINUS_0_1: u32 = 0xbdcccccd;

/// Bit pattern of the `f32` value 20.0.
pub const F32_20: u32 = 0x41a00000;

/// Bit pattern of the `f32` value 8.0.
pub const F32_8: u32 = 0x41000000;

/// Engine configuration. The three real-valued thresholds hold the IEEE-754 bit
/// patterns of their `f32` values.
#[derive(Debug)]
pub struct LDCConfig {
    pub max_bars_back: usize,
    pub neighbors_count: usize,
    pub feature_count: usize,
    pub use_chronological_spacing: bool,
    pub use_multithreading: bool,
    pub max_threads: Option<usize>,
    pub parallel_threshold: usize,
    pub batch_parallel_threshold: usize,
    pub use_simd_optimization: bool,
    pub simd_chunk_size: usize,
    pub memory_pool_size: usize,
    pub enable_memory_mapping: bool,
    pub use_hnsw_index: bool,
    pub hnsw_m: usize,
    pub hnsw_ef_construction: usize,
    pub hnsw_ef_search: usize,
    pub hnsw_rebuild_threshold: usize,
    pub thread_pool_strategy: ThreadPoolStrategy,
    pub work_stealing_enabled: bool,
    pub numa_aware_allocation: bool,
    pub enable_regime_filter: bool,
    pub enable_adx_filter: bool,
    pub enable_volatility_filter: bool,
    pub regime_threshold: u32,
    pub adx_threshold: u32,
    pub enable_kernel_smoothing: bool,
    pub kernel_lookback: usize,
    pub kernel_relative_weight: u32,
    pub kernel_regression_level: usize,
    pub enable_debug_logging: bool,
    pub log_predictions: bool,
    pub log_performance_metrics: bool,
    pub enable_auto_tuning: bool,
    pub auto_tune_interval_ms: u64,
    pub enable_config_validation: bool,
    pub config_profile_name: Option<String>,
}

/// The default configuration.
pub open spec fn default_config() -> LDCConfig {
    LDCConfig {
        max_bars_back: 2000,
        neighbors_count: 8,
        feature_count: 5,
        use_chronological_spacing: true,
        use_multithreading: true,
        max_threads: None,
        parallel_threshold: 100,
        batch_parallel_threshold: 10,
        use_simd_optimization: true,
        simd_chunk_size: 64,
        memory_pool_size: 256,
        enable_memory_mapping: false,
        use_hnsw_index: false,
        hnsw_m: 16,
        hnsw_ef_construction: 200,
        hnsw_ef_search: 50,
        hnsw_rebuild_threshold: 1000,
        thread_pool_strategy: ThreadPoolStrategy::Global,
        work_stealing_enabled: true,
        numa_aware_allocation: false,
        enable_regime_filter: true,
        enable_adx_filter: false,
        enable_volatility_filter: true,
        regime_threshold: F32_MINUS_0_1,
        adx_threshold: F32_20,
        enable_kernel_smoothing: false,
        kernel_lookback: 8,
        kernel_relative_weight: F32_8,
        kernel_regression_level: 25,
        enable_debug_logging: false,
        log_predictions: false,
        log_performance_metrics: false,
        enable_auto_tuning: false,
        auto_tune_interval_ms: 30000,
        enable_config_validation: true,
        config_profile_name: None,
    }
}

impl LDCConfig {
    /// The default configuration: 2000 bars, 8 neighbours, 5 features, chronological
    /// spacing, multithreading, SIMD, no HNSW, a 256 MB pool.
    pub fn default() -> (c: LDCConfig)
        ensures
            c == default_config(),
    {
        LDCConfig {
            max_bars_back: 2000,
            neighbors_count: 8,
            feature_count: 5,
            use_chronological_spacing: true,
            use_multithreading: true,
            max_threads: None,
            parallel_threshold: 100,
            batch_parallel_threshold: 10,
            use_simd_optimization: true,
            simd_chunk_size: 64,
            memory_pool_size: 256,
            enable_memory_mapping: false,
            use_hnsw_index: false,
            hnsw_m: 16,
            hnsw_ef_construction: 200,
            hnsw_ef_search: 50,
            hnsw_rebuild_threshold: 1000,
            thread_pool_strategy: ThreadPoolStrategy::Global,
            work_stealing_enabled: true,
            numa_aware_allocation: false,
            enable_regime_filter: true,
            enable_adx_filter: false,
            enable_volatility_filter: true,
            regime_threshold: F32_MINUS_0_1,
            adx_threshold: F32_20,
            enable_kernel_smoothing: false,
            kernel_lookback: 8,
            kernel_relative_weight: F32_8,
            kernel_regression_level: 25,
            enable_debug_logging: false,
            log_predictions: false,
            log_performance_metrics: false,
            enable_auto_tuning: false,
            auto_tune_interval_ms: 30000,
            enable_config_validation: true,
            config_profile_name: None,
        }
    }

    /// A copy of the configuration.
    pub fn duplicate(&self) -> (c: LDCConfig)
        ensures
            c == *self,
    {
        let name = match &self.config_profile_name {
            Some(n) => Some(n.clone()),
            None => None,
        };
        LDCConfig {
            max_bars_back: self.max_bars_back,
            neighbors_count: self.neighbors_count,
            feature_count: self.feature_count,
            use_chronological_spacing: self.use_chronological_spacing,
            use_multithreading: self.use_multithreading,
            max_threads: self.max_threads,
            parallel_threshold: self.parallel_threshold,
            batch_parallel_threshold: self.batch_parallel_threshold,
            use_simd_optimization: self.use_simd_optimization,
            simd_chunk_size: self.simd_chunk_size,
            memory_pool_size: self.memory_pool_size,
            enable_memory_mapping: self.enable_memory_mapping,
            use_hnsw_index: self.use_hnsw_index,
            hnsw_m: self.hnsw_m,
            hnsw_ef_construction: self.hnsw_ef_construction,
            hnsw_ef_search: self.hnsw_ef_search,
            hnsw_rebuild_threshold: self.hnsw_rebuild_threshold,
            thread_pool_strategy: self.thread_pool_strategy,
            work_stealing_enabled: self.work_stealing_enabled,
            numa_aware_allocation: self.numa_aware_allocation,
            enable_regime_filter: self.enable_regime_filter,
            enable_adx_filter: self.enable_adx_filter,
            enable_volatility_filter: self.enable_volatility_filter,
            regime_threshold: self.regime_threshold,
            adx_threshold: self.adx_threshold,
            enable_kernel_smoothing: self.enable_kernel_smoothing,
            kernel_lookback: self.kernel_lookback,
            kernel_relative_weight: self.kernel_relative_weight,
            kernel_regression_level: self.kernel_regression_level,
            enable_debug_logging: self.enable_debug_logging,
            log_predictions: self.log_predictions,
            log_performance_metrics: self.log_performance_metrics,
            enable_auto_tuning: self.enable_auto_tuning,
            auto_tune_interval_ms: self.auto_tune_interval_ms,
            enable_config_validation: self.enable_config_validation,
            config_profile_name: name,
        }
    }
}

// ---------------------------------------------------------------------------
// Repairing a configuration in place
// ---------------------------------------------------------------------------

/// The configuration with out-of-range tuning values replaced by safe defaults: a
/// zero thread limit becomes automatic, a limit above 128 becomes 128, a zero SIMD
/// chunk 64, a pool above 16384 MB 1024 MB, and zero HNSW parameters 16/200/50.
pub open spec fn fixed_config(c: LDCConfig) -> LDCConfig {
    LDCConfig {
        max_threads: match c.max_threads {
            Some(t) => if t == 0 {
                None
            } else if t > 128 {
                Some(128usize)
            } else {
                Some(t)
            },
            None => None,
        },
        simd_chunk_size: if c.simd_chunk_size == 0 {
            64
        } else {
            c.simd_chunk_size
        },
        memory_pool_size: if c.memory_pool_size > 16384 {
            1024
        } else {
            c.memory_pool_size
        },
        hnsw_m: if c.hnsw_m == 0 {
            16
        } else {
            c.hnsw_m
        },
        hnsw_ef_construction: if c.hnsw_ef_construction == 0 {
            200
        } else {
            c.hnsw_ef_construction
        },
        hnsw_ef_search: if c.hnsw_ef_search == 0 {
            50
        } else {
            c.hnsw_ef_search
        },
        ..c
    }
}

/// `s` with `name` appended when `cond` holds.
/// Field, value and default of a configuration error.
pub type ErrorNote = (Seq<char>, Seq<char>, Seq<char>);

pub open spec fn note_if(s: Seq<ErrorNote>, cond: bool, note: ErrorNote) -> Seq<ErrorNote> {
    if cond {
        s.push(note)
    } else {
        s
    }
}

/// The errors `fixed_config` reports, in the order the fields are checked: the field,
/// the value found and the value used instead.
pub open spec fn repaired_notes(c: LDCConfig) -> Seq<ErrorNote> {
    let s1 = match c.max_threads {
        Some(t) => if t == 0 {
            seq![("max_threads"@, "0"@, "None (auto-detect)"@)]
        } else if t > 128 {
            seq![("max_threads"@, decimal(t as nat), "128"@)]
        } else {
            Seq::empty()
        },
        None => Seq::empty(),
    };
    let s2 = note_if(s1, c.simd_chunk_size == 0, ("simd_chunk_size"@, "0"@, "64"@));
    let s3 = note_if(
        s2,
        c.memory_pool_size > 16384,
        ("memory_pool_size"@, decimal(c.memory_pool_size as nat) + "MB"@, "1024MB"@),
    );
    let s4 = note_if(s3, c.hnsw_m == 0, ("hnsw_m"@, "0"@, "16"@));
    let s5 = note_if(s4, c.hnsw_ef_construction == 0, ("hnsw_ef_construction"@, "0"@, "200"@));
    note_if(s5, c.hnsw_ef_search == 0, ("hnsw_ef_search"@, "0"@, "50"@))
}

/// Field, value and default of each configuration error of a list.
pub open spec fn error_notes(es: Seq<PerformanceOptimizationError>) -> Seq<ErrorNote> {
    Seq::new(es.len(), |i: int| error_note(es[i]))
}

/// Every error of the list is a configuration error.
pub open spec fn all_config_errors(es: Seq<PerformanceOptimizationError>) -> bool {
    forall|i: int| 0 <= i < es.len() ==> (#[trigger] es[i]) is ConfigurationError
}

/// Field, value and default of a configuration error.
pub open spec fn error_note(e: PerformanceOptimizationError) -> ErrorNote {
    match e {
        PerformanceOptimizationError::ConfigurationError { field, value, default } => (
            field@,
            value@,
            default@,
        ),
        _ => (Seq::empty(), Seq::empty(), Seq::empty()),
    }
}

fn push_config_error(
    errors: &mut Vec<PerformanceOptimizationError>,
    field: &str,
    value: String,
    default: &str,
)
    requires
        all_config_errors(old(errors)@),
    ensures
        all_config_errors(final(errors)@),
        error_notes(final(errors)@) == error_notes(old(errors)@).push((field@, value@, default@)),
{
    let ghost v = value@;
    errors.push(
        PerformanceOptimizationError::ConfigurationError {
            field: field.to_owned(),
            value,
            default: default.to_owned(),
        },
    );
    assert(error_notes(errors@) =~= error_notes(old(errors)@).push((field@, v, default@)));
}

/// Repairs out-of-range tuning values in place and reports one configuration error
/// per repaired field, in the order the fields are checked, with the value found
/// and the value used instead; see [`repaired_notes`].
pub fn validate_and_fix_config(config: &mut LDCConfig) -> (errors: Vec<PerformanceOptimizationError>)
    ensures
        *final(config) == fixed_config(*old(config)),
        all_config_errors(errors@),
        error_notes(errors@) == repaired_notes(*old(config)),
{
    let mut errors: Vec<PerformanceOptimizationError> = Vec::new();
    assert(error_notes(errors@) =~= Seq::<ErrorNote>::empty());
    let new_threads = fix_max_threads(&mut errors, config.max_threads);
    let new_chunk = fix_zero(&mut errors, config.simd_chunk_size, "simd_chunk_size", "64", 64);
    let new_pool = fix_pool(&mut errors, config.memory_pool_size);
    let new_m = fix_zero(&mut errors, config.hnsw_m, "hnsw_m", "16", 16);
    let new_efc = fix_zero(&mut errors, config.hnsw_ef_construction, "hnsw_ef_construction", "200", 200);
    let new_efs = fix_zero(&mut errors, config.hnsw_ef_search, "hnsw_ef_search", "50", 50);
    config.max_threads = new_threads;
    config.simd_chunk_size = new_chunk;
    config.memory_pool_size = new_pool;
    config.hnsw_m = new_m;
    config.hnsw_ef_construction = new_efc;
    config.hnsw_ef_search = new_efs;
    errors
}

fn fix_max_threads(errors: &mut Vec<PerformanceOptimizationError>, t: Option<usize>) -> (r: Option<
    usize,
>)
    requires
        all_config_errors(old(errors)@),
        error_notes(old(errors)@).len() == 0,
    ensures
        all_config_errors(final(errors)@),
        error_notes(final(errors)@) == match t {
            Some(n) => if n == 0 {
                seq![("max_threads"@, "0"@, "None (auto-detect)"@)]
            } else if n > 128 {
                seq![("max_threads"@, decimal(n as nat), "128"@)]
            } else {
                Seq::<ErrorNote>::empty()
            },
            None => Seq::<ErrorNote>::empty(),
        },
        r == match t {
            Some(n) => if n == 0 {
                None
            } else if n > 128 {
                Some(128usize)
            } else {
                Some(n)
            },
            None => None,
        },
{
    let ghost e0 = error_notes(errors@);
    assert(e0 =~= Seq::<ErrorNote>::empty());
    match t {
        Some(n) => {
            if n == 0 {
                push_config_error(errors, "max_threads", "0".to_owned(), "None (auto-detect)");
                assert(error_notes(errors@) =~= seq![("max_threads"@, "0"@, "None (auto-detect)"@)]);
                None
            } else if n > 128 {
                let value = text_with("", n, "");
                proof {
                    reveal_strlit("");
                    assert(value@ =~= decimal(n as nat));
                }
                push_config_error(errors, "max_threads", value, "128");
                assert(error_notes(errors@) =~= seq![("max_threads"@, decimal(n as nat), "128"@)]);
                Some(128)
            } else {
                Some(n)
            }
        },
        None => None,
    }
}

fn fix_zero(
    errors: &mut Vec<PerformanceOptimizationError>,
    v: usize,
    field: &str,
    default_text: &str,
    default: usize,
) -> (r: usize)
    requires
        all_config_errors(old(errors)@),
    ensures
        all_config_errors(final(errors)@),
        error_notes(final(errors)@) == note_if(
            error_notes(old(errors)@),
            v == 0,
            (field@, "0"@, default_text@),
        ),
        r == if v == 0 {
            default
        } else {
            v
        },
{
    if v == 0 {
        push_config_error(errors, field, "0".to_owned(), default_text);
        default
    } else {
        v
    }
}

fn fix_pool(errors: &mut Vec<PerformanceOptimizationError>, v: usize) -> (r: usize)
    requires
        all_config_errors(old(errors)@),
    ensures
        all_config_errors(final(errors)@),
        error_notes(final(errors)@) == note_if(
            error_notes(old(errors)@),
            v > 16384,
            ("memory_pool_size"@, decimal(v as nat) + "MB"@, "1024MB"@),
        ),
        r == if v > 16384 {
            1024
        } else {
            v
        },
{
    if v > 16384 {
        let value = text_with("", v, "MB");
        proof {
            reveal_strlit("");
            assert(value@ =~= decimal(v as nat) + "MB"@);
        }
        push_config_error(errors, "memory_pool_size", value, "1024MB");
        1024
    } else {
        v
    }
}

/// After repair every tuning value is in range, and repairing again changes nothing.
pub proof fn lemma_fixed_config_in_range(c: LDCConfig)
    ensures
        fixed_config(c).max_threads matches Some(t) ==> 1 <= t <= 128,
        fixed_config(c).simd_chunk_size > 0,
        fixed_config(c).memory_pool_size <= 16384,
        fixed_config(c).hnsw_m > 0,
        fixed_config(c).hnsw_ef_construction > 0,
        fixed_config(c).hnsw_ef_search > 0,
        fixed_config(fixed_config(c)) == fixed_config(c),
        repaired_notes(fixed_config(c)).len() == 0,
{
}

// ---------------------------------------------------------------------------
// Validation before a configuration is applied
// ---------------------------------------------------------------------------

/// Why a configuration is refused.
#[derive(Debug, Clone, Copy, PartialEq, Eq, Structural)]
pub enum ConfigRejection {
    ZeroMaxBarsBack,
    ZeroNeighborsCount,
    FeatureCountOutOfRange,
}

/// The reason a configuration cannot be applied, if any.
pub open spec fn config_rejection(c: LDCConfig) -> Option<ConfigRejection> {
    if c.max_bars_back == 0 {
        Some(ConfigRejection::ZeroMaxBarsBack)
    } else if c.neighbors_count == 0 {
        Some(ConfigRejection::ZeroNeighborsCount)
    } else if c.feature_count == 0 || c.feature_count > 5 {
        Some(ConfigRejection::FeatureCountOutOfRange)
    } else {
        None
    }
}

/// A configuration that can be applied, with zero values replaced by defaults:
/// SIMD chunk 64, pool 256 MB, thresholds 100 and 10, a zero thread limit made
/// automatic, and, when HNSW is on, M 16, construction 200, search 50, rebuild 1000,
/// and a search width of at most the construction width.
pub open spec fn corrected_config(c: LDCConfig) -> LDCConfig {
    let m = if c.use_hnsw_index && c.hnsw_m == 0 {
        16
    } else {
        c.hnsw_m
    };
    let efc = if c.use_hnsw_index && c.hnsw_ef_construction == 0 {
        200
    } else {
        c.hnsw_ef_construction
    };
    let efs0 = if c.use_hnsw_index && c.hnsw_ef_search == 0 {
        50
    } else {
        c.hnsw_ef_search
    };
    let efs = if c.use_hnsw_index && efs0 > efc {
        efc
    } else {
        efs0
    };
    LDCConfig {
        simd_chunk_size: if c.simd_chunk_size == 0 {
            64
        } else {
            c.simd_chunk_size
        },
        memory_pool_size: if c.memory_pool_size == 0 {
            256
        } else {
            c.memory_pool_size
        },
        hnsw_m: m,
        hnsw_ef_construction: efc,
        hnsw_ef_search: efs,
        hnsw_rebuild_threshold: if c.use_hnsw_index && c.hnsw_rebuild_threshold == 0 {
            1000
        } else {
            c.hnsw_rebuild_threshold
        },
        max_threads: if c.max_threads == Some(0usize) {
            None
        } else {
            c.max_threads
        },
        parallel_threshold: if c.parallel_threshold == 0 {
            100
        } else {
            c.parallel_threshold
        },
        batch_parallel_threshold: if c.batch_parallel_threshold == 0 {
            10
        } else {
            c.batch_parallel_threshold
        },
        ..c
    }
}

/// Checks a configuration before it is applied: it is refused when it has no bars,
/// no neighbours, or a feature count outside 1..=5; otherwise zero values are
/// replaced by their defaults in place.
pub fn validate_config(config: &mut LDCConfig) -> (r: Result<(), ConfigRejection>)
    ensures
        match config_rejection(*old(config)) {
            Some(reason) => r == Err::<(), ConfigRejection>(reason) && *final(config) == *old(config),
            None => r is Ok && *final(config) == corrected_config(*old(config)),
        },
{
    if config.max_bars_back == 0 {
        return Err(ConfigRejection::ZeroMaxBarsBack);
    }
    if config.neighbors_count == 0 {
        return Err(ConfigRejection::ZeroNeighborsCount);
    }
    if config.feature_count == 0 || config.feature_count > 5 {
        return Err(ConfigRejection::FeatureCountOutOfRange);
    }
    let hnsw = config.use_hnsw_index;
    let m = if hnsw && config.hnsw_m == 0 {
        16
    } else {
        config.hnsw_m
    };
    let efc = if hnsw && config.hnsw_ef_construction == 0 {
        200
    } else {
        config.hnsw_ef_construction
    };
    let efs0 = if hnsw && config.hnsw_ef_search == 0 {
        50
    } else {
        config.hnsw_ef_search
    };
    let efs = if hnsw && efs0 > efc {
        efc
    } else {
        efs0
    };
    let rebuild = if hnsw && config.hnsw_rebuild_threshold == 0 {
        1000
    } else {
        config.hnsw_rebuild_threshold
    };
    let threads = match config.max_threads {
        Some(t) => if t == 0 {
            None
        } else {
            Some(t)
        },
        None => None,
    };
    let chunk = if config.simd_chunk_size == 0 {
        64
    } else {
        config.simd_chunk_size
    };
    let pool = if config.memory_pool_size == 0 {
        256
    } else {
        config.memory_pool_size
    };
    let par = if config.parallel_threshold == 0 {
        100
    } else {
        config.parallel_threshold
    };
    let batch = if config.batch_parallel_threshold == 0 {
        10
    } else {
        config.batch_parallel_threshold
    };
    config.simd_chunk_size = chunk;
    config.memory_pool_size = pool;
    config.hnsw_m = m;
    config.hnsw_ef_construction = efc;
    config.hnsw_ef_search = efs;
    config.hnsw_rebuild_threshold = rebuild;
    config.max_threads = threads;
    config.parallel_threshold = par;
    config.batch_parallel_threshold = batch;
    Ok(())
}

/// The message of a refusal.
pub fn rejection_message(r: ConfigRejection) -> (m: &'static str)
    ensures
        m@ == match r {
            ConfigRejection::ZeroMaxBarsBack => "max_bars_back must be greater than 0"@,
            ConfigRejection::ZeroNeighborsCount => "neighbors_count must be greater than 0"@,
            ConfigRejection::FeatureCountOutOfRange => "feature_count must be between 1 and 5"@,
        },
{
    match r {
        ConfigRejection::ZeroMaxBarsBack => "max_bars_back must be greater than 0",
        ConfigRejection::ZeroNeighborsCount => "neighbors_count must be greater than 0",
        ConfigRejection::FeatureCountOutOfRange => "feature_count must be between 1 and 5",
    }
}

/// A corrected configuration passes validation again unchanged.
pub proof fn lemma_corrected_config_stable(c: LDCConfig)
    requires
        config_rejection(c) is None,
    ensures
        config_rejection(corrected_config(c)) is None,
        corrected_config(corrected_config(c)) == corrected_config(c),
        corrected_config(c).simd_chunk_size > 0,
        corrected_config(c).memory_pool_size > 0,
        corrected_config(c).parallel_threshold > 0,
        corrected_config(c).batch_parallel_threshold > 0,
        corrected_config(c).use_hnsw_index ==> corrected_config(c).hnsw_ef_search
            <= corrected_config(c).hnsw_ef_construction,
{
}


/// Every configuration that validation accepts has bars back, neighbours and
/// between one and five features, and so does the configuration applied in its
/// place; a configuration with bars and neighbours but more than five features, or
/// none, is refused for its feature count.
pub proof fn lemma_accepted_feature_count(c: LDCConfig)
    ensures
        config_rejection(c) is None ==> c.max_bars_back > 0 && c.neighbors_count > 0 && 1
            <= c.feature_count <= 5,
        config_rejection(c) is None ==> 1 <= corrected_config(c).feature_count <= 5,
        c.max_bars_back > 0 && c.neighbors_count > 0 && (c.feature_count == 0 || c.feature_count
            > 5) ==> config_rejection(c) == Some(ConfigRejection::FeatureCountOutOfRange),
{
}

} // verus!
