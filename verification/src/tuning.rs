use vstd::prelude::*;

use crate::config::{LDCConfig, ThreadPoolStrategy};
use crate::engine::LDCEngine;
use crate::text::{decimal, decimal_string, text_with, text_with_two};

verus! {

/// Bytes of one training sample as the engine holds it (five `f32` features, a
/// label, a timestamp and a bar index, padded to 8-byte alignment).
pub const TRAINING_SAMPLE_BYTES: usize = 40;

/// What the engine knows of the machine it runs on.
#[derive(Debug, Clone, Copy, PartialEq, Eq, Structural)]
pub struct SystemCapabilities {
    pub cpu_cores: usize,
    pub available_memory_gb: usize,
    pub has_avx2: bool,
    pub has_avx512: bool,
    pub numa_nodes: usize,
    pub cache_line_size: usize,
    pub page_size: usize,
}

/// Number of CPUs available to this process (`num_cpus::get`); its documentation
/// promises at least one. The count itself depends on the machine.
#[verifier::external_body]
fn available_cpus() -> (n: usize)
    ensures
        n >= 1,
{
    num_cpus::get()
}

/// The machine's capabilities: the CPUs available to the process, a conservative
/// 8 GB of memory, one NUMA node, 64-byte cache lines and 4 KiB pages. Whether the
/// build targets AVX2 and AVX-512 is known at compile time and passed in.
pub fn detect_system_capabilities(has_avx2: bool, has_avx512: bool) -> (caps: SystemCapabilities)
    ensures
        caps.cpu_cores >= 1,
        caps.available_memory_gb == 8,
        caps.has_avx2 == has_avx2,
        caps.has_avx512 == has_avx512,
        caps.numa_nodes == 1,
        caps.cache_line_size == 64,
        caps.page_size == 4096,
{
    SystemCapabilities {
        cpu_cores: available_cpus(),
        available_memory_gb: 8,
        has_avx2,
        has_avx512,
        numa_nodes: 1,
        cache_line_size: 64,
        page_size: 4096,
    }
}

// ---------------------------------------------------------------------------
// Memory estimate
// ---------------------------------------------------------------------------

/// Megabytes of the training window (whole megabytes, rounded down).
pub open spec fn training_memory_mb(c: LDCConfig) -> int {
    (c.max_bars_back as int) * (TRAINING_SAMPLE_BYTES as int) / 1048576int
}

/// Memory a configuration needs, in MB: the training window, the pool, four times
/// the window for an HNSW index, and 100 MB of overhead.
pub open spec fn memory_estimate_mb(c: LDCConfig) -> int {
    let training = training_memory_mb(c);
    training + c.memory_pool_size + (if c.use_hnsw_index {
        training * 4
    } else {
        0
    }) + 100
}

/// Whether the memory estimate of `c` can be computed in `usize`.
pub open spec fn memory_estimate_fits(c: LDCConfig) -> bool {
    c.max_bars_back * TRAINING_SAMPLE_BYTES <= usize::MAX && memory_estimate_mb(c) <= usize::MAX
}

/// The memory a configuration needs, in MB.
pub fn estimate_memory_usage(config: &LDCConfig) -> (mb: usize)
    requires
        memory_estimate_fits(*config),
    ensures
        mb == memory_estimate_mb(*config),
{
    let training = config.max_bars_back * TRAINING_SAMPLE_BYTES / (1024 * 1024);
    let hnsw = if config.use_hnsw_index {
        training * 4
    } else {
        0
    };
    training + config.memory_pool_size + hnsw + 100
}

// ---------------------------------------------------------------------------
// Validation with feedback
// ---------------------------------------------------------------------------

#[derive(Debug, Clone, Copy, PartialEq, Eq, Structural)]
pub enum ErrorSeverity {
    /// Will cause system failure.
    Critical,
    High,
    Medium,
    Low,
}

#[derive(Debug, Clone, Copy, PartialEq, Eq, Structural)]
pub enum PerformanceImpact {
    High,
    Medium,
    Low,
    Negligible,
}

#[derive(Debug, Clone, Copy, PartialEq, Eq, Structural)]
pub enum OptimizationCategory {
    Latency,
    Memory,
    CPU,
    Threading,
    Accuracy,
    General,
}

#[derive(Debug, Clone, Copy, PartialEq, Eq, Structural)]
pub enum RecommendationPriority {
    Low,
    Medium,
    High,
    Critical,
}

/// A setting that makes a configuration unusable, with a value to use instead.
#[derive(Debug)]
pub struct ConfigurationError {
    pub field: String,
    pub current_value: String,
    pub error_message: String,
    pub suggested_value: String,
    pub severity: ErrorSeverity,
}

/// A setting that works but may perform badly, with a better value.
#[derive(Debug)]
pub struct ConfigurationWarning {
    pub field: String,
    pub current_value: String,
    pub warning_message: String,
    pub suggested_value: String,
    pub impact: PerformanceImpact,
}

/// A suggested change.
#[derive(Debug)]
pub struct OptimizationRecommendation {
    pub category: OptimizationCategory,
    pub priority: RecommendationPriority,
    pub description: String,
    pub action: String,
}

/// The outcome of checking a configuration against the machine.
#[derive(Debug)]
pub struct ConfigurationValidationResult {
    pub is_valid: bool,
    pub errors: Vec<ConfigurationError>,
    pub warnings: Vec<ConfigurationWarning>,
    pub recommendations: Vec<OptimizationRecommendation>,
}

/// Field, current value, message, suggested value and severity of an error.
pub type ErrorText = (Seq<char>, Seq<char>, Seq<char>, Seq<char>, ErrorSeverity);

/// Field, current value, message, suggested value and impact of a warning.
pub type WarningText = (Seq<char>, Seq<char>, Seq<char>, Seq<char>, PerformanceImpact);

pub open spec fn error_is(e: ConfigurationError, t: ErrorText) -> bool {
    e.field@ == t.0 && e.current_value@ == t.1 && e.error_message@ == t.2 && e.suggested_value@
        == t.3 && e.severity == t.4
}

pub open spec fn warning_is(w: ConfigurationWarning, t: WarningText) -> bool {
    w.field@ == t.0 && w.current_value@ == t.1 && w.warning_message@ == t.2 && w.suggested_value@
        == t.3 && w.impact == t.4
}

/// Available memory in MB.
pub open spec fn available_mb(caps: SystemCapabilities) -> int {
    caps.available_memory_gb * 1024
}

/// The errors of `c` on `caps`, in order: no bars back; more memory needed than the
/// machine has (half the machine's memory is suggested as pool).
pub open spec fn expected_errors(c: LDCConfig, caps: SystemCapabilities) -> Seq<ErrorText> {
    let required = memory_estimate_mb(c);
    let available = available_mb(caps);
    let bars = if c.max_bars_back == 0 {
        seq![
            ("max_bars_back"@, "0"@, "max_bars_back must be greater than 0"@, "2000"@, ErrorSeverity::Critical),
        ]
    } else {
        Seq::empty()
    };
    let memory = if required > available {
        seq![
            (
                "memory_pool_size"@,
                decimal(c.memory_pool_size as nat),
                "Configuration requires "@ + decimal(required as nat) + "MB but only "@ + decimal(
                    available as nat,
                ) + "MB available"@,
                decimal((available / 2) as nat),
                ErrorSeverity::Critical,
            ),
        ]
    } else {
        Seq::empty()
    };
    bars + memory
}

/// The warnings of `c` on `caps`, in order: a window over 100000 bars; memory over
/// 80% of the machine's; SIMD without AVX2; more than twice as many threads as
/// cores; with HNSW, a construction width under twice M.
pub open spec fn expected_warnings(c: LDCConfig, caps: SystemCapabilities) -> Seq<WarningText> {
    let required = memory_estimate_mb(c);
    let available = available_mb(caps);
    let bars = if c.max_bars_back != 0 && c.max_bars_back > 100000 {
        seq![
            (
                "max_bars_back"@,
                decimal(c.max_bars_back as nat),
                "Very large max_bars_back may cause memory issues"@,
                "50000"@,
                PerformanceImpact::High,
            ),
        ]
    } else {
        Seq::empty()
    };
    let memory = if required <= available && required > available * 80 / 100 {
        seq![
            (
                "memory_pool_size"@,
                decimal(c.memory_pool_size as nat),
                "Configuration uses >80% of available memory"@,
                decimal((available / 2) as nat),
                PerformanceImpact::Medium,
            ),
        ]
    } else {
        Seq::empty()
    };
    let simd = if c.use_simd_optimization && !caps.has_avx2 {
        seq![
            (
                "use_simd_optimization"@,
                "true"@,
                "SIMD optimization enabled but AVX2 not detected"@,
                "false"@,
                PerformanceImpact::Medium,
            ),
        ]
    } else {
        Seq::empty()
    };
    let threads = match c.max_threads {
        Some(t) => if t > caps.cpu_cores * 2 {
            seq![
                (
                    "max_threads"@,
                    decimal(t as nat),
                    "max_threads exceeds 2x CPU cores, may cause contention"@,
                    decimal(caps.cpu_cores as nat),
                    PerformanceImpact::Medium,
                ),
            ]
        } else {
            Seq::empty()
        },
        None => Seq::empty(),
    };
    let hnsw = if c.use_hnsw_index && c.hnsw_ef_construction < c.hnsw_m * 2 {
        seq![
            (
                "hnsw_ef_construction"@,
                decimal(c.hnsw_ef_construction as nat),
                "hnsw_ef_construction should be at least 2x hnsw_m"@,
                decimal((c.hnsw_m * 2) as nat),
                PerformanceImpact::Medium,
            ),
        ]
    } else {
        Seq::empty()
    };
    bars + memory + simd + threads + hnsw
}

/// The inputs on which the checks can be computed without overflow: the memory
/// estimate and the machine's memory in MB; 80 times the latter when the estimate
/// fits in it; twice the cores when a thread limit is set; twice M with HNSW on.
pub open spec fn validation_fits(c: LDCConfig, caps: SystemCapabilities) -> bool {
    &&& memory_estimate_fits(c)
    &&& caps.available_memory_gb * 1024 <= usize::MAX
    &&& memory_estimate_mb(c) <= caps.available_memory_gb * 1024 ==> caps.available_memory_gb * 1024
        * 80 <= usize::MAX
    &&& c.max_threads is Some ==> caps.cpu_cores * 2 <= usize::MAX
    &&& c.use_hnsw_index ==> c.hnsw_m * 2 <= usize::MAX
}

fn push_warning(
    warnings: &mut Vec<ConfigurationWarning>,
    field: &str,
    current_value: String,
    message: &str,
    suggested_value: String,
    impact: PerformanceImpact,
)
    ensures
        final(warnings)@.len() == old(warnings)@.len() + 1,
        forall|i: int| 0 <= i < old(warnings)@.len() ==> final(warnings)@[i] == old(warnings)@[i],
        warning_is(
            final(warnings)@.last(),
            (field@, current_value@, message@, suggested_value@, impact),
        ),
{
    warnings.push(
        ConfigurationWarning {
            field: field.to_owned(),
            current_value,
            warning_message: message.to_owned(),
            suggested_value,
            impact,
        },
    );
}

#[verifier::spinoff_prover]
#[verifier::rlimit(60)]
fn warnings_of(config: &LDCConfig, caps: &SystemCapabilities) -> (warnings: Vec<ConfigurationWarning>)
    requires
        validation_fits(*config, *caps),
    ensures
        warnings@.len() == expected_warnings(*config, *caps).len(),
        forall|i: int|
            0 <= i < warnings@.len() ==> warning_is(
                #[trigger] warnings@[i],
                expected_warnings(*config, *caps)[i],
            ),
{
    let ghost c = *config;
    let ghost s = *caps;
    let mut warnings: Vec<ConfigurationWarning> = Vec::new();
    let ghost mut expected: Seq<WarningText> = Seq::empty();
    if config.max_bars_back != 0 && config.max_bars_back > 100000 {
        push_warning(
            &mut warnings,
            "max_bars_back",
            decimal_string(config.max_bars_back),
            "Very large max_bars_back may cause memory issues",
            "50000".to_owned(),
            PerformanceImpact::High,
        );
        proof {
            reveal_strlit("50000");
            expected = expected.push(
                (
                    "max_bars_back"@,
                    decimal(c.max_bars_back as nat),
                    "Very large max_bars_back may cause memory issues"@,
                    "50000"@,
                    PerformanceImpact::High,
                ),
            );
        }
    }
    let required = estimate_memory_usage(config);
    let available = caps.available_memory_gb * 1024;
    if required <= available && required > available * 80 / 100 {
        push_warning(
            &mut warnings,
            "memory_pool_size",
            decimal_string(config.memory_pool_size),
            "Configuration uses >80% of available memory",
            decimal_string(available / 2),
            PerformanceImpact::Medium,
        );
        proof {
            expected = expected.push(
                (
                    "memory_pool_size"@,
                    decimal(c.memory_pool_size as nat),
                    "Configuration uses >80% of available memory"@,
                    decimal((available / 2) as nat),
                    PerformanceImpact::Medium,
                ),
            );
        }
    }
    if config.use_simd_optimization && !caps.has_avx2 {
        push_warning(
            &mut warnings,
            "use_simd_optimization",
            "true".to_owned(),
            "SIMD optimization enabled but AVX2 not detected",
            "false".to_owned(),
            PerformanceImpact::Medium,
        );
        proof {
            expected = expected.push(
                (
                    "use_simd_optimization"@,
                    "true"@,
                    "SIMD optimization enabled but AVX2 not detected"@,
                    "false"@,
                    PerformanceImpact::Medium,
                ),
            );
        }
    }
    match config.max_threads {
        Some(t) => {
            if t > caps.cpu_cores * 2 {
                push_warning(
                    &mut warnings,
                    "max_threads",
                    decimal_string(t),
                    "max_threads exceeds 2x CPU cores, may cause contention",
                    decimal_string(caps.cpu_cores),
                    PerformanceImpact::Medium,
                );
                proof {
                    expected = expected.push(
                        (
                            "max_threads"@,
                            decimal(t as nat),
                            "max_threads exceeds 2x CPU cores, may cause contention"@,
                            decimal(s.cpu_cores as nat),
                            PerformanceImpact::Medium,
                        ),
                    );
                }
            }
        },
        None => {},
    }
    if config.use_hnsw_index && config.hnsw_ef_construction < config.hnsw_m * 2 {
        push_warning(
            &mut warnings,
            "hnsw_ef_construction",
            decimal_string(config.hnsw_ef_construction),
            "hnsw_ef_construction should be at least 2x hnsw_m",
            decimal_string(config.hnsw_m * 2),
            PerformanceImpact::Medium,
        );
        proof {
            expected = expected.push(
                (
                    "hnsw_ef_construction"@,
                    decimal(c.hnsw_ef_construction as nat),
                    "hnsw_ef_construction should be at least 2x hnsw_m"@,
                    decimal((c.hnsw_m * 2) as nat),
                    PerformanceImpact::Medium,
                ),
            );
        }
    }
    assert(expected =~= expected_warnings(c, s));
    warnings
}

fn errors_of(config: &LDCConfig, caps: &SystemCapabilities) -> (errors: Vec<ConfigurationError>)
    requires
        validation_fits(*config, *caps),
    ensures
        errors@.len() == expected_errors(*config, *caps).len(),
        forall|i: int|
            0 <= i < errors@.len() ==> error_is(
                #[trigger] errors@[i],
                expected_errors(*config, *caps)[i],
            ),
{
    let ghost c = *config;
    let ghost s = *caps;
    let mut errors: Vec<ConfigurationError> = Vec::new();
    let ghost mut expected: Seq<ErrorText> = Seq::empty();
    if config.max_bars_back == 0 {
        errors.push(
            ConfigurationError {
                field: "max_bars_back".to_owned(),
                current_value: "0".to_owned(),
                error_message: "max_bars_back must be greater than 0".to_owned(),
                suggested_value: "2000".to_owned(),
                severity: ErrorSeverity::Critical,
            },
        );
        proof {
            expected = expected.push(
                (
                    "max_bars_back"@,
                    "0"@,
                    "max_bars_back must be greater than 0"@,
                    "2000"@,
                    ErrorSeverity::Critical,
                ),
            );
        }
    }
    let required = estimate_memory_usage(config);
    let available = caps.available_memory_gb * 1024;
    if required > available {
        errors.push(
            ConfigurationError {
                field: "memory_pool_size".to_owned(),
                current_value: decimal_string(config.memory_pool_size),
                error_message: text_with_two(
                    "Configuration requires ",
                    required,
                    "MB but only ",
                    available,
                    "MB available",
                ),
                suggested_value: decimal_string(available / 2),
                severity: ErrorSeverity::Critical,
            },
        );
        proof {
            expected = expected.push(
                (
                    "memory_pool_size"@,
                    decimal(c.memory_pool_size as nat),
                    "Configuration requires "@ + decimal(required as nat) + "MB but only "@
                        + decimal(available as nat) + "MB available"@,
                    decimal((available / 2) as nat),
                    ErrorSeverity::Critical,
                ),
            );
        }
    }
    assert(expected =~= expected_errors(c, s));
    errors
}

/// Recommendations for `c` with `dataset_size` samples: with HNSW on fewer than
/// 1000 samples, a low-priority suggestion to turn it off.
pub open spec fn recommends_dropping_hnsw(c: LDCConfig, dataset_size: nat) -> bool {
    c.use_hnsw_index && dataset_size < 1000
}

/// Whether the checks of [`LDCEngine::validate_config_enhanced`] can be computed
/// for `config` on `caps` without overflow.
pub fn validation_check_fits(config: &LDCConfig, caps: &SystemCapabilities) -> (r: bool)
    ensures
        r == validation_fits(*config, *caps),
{
    let max = usize::MAX as u128;
    let window = config.max_bars_back as u128 * TRAINING_SAMPLE_BYTES as u128;
    let training = window / 1048576;
    let hnsw: u128 = if config.use_hnsw_index {
        training * 4
    } else {
        0
    };
    let estimate = training + config.memory_pool_size as u128 + hnsw + 100;
    let available = caps.available_memory_gb as u128 * 1024;
    window <= max && estimate <= max && available <= max && (estimate > available || available * 80
        <= max) && (config.max_threads.is_none() || caps.cpu_cores as u128 * 2 <= max) && (
    !config.use_hnsw_index || config.hnsw_m as u128 * 2 <= max)
}

impl LDCEngine {
    /// Checks `config` against the machine and the engine's data: the errors that
    /// make it unusable, the warnings, and the recommendations, each with the values
    /// of [`expected_errors`] and [`expected_warnings`]. The configuration is valid
    /// exactly when there is no error.
    pub fn validate_config_enhanced(&self, config: &LDCConfig, system: &SystemCapabilities) -> (r:
        ConfigurationValidationResult)
        requires
            validation_fits(*config, *system),
        ensures
            r.is_valid == (r.errors@.len() == 0),
            r.errors@.len() == expected_errors(*config, *system).len(),
            forall|i: int|
                0 <= i < r.errors@.len() ==> error_is(
                    #[trigger] r.errors@[i],
                    expected_errors(*config, *system)[i],
                ),
            r.warnings@.len() == expected_warnings(*config, *system).len(),
            forall|i: int|
                0 <= i < r.warnings@.len() ==> warning_is(
                    #[trigger] r.warnings@[i],
                    expected_warnings(*config, *system)[i],
                ),
            r.recommendations@.len() == (if recommends_dropping_hnsw(
                *config,
                self.samples().len(),
            ) {
                1int
            } else {
                0int
            }),
            recommends_dropping_hnsw(*config, self.samples().len()) ==> {
                let rec = r.recommendations@[0];
                &&& rec.category == OptimizationCategory::General
                &&& rec.priority == RecommendationPriority::Low
                &&& rec.description@ == "HNSW index may not provide benefits for small datasets"@
                &&& rec.action@ == "Consider disabling HNSW for datasets <1000 samples"@
            },
    {
        let errors = errors_of(config, system);
        let warnings = warnings_of(config, system);
        let mut recommendations: Vec<OptimizationRecommendation> = Vec::new();
        if config.use_hnsw_index && self.training_samples_count() < 1000 {
            recommendations.push(
                OptimizationRecommendation {
                    category: OptimizationCategory::General,
                    priority: RecommendationPriority::Low,
                    description: "HNSW index may not provide benefits for small datasets".to_owned(),
                    action: "Consider disabling HNSW for datasets <1000 samples".to_owned(),
                },
            );
        }
        ConfigurationValidationResult {
            is_valid: errors.len() == 0,
            errors,
            warnings,
            recommendations,
        }
    }

    /// Checks the engine's own configuration; see
    /// [`LDCEngine::validate_config_enhanced`].
    pub fn validate_current_configuration(&self, system: &SystemCapabilities) -> (r:
        ConfigurationValidationResult)
        requires
            validation_fits(self.cfg(), *system),
        ensures
            r.is_valid == (expected_errors(self.cfg(), *system).len() == 0),
            r.errors@.len() == expected_errors(self.cfg(), *system).len(),
            r.warnings@.len() == expected_warnings(self.cfg(), *system).len(),
    {
        self.validate_config_enhanced(self.config(), system)
    }
}

// ---------------------------------------------------------------------------
// Automatic tuning
// ---------------------------------------------------------------------------

pub open spec fn clamp(x: int, lo: int, hi: int) -> int {
    let up = if x >= lo {
        x
    } else {
        lo
    };
    if up <= hi {
        up
    } else {
        hi
    }
}

/// HNSW M for a dataset size: 8 under 10000 samples, 16 under 100000, else 32.
pub open spec fn tuned_hnsw_m(n: nat) -> usize {
    if n < 10000 {
        8
    } else if n < 100000 {
        16
    } else {
        32
    }
}

/// The settings that tuning chooses.
#[derive(Debug, Clone, Copy, PartialEq, Eq, Structural)]
pub struct Tuning {
    pub max_threads: Option<usize>,
    pub parallel_threshold: usize,
    pub simd_chunk_size: usize,
    pub memory_pool_size: usize,
    pub hnsw_m: usize,
    pub hnsw_ef_construction: usize,
    pub hnsw_ef_search: usize,
    pub hnsw_rebuild_threshold: usize,
    pub enable_memory_mapping: bool,
    pub thread_pool_strategy: ThreadPoolStrategy,
}

/// What tuning `c` for `n` samples on `caps` chooses: a thread limit of the core
/// count when none was set; a parallel threshold of samples per core clamped to
/// 50..=500 (when there are samples); a SIMD chunk of a quarter cache line clamped
/// to 32..=256 (with SIMD on); a quarter of the memory as pool, clamped to
/// 128..=2048 MB; HNSW sized by the data (when on, with samples); memory mapping for
/// more than 50000 samples or bars; and the pool strategy by data size and cores.
pub open spec fn tuning(c: LDCConfig, caps: SystemCapabilities, n: nat) -> Tuning {
    let m = tuned_hnsw_m(n);
    let tune_hnsw = c.use_hnsw_index && n > 0;
    Tuning {
        max_threads: if c.max_threads is None {
            Some(caps.cpu_cores)
        } else {
            c.max_threads
        },
        parallel_threshold: if n > 0 {
            clamp((n as int) / (caps.cpu_cores as int), 50, 500) as usize
        } else {
            c.parallel_threshold
        },
        simd_chunk_size: if c.use_simd_optimization {
            clamp((caps.cache_line_size / 4) as int, 32, 256) as usize
        } else {
            c.simd_chunk_size
        },
        memory_pool_size: clamp(caps.available_memory_gb * 1024 / 4, 128, 2048) as usize,
        hnsw_m: if tune_hnsw {
            m
        } else {
            c.hnsw_m
        },
        hnsw_ef_construction: if tune_hnsw {
            (m * 10) as usize
        } else {
            c.hnsw_ef_construction
        },
        hnsw_ef_search: if tune_hnsw {
            (m * 2) as usize
        } else {
            c.hnsw_ef_search
        },
        hnsw_rebuild_threshold: if tune_hnsw {
            clamp((n / 10) as int, 100, 5000) as usize
        } else {
            c.hnsw_rebuild_threshold
        },
        enable_memory_mapping: if n > 50000 || c.max_bars_back > 50000 {
            true
        } else {
            c.enable_memory_mapping
        },
        thread_pool_strategy: if n > 10000 && caps.cpu_cores > 4 {
            ThreadPoolStrategy::Dedicated
        } else if n > 1000 {
            ThreadPoolStrategy::Adaptive
        } else {
            ThreadPoolStrategy::Global
        },
    }
}

/// `c` with the tuned settings `t`.
pub open spec fn with_tuning(c: LDCConfig, t: Tuning) -> LDCConfig {
    LDCConfig {
        max_threads: t.max_threads,
        parallel_threshold: t.parallel_threshold,
        simd_chunk_size: t.simd_chunk_size,
        memory_pool_size: t.memory_pool_size,
        hnsw_m: t.hnsw_m,
        hnsw_ef_construction: t.hnsw_ef_construction,
        hnsw_ef_search: t.hnsw_ef_search,
        hnsw_rebuild_threshold: t.hnsw_rebuild_threshold,
        enable_memory_mapping: t.enable_memory_mapping,
        thread_pool_strategy: t.thread_pool_strategy,
        ..c
    }
}

/// The configuration after tuning `c` for `n` samples on `caps`.
pub open spec fn auto_tuned(c: LDCConfig, caps: SystemCapabilities, n: nat) -> LDCConfig {
    with_tuning(c, tuning(c, caps, n))
}

fn clamp_usize(x: usize, lo: usize, hi: usize) -> (r: usize)
    ensures
        r == clamp(x as int, lo as int, hi as int),
{
    let up = if x >= lo {
        x
    } else {
        lo
    };
    if up <= hi {
        up
    } else {
        hi
    }
}

/// The settings that tuning `config` for `dataset_size` samples on `caps` chooses.
pub fn tuning_for(config: &LDCConfig, caps: &SystemCapabilities, dataset_size: usize) -> (t: Tuning)
    requires
        caps.cpu_cores > 0,
        caps.available_memory_gb * 1024 <= usize::MAX,
    ensures
        t == tuning(*config, *caps, dataset_size as nat),
{
    let max_threads = if config.max_threads.is_none() {
        Some(caps.cpu_cores)
    } else {
        config.max_threads
    };
    let parallel_threshold = if dataset_size > 0 {
        clamp_usize(dataset_size / caps.cpu_cores, 50, 500)
    } else {
        config.parallel_threshold
    };
    let simd_chunk_size = if config.use_simd_optimization {
        clamp_usize(caps.cache_line_size / 4, 32, 256)
    } else {
        config.simd_chunk_size
    };
    let memory_pool_size = clamp_usize(caps.available_memory_gb * 1024 / 4, 128, 2048);
    let tune_hnsw = config.use_hnsw_index && dataset_size > 0;
    let m: usize = if dataset_size < 10000 {
        8
    } else if dataset_size < 100000 {
        16
    } else {
        32
    };
    Tuning {
        max_threads,
        parallel_threshold,
        simd_chunk_size,
        memory_pool_size,
        hnsw_m: if tune_hnsw {
            m
        } else {
            config.hnsw_m
        },
        hnsw_ef_construction: if tune_hnsw {
            m * 10
        } else {
            config.hnsw_ef_construction
        },
        hnsw_ef_search: if tune_hnsw {
            m * 2
        } else {
            config.hnsw_ef_search
        },
        hnsw_rebuild_threshold: if tune_hnsw {
            clamp_usize(dataset_size / 10, 100, 5000)
        } else {
            config.hnsw_rebuild_threshold
        },
        enable_memory_mapping: if dataset_size > 50000 || config.max_bars_back > 50000 {
            true
        } else {
            config.enable_memory_mapping
        },
        thread_pool_strategy: if dataset_size > 10000 && caps.cpu_cores > 4 {
            ThreadPoolStrategy::Dedicated
        } else if dataset_size > 1000 {
            ThreadPoolStrategy::Adaptive
        } else {
            ThreadPoolStrategy::Global
        },
    }
}

fn apply_tuning(config: &mut LDCConfig, t: Tuning)
    ensures
        *final(config) == with_tuning(*old(config), t),
{
    let base = config.duplicate();
    *config = LDCConfig {
        max_threads: t.max_threads,
        parallel_threshold: t.parallel_threshold,
        simd_chunk_size: t.simd_chunk_size,
        memory_pool_size: t.memory_pool_size,
        hnsw_m: t.hnsw_m,
        hnsw_ef_construction: t.hnsw_ef_construction,
        hnsw_ef_search: t.hnsw_ef_search,
        hnsw_rebuild_threshold: t.hnsw_rebuild_threshold,
        enable_memory_mapping: t.enable_memory_mapping,
        thread_pool_strategy: t.thread_pool_strategy,
        ..base
    };
}

/// Tunes `config` for a dataset of `dataset_size` samples on `caps`.
pub fn auto_tune_config(config: &mut LDCConfig, caps: &SystemCapabilities, dataset_size: usize)
    requires
        caps.cpu_cores > 0,
        caps.available_memory_gb * 1024 <= usize::MAX,
    ensures
        *final(config) == auto_tuned(*old(config), *caps, dataset_size as nat),
{
    let t = tuning_for(config, caps, dataset_size);
    apply_tuning(config, t);
}

impl LDCEngine {
    /// Tunes `config` for the engine's current number of samples on `caps`.
    pub fn auto_tune_performance_parameters(&self, config: &mut LDCConfig, caps: &SystemCapabilities)
        requires
            caps.cpu_cores > 0,
            caps.available_memory_gb * 1024 <= usize::MAX,
        ensures
            *final(config) == auto_tuned(*old(config), *caps, self.samples().len()),
    {
        let n = self.training_samples_count();
        auto_tune_config(config, caps, n);
    }
}

// ---------------------------------------------------------------------------
// Corrections at run time
// ---------------------------------------------------------------------------

/// What the engine observed while running. The CPU, latency and accuracy figures
/// are floating-point measurements; the caller compares them with the thresholds.
#[derive(Debug, Clone, Copy, PartialEq, Eq, Structural)]
pub struct RuntimeReadings {
    pub current_memory_usage_mb: usize,
    /// CPU utilisation above 95%.
    pub cpu_saturated: bool,
    /// CPU utilisation below 30%.
    pub cpu_idle: bool,
    /// P95 latency above 20 ms.
    pub latency_high: bool,
    /// HNSW accuracy below 90%.
    pub accuracy_low: bool,
}

/// The thread limit, one when automatic.
pub open spec fn threads_or_one(c: LDCConfig) -> usize {
    match c.max_threads {
        Some(t) => t,
        None => 1,
    }
}

pub open spec fn max_of(a: int, b: int) -> int {
    if a >= b {
        a
    } else {
        b
    }
}

/// Step 1 applies: memory above 90% of the machine's and a pool other than half the
/// memory (at least 128 MB), which becomes the pool.
pub open spec fn memory_pool_target(caps: SystemCapabilities) -> int {
    max_of(available_mb(caps) / 2, 128)
}

pub open spec fn memory_step_applies(c: LDCConfig, r: RuntimeReadings, caps: SystemCapabilities) -> bool {
    r.current_memory_usage_mb > available_mb(caps) * 90 / 100 && memory_pool_target(caps)
        != c.memory_pool_size
}

pub open spec fn memory_step(c: LDCConfig, r: RuntimeReadings, caps: SystemCapabilities) -> LDCConfig {
    LDCConfig {
        memory_pool_size: if memory_step_applies(c, r, caps) {
            memory_pool_target(caps) as usize
        } else {
            c.memory_pool_size
        },
        ..c
    }
}

pub open spec fn memory_note(c: LDCConfig, r: RuntimeReadings, caps: SystemCapabilities) -> Seq<
    Seq<char>,
> {
    if memory_step_applies(c, r, caps) {
        seq![
            "Reduced memory_pool_size to "@ + decimal(memory_pool_target(caps) as nat)
                + "MB due to high memory usage"@,
        ]
    } else {
        Seq::empty()
    }
}

/// Step 2: a saturated CPU with more threads than cores reduces, and an idle CPU
/// with fewer increases, the thread limit to the core count.
pub open spec fn threads_reduced(c: LDCConfig, r: RuntimeReadings, cores: usize) -> bool {
    r.cpu_saturated && threads_or_one(c) > cores
}

pub open spec fn threads_increased(c: LDCConfig, r: RuntimeReadings, cores: usize) -> bool {
    !threads_reduced(c, r, cores) && r.cpu_idle && threads_or_one(c) < cores
}

pub open spec fn thread_step(c: LDCConfig, r: RuntimeReadings, cores: usize) -> LDCConfig {
    LDCConfig {
        max_threads: if threads_reduced(c, r, cores) || threads_increased(c, r, cores) {
            Some(cores)
        } else {
            c.max_threads
        },
        ..c
    }
}

pub open spec fn thread_note(c: LDCConfig, r: RuntimeReadings, cores: usize) -> Seq<
    Seq<char>,
> {
    if threads_reduced(c, r, cores) {
        seq!["Reduced max_threads to "@ + decimal(cores as nat) + " due to high CPU usage"@]
    } else if threads_increased(c, r, cores) {
        seq!["Increased max_threads to "@ + decimal(cores as nat) + " due to low CPU usage"@]
    } else {
        Seq::empty()
    }
}

/// Step 3: with HNSW, high latency halves a search width above 16 (not below 16).
pub open spec fn latency_step_applies(c: LDCConfig, r: RuntimeReadings) -> bool {
    c.use_hnsw_index && r.latency_high && c.hnsw_ef_search > 16
}

pub open spec fn reduced_ef_search(c: LDCConfig) -> int {
    max_of((c.hnsw_ef_search / 2) as int, 16)
}

pub open spec fn latency_step(c: LDCConfig, r: RuntimeReadings) -> LDCConfig {
    if latency_step_applies(c, r) {
        LDCConfig { hnsw_ef_search: reduced_ef_search(c) as usize, ..c }
    } else {
        c
    }
}

pub open spec fn latency_note(c: LDCConfig, r: RuntimeReadings) -> Seq<Seq<char>> {
    if latency_step_applies(c, r) {
        seq!["Reduced hnsw_ef_search to "@ + decimal(reduced_ef_search(c) as nat) + " to improve latency"@]
    } else {
        Seq::empty()
    }
}

/// Step 4: with HNSW, low accuracy doubles a construction width below 400 (up to
/// 400).
pub open spec fn accuracy_step_applies(c: LDCConfig, r: RuntimeReadings) -> bool {
    c.use_hnsw_index && r.accuracy_low && c.hnsw_ef_construction < 400
}

pub open spec fn raised_ef_construction(c: LDCConfig) -> int {
    if c.hnsw_ef_construction * 2 <= 400 {
        c.hnsw_ef_construction * 2
    } else {
        400
    }
}

pub open spec fn accuracy_step(c: LDCConfig, r: RuntimeReadings) -> LDCConfig {
    if accuracy_step_applies(c, r) {
        LDCConfig { hnsw_ef_construction: raised_ef_construction(c) as usize, ..c }
    } else {
        c
    }
}

pub open spec fn accuracy_note(c: LDCConfig, r: RuntimeReadings) -> Seq<Seq<char>> {
    if accuracy_step_applies(c, r) {
        seq![
            "Increased hnsw_ef_construction to "@ + decimal(raised_ef_construction(c) as nat)
                + " to improve accuracy"@,
        ]
    } else {
        Seq::empty()
    }
}

/// The configuration after the four correction steps.
pub open spec fn runtime_corrected(c: LDCConfig, r: RuntimeReadings, caps: SystemCapabilities) -> LDCConfig {
    accuracy_step(latency_step(thread_step(memory_step(c, r, caps), r, caps.cpu_cores), r), r)
}

/// The messages that describe the correction steps, in order.
pub open spec fn runtime_notes(c: LDCConfig, r: RuntimeReadings, caps: SystemCapabilities) -> Seq<
    Seq<char>,
> {
    let c1 = memory_step(c, r, caps);
    let c2 = thread_step(c1, r, caps.cpu_cores);
    let c3 = latency_step(c2, r);
    memory_note(c, r, caps) + thread_note(c1, r, caps.cpu_cores) + latency_note(c2, r) + accuracy_note(c3, r)
}

/// Views of a list of messages.
pub open spec fn texts(v: Seq<String>) -> Seq<Seq<char>> {
    v.map_values(|s: String| s@)
}

fn set_memory_pool(config: &mut LDCConfig, v: usize)
    ensures
        *final(config) == (LDCConfig { memory_pool_size: v, ..*old(config) }),
{
    let base = config.duplicate();
    *config = LDCConfig { memory_pool_size: v, ..base };
}

fn set_max_threads(config: &mut LDCConfig, v: Option<usize>)
    ensures
        *final(config) == (LDCConfig { max_threads: v, ..*old(config) }),
{
    let base = config.duplicate();
    *config = LDCConfig { max_threads: v, ..base };
}

fn set_ef_search(config: &mut LDCConfig, v: usize)
    ensures
        *final(config) == (LDCConfig { hnsw_ef_search: v, ..*old(config) }),
{
    let base = config.duplicate();
    *config = LDCConfig { hnsw_ef_search: v, ..base };
}

fn set_ef_construction(config: &mut LDCConfig, v: usize)
    ensures
        *final(config) == (LDCConfig { hnsw_ef_construction: v, ..*old(config) }),
{
    let base = config.duplicate();
    *config = LDCConfig { hnsw_ef_construction: v, ..base };
}

#[verifier::spinoff_prover]
fn memory_note_exec(
    config: &LDCConfig,
    r: &RuntimeReadings,
    caps: &SystemCapabilities,
    out: &mut Vec<String>,
) -> (applies: bool)
    requires
        caps.available_memory_gb * 1024 * 90 <= usize::MAX,
    ensures
        applies == memory_step_applies(*config, *r, *caps),
        texts(final(out)@) == texts(old(out)@) + memory_note(*config, *r, *caps),
{
    let available = caps.available_memory_gb * 1024;
    let half = available / 2;
    let pool = if half >= 128 {
        half
    } else {
        128
    };
    let applies = r.current_memory_usage_mb > available * 90 / 100 && pool != config.memory_pool_size;
    let ghost before = out@;
    if applies {
        out.push(text_with("Reduced memory_pool_size to ", pool, "MB due to high memory usage"));
    }
    assert(texts(out@) =~= texts(before) + memory_note(*config, *r, *caps));
    applies
}

#[verifier::spinoff_prover]
fn memory_step_exec(
    config: &mut LDCConfig,
    r: &RuntimeReadings,
    caps: &SystemCapabilities,
    out: &mut Vec<String>,
)
    requires
        caps.available_memory_gb * 1024 * 90 <= usize::MAX,
    ensures
        *final(config) == memory_step(*old(config), *r, *caps),
        texts(final(out)@) == texts(old(out)@) + memory_note(*old(config), *r, *caps),
{
    let applies = memory_note_exec(config, r, caps, out);
    let available = caps.available_memory_gb * 1024;
    let half = available / 2;
    let new_pool = if applies {
        if half >= 128 {
            half
        } else {
            128
        }
    } else {
        config.memory_pool_size
    };
    set_memory_pool(config, new_pool);
}

#[verifier::spinoff_prover]
fn thread_note_exec(config: &LDCConfig, r: &RuntimeReadings, cores: usize, out: &mut Vec<String>) -> (changes:
    bool)
    ensures
        changes == (threads_reduced(*config, *r, cores) || threads_increased(*config, *r, cores)),
        texts(final(out)@) == texts(old(out)@) + thread_note(*config, *r, cores),
{
    let threads = match config.max_threads {
        Some(t) => t,
        None => 1,
    };
    let reduce = r.cpu_saturated && threads > cores;
    let increase = !reduce && r.cpu_idle && threads < cores;
    let ghost before = out@;
    if reduce {
        out.push(text_with("Reduced max_threads to ", cores, " due to high CPU usage"));
    } else if increase {
        out.push(text_with("Increased max_threads to ", cores, " due to low CPU usage"));
    }
    assert(texts(out@) =~= texts(before) + thread_note(*config, *r, cores));
    reduce || increase
}

#[verifier::spinoff_prover]
fn thread_step_exec(config: &mut LDCConfig, r: &RuntimeReadings, cores: usize, out: &mut Vec<String>)
    ensures
        *final(config) == thread_step(*old(config), *r, cores),
        texts(final(out)@) == texts(old(out)@) + thread_note(*old(config), *r, cores),
{
    let changes = thread_note_exec(config, r, cores, out);
    let new_threads = if changes {
        Some(cores)
    } else {
        config.max_threads
    };
    set_max_threads(config, new_threads);
}

#[verifier::spinoff_prover]
fn latency_step_exec(config: &mut LDCConfig, r: &RuntimeReadings, out: &mut Vec<String>)
    ensures
        *final(config) == latency_step(*old(config), *r),
        texts(final(out)@) == texts(old(out)@) + latency_note(*old(config), *r),
{
    let ghost before = out@;
    if config.use_hnsw_index && r.latency_high && config.hnsw_ef_search > 16 {
        let half = config.hnsw_ef_search / 2;
        let efs = if half >= 16 {
            half
        } else {
            16
        };
        set_ef_search(config, efs);
        out.push(text_with("Reduced hnsw_ef_search to ", efs, " to improve latency"));
    }
    assert(texts(out@) =~= texts(before) + latency_note(*old(config), *r));
}

#[verifier::spinoff_prover]
fn accuracy_step_exec(config: &mut LDCConfig, r: &RuntimeReadings, out: &mut Vec<String>)
    ensures
        *final(config) == accuracy_step(*old(config), *r),
        texts(final(out)@) == texts(old(out)@) + accuracy_note(*old(config), *r),
{
    let ghost before = out@;
    if config.use_hnsw_index && r.accuracy_low && config.hnsw_ef_construction < 400 {
        let doubled = config.hnsw_ef_construction * 2;
        let efc = if doubled <= 400 {
            doubled
        } else {
            400
        };
        set_ef_construction(config, efc);
        out.push(text_with("Increased hnsw_ef_construction to ", efc, " to improve accuracy"));
    }
    assert(texts(out@) =~= texts(before) + accuracy_note(*old(config), *r));
}

/// Corrects `config` from what was observed at run time: see
/// [`runtime_corrected`]; the messages are [`runtime_notes`].
pub fn correct_runtime_config(
    config: &mut LDCConfig,
    readings: &RuntimeReadings,
    caps: &SystemCapabilities,
) -> (corrections: Vec<String>)
    requires
        caps.available_memory_gb * 1024 * 90 <= usize::MAX,
    ensures
        *final(config) == runtime_corrected(*old(config), *readings, *caps),
        texts(corrections@) == runtime_notes(*old(config), *readings, *caps),
{
    let mut out: Vec<String> = Vec::new();
    assert(texts(out@) =~= Seq::<Seq<char>>::empty());
    memory_step_exec(config, readings, caps, &mut out);
    thread_step_exec(config, readings, caps.cpu_cores, &mut out);
    latency_step_exec(config, readings, &mut out);
    accuracy_step_exec(config, readings, &mut out);
    assert(texts(out@) =~= runtime_notes(*old(config), *readings, *caps));
    out
}

// ---------------------------------------------------------------------------
// Recommendations from measured performance
// ---------------------------------------------------------------------------

/// What the performance metrics show. The latency, CPU, efficiency and accuracy
/// figures are floating-point measurements; the caller compares them with the
/// thresholds.
#[derive(Debug, Clone, Copy, PartialEq, Eq, Structural)]
pub struct MetricReadings {
    /// P95 latency above 10 ms.
    pub latency_high: bool,
    /// P95 latency above 50 ms.
    pub latency_critical: bool,
    pub current_memory_usage_mb: usize,
    /// CPU utilisation below 50%.
    pub cpu_underused: bool,
    /// Thread efficiency below 70%.
    pub threads_inefficient: bool,
    /// HNSW accuracy below 95%.
    pub hnsw_inaccurate: bool,
    pub hnsw_queries: u64,
    pub exact_queries: u64,
}

/// The metric a recommendation is about; its description quotes that metric.
#[derive(Debug, Clone, Copy, PartialEq, Eq, Structural)]
pub enum MetricFinding {
    Latency,
    /// Memory in use and its share of the pool, in whole percent.
    Memory { usage_mb: usize, percent_of_pool: usize },
    CpuUtilization,
    ThreadEfficiency,
    HnswAccuracy,
    /// Fewer than half of the queries used the HNSW index.
    HnswUsage,
}

/// A recommendation drawn from the metrics.
#[derive(Debug)]
pub struct MetricRecommendation {
    pub category: OptimizationCategory,
    pub priority: RecommendationPriority,
    pub finding: MetricFinding,
    pub action: String,
}

/// Category, priority, finding and action of a recommendation.
pub type RecommendationText = (OptimizationCategory, RecommendationPriority, MetricFinding, Seq<char>);

pub open spec fn latency_rec(c: LDCConfig, n: nat, m: MetricReadings) -> Seq<RecommendationText> {
    if m.latency_high {
        seq![
            (
                OptimizationCategory::Latency,
                if m.latency_critical {
                    RecommendationPriority::Critical
                } else {
                    RecommendationPriority::High
                },
                MetricFinding::Latency,
                if !c.use_hnsw_index && n > 1000 {
                    "Enable HNSW indexing to reduce query latency"@
                } else if !c.use_simd_optimization {
                    "Enable SIMD optimization to accelerate distance calculations"@
                } else {
                    "Consider reducing dataset size or increasing parallel_threshold"@
                },
            ),
        ]
    } else {
        Seq::empty()
    }
}

pub open spec fn memory_rec(c: LDCConfig, m: MetricReadings) -> Seq<RecommendationText> {
    if m.current_memory_usage_mb > c.memory_pool_size * 80 / 100 {
        seq![
            (
                OptimizationCategory::Memory,
                RecommendationPriority::Medium,
                MetricFinding::Memory {
                    usage_mb: m.current_memory_usage_mb,
                    percent_of_pool: ((m.current_memory_usage_mb * 100) as int / (
                    c.memory_pool_size as int)) as usize,
                },
                "Increase memory_pool_size or enable memory mapping"@,
            ),
        ]
    } else {
        Seq::empty()
    }
}

pub open spec fn cpu_rec(n: nat, m: MetricReadings) -> Seq<RecommendationText> {
    if m.cpu_underused && n > 100 {
        seq![
            (
                OptimizationCategory::CPU,
                RecommendationPriority::Medium,
                MetricFinding::CpuUtilization,
                "Reduce parallel_threshold or increase max_threads to improve CPU utilization"@,
            ),
        ]
    } else {
        Seq::empty()
    }
}

pub open spec fn thread_rec(c: LDCConfig, m: MetricReadings) -> Seq<RecommendationText> {
    if m.threads_inefficient && c.use_multithreading {
        seq![
            (
                OptimizationCategory::Threading,
                RecommendationPriority::High,
                MetricFinding::ThreadEfficiency,
                "Switch to Dedicated thread pool strategy or adjust max_threads"@,
            ),
        ]
    } else {
        Seq::empty()
    }
}

pub open spec fn accuracy_rec(c: LDCConfig, m: MetricReadings) -> Seq<RecommendationText> {
    if c.use_hnsw_index && m.hnsw_inaccurate {
        seq![
            (
                OptimizationCategory::Accuracy,
                RecommendationPriority::Medium,
                MetricFinding::HnswAccuracy,
                "Increase hnsw_ef_construction or hnsw_m parameters"@,
            ),
        ]
    } else {
        Seq::empty()
    }
}

pub open spec fn usage_rec(c: LDCConfig, m: MetricReadings) -> Seq<RecommendationText> {
    let total = m.hnsw_queries + m.exact_queries;
    if total > 0 && c.use_hnsw_index && m.hnsw_queries * 2 < total {
        seq![
            (
                OptimizationCategory::General,
                RecommendationPriority::Low,
                MetricFinding::HnswUsage,
                "Check HNSW index configuration or dataset size requirements"@,
            ),
        ]
    } else {
        Seq::empty()
    }
}

/// The recommendations for the metrics of an engine with configuration `c` and
/// `n` samples, in order: high latency (critical above 50 ms; enable HNSW with more
/// than 1000 samples, else SIMD, else reduce the data); memory above 80% of the
/// pool; CPU underused with more than 100 samples; inefficient threads with
/// multithreading on; inaccurate HNSW; and HNSW used for fewer than half of the
/// queries.
pub open spec fn metric_recommendations(c: LDCConfig, n: nat, m: MetricReadings) -> Seq<
    RecommendationText,
> {
    latency_rec(c, n, m) + memory_rec(c, m) + cpu_rec(n, m) + thread_rec(c, m) + accuracy_rec(c, m)
        + usage_rec(c, m)
}

/// The category, priority, finding and action of a recommendation.
pub open spec fn rec_view(r: MetricRecommendation) -> RecommendationText {
    (r.category, r.priority, r.finding, r.action@)
}

pub open spec fn rec_views(v: Seq<MetricRecommendation>) -> Seq<RecommendationText> {
    v.map_values(|r: MetricRecommendation| rec_view(r))
}

fn one_rec(
    category: OptimizationCategory,
    priority: RecommendationPriority,
    finding: MetricFinding,
    action: &str,
) -> (out: Vec<MetricRecommendation>)
    ensures
        rec_views(out@) == seq![(category, priority, finding, action@)],
{
    let mut out: Vec<MetricRecommendation> = Vec::new();
    out.push(MetricRecommendation { category, priority, finding, action: action.to_owned() });
    assert(rec_views(out@) =~= seq![(category, priority, finding, action@)]);
    out
}

fn latency_rec_exec(c: &LDCConfig, n: usize, m: &MetricReadings) -> (out: Vec<MetricRecommendation>)
    ensures
        rec_views(out@) == latency_rec(*c, n as nat, *m),
{
    if !m.latency_high {
        let out: Vec<MetricRecommendation> = Vec::new();
        assert(rec_views(out@) =~= Seq::<RecommendationText>::empty());
        return out;
    }
    let priority = if m.latency_critical {
        RecommendationPriority::Critical
    } else {
        RecommendationPriority::High
    };
    let action = if !c.use_hnsw_index && n > 1000 {
        "Enable HNSW indexing to reduce query latency"
    } else if !c.use_simd_optimization {
        "Enable SIMD optimization to accelerate distance calculations"
    } else {
        "Consider reducing dataset size or increasing parallel_threshold"
    };
    one_rec(OptimizationCategory::Latency, priority, MetricFinding::Latency, action)
}

fn memory_rec_exec(c: &LDCConfig, m: &MetricReadings) -> (out: Vec<MetricRecommendation>)
    requires
        c.memory_pool_size * 80 <= usize::MAX,
        m.current_memory_usage_mb * 100 <= usize::MAX,
        c.memory_pool_size > 0 || m.current_memory_usage_mb == 0,
    ensures
        rec_views(out@) == memory_rec(*c, *m),
{
    if m.current_memory_usage_mb > c.memory_pool_size * 80 / 100 {
        let finding = MetricFinding::Memory {
            usage_mb: m.current_memory_usage_mb,
            percent_of_pool: m.current_memory_usage_mb * 100 / c.memory_pool_size,
        };
        one_rec(
            OptimizationCategory::Memory,
            RecommendationPriority::Medium,
            finding,
            "Increase memory_pool_size or enable memory mapping",
        )
    } else {
        let out: Vec<MetricRecommendation> = Vec::new();
        assert(rec_views(out@) =~= Seq::<RecommendationText>::empty());
        out
    }
}

fn rest_recs_exec(c: &LDCConfig, n: usize, m: &MetricReadings) -> (out: Vec<MetricRecommendation>)
    requires
        m.hnsw_queries + m.exact_queries <= u64::MAX,
    ensures
        rec_views(out@) == cpu_rec(n as nat, *m) + thread_rec(*c, *m) + accuracy_rec(*c, *m)
            + usage_rec(*c, *m),
{
    let mut out: Vec<MetricRecommendation> = Vec::new();
    if m.cpu_underused && n > 100 {
        out = one_rec(
            OptimizationCategory::CPU,
            RecommendationPriority::Medium,
            MetricFinding::CpuUtilization,
            "Reduce parallel_threshold or increase max_threads to improve CPU utilization",
        );
    }
    assert(rec_views(out@) =~= cpu_rec(n as nat, *m));
    if m.threads_inefficient && c.use_multithreading {
        let mut more = one_rec(
            OptimizationCategory::Threading,
            RecommendationPriority::High,
            MetricFinding::ThreadEfficiency,
            "Switch to Dedicated thread pool strategy or adjust max_threads",
        );
        append_recs(&mut out, more);
    }
    assert(rec_views(out@) =~= cpu_rec(n as nat, *m) + thread_rec(*c, *m));
    if c.use_hnsw_index && m.hnsw_inaccurate {
        let more = one_rec(
            OptimizationCategory::Accuracy,
            RecommendationPriority::Medium,
            MetricFinding::HnswAccuracy,
            "Increase hnsw_ef_construction or hnsw_m parameters",
        );
        append_recs(&mut out, more);
    }
    assert(rec_views(out@) =~= cpu_rec(n as nat, *m) + thread_rec(*c, *m) + accuracy_rec(*c, *m));
    let total = m.hnsw_queries + m.exact_queries;
    if total > 0 && c.use_hnsw_index && m.hnsw_queries < total - m.hnsw_queries {
        let more = one_rec(
            OptimizationCategory::General,
            RecommendationPriority::Low,
            MetricFinding::HnswUsage,
            "Check HNSW index configuration or dataset size requirements",
        );
        append_recs(&mut out, more);
    }
    assert(rec_views(out@) =~= cpu_rec(n as nat, *m) + thread_rec(*c, *m) + accuracy_rec(*c, *m)
        + usage_rec(*c, *m));
    out
}

fn append_recs(out: &mut Vec<MetricRecommendation>, more: Vec<MetricRecommendation>)
    ensures
        rec_views(final(out)@) == rec_views(old(out)@) + rec_views(more@),
{
    let mut more = more;
    let ghost m = more@;
    out.append(&mut more);
    assert(rec_views(out@) =~= rec_views(old(out)@) + rec_views(m));
}

impl LDCEngine {
    /// Recommendations drawn from the metrics; see [`metric_recommendations`].
    pub fn get_configuration_recommendations_from_metrics(&self, m: &MetricReadings) -> (out: Vec<
        MetricRecommendation,
    >)
        requires
            self.cfg().memory_pool_size * 80 <= usize::MAX,
            m.current_memory_usage_mb * 100 <= usize::MAX,
            m.hnsw_queries + m.exact_queries <= u64::MAX,
            self.cfg().memory_pool_size > 0 || m.current_memory_usage_mb == 0,
        ensures
            rec_views(out@) == metric_recommendations(self.cfg(), self.samples().len(), *m),
    {
        let c = self.config();
        let n = self.training_samples_count();
        let mut out = latency_rec_exec(c, n, m);
        append_recs(&mut out, memory_rec_exec(c, m));
        append_recs(&mut out, rest_recs_exec(c, n, m));
        assert(rec_views(out@) =~= metric_recommendations(self.cfg(), self.samples().len(), *m));
        out
    }
}

} // verus!
