use vstd::prelude::*;

use std::collections::VecDeque;

use crate::config::{
    config_rejection, corrected_config, validate_config, ConfigRejection, LDCConfig,
    ThreadPoolStrategy,
};
use crate::direction::Direction;
use crate::errors::PerformanceOptimizationError;
use crate::text::{chars_equal, chars_of};
use crate::tuning::{auto_tuned, detect_system_capabilities, SystemCapabilities};
use crate::features::{features_finite, FeatureSeries, TrainingSample};
use crate::knn::{
    ann_neighbors, ann_select, every_fourth, exact_neighbors, exact_select, take_every_fourth,
    Neighbor,
};

verus! {

/// The training window after `x` arrives: the oldest sample leaves when the window
/// is full (a window limited to zero bars still keeps the newest sample).
pub open spec fn ring_push(s: Seq<TrainingSample>, x: TrainingSample, max: nat) -> Seq<
    TrainingSample,
> {
    if s.len() >= max && s.len() > 0 {
        s.drop_first().push(x)
    } else {
        s.push(x)
    }
}

/// Samples since the last HNSW rebuild after a sample arrives in a window of `len`
/// samples: an engine with an index must rebuild it once the window is full, since
/// positions move.
pub open spec fn since_after_push(hnsw_active: bool, len: nat, c: LDCConfig, since: nat) -> nat {
    if hnsw_active && len >= c.max_bars_back {
        c.hnsw_rebuild_threshold as nat
    } else {
        since
    }
}

/// The oldest samples dropped until at most `max` remain.
pub open spec fn keep_newest(s: Seq<TrainingSample>, max: nat) -> Seq<TrainingSample> {
    if s.len() > max {
        s.subrange(s.len() - max, s.len() as int)
    } else {
        s
    }
}

/// The samples a search looks at: every fourth sample when chronological spacing is
/// on, all of them otherwise, and at most `limit` of those.
pub open spec fn search_samples(s: Seq<TrainingSample>, spacing: bool, limit: nat) -> Seq<
    TrainingSample,
> {
    let spaced = if spacing {
        every_fourth(s)
    } else {
        s
    };
    if spaced.len() > limit {
        spaced.take(limit as int)
    } else {
        spaced
    }
}

/// Candidates for the neighbour search: each search sample with the order key of its
/// distance to the query.
pub open spec fn candidates(samples: Seq<TrainingSample>, distances: Seq<u32>) -> Seq<Neighbor> {
    Seq::new(samples.len(), |i: int| Neighbor { distance: distances[i], label: samples[i].label })
}

/// Number of samples with label `d`.
pub open spec fn count_label(s: Seq<TrainingSample>, d: Direction) -> nat
    decreases s.len(),
{
    if s.len() == 0 {
        0
    } else {
        count_label(s.drop_last(), d) + if s.last().label == d {
            1nat
        } else {
            0nat
        }
    }
}

/// The configuration under memory pressure: memory mapping on, and the window halved
/// when no mapped storage could be made; unchanged when mapping was already on.
pub open spec fn pressure_config(c: LDCConfig, mapped_storage_created: bool) -> LDCConfig {
    if c.enable_memory_mapping {
        c
    } else {
        LDCConfig {
            enable_memory_mapping: true,
            max_bars_back: if mapped_storage_created {
                c.max_bars_back
            } else {
                c.max_bars_back / 2
            },
            ..c
        }
    }
}

/// The window size after a forced cleanup: three quarters of the samples, but no
/// fewer than twice the neighbour count.
pub open spec fn reduced_capacity(len: nat, neighbors: nat) -> nat {
    if len * 3 / 4 >= neighbors * 2 {
        len * 3 / 4
    } else {
        neighbors * 2
    }
}

/// The operation that became slow.
#[derive(Debug, Clone, Copy, PartialEq, Eq, Structural)]
pub enum AutoOptimization {
    KnnSearch,
    DistanceCalculation,
    DataAccess,
    MemoryAllocation,
    Other,
}

/// The optimisation for an operation by its name: `knn_search`,
/// `distance_calculation`, `data_access` and `memory_allocation` have their own,
/// any other name the generic one.
pub open spec fn optimization_named(name: Seq<char>) -> AutoOptimization {
    if name == "knn_search"@ {
        AutoOptimization::KnnSearch
    } else if name == "distance_calculation"@ {
        AutoOptimization::DistanceCalculation
    } else if name == "data_access"@ {
        AutoOptimization::DataAccess
    } else if name == "memory_allocation"@ {
        AutoOptimization::MemoryAllocation
    } else {
        AutoOptimization::Other
    }
}

/// The optimisation for the operation named `name`.
pub fn optimization_for(name: &str) -> (op: AutoOptimization)
    ensures
        op == optimization_named(name@),
{
    let n = chars_of(name);
    if chars_equal(&n, &chars_of("knn_search")) {
        AutoOptimization::KnnSearch
    } else if chars_equal(&n, &chars_of("distance_calculation")) {
        AutoOptimization::DistanceCalculation
    } else if chars_equal(&n, &chars_of("data_access")) {
        AutoOptimization::DataAccess
    } else if chars_equal(&n, &chars_of("memory_allocation")) {
        AutoOptimization::MemoryAllocation
    } else {
        AutoOptimization::Other
    }
}

/// For the neighbour search: HNSW on for more than 1000 samples, a parallel
/// threshold above 50 cut to 80% (rounded down), and a dedicated pool in place of
/// the global one.
pub open spec fn knn_fields(c: LDCConfig, samples: nat) -> (bool, usize, ThreadPoolStrategy) {
    (
        if !c.use_hnsw_index && samples > 1000 {
            true
        } else {
            c.use_hnsw_index
        },
        if c.parallel_threshold > 50 {
            (c.parallel_threshold * 4 / 5) as usize
        } else {
            c.parallel_threshold
        },
        if c.thread_pool_strategy == ThreadPoolStrategy::Global {
            ThreadPoolStrategy::Dedicated
        } else {
            c.thread_pool_strategy
        },
    )
}

pub open spec fn knn_optimized(c: LDCConfig, samples: nat) -> LDCConfig {
    let f = knn_fields(c, samples);
    LDCConfig { use_hnsw_index: f.0, parallel_threshold: f.1, thread_pool_strategy: f.2, ..c }
}

fn knn_fields_exec(config: &LDCConfig, samples: usize) -> (f: (bool, usize, ThreadPoolStrategy))
    requires
        config.parallel_threshold < 0x400000,
    ensures
        f == knn_fields(*config, samples as nat),
{
    let hnsw = if !config.use_hnsw_index && samples > 1000 {
        true
    } else {
        config.use_hnsw_index
    };
    let threshold = if config.parallel_threshold > 50 {
        config.parallel_threshold * 4 / 5
    } else {
        config.parallel_threshold
    };
    let strategy = if config.thread_pool_strategy == ThreadPoolStrategy::Global {
        ThreadPoolStrategy::Dedicated
    } else {
        config.thread_pool_strategy
    };
    (hnsw, threshold, strategy)
}

/// Optimises the configuration for the neighbour search with `samples` samples.
pub fn optimize_knn_search_strategy(config: &mut LDCConfig, samples: usize)
    requires
        old(config).parallel_threshold < 0x400000,
    ensures
        *final(config) == knn_optimized(*old(config), samples as nat),
{
    let f = knn_fields_exec(config, samples);
    set_knn_fields(config, f.0, f.1, f.2);
}

fn set_knn_fields(config: &mut LDCConfig, hnsw: bool, threshold: usize, strategy: ThreadPoolStrategy)
    ensures
        *final(config) == (LDCConfig {
            use_hnsw_index: hnsw,
            parallel_threshold: threshold,
            thread_pool_strategy: strategy,
            ..*old(config)
        }),
{
    let base = config.duplicate();
    *config = LDCConfig {
        use_hnsw_index: hnsw,
        parallel_threshold: threshold,
        thread_pool_strategy: strategy,
        ..base
    };
}

/// The configuration after the automatic optimisation for `op`.
pub open spec fn auto_optimized(c: LDCConfig, op: AutoOptimization, samples: nat, memory_mb: nat) -> LDCConfig {
    match op {
        AutoOptimization::KnnSearch => knn_optimized(c, samples),
        AutoOptimization::DataAccess => crate::threading::data_access_optimized(c, samples),
        AutoOptimization::MemoryAllocation => if memory_mb > 1024 {
            LDCConfig { enable_memory_mapping: true, ..c }
        } else {
            c
        },
        AutoOptimization::DistanceCalculation => crate::threading::distance_optimized(c),
        AutoOptimization::Other => crate::threading::generically_optimized(c),
    }
}

fn auto_optimize_config(config: &mut LDCConfig, op: AutoOptimization, samples: usize, memory_mb: usize)
    requires
        old(config).parallel_threshold < 0x400000,
    ensures
        *final(config) == auto_optimized(*old(config), op, samples as nat, memory_mb as nat),
{
    match op {
        AutoOptimization::KnnSearch => optimize_knn_search_strategy(config, samples),
        AutoOptimization::DataAccess => crate::threading::optimize_data_access_pattern(config, samples),
        AutoOptimization::MemoryAllocation => crate::threading::optimize_memory_management(config, memory_mb),
        AutoOptimization::DistanceCalculation => crate::threading::optimize_distance_calculation(config),
        AutoOptimization::Other => crate::threading::apply_generic_optimization(config),
    }
}

/// How the nearest neighbours are searched.
#[derive(Debug, Clone, Copy, PartialEq, Eq, Structural)]
pub enum SearchStrategy {
    /// Through the HNSW index (falling back to an exact search if it fails).
    Hnsw,
    /// Exact search over all candidates, sorted by distance.
    Parallel,
    /// Pine Script's approximate sequential scan.
    Sequential,
}

/// The search an engine with `n` samples uses: HNSW when it is on and available and
/// there are more than 1000 samples; otherwise the parallel exact search when
/// multithreading is on and there are more samples than the parallel threshold;
/// otherwise the sequential scan.
pub open spec fn search_strategy(c: LDCConfig, hnsw_available: bool, n: nat) -> SearchStrategy {
    if c.use_hnsw_index && hnsw_available && n > 1000 {
        SearchStrategy::Hnsw
    } else if c.use_multithreading && n > c.parallel_threshold {
        SearchStrategy::Parallel
    } else {
        SearchStrategy::Sequential
    }
}

/// The search strategy of a prediction whose method is tracked for the metrics:
/// the HNSW index for more than 100 samples, else the exact parallel search when
/// more search samples than the parallel threshold remain, else the sequential scan.
pub open spec fn tracked_strategy(c: LDCConfig, hnsw_available: bool, n: nat, search_n: nat) -> SearchStrategy {
    if hnsw_available && n > 100 {
        SearchStrategy::Hnsw
    } else if c.use_multithreading && search_n > c.parallel_threshold {
        SearchStrategy::Parallel
    } else {
        SearchStrategy::Sequential
    }
}

/// What a configuration change asks of the parts the engine does not hold itself.
#[derive(Debug, Clone, Copy, PartialEq, Eq, Structural)]
pub struct ConfigChange {
    /// The HNSW index must be rebuilt (or removed when HNSW is now off).
    pub needs_hnsw_rebuild: bool,
    pub needs_memory_pool_resize: bool,
    pub needs_thread_pool_update: bool,
}

/// The changes between two configurations that need work outside the engine.
pub open spec fn config_change(old: LDCConfig, new: LDCConfig) -> ConfigChange {
    ConfigChange {
        needs_hnsw_rebuild: old.use_hnsw_index != new.use_hnsw_index || old.hnsw_m != new.hnsw_m
            || old.hnsw_ef_construction != new.hnsw_ef_construction,
        needs_memory_pool_resize: old.memory_pool_size != new.memory_pool_size,
        needs_thread_pool_update: old.thread_pool_strategy != new.thread_pool_strategy
            || old.max_threads != new.max_threads,
    }
}

/// How predictions searched: HNSW and exact queries, vectorised operations, and
/// predictions made in parallel or sequentially.
#[derive(Debug, Clone, Copy, PartialEq, Eq, Structural)]
pub struct QueryCounts {
    pub hnsw_queries: u64,
    pub exact_queries: u64,
    pub simd_operations: u64,
    pub parallel_predictions: u64,
    pub sequential_predictions: u64,
}

/// Training window and configuration of the classifier, with the bookkeeping of its
/// HNSW index (the index itself is held by the caller).
pub struct LDCEngine {
    training_samples: VecDeque<TrainingSample>,
    config: LDCConfig,
    hnsw_active: bool,
    samples_since_hnsw_rebuild: usize,
}

impl LDCEngine {
    /// The training samples, oldest first.
    pub closed spec fn samples(&self) -> Seq<TrainingSample> {
        self.training_samples@
    }

    /// The configuration.
    pub closed spec fn cfg(&self) -> LDCConfig {
        self.config
    }

    /// Whether the engine has an HNSW index.
    pub closed spec fn hnsw_active(&self) -> bool {
        self.hnsw_active
    }

    /// Samples added since the HNSW index was last rebuilt.
    pub closed spec fn since_rebuild(&self) -> nat {
        self.samples_since_hnsw_rebuild as nat
    }

    /// An engine with no samples and the default configuration.
    pub fn new() -> (e: LDCEngine)
        ensures
            e.samples().len() == 0,
            e.cfg() == crate::config::default_config(),
            !e.hnsw_active(),
            e.since_rebuild() == 0,
    {
        Self::with_config(LDCConfig::default())
    }

    /// An engine with no samples and `config`; it keeps an HNSW index when the
    /// configuration asks for one.
    pub fn with_config(config: LDCConfig) -> (e: LDCEngine)
        ensures
            e.samples().len() == 0,
            e.cfg() == config,
            e.hnsw_active() == config.use_hnsw_index,
            e.since_rebuild() == 0,
    {
        let hnsw = config.use_hnsw_index;
        LDCEngine {
            training_samples: VecDeque::new(),
            config,
            hnsw_active: hnsw,
            samples_since_hnsw_rebuild: 0,
        }
    }

    /// Number of training samples.
    pub fn training_samples_count(&self) -> (n: usize)
        ensures
            n == self.samples().len(),
    {
        self.training_samples.len()
    }

    /// The configuration.
    pub fn config(&self) -> (c: &LDCConfig)
        ensures
            *c == self.cfg(),
    {
        &self.config
    }

    /// The HNSW index could not be made or rebuilt: the engine goes on without it.
    pub fn disable_hnsw(&mut self)
        ensures
            !final(self).hnsw_active(),
            final(self).samples() == old(self).samples(),
            final(self).cfg() == old(self).cfg(),
            final(self).since_rebuild() == old(self).since_rebuild(),
    {
        self.hnsw_active = false;
    }

    /// An HNSW index was made for the current samples.
    pub fn hnsw_rebuilt(&mut self)
        ensures
            final(self).hnsw_active(),
            final(self).since_rebuild() == 0,
            final(self).samples() == old(self).samples(),
            final(self).cfg() == old(self).cfg(),
    {
        self.hnsw_active = true;
        self.samples_since_hnsw_rebuild = 0;
    }

    /// Whether the HNSW index can be used: it exists and the configuration enables it.
    pub fn is_hnsw_available(&self) -> (b: bool)
        ensures
            b == (self.hnsw_active() && self.cfg().use_hnsw_index),
    {
        self.hnsw_active && self.config.use_hnsw_index
    }

    /// Adds a labelled sample to the training window. A sample with a feature that is
    /// not finite is refused with a configuration error on `sample.features` (its
    /// value a fixed text, since the feature values are not rendered here). When the window is full the oldest sample leaves; an
    /// engine with an HNSW index then schedules a rebuild, since sample positions moved.
    /// Returns the position the HNSW index should give the new sample (the count
    /// before it arrived).
    pub fn add_training_sample(&mut self, sample: TrainingSample) -> (r: Result<
        usize,
        PerformanceOptimizationError,
    >)
        ensures
            r is Ok <==> features_finite(sample.features),
            r is Err ==> final(self).samples() == old(self).samples() && final(self).since_rebuild()
                == old(self).since_rebuild(),
            r matches Err(e) ==> e is ConfigurationError && e->ConfigurationError_field@
                == "sample.features"@ && e->ConfigurationError_value@ == "non-finite feature values"@
                && e->ConfigurationError_default@ == "valid finite values"@,
            r matches Ok(idx) ==> idx == old(self).samples().len() && final(self).samples()
                == ring_push(old(self).samples(), sample, old(self).cfg().max_bars_back as nat)
                && final(self).since_rebuild() == since_after_push(
                old(self).hnsw_active(),
                old(self).samples().len(),
                old(self).cfg(),
                old(self).since_rebuild(),
            ),
            final(self).cfg() == old(self).cfg(),
            final(self).hnsw_active() == old(self).hnsw_active(),
    {
        if !sample.features.is_valid_for_simd() {
            return Err(
                PerformanceOptimizationError::ConfigurationError {
                    field: "sample.features".to_owned(),
                    value: "non-finite feature values".to_owned(),
                    default: "valid finite values".to_owned(),
                },
            );
        }
        let sample_index = self.training_samples.len();
        self.window_push(sample);
        Ok(sample_index)
    }

    /// Replaces the window by `samples`.
    pub(crate) fn replace_samples(&mut self, samples: Vec<TrainingSample>)
        ensures
            final(self).samples() == samples@,
            final(self).cfg() == old(self).cfg(),
            final(self).hnsw_active() == old(self).hnsw_active(),
            final(self).since_rebuild() == old(self).since_rebuild(),
    {
        let mut window: VecDeque<TrainingSample> = VecDeque::new();
        let mut i: usize = 0;
        while i < samples.len()
            invariant
                i <= samples@.len(),
                window@ == samples@.take(i as int),
            decreases samples.len() - i,
        {
            window.push_back(samples[i]);
            i = i + 1;
            assert(window@ =~= samples@.take(i as int));
        }
        assert(samples@.take(i as int) =~= samples@);
        self.training_samples = window;
    }

    /// Schedules an HNSW rebuild when the engine has an index.
    pub(crate) fn schedule_rebuild(&mut self)
        ensures
            final(self).since_rebuild() == if old(self).hnsw_active() {
                old(self).cfg().hnsw_rebuild_threshold as nat
            } else {
                old(self).since_rebuild()
            },
            final(self).samples() == old(self).samples(),
            final(self).cfg() == old(self).cfg(),
            final(self).hnsw_active() == old(self).hnsw_active(),
    {
        if self.hnsw_active {
            self.samples_since_hnsw_rebuild = self.config.hnsw_rebuild_threshold;
        }
    }

    /// Appends `sample` to the window, the oldest sample leaving when it is full.
    pub(crate) fn window_push(&mut self, sample: TrainingSample)
        ensures
            final(self).samples() == ring_push(
                old(self).samples(),
                sample,
                old(self).cfg().max_bars_back as nat,
            ),
            final(self).since_rebuild() == since_after_push(
                old(self).hnsw_active(),
                old(self).samples().len(),
                old(self).cfg(),
                old(self).since_rebuild(),
            ),
            final(self).cfg() == old(self).cfg(),
            final(self).hnsw_active() == old(self).hnsw_active(),
    {
        if self.training_samples.len() >= self.config.max_bars_back {
            if self.training_samples.len() > 0 {
                let _ = self.training_samples.pop_front();
            }
            if self.hnsw_active {
                self.samples_since_hnsw_rebuild = self.config.hnsw_rebuild_threshold;
            }
        }
        self.training_samples.push_back(sample);
    }

    /// Records the outcome of adding the newest sample to the HNSW index (a failure
    /// schedules a rebuild) and says whether the index should now be rebuilt.
    pub fn record_hnsw_insert(&mut self, inserted: bool) -> (rebuild: bool)
        requires
            old(self).since_rebuild() < usize::MAX,
        ensures
            final(self).since_rebuild() == if inserted {
                old(self).since_rebuild() + 1
            } else {
                old(self).cfg().hnsw_rebuild_threshold as nat
            },
            rebuild == (final(self).since_rebuild() >= old(self).cfg().hnsw_rebuild_threshold),
            final(self).samples() == old(self).samples(),
            final(self).cfg() == old(self).cfg(),
            final(self).hnsw_active() == old(self).hnsw_active(),
    {
        if inserted {
            self.samples_since_hnsw_rebuild = self.samples_since_hnsw_rebuild + 1;
        } else {
            self.samples_since_hnsw_rebuild = self.config.hnsw_rebuild_threshold;
        }
        self.samples_since_hnsw_rebuild >= self.config.hnsw_rebuild_threshold
    }

    /// Memory pressure: memory mapping is switched on; when no mapped storage could be
    /// made the window is halved. Nothing changes when mapping was already on.
    pub fn apply_memory_pressure(&mut self, mapped_storage_created: bool)
        ensures
            final(self).cfg() == pressure_config(old(self).cfg(), mapped_storage_created),
            final(self).samples() == old(self).samples(),
            final(self).hnsw_active() == old(self).hnsw_active(),
            final(self).since_rebuild() == old(self).since_rebuild(),
    {
        if !self.config.enable_memory_mapping {
            let bars = if mapped_storage_created {
                self.config.max_bars_back
            } else {
                self.config.max_bars_back / 2
            };
            self.config.enable_memory_mapping = true;
            self.config.max_bars_back = bars;
        }
    }

    /// Shrinks the training window under memory pressure to three quarters of its
    /// samples, but no fewer than twice the neighbour count, dropping the oldest
    /// first; an engine with an HNSW index then rebuilds it at the next sample.
    pub fn force_memory_cleanup(&mut self)
        requires
            old(self).samples().len() * 3 <= usize::MAX,
            old(self).cfg().neighbors_count * 2 <= usize::MAX,
        ensures
            final(self).samples() == keep_newest(
                old(self).samples(),
                reduced_capacity(old(self).samples().len(), old(self).cfg().neighbors_count as nat),
            ),
            final(self).cfg() == old(self).cfg(),
            final(self).hnsw_active() == old(self).hnsw_active(),
            final(self).since_rebuild() == (if old(self).hnsw_active() {
                old(self).cfg().hnsw_rebuild_threshold as nat
            } else {
                old(self).since_rebuild()
            }),
    {
        let len = self.training_samples.len();
        let quarter_less = len * 3 / 4;
        let floor = self.config.neighbors_count * 2;
        let capacity = if quarter_less >= floor {
            quarter_less
        } else {
            floor
        };
        let ghost start = self.training_samples@;
        let ghost cfg_now = self.config;
        let ghost active = self.hnsw_active;
        let ghost since = self.samples_since_hnsw_rebuild;
        while self.training_samples.len() > capacity
            invariant
                self.config == cfg_now,
                self.hnsw_active == active,
                self.samples_since_hnsw_rebuild == since,
                self.training_samples@.len() >= capacity ==> self.training_samples@
                    == start.subrange(start.len() - self.training_samples@.len(), start.len() as int),
                self.training_samples@.len() <= start.len(),
                start.len() > capacity ==> self.training_samples@.len() >= capacity,
                start.len() <= capacity ==> self.training_samples@ == start,
            decreases self.training_samples.len(),
        {
            let _ = self.training_samples.pop_front();
            assert(self.training_samples@ =~= start.subrange(
                start.len() - self.training_samples@.len(),
                start.len() as int,
            ));
        }
        if self.hnsw_active {
            self.samples_since_hnsw_rebuild = self.config.hnsw_rebuild_threshold;
        }
    }

    /// Applies the automatic optimisation for a slow operation (see
    /// [`auto_optimized`]): HNSW and a faster, dedicated search for the neighbour
    /// search, data-access settings for data access, memory mapping above 1 GB in use
    /// for memory allocation, the vectorised distance in chunks of at least 128 for
    /// distance calculations, and work stealing with an adaptive pool otherwise. Returns
    /// whether the HNSW index must now be built. The parallel threshold is cut in
    /// `f32` arithmetic (80% of it, truncated); below 2^22 that equals the exact 80%
    /// rounded down, hence the bound on it.
    pub fn trigger_automatic_optimization(
        &mut self,
        operation: AutoOptimization,
        current_memory_usage_mb: usize,
    ) -> (build_hnsw: bool)
        requires
            old(self).cfg().parallel_threshold < 0x400000,
        ensures
            final(self).samples() == old(self).samples(),
            final(self).since_rebuild() == old(self).since_rebuild(),
            final(self).cfg() == auto_optimized(
                old(self).cfg(),
                operation,
                old(self).samples().len(),
                current_memory_usage_mb as nat,
            ),
            build_hnsw == (operation == AutoOptimization::KnnSearch && !old(self).cfg().use_hnsw_index
                && old(self).samples().len() > 1000),
            final(self).hnsw_active() == (old(self).hnsw_active() || build_hnsw),
    {
        let n = self.training_samples.len();
        let build = operation == AutoOptimization::KnnSearch && !self.config.use_hnsw_index && n > 1000;
        auto_optimize_config(&mut self.config, operation, n, current_memory_usage_mb);
        if build {
            self.hnsw_active = true;
        }
        build
    }

    /// Removes every training sample.
    pub fn clear_training_data(&mut self)
        ensures
            final(self).samples().len() == 0,
            final(self).cfg() == old(self).cfg(),
            final(self).hnsw_active() == old(self).hnsw_active(),
            final(self).since_rebuild() == old(self).since_rebuild(),
    {
        self.training_samples.clear();
    }

    /// The training samples, oldest first.
    pub fn training_samples(&self) -> (v: Vec<TrainingSample>)
        ensures
            v@ == self.samples(),
    {
        let mut v: Vec<TrainingSample> = Vec::new();
        let mut i: usize = 0;
        while i < self.training_samples.len()
            invariant
                i <= self.training_samples@.len(),
                v@ == self.training_samples@.take(i as int),
            decreases self.training_samples.len() - i,
        {
            v.push(self.training_samples[i]);
            i = i + 1;
            assert(v@ =~= self.training_samples@.take(i as int));
        }
        assert(self.training_samples@.take(i as int) =~= self.training_samples@);
        v
    }

    /// The samples kept by chronological spacing: every fourth, oldest first, or all
    /// of them when spacing is off.
    pub fn get_training_samples_with_spacing(&self) -> (v: Vec<TrainingSample>)
        ensures
            v@ == if self.cfg().use_chronological_spacing {
                every_fourth(self.samples())
            } else {
                self.samples()
            },
    {
        let all = self.training_samples();
        if self.config.use_chronological_spacing {
            take_every_fourth(&all)
        } else {
            all
        }
    }

    /// The samples a neighbour search looks at: the spaced samples, at most
    /// `max_samples` of them (at most `max_bars_back` when no limit is given).
    pub fn get_training_samples_for_search(&self, max_samples: Option<usize>) -> (v: Vec<
        TrainingSample,
    >)
        ensures
            v@ == search_samples(
                self.samples(),
                self.cfg().use_chronological_spacing,
                (match max_samples {
                    Some(m) => m,
                    None => self.cfg().max_bars_back,
                }) as nat,
            ),
    {
        let mut v = self.get_training_samples_with_spacing();
        let limit = match max_samples {
            Some(m) => m,
            None => self.config.max_bars_back,
        };
        if v.len() > limit {
            v.truncate(limit);
        }
        v
    }

    /// Sample statistics: the number of spaced samples, of `Long` labels and of
    /// `Short` labels.
    pub fn get_training_stats(&self) -> (r: (usize, usize, usize))
        ensures
            r.0 == (if self.cfg().use_chronological_spacing {
                every_fourth(self.samples())
            } else {
                self.samples()
            }).len(),
            r.1 == count_label(self.samples(), Direction::Long),
            r.2 == count_label(self.samples(), Direction::Short),
    {
        let spaced = self.get_training_samples_with_spacing();
        let all = self.training_samples();
        let mut long: usize = 0;
        let mut short: usize = 0;
        let mut i: usize = 0;
        while i < all.len()
            invariant
                i <= all@.len(),
                long == count_label(all@.take(i as int), Direction::Long),
                short == count_label(all@.take(i as int), Direction::Short),
                long <= i,
                short <= i,
            decreases all.len() - i,
        {
            assert(all@.take(i as int + 1).drop_last() =~= all@.take(i as int));
            if all[i].label == Direction::Long {
                long = long + 1;
            }
            if all[i].label == Direction::Short {
                short = short + 1;
            }
            i = i + 1;
        }
        assert(all@.take(i as int) =~= all@);
        (spaced.len(), long, short)
    }

    /// The search strategy for the current window.
    pub fn search_strategy(&self) -> (s: SearchStrategy)
        ensures
            s == search_strategy(
                self.cfg(),
                self.hnsw_active() && self.cfg().use_hnsw_index,
                self.samples().len(),
            ),
    {
        let n = self.training_samples.len();
        if self.config.use_hnsw_index && self.is_hnsw_available() && n > 1000 {
            SearchStrategy::Hnsw
        } else if self.config.use_multithreading && n > self.config.parallel_threshold {
            SearchStrategy::Parallel
        } else {
            SearchStrategy::Sequential
        }
    }

    /// The search strategy of a prediction whose method is tracked; see
    /// [`tracked_strategy`].
    pub fn tracked_search_strategy(&self) -> (s: SearchStrategy)
        ensures
            s == tracked_strategy(
                self.cfg(),
                self.hnsw_active() && self.cfg().use_hnsw_index,
                self.samples().len(),
                search_samples(
                    self.samples(),
                    self.cfg().use_chronological_spacing,
                    self.cfg().max_bars_back as nat,
                ).len(),
            ),
    {
        if self.is_hnsw_available() && self.training_samples.len() > 100 {
            SearchStrategy::Hnsw
        } else if self.config.use_multithreading && self.get_training_samples_for_search(None).len()
            > self.config.parallel_threshold {
            SearchStrategy::Parallel
        } else {
            SearchStrategy::Sequential
        }
    }

    /// Counts the search of a tracked prediction: one HNSW query when the graph gave
    /// the neighbours, otherwise one exact query, and one vectorised operation with
    /// SIMD on.
    pub fn count_search(&self, counts: &mut QueryCounts, used_hnsw: bool)
        requires
            old(counts).hnsw_queries < u64::MAX,
            old(counts).exact_queries < u64::MAX,
            old(counts).simd_operations < u64::MAX,
        ensures
            *final(counts) == if used_hnsw {
                QueryCounts { hnsw_queries: (old(counts).hnsw_queries + 1) as u64, ..*old(counts) }
            } else if self.cfg().use_simd_optimization {
                QueryCounts {
                    exact_queries: (old(counts).exact_queries + 1) as u64,
                    simd_operations: (old(counts).simd_operations + 1) as u64,
                    ..*old(counts)
                }
            } else {
                QueryCounts { exact_queries: (old(counts).exact_queries + 1) as u64, ..*old(counts) }
            },
    {
        if used_hnsw {
            counts.hnsw_queries = counts.hnsw_queries + 1;
        } else {
            counts.exact_queries = counts.exact_queries + 1;
            if self.config.use_simd_optimization {
                counts.simd_operations = counts.simd_operations + 1;
            }
        }
    }

    /// Counts a prediction that found neighbours as parallel when multithreading is on
    /// and there are more samples than the parallel threshold, sequential otherwise.
    pub fn count_prediction_mode(&self, counts: &mut QueryCounts)
        requires
            old(counts).parallel_predictions < u64::MAX,
            old(counts).sequential_predictions < u64::MAX,
        ensures
            *final(counts) == if self.cfg().use_multithreading && self.samples().len()
                > self.cfg().parallel_threshold {
                QueryCounts {
                    parallel_predictions: (old(counts).parallel_predictions + 1) as u64,
                    ..*old(counts)
                }
            } else {
                QueryCounts {
                    sequential_predictions: (old(counts).sequential_predictions + 1) as u64,
                    ..*old(counts)
                }
            },
    {
        if self.config.use_multithreading && self.training_samples.len() > self.config.parallel_threshold {
            counts.parallel_predictions = counts.parallel_predictions + 1;
        } else {
            counts.sequential_predictions = counts.sequential_predictions + 1;
        }
    }

    /// Pine Script's sequential scan over the search samples, given the order key of
    /// each one's distance to the query (in search order).
    pub fn select_sequential(&self, distances: &Vec<u32>) -> (out: Vec<Neighbor>)
        requires
            distances@.len() == search_samples(
                self.samples(),
                self.cfg().use_chronological_spacing,
                self.cfg().max_bars_back as nat,
            ).len(),
        ensures
            out@ == ann_neighbors(
                candidates(
                    search_samples(
                        self.samples(),
                        self.cfg().use_chronological_spacing,
                        self.cfg().max_bars_back as nat,
                    ),
                    distances@,
                ),
                self.cfg().neighbors_count as nat,
                self.cfg().use_chronological_spacing,
            ),
    {
        let samples = self.get_training_samples_for_search(None);
        let cands = pair_with_labels(&samples, distances);
        ann_select(&cands, self.config.neighbors_count, self.config.use_chronological_spacing)
    }

    /// The exact search over the search samples (every fourth of them again when
    /// spacing is on), given the order key of each one's distance to the query: the
    /// `neighbors_count` nearest, by distance.
    pub fn select_exact(&self, distances: &Vec<u32>) -> (out: Vec<Neighbor>)
        requires
            distances@.len() == search_samples(
                self.samples(),
                self.cfg().use_chronological_spacing,
                self.cfg().max_bars_back as nat,
            ).len(),
        ensures
            out@ == exact_neighbors(
                {
                    let c = candidates(
                        search_samples(
                            self.samples(),
                            self.cfg().use_chronological_spacing,
                            self.cfg().max_bars_back as nat,
                        ),
                        distances@,
                    );
                    if self.cfg().use_chronological_spacing {
                        every_fourth(c)
                    } else {
                        c
                    }
                },
                self.cfg().neighbors_count as nat,
            ),
    {
        let samples = self.get_training_samples_for_search(None);
        let cands = pair_with_labels(&samples, distances);
        let filtered = if self.config.use_chronological_spacing {
            take_every_fourth(&cands)
        } else {
            cands
        };
        exact_select(&filtered, self.config.neighbors_count)
    }

    /// Corrects the configuration from what was observed at run time and describes
    /// each change (see [`crate::tuning::runtime_corrected`]); the samples stay.
    pub fn validate_and_correct_runtime_config(
        &mut self,
        readings: &crate::tuning::RuntimeReadings,
        caps: &crate::tuning::SystemCapabilities,
    ) -> (corrections: Vec<String>)
        requires
            caps.available_memory_gb * 1024 * 90 <= usize::MAX,
        ensures
            final(self).cfg() == crate::tuning::runtime_corrected(old(self).cfg(), *readings, *caps),
            crate::tuning::texts(corrections@) == crate::tuning::runtime_notes(
                old(self).cfg(),
                *readings,
                *caps,
            ),
            final(self).samples() == old(self).samples(),
            final(self).hnsw_active() == old(self).hnsw_active(),
            final(self).since_rebuild() == old(self).since_rebuild(),
    {
        crate::tuning::correct_runtime_config(&mut self.config, readings, caps)
    }

    /// Applies a new configuration. A configuration without bars, without neighbours
    /// or with a feature count outside 1..=5 is refused and nothing changes; otherwise
    /// its zero values get their defaults, it is tuned for the current samples on this
    /// machine when it asks for automatic tuning, it replaces the current one, the
    /// oldest samples beyond the new window leave, and the work the change needs
    /// elsewhere is returned. Tuning depends on the machine only through its CPU count
    /// and the fixed figures of [`crate::tuning::detect_system_capabilities`].
    pub fn update_config(&mut self, config: LDCConfig) -> (r: Result<ConfigChange, ConfigRejection>)
        ensures
            match config_rejection(config) {
                Some(reason) => r == Err::<ConfigChange, ConfigRejection>(reason)
                    && final(self).samples() == old(self).samples() && final(self).cfg() == old(self).cfg(),
                None => {
                    let fixed = corrected_config(config);
                    &&& r == Ok::<ConfigChange, ConfigRejection>(
                        config_change(old(self).cfg(), final(self).cfg()),
                    )
                    &&& !fixed.enable_auto_tuning ==> final(self).cfg() == fixed
                    &&& fixed.enable_auto_tuning ==> exists|caps: SystemCapabilities|
                        caps.cpu_cores >= 1 && caps.available_memory_gb == 8 && caps.cache_line_size
                            == 64 && final(self).cfg() == #[trigger] auto_tuned(
                            fixed,
                            caps,
                            old(self).samples().len(),
                        )
                    &&& final(self).samples() == keep_newest(
                        old(self).samples(),
                        fixed.max_bars_back as nat,
                    )
                },
            },
            final(self).hnsw_active() == old(self).hnsw_active(),
            final(self).since_rebuild() == old(self).since_rebuild(),
    {
        let mut config = config;
        match validate_config(&mut config) {
            Err(reason) => {
                return Err(reason);
            },
            Ok(()) => {},
        }
        if config.enable_auto_tuning {
            // Tuning reads neither AVX flag, so they are not looked up here.
            let caps = detect_system_capabilities(false, false);
            self.auto_tune_performance_parameters(&mut config, &caps);
        }
        let change = ConfigChange {
            needs_hnsw_rebuild: self.config.use_hnsw_index != config.use_hnsw_index
                || self.config.hnsw_m != config.hnsw_m || self.config.hnsw_ef_construction
                != config.hnsw_ef_construction,
            needs_memory_pool_resize: self.config.memory_pool_size != config.memory_pool_size,
            needs_thread_pool_update: self.config.thread_pool_strategy != config.thread_pool_strategy
                || self.config.max_threads != config.max_threads,
        };
        self.config = config;
        let ghost start = self.training_samples@;
        let ghost cfg_now = self.config;
        let ghost active = self.hnsw_active;
        let ghost since = self.samples_since_hnsw_rebuild;
        while self.training_samples.len() > self.config.max_bars_back
            invariant
                self.config == cfg_now,
                self.hnsw_active == active,
                self.samples_since_hnsw_rebuild == since,
                self.training_samples@.len() >= self.config.max_bars_back ==> self.training_samples@
                    == start.subrange(start.len() - self.training_samples@.len(), start.len() as int),
                self.training_samples@.len() <= start.len(),
                start.len() > self.config.max_bars_back ==> self.training_samples@.len()
                    >= self.config.max_bars_back,
                start.len() <= self.config.max_bars_back ==> self.training_samples@ == start,
            decreases self.training_samples.len(),
        {
            let ghost before = self.training_samples@;
            let _ = self.training_samples.pop_front();
            assert(self.training_samples@ =~= start.subrange(
                start.len() - self.training_samples@.len(),
                start.len() as int,
            ));
        }
        Ok(change)
    }
}

/// Pairs each sample with the order key of its distance.
pub fn pair_with_labels(samples: &Vec<TrainingSample>, distances: &Vec<u32>) -> (out: Vec<Neighbor>)
    requires
        samples@.len() == distances@.len(),
    ensures
        out@ == candidates(samples@, distances@),
{
    let mut out: Vec<Neighbor> = Vec::new();
    let mut i: usize = 0;
    while i < samples.len()
        invariant
            i <= samples@.len(),
            samples@.len() == distances@.len(),
            out@ == candidates(samples@, distances@).take(i as int),
        decreases samples.len() - i,
    {
        out.push(Neighbor { distance: distances[i], label: samples[i].label });
        i = i + 1;
        assert(out@ =~= candidates(samples@, distances@).take(i as int));
    }
    assert(candidates(samples@, distances@).take(i as int) =~= candidates(samples@, distances@));
    out
}

/// The window never holds more than `max(max_bars_back, 1)` samples, and the newest
/// sample is the last one added.
pub proof fn lemma_ring_push(s: Seq<TrainingSample>, x: TrainingSample, max: nat)
    requires
        s.len() <= if max > 0 {
            max
        } else {
            1
        },
    ensures
        ring_push(s, x, max).len() <= if max > 0 {
            max
        } else {
            1
        },
        ring_push(s, x, max).last() == x,
        s.len() < max ==> ring_push(s, x, max) == s.push(x),
{
}

} // verus!
