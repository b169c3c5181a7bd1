use ldc_engine::config::LDCConfig;
use ldc_engine::direction::Direction;
use ldc_engine::engine::{optimization_for, AutoOptimization, LDCEngine, SearchStrategy};
use ldc_engine::features::{FeatureSeries, OptimizedTrainingSample, TrainingSample};
use ldc_engine::knn::Neighbor;
use ldc_engine::perf_report::{ReportFinding, ReportReadings};
use ldc_engine::threading::{
    assess_workload_characteristics, clamp_thread_count, intensity_adjusted_threads, ComputationIntensity,
    WorkloadCharacteristics,
};

fn features(v: f32) -> FeatureSeries {
    FeatureSeries {
        f1: v.to_bits(),
        f2: v.to_bits(),
        f3: v.to_bits(),
        f4: v.to_bits(),
        f5: v.to_bits(),
    }
}

fn sample(i: usize, label: Direction) -> TrainingSample {
    TrainingSample { features: features(i as f32), label, timestamp: i as i64, bar_index: i }
}

#[test]
fn test_ldc_engine_creation() {
    let engine = LDCEngine::new();
    assert_eq!(engine.config().max_bars_back, 2000);
    assert_eq!(engine.config().neighbors_count, 8);
    assert_eq!(engine.training_samples_count(), 0);
}

#[test]
fn test_add_training_sample() {
    let mut engine = LDCEngine::new();
    let s = TrainingSample {
        features: FeatureSeries {
            f1: 1.0f32.to_bits(),
            f2: 2.0f32.to_bits(),
            f3: 3.0f32.to_bits(),
            f4: 4.0f32.to_bits(),
            f5: 5.0f32.to_bits(),
        },
        label: Direction::Long,
        timestamp: 1000,
        bar_index: 0,
    };
    let _ = engine.add_training_sample(s);
    assert_eq!(engine.training_samples_count(), 1);
}

#[test]
fn test_direction_conversion() {
    assert_eq!(Direction::from(-1), Direction::Short);
    assert_eq!(Direction::from(0), Direction::Neutral);
    assert_eq!(Direction::from(1), Direction::Long);

    assert_eq!(i32::from(Direction::Short), -1);
    assert_eq!(i32::from(Direction::Neutral), 0);
    assert_eq!(i32::from(Direction::Long), 1);
}

#[test]
fn test_feature_series_conversion() {
    let fs = FeatureSeries {
        f1: 1.0f32.to_bits(),
        f2: 2.0f32.to_bits(),
        f3: 3.0f32.to_bits(),
        f4: 4.0f32.to_bits(),
        f5: 5.0f32.to_bits(),
    };
    let arr = fs.to_array();
    assert_eq!(
        arr,
        [1.0f32.to_bits(), 2.0f32.to_bits(), 3.0f32.to_bits(), 4.0f32.to_bits(), 5.0f32.to_bits()]
    );
    let back = FeatureSeries::from_array(arr);
    assert_eq!(f32::from_bits(back.f1), 1.0);
    assert_eq!(f32::from_bits(back.f5), 5.0);
}

#[test]
fn test_ring_buffer_management() {
    let mut engine = LDCEngine::new();
    for i in 0..10 {
        // Every sample is labelled long (the price rises from 100 to 105).
        engine.add_training_sample(sample(i, Direction::Long)).unwrap();
    }
    assert_eq!(engine.training_samples_count(), 10);

    let spaced = engine.get_training_samples_with_spacing();
    assert_eq!(spaced.len(), 3);

    let (spaced_count, long_count, short_count) = engine.get_training_stats();
    assert_eq!(spaced_count, 3);
    assert_eq!(long_count, 10);
    assert_eq!(short_count, 0);
}

#[test]
fn test_ring_buffer_overflow() {
    let mut config = LDCConfig::default();
    config.max_bars_back = 5;
    let mut engine = LDCEngine::with_config(config);
    for i in 0..10 {
        engine.add_training_sample(sample(i, Direction::Long)).unwrap();
    }
    assert_eq!(engine.training_samples_count(), 5);
    let samples = engine.training_samples();
    assert_eq!(samples[0].bar_index, 5);
    assert_eq!(samples[4].bar_index, 9);
}

#[test]
fn test_clear_training_data() {
    let mut engine = LDCEngine::new();
    engine.add_training_sample(sample(1, Direction::Long)).unwrap();
    assert_eq!(engine.training_samples_count(), 1);
    engine.clear_training_data();
    assert_eq!(engine.training_samples_count(), 0);
}

#[test]
fn test_workload_assessment() {
    let mut engine = LDCEngine::new();
    let mut config = LDCConfig::default();
    config.thread_pool_strategy = ldc_engine::config::ThreadPoolStrategy::Adaptive;
    config.use_simd_optimization = true;
    config.use_hnsw_index = false;
    engine.update_config(config).unwrap();

    let workload = assess_workload_characteristics(engine.config(), engine.training_samples_count());
    assert_eq!(workload.dataset_size, 0);
    assert!(matches!(workload.computation_intensity, ComputationIntensity::Medium));
    assert!(f32::from_bits(workload.parallelization_efficiency) < 1.0);

    for i in 0..100 {
        let _ = engine.add_training_sample(sample(i, Direction::Long));
    }
    let workload = assess_workload_characteristics(engine.config(), engine.training_samples_count());
    assert_eq!(workload.dataset_size, 100);
    assert!(f32::from_bits(workload.parallelization_efficiency) > 0.5);
}

#[test]
fn test_optimized_training_sample_conversion() {
    let written = TrainingSample {
        features: FeatureSeries {
            f1: 1.0f32.to_bits(),
            f2: 2.0f32.to_bits(),
            f3: 3.0f32.to_bits(),
            f4: 4.0f32.to_bits(),
            f5: 5.0f32.to_bits(),
        },
        label: Direction::Long,
        timestamp: 1234567890,
        bar_index: 42,
    };
    let optimized = OptimizedTrainingSample::from_training_sample(&written);
    let back = optimized.to_training_sample();
    assert_eq!(written.features.f1, back.features.f1);
    assert_eq!(written.features.f2, back.features.f2);
    assert_eq!(written.features.f3, back.features.f3);
    assert_eq!(written.features.f4, back.features.f4);
    assert_eq!(written.features.f5, back.features.f5);
    assert_eq!(written.label, back.label);
    assert_eq!(written.timestamp, back.timestamp);
    assert_eq!(written.bar_index, back.bar_index);
}

// ---------------------------------------------------------------------------
// Further cases
// ---------------------------------------------------------------------------

#[test]
fn non_finite_sample_is_refused() {
    let mut engine = LDCEngine::new();
    let mut s = sample(3, Direction::Short);
    s.features.f2 = f32::NAN.to_bits();
    assert!(engine.add_training_sample(s).is_err());
    s.features.f2 = f32::INFINITY.to_bits();
    assert!(engine.add_training_sample(s).is_err());
    assert_eq!(engine.training_samples_count(), 0);
}

#[test]
fn add_returns_position_before_insert() {
    let mut engine = LDCEngine::new();
    assert_eq!(engine.add_training_sample(sample(0, Direction::Long)).unwrap(), 0);
    assert_eq!(engine.add_training_sample(sample(1, Direction::Long)).unwrap(), 1);
}

#[test]
fn window_never_exceeds_limit() {
    let mut config = LDCConfig::default();
    config.max_bars_back = 3;
    let mut engine = LDCEngine::with_config(config);
    for i in 0..20 {
        engine.add_training_sample(sample(i, Direction::Neutral)).unwrap();
        assert!(engine.training_samples_count() <= 3);
    }
    let kept: Vec<usize> = engine.training_samples().iter().map(|s| s.bar_index).collect();
    assert_eq!(kept, vec![17, 18, 19]);
}

#[test]
fn update_config_refuses_bad_values_and_trims_window() {
    let mut engine = LDCEngine::new();
    for i in 0..10 {
        engine.add_training_sample(sample(i, Direction::Long)).unwrap();
    }
    let mut bad = LDCConfig::default();
    bad.neighbors_count = 0;
    assert!(engine.update_config(bad).is_err());
    assert_eq!(engine.config().neighbors_count, 8);

    let mut smaller = LDCConfig::default();
    smaller.max_bars_back = 4;
    smaller.memory_pool_size = 0;
    let change = engine.update_config(smaller).unwrap();
    assert!(change.needs_memory_pool_resize == false);
    assert_eq!(engine.config().memory_pool_size, 256);
    assert_eq!(engine.training_samples_count(), 4);
    assert_eq!(engine.training_samples()[0].bar_index, 6);
}

#[test]
fn exact_selection_orders_by_distance_and_keeps_ties_in_order() {
    let mut config = LDCConfig::default();
    config.neighbors_count = 3;
    config.use_chronological_spacing = false;
    let mut engine = LDCEngine::with_config(config);
    engine.add_training_sample(sample(0, Direction::Long)).unwrap();
    engine.add_training_sample(sample(1, Direction::Short)).unwrap();
    engine.add_training_sample(sample(2, Direction::Neutral)).unwrap();
    engine.add_training_sample(sample(3, Direction::Long)).unwrap();
    let distances = vec![5.0f32.to_bits(), 1.0f32.to_bits(), 5.0f32.to_bits(), 0.5f32.to_bits()];
    let picked = engine.select_exact(&distances);
    assert_eq!(
        picked,
        vec![
            Neighbor { distance: 0.5f32.to_bits(), label: Direction::Long },
            Neighbor { distance: 1.0f32.to_bits(), label: Direction::Short },
            Neighbor { distance: 5.0f32.to_bits(), label: Direction::Long },
        ]
    );
}

#[test]
fn vote_sums_labels() {
    let ns = vec![
        Neighbor { distance: 1, label: Direction::Long },
        Neighbor { distance: 2, label: Direction::Long },
        Neighbor { distance: 3, label: Direction::Short },
    ];
    let (signal, direction) = ldc_engine::knn::vote(&ns);
    assert_eq!(signal, 1);
    assert_eq!(direction, Direction::Long);
    let (signal, direction) = ldc_engine::knn::vote(&Vec::new());
    assert_eq!(signal, 0);
    assert_eq!(direction, Direction::Neutral);
}

#[test]
fn force_cleanup_keeps_three_quarters() {
    let mut engine = LDCEngine::new();
    for i in 0..100 {
        engine.add_training_sample(sample(i, Direction::Long)).unwrap();
    }
    engine.force_memory_cleanup();
    assert_eq!(engine.training_samples_count(), 75);
    assert_eq!(engine.training_samples()[0].bar_index, 25);

    let mut small = LDCEngine::new();
    for i in 0..10 {
        small.add_training_sample(sample(i, Direction::Long)).unwrap();
    }
    // Twice the eight neighbours is more than three quarters of ten.
    small.force_memory_cleanup();
    assert_eq!(small.training_samples_count(), 10);
}

#[test]
fn slow_distance_calculation_turns_on_vectorised_chunks() {
    let mut config = LDCConfig::default();
    config.use_simd_optimization = false;
    config.simd_chunk_size = 64;
    let mut engine = LDCEngine::with_config(config);
    let build = engine.trigger_automatic_optimization(AutoOptimization::DistanceCalculation, 0);
    assert!(!build);
    assert!(engine.config().use_simd_optimization);
    assert_eq!(engine.config().simd_chunk_size, 128);

    let mut config = LDCConfig::default();
    config.simd_chunk_size = 256;
    let mut engine = LDCEngine::with_config(config);
    engine.trigger_automatic_optimization(AutoOptimization::DistanceCalculation, 0);
    assert_eq!(engine.config().simd_chunk_size, 256);
}

#[test]
fn slow_knn_search_builds_hnsw_for_large_windows() {
    let mut engine = LDCEngine::new();
    for i in 0..1001 {
        engine.add_training_sample(sample(i, Direction::Long)).unwrap();
    }
    let build = engine.trigger_automatic_optimization(AutoOptimization::KnnSearch, 0);
    assert!(build);
    assert!(engine.config().use_hnsw_index);
    assert_eq!(engine.config().parallel_threshold, 80);
    assert!(engine.is_hnsw_available());

    let mut small = LDCEngine::new();
    small.add_training_sample(sample(1, Direction::Long)).unwrap();
    assert!(!small.trigger_automatic_optimization(AutoOptimization::KnnSearch, 0));
    assert!(!small.config().use_hnsw_index);
}

#[test]
fn slow_memory_allocation_maps_memory_above_a_gigabyte() {
    let mut engine = LDCEngine::new();
    engine.trigger_automatic_optimization(AutoOptimization::MemoryAllocation, 1024);
    assert!(!engine.config().enable_memory_mapping);
    engine.trigger_automatic_optimization(AutoOptimization::MemoryAllocation, 1025);
    assert!(engine.config().enable_memory_mapping);
}

#[test]
fn operations_are_optimised_by_name() {
    assert_eq!(optimization_for("knn_search"), AutoOptimization::KnnSearch);
    assert_eq!(optimization_for("distance_calculation"), AutoOptimization::DistanceCalculation);
    assert_eq!(optimization_for("data_access"), AutoOptimization::DataAccess);
    assert_eq!(optimization_for("memory_allocation"), AutoOptimization::MemoryAllocation);
    assert_eq!(optimization_for("knn"), AutoOptimization::Other);
    assert_eq!(optimization_for(""), AutoOptimization::Other);
}

#[test]
fn tracked_predictions_count_search_samples_against_the_parallel_threshold() {
    let mut engine = LDCEngine::new();
    for i in 0..150 {
        engine.add_training_sample(sample(i, Direction::Long)).unwrap();
    }
    assert_eq!(engine.search_strategy(), SearchStrategy::Parallel);
    assert_eq!(engine.tracked_search_strategy(), SearchStrategy::Sequential);
    for i in 150..500 {
        engine.add_training_sample(sample(i, Direction::Short)).unwrap();
    }
    assert_eq!(engine.tracked_search_strategy(), SearchStrategy::Parallel);
}

#[test]
fn performance_report_recommends_for_each_reading_in_order() {
    let mut config = LDCConfig::default();
    config.use_hnsw_index = true;
    let mut engine = LDCEngine::with_config(config);
    let all = ReportReadings {
        latency_p95_above_5ms: true,
        memory_above_80_percent_of_peak: true,
        cpu_below_70_percent: true,
        thread_efficiency_below_60_percent: true,
        hnsw_accuracy_below_95_percent: true,
    };
    let few = engine.performance_report_recommendations(&all);
    let findings: Vec<ReportFinding> = few.iter().map(|r| r.finding).collect();
    assert_eq!(
        findings,
        vec![
            ReportFinding::Latency,
            ReportFinding::MemoryUtilization,
            ReportFinding::ThreadEfficiency,
            ReportFinding::HnswAccuracy
        ]
    );
    assert_eq!(few[0].action, "Enable HNSW indexing for datasets > 1000 samples");
    for i in 0..101 {
        engine.add_training_sample(sample(i, Direction::Long)).unwrap();
    }
    let many = engine.performance_report_recommendations(&all);
    assert_eq!(many.len(), 5);
    assert_eq!(many[2].finding, ReportFinding::CpuUtilization);
    let none = ReportReadings {
        latency_p95_above_5ms: false,
        memory_above_80_percent_of_peak: false,
        cpu_below_70_percent: false,
        thread_efficiency_below_60_percent: false,
        hnsw_accuracy_below_95_percent: false,
    };
    assert!(engine.performance_report_recommendations(&none).is_empty());
}

fn engine_without_spacing(k: usize) -> LDCEngine {
    let mut config = LDCConfig::default();
    config.use_chronological_spacing = false;
    config.neighbors_count = k;
    let mut engine = LDCEngine::with_config(config);
    for i in 0..5 {
        let label = if i % 2 == 0 { Direction::Long } else { Direction::Short };
        engine.add_training_sample(sample(i, label)).unwrap();
    }
    engine
}

#[test]
fn sequential_scan_keeps_the_last_accepted_neighbours() {
    let engine = engine_without_spacing(2);
    let distances: Vec<u32> = vec![1, 2, 3, 4, 5];
    let scan = engine.select_sequential(&distances);
    let kept: Vec<u32> = scan.iter().map(|n| n.distance).collect();
    assert_eq!(kept, vec![4, 5]);
    assert_eq!(scan[0].label, Direction::Short);
    let exact = engine.select_exact(&distances);
    let nearest: Vec<u32> = exact.iter().map(|n| n.distance).collect();
    assert_eq!(nearest, vec![1, 2]);
    let falling: Vec<u32> = vec![5, 3, 4, 1, 2];
    let scan = engine.select_sequential(&falling);
    assert_eq!(scan.len(), 1);
    assert_eq!(scan[0].distance, 5);
}

#[test]
fn hnsw_candidates_finish_as_the_nearest_or_an_error() {
    let engine = engine_without_spacing(2);
    let cands = vec![
        Neighbor { distance: 3, label: Direction::Long },
        Neighbor { distance: 1, label: Direction::Short },
        Neighbor { distance: 2, label: Direction::Long },
    ];
    let found = engine.finish_hnsw_search(&cands).unwrap();
    let d: Vec<u32> = found.iter().map(|n| n.distance).collect();
    assert_eq!(d, vec![1, 2]);
    assert_eq!(engine.finish_hnsw_search(&Vec::new()), Err(ldc_engine::hnsw_ids::HnswSearchError::NoValidResults));
    let spaced = {
        let mut engine = LDCEngine::new();
        for i in 0..5 {
            engine.add_training_sample(sample(i, Direction::Long)).unwrap();
        }
        engine
    };
    assert_eq!(
        spaced.finish_hnsw_search(&cands),
        Err(ldc_engine::hnsw_ids::HnswSearchError::InsufficientResults)
    );
}

#[test]
fn update_config_tunes_when_asked() {
    let mut engine = LDCEngine::new();
    let mut config = LDCConfig::default();
    config.enable_auto_tuning = true;
    config.use_simd_optimization = true;
    let change = engine.update_config(config).unwrap();
    let tuned = engine.config();
    assert_eq!(tuned.max_threads, Some(num_cpus::get()));
    assert_eq!(tuned.memory_pool_size, 2048);
    assert_eq!(tuned.simd_chunk_size, 32);
    assert_eq!(tuned.parallel_threshold, 100);
    assert!(change.needs_memory_pool_resize);
    assert!(change.needs_thread_pool_update);

    let mut plain = LDCEngine::new();
    let untouched = plain.update_config(LDCConfig::default()).unwrap();
    assert_eq!(plain.config().max_threads, None);
    assert_eq!(plain.config().memory_pool_size, 256);
    assert!(!untouched.needs_memory_pool_resize);
}

#[test]
fn test_multithreading_config() {
    let mut config = LDCConfig::default();
    assert!(config.use_multithreading);
    assert_eq!(config.max_threads, None);

    config.use_multithreading = false;
    config.max_threads = Some(4);

    let engine = LDCEngine::with_config(config);
    assert!(!engine.config().use_multithreading);
    assert_eq!(engine.config().max_threads, Some(4));
}

#[test]
fn test_comprehensive_config() {
    let mut config = LDCConfig::default();

    config.max_bars_back = 1000;
    config.neighbors_count = 12;
    config.feature_count = 3;
    config.use_chronological_spacing = false;
    config.use_multithreading = false;
    config.max_threads = Some(2);

    config.parallel_threshold = 50;
    config.batch_parallel_threshold = 5;

    config.enable_regime_filter = false;
    config.enable_adx_filter = true;
    config.enable_volatility_filter = false;
    config.regime_threshold = (-0.2f32).to_bits();
    config.adx_threshold = 25.0f32.to_bits();

    config.enable_kernel_smoothing = true;
    config.kernel_lookback = 10;
    config.kernel_relative_weight = 5.0f32.to_bits();
    config.kernel_regression_level = 15;

    config.enable_debug_logging = true;
    config.log_predictions = true;
    config.log_performance_metrics = true;

    let engine = LDCEngine::with_config(config);

    assert_eq!(engine.config().max_bars_back, 1000);
    assert_eq!(engine.config().neighbors_count, 12);
    assert_eq!(engine.config().feature_count, 3);
    assert!(!engine.config().use_chronological_spacing);
    assert!(!engine.config().use_multithreading);
    assert_eq!(engine.config().max_threads, Some(2));

    assert_eq!(engine.config().parallel_threshold, 50);
    assert_eq!(engine.config().batch_parallel_threshold, 5);

    assert!(!engine.config().enable_regime_filter);
    assert!(engine.config().enable_adx_filter);
    assert!(!engine.config().enable_volatility_filter);
    assert_eq!(f32::from_bits(engine.config().regime_threshold), -0.2);
    assert_eq!(f32::from_bits(engine.config().adx_threshold), 25.0);

    assert!(engine.config().enable_kernel_smoothing);
    assert_eq!(engine.config().kernel_lookback, 10);
    assert_eq!(f32::from_bits(engine.config().kernel_relative_weight), 5.0);
    assert_eq!(engine.config().kernel_regression_level, 15);

    assert!(engine.config().enable_debug_logging);
    assert!(engine.config().log_predictions);
    assert!(engine.config().log_performance_metrics);
}

#[test]
fn test_simd_chunk_size_configuration() {
    let mut config = LDCConfig::default();
    config.use_simd_optimization = true;
    config.simd_chunk_size = 8;

    let engine = LDCEngine::with_config(config);
    assert_eq!(engine.config().simd_chunk_size, 8);

    let mut invalid_config = LDCConfig::default();
    invalid_config.simd_chunk_size = 0;

    let mut engine = LDCEngine::with_config(invalid_config);
    let result = engine.update_config(engine.config().duplicate());
    assert!(result.is_ok());
    assert!(engine.config().simd_chunk_size > 0);
}

#[test]
fn test_hnsw_configuration_update() {
    let mut config = LDCConfig::default();
    config.use_hnsw_index = false;

    let mut engine = LDCEngine::with_config(config);
    assert!(!engine.is_hnsw_available());

    let mut new_config = engine.config().duplicate();
    new_config.use_hnsw_index = true;
    new_config.hnsw_m = 32;

    let result = engine.update_config(new_config);
    assert!(result.is_ok());
    // The change asks for the graph to be made; the caller makes it and reports it.
    assert!(result.unwrap().needs_hnsw_rebuild);
    engine.hnsw_rebuilt();
    assert!(engine.is_hnsw_available());

    assert!(engine.config().use_hnsw_index);
    assert_eq!(engine.config().hnsw_m, 32);
}

#[test]
fn test_optimal_thread_count_calculation() {
    let cpus = num_cpus::get();
    let workload = WorkloadCharacteristics::default();
    let efficiency = f32::from_bits(workload.parallelization_efficiency);
    let optimal = |base: usize| {
        let adjusted = intensity_adjusted_threads(base, workload.computation_intensity);
        clamp_thread_count((adjusted as f32 * efficiency).ceil() as usize, cpus)
    };

    let optimal_count = optimal(8);
    assert!(optimal_count > 0);
    assert!(optimal_count <= 8);

    let optimal_count = optimal(cpus);
    assert!(optimal_count > 0);
    assert!(optimal_count <= cpus * 2);
}

#[test]
fn non_finite_sample_error_names_the_features() {
    let mut engine = LDCEngine::new();
    let mut s = sample(3, Direction::Short);
    s.features.f4 = f32::NEG_INFINITY.to_bits();
    match engine.add_training_sample(s) {
        Err(ldc_engine::errors::PerformanceOptimizationError::ConfigurationError { field, value, default }) => {
            assert_eq!(field, "sample.features");
            assert_eq!(value, "non-finite feature values");
            assert_eq!(default, "valid finite values");
        }
        other => panic!("expected a configuration error, got {:?}", other),
    }
}

#[test]
fn prediction_counters_follow_the_search_and_the_mode() {
    let mut config = LDCConfig::default();
    config.use_simd_optimization = true;
    config.parallel_threshold = 2;
    let mut engine = LDCEngine::with_config(config);
    let zero = ldc_engine::engine::QueryCounts {
        hnsw_queries: 0,
        exact_queries: 0,
        simd_operations: 0,
        parallel_predictions: 0,
        sequential_predictions: 0,
    };
    let mut c = zero;
    engine.count_search(&mut c, true);
    assert_eq!((c.hnsw_queries, c.exact_queries, c.simd_operations), (1, 0, 0));
    engine.count_search(&mut c, false);
    assert_eq!((c.hnsw_queries, c.exact_queries, c.simd_operations), (1, 1, 1));
    engine.count_prediction_mode(&mut c);
    assert_eq!((c.parallel_predictions, c.sequential_predictions), (0, 1));
    for i in 0..3 {
        engine.add_training_sample(sample(i, Direction::Long)).unwrap();
    }
    engine.count_prediction_mode(&mut c);
    assert_eq!((c.parallel_predictions, c.sequential_predictions), (1, 1));
}
