use ldc_engine::config::{default_thread_pool_strategy, validate_and_fix_config, LDCConfig, ThreadPoolStrategy};
use ldc_engine::direction::Direction;
use ldc_engine::engine::LDCEngine;
use ldc_engine::features::{FeatureSeries, TrainingSample};
use ldc_engine::profiles::{
    create_predefined_profiles, generate_configuration_recommendations, recommend_profiles_at,
    HardwareProfile, ProfileError, StorageType, UseCase,
};
use ldc_engine::tuning::{
    detect_system_capabilities, estimate_memory_usage, ErrorSeverity, MetricFinding,
    MetricReadings, OptimizationCategory, PerformanceImpact, RecommendationPriority,
    RuntimeReadings, SystemCapabilities,
};

fn sample(i: usize) -> TrainingSample {
    TrainingSample {
        features: FeatureSeries {
            f1: (i as f32).to_bits(),
            f2: ((i * 2) as f32).to_bits(),
            f3: ((i * 3) as f32).to_bits(),
            f4: ((i * 4) as f32).to_bits(),
            f5: ((i * 5) as f32).to_bits(),
        },
        label: Direction::Long,
        timestamp: i as i64,
        bar_index: i,
    }
}

fn caps() -> SystemCapabilities {
    detect_system_capabilities(false, false)
}

#[test]
fn test_enhanced_config_validation() {
    let engine = LDCEngine::new();
    let valid = LDCConfig::default();
    let result = engine.validate_config_enhanced(&valid, &caps());
    assert!(result.is_valid);
    assert!(result.errors.is_empty());
}

#[test]
fn test_invalid_config_validation() {
    let engine = LDCEngine::new();
    let mut invalid = LDCConfig::default();
    invalid.max_bars_back = 0;
    invalid.memory_pool_size = 999999;
    let result = engine.validate_config_enhanced(&invalid, &caps());
    assert!(!result.is_valid);
    assert!(!result.errors.is_empty());
    assert!(result.errors.iter().any(|e| e.field == "max_bars_back"));
}

#[test]
fn test_auto_tune_performance_parameters() {
    let mut engine = LDCEngine::new();
    for i in 0..1000 {
        engine.add_training_sample(sample(i)).unwrap();
    }
    let mut config = LDCConfig::default();
    config.enable_auto_tuning = true;
    engine.auto_tune_performance_parameters(&mut config, &caps());
    assert!(config.max_threads.is_some());
    assert!(config.parallel_threshold > 0);
    assert!(config.memory_pool_size > 0);
}

#[test]
fn test_predefined_profiles() {
    let profiles = create_predefined_profiles();
    let find = |key: &str| profiles.iter().find(|(k, _)| k == key).map(|(_, p)| p);
    assert!(find("ultra-low-latency").is_some());
    assert!(find("high-throughput").is_some());
    assert!(find("memory-efficient").is_some());
    assert!(find("research").is_some());

    let ultra = find("ultra-low-latency").unwrap();
    assert_eq!(ultra.use_case, UseCase::HighFrequency);
    assert!(ultra.config.use_hnsw_index);
    assert!(ultra.performance_baseline.is_some());

    let research = find("research").unwrap();
    assert_eq!(research.use_case, UseCase::Research);
    assert!(!research.config.use_hnsw_index);
    assert!(research.config.enable_debug_logging);
}

#[test]
fn test_apply_predefined_profile() {
    let mut engine = LDCEngine::new();
    assert!(engine.apply_predefined_profile("ultra-low-latency").is_ok());
    assert!(engine.config().use_hnsw_index);
    assert_eq!(engine.config().hnsw_m, 8);
    assert_eq!(engine.config().thread_pool_strategy, ThreadPoolStrategy::Dedicated);
    assert!(engine.apply_predefined_profile("non-existent-profile").is_err());
}

#[test]
fn test_system_capabilities_detection() {
    let c = caps();
    assert!(c.cpu_cores > 0);
    assert!(c.available_memory_gb > 0);
    assert!(c.cache_line_size > 0);
    assert!(c.page_size > 0);
}

#[test]
fn test_configuration_recommendations_from_metrics() {
    let mut engine = LDCEngine::new();
    for i in 0..200 {
        let _ = engine.add_training_sample(sample(i));
    }
    // P95 latency 25 ms, CPU at 30%, thread efficiency at 50%.
    let readings = MetricReadings {
        latency_high: 25.0 > 10.0,
        latency_critical: 25.0 > 50.0,
        current_memory_usage_mb: 0,
        cpu_underused: 30.0 < 50.0,
        threads_inefficient: 50.0 < 70.0,
        hnsw_inaccurate: false,
        hnsw_queries: 0,
        exact_queries: 0,
    };
    let recs = engine.get_configuration_recommendations_from_metrics(&readings);
    assert!(!recs.is_empty());
    assert!(recs.iter().any(|r| matches!(r.category, OptimizationCategory::Latency)));
    assert!(recs.iter().any(|r| matches!(r.category, OptimizationCategory::Threading)));
}

#[test]
fn test_runtime_config_validation_and_correction() {
    let mut engine = LDCEngine::new();
    let mut config = LDCConfig::default();
    config.max_threads = Some(32);
    engine.update_config(config).unwrap();
    let readings = RuntimeReadings {
        current_memory_usage_mb: 7000,
        cpu_saturated: 98.0 > 95.0,
        cpu_idle: 98.0 < 30.0,
        latency_high: false,
        accuracy_low: false,
    };
    let corrections = engine.validate_and_correct_runtime_config(&readings, &caps());
    if !corrections.is_empty() {
        let has_memory = corrections.iter().any(|c| c.contains("memory_pool_size"));
        let has_threads = corrections.iter().any(|c| c.contains("max_threads"));
        assert!(has_memory || has_threads);
    }
}

#[test]
fn test_memory_usage_estimation() {
    let mut config = LDCConfig::default();
    config.max_bars_back = 10000;
    config.memory_pool_size = 512;
    config.use_hnsw_index = false;
    let usage = estimate_memory_usage(&config);
    assert!(usage > 0);
    config.use_hnsw_index = true;
    let with_hnsw = estimate_memory_usage(&config);
    assert!(with_hnsw >= usage);
    config.max_bars_back = 50000;
    let large = estimate_memory_usage(&config);
    assert!(large > with_hnsw);
}

// ---------------------------------------------------------------------------
// Further cases
// ---------------------------------------------------------------------------

fn machine(cores: usize, memory_gb: usize, avx2: bool) -> SystemCapabilities {
    SystemCapabilities {
        cpu_cores: cores,
        available_memory_gb: memory_gb,
        has_avx2: avx2,
        has_avx512: false,
        numa_nodes: 1,
        cache_line_size: 64,
        page_size: 4096,
    }
}

#[test]
fn memory_estimate_formula() {
    let mut config = LDCConfig::default();
    config.max_bars_back = 100_000;
    config.memory_pool_size = 512;
    config.use_hnsw_index = true;
    // 100000 * 40 bytes = 3 MB of samples, 12 MB for the graph, 100 MB overhead.
    assert_eq!(estimate_memory_usage(&config), 3 + 512 + 12 + 100);
    config.use_hnsw_index = false;
    assert_eq!(estimate_memory_usage(&config), 3 + 512 + 100);
}

#[test]
fn validation_reports_every_warning_in_order() {
    let engine = LDCEngine::new();
    let mut config = LDCConfig::default();
    config.max_bars_back = 200_000;
    config.memory_pool_size = 7000;
    config.use_simd_optimization = true;
    config.max_threads = Some(64);
    config.use_hnsw_index = true;
    config.hnsw_m = 16;
    config.hnsw_ef_construction = 20;
    let result = engine.validate_config_enhanced(&config, &machine(4, 8, false));
    assert!(result.is_valid);
    let fields: Vec<&str> = result.warnings.iter().map(|w| w.field.as_str()).collect();
    assert_eq!(
        fields,
        vec!["max_bars_back", "memory_pool_size", "use_simd_optimization", "max_threads", "hnsw_ef_construction"]
    );
    assert_eq!(result.warnings[0].current_value, "200000");
    assert_eq!(result.warnings[0].impact, PerformanceImpact::High);
    assert_eq!(result.warnings[1].suggested_value, "4096");
    assert_eq!(result.warnings[3].suggested_value, "4");
    assert_eq!(result.warnings[4].suggested_value, "32");
    assert_eq!(result.recommendations.len(), 1);
    assert_eq!(result.recommendations[0].priority, RecommendationPriority::Low);
}

#[test]
fn validation_memory_error_message() {
    let engine = LDCEngine::new();
    let mut config = LDCConfig::default();
    config.memory_pool_size = 10000;
    let result = engine.validate_config_enhanced(&config, &machine(4, 8, true));
    assert!(!result.is_valid);
    assert_eq!(result.errors.len(), 1);
    assert_eq!(result.errors[0].field, "memory_pool_size");
    assert_eq!(result.errors[0].current_value, "10000");
    assert_eq!(result.errors[0].error_message, "Configuration requires 10100MB but only 8192MB available");
    assert_eq!(result.errors[0].suggested_value, "4096");
    assert_eq!(result.errors[0].severity, ErrorSeverity::Critical);
}

#[test]
fn auto_tune_exact_values() {
    let mut engine = LDCEngine::new();
    let mut c = LDCConfig::default();
    c.use_hnsw_index = true;
    c.max_bars_back = 50_000;
    engine.update_config(c).unwrap();
    for i in 0..20_000 {
        engine.add_training_sample(sample(i)).unwrap();
    }
    let mut config = LDCConfig::default();
    config.use_hnsw_index = true;
    engine.auto_tune_performance_parameters(&mut config, &machine(8, 16, true));
    assert_eq!(config.max_threads, Some(8));
    assert_eq!(config.parallel_threshold, 500);
    assert_eq!(config.simd_chunk_size, 32);
    assert_eq!(config.memory_pool_size, 2048);
    assert_eq!(config.hnsw_m, 16);
    assert_eq!(config.hnsw_ef_construction, 160);
    assert_eq!(config.hnsw_ef_search, 32);
    assert_eq!(config.hnsw_rebuild_threshold, 2000);
    assert!(!config.enable_memory_mapping);
    assert_eq!(config.thread_pool_strategy, ThreadPoolStrategy::Dedicated);
}

#[test]
fn runtime_corrections_describe_each_change() {
    let mut engine = LDCEngine::new();
    let mut c = LDCConfig::default();
    c.max_threads = Some(2);
    c.use_hnsw_index = true;
    c.hnsw_ef_search = 50;
    c.hnsw_ef_construction = 300;
    engine.update_config(c).unwrap();
    let readings = RuntimeReadings {
        current_memory_usage_mb: 8000,
        cpu_saturated: false,
        cpu_idle: true,
        latency_high: true,
        accuracy_low: true,
    };
    let notes = engine.validate_and_correct_runtime_config(&readings, &machine(8, 8, true));
    assert_eq!(
        notes,
        vec![
            "Reduced memory_pool_size to 4096MB due to high memory usage".to_string(),
            "Increased max_threads to 8 due to low CPU usage".to_string(),
            "Reduced hnsw_ef_search to 25 to improve latency".to_string(),
            "Increased hnsw_ef_construction to 400 to improve accuracy".to_string(),
        ]
    );
    assert_eq!(engine.config().memory_pool_size, 4096);
    assert_eq!(engine.config().max_threads, Some(8));
    assert_eq!(engine.config().hnsw_ef_search, 25);
    assert_eq!(engine.config().hnsw_ef_construction, 400);
}

#[test]
fn recommendations_per_use_case() {
    let hw = HardwareProfile {
        cpu_cores: 16,
        memory_gb: 32,
        has_simd_support: true,
        numa_nodes: 1,
        storage_type: StorageType::NVMe,
        estimated_memory_bandwidth_gbps: 25.0f32.to_bits(),
    };
    let rt = recommend_profiles_at(UseCase::HighFrequency, &hw, 77);
    assert_eq!(rt.len(), 1);
    assert_eq!(rt[0].name, "Real-Time Trading");
    assert_eq!(rt[0].use_case, UseCase::RealTimeTrading);
    assert_eq!(rt[0].created_at, 77);
    assert_eq!(rt[0].config.max_threads, Some(4));
    assert_eq!(rt[0].config.memory_pool_size, 4096);
    assert!(rt[0].config.use_hnsw_index);
    assert_eq!(rt[0].performance_baseline.unwrap().target_memory_usage_mb, 8192);

    let bt = recommend_profiles_at(UseCase::BackTesting, &hw, 0);
    assert_eq!(bt[0].config.memory_pool_size, 16384);
    assert!(!bt[0].config.enable_memory_mapping);

    let research = recommend_profiles_at(UseCase::Research, &hw, 0);
    assert_eq!(research[0].config.thread_pool_strategy, ThreadPoolStrategy::Adaptive);
    assert_eq!(f64::from_bits(research[0].performance_baseline.unwrap().target_latency_p95_ms), 50.0);

    assert!(recommend_profiles_at(UseCase::Production, &hw, 0).is_empty());
    assert_eq!(generate_configuration_recommendations(UseCase::RealTimeTrading, &hw).len(), 1);
}

#[test]
fn unknown_profile_changes_nothing() {
    let mut engine = LDCEngine::new();
    assert_eq!(engine.apply_predefined_profile("fastest").unwrap_err(), ProfileError::UnknownProfile);
    assert_eq!(engine.config().hnsw_m, 16);
    engine.apply_predefined_profile("memory-efficient").unwrap();
    assert_eq!(engine.config().max_bars_back, 10000);
    assert_eq!(engine.config().memory_pool_size, 128);
}

#[test]
fn memory_recommendation_quotes_usage() {
    let engine = LDCEngine::new();
    let readings = MetricReadings {
        latency_high: false,
        latency_critical: false,
        current_memory_usage_mb: 230,
        cpu_underused: false,
        threads_inefficient: false,
        hnsw_inaccurate: false,
        hnsw_queries: 1,
        exact_queries: 9,
    };
    let recs = engine.get_configuration_recommendations_from_metrics(&readings);
    assert_eq!(recs.len(), 1);
    assert_eq!(recs[0].finding, MetricFinding::Memory { usage_mb: 230, percent_of_pool: 89 });
}

fn note(e: &ldc_engine::errors::PerformanceOptimizationError) -> (String, String, String) {
    match e {
        ldc_engine::errors::PerformanceOptimizationError::ConfigurationError { field, value, default } => {
            (field.clone(), value.clone(), default.clone())
        }
        other => panic!("unexpected error {:?}", other),
    }
}

#[test]
fn repairing_a_configuration_reports_each_field_with_its_values() {
    let mut config = LDCConfig::default();
    config.max_threads = Some(200);
    config.simd_chunk_size = 0;
    config.memory_pool_size = 20000;
    config.hnsw_m = 0;
    let errors = validate_and_fix_config(&mut config);
    let notes: Vec<(String, String, String)> = errors.iter().map(note).collect();
    let expected: Vec<(String, String, String)> = vec![
        ("max_threads", "200", "128"),
        ("simd_chunk_size", "0", "64"),
        ("memory_pool_size", "20000MB", "1024MB"),
        ("hnsw_m", "0", "16"),
    ]
    .into_iter()
    .map(|(a, b, c)| (a.to_string(), b.to_string(), c.to_string()))
    .collect();
    assert_eq!(notes, expected);
    assert_eq!(config.max_threads, Some(128));
    assert_eq!(config.simd_chunk_size, 64);
    assert_eq!(config.memory_pool_size, 1024);
    assert_eq!(config.hnsw_m, 16);
    assert!(validate_and_fix_config(&mut config).is_empty());

    let mut zero_threads = LDCConfig::default();
    zero_threads.max_threads = Some(0);
    let errors = validate_and_fix_config(&mut zero_threads);
    assert_eq!(note(&errors[0]), ("max_threads".to_string(), "0".to_string(), "None (auto-detect)".to_string()));
    assert_eq!(zero_threads.max_threads, None);
}

#[test]
fn the_default_pool_strategy_is_the_global_one() {
    assert_eq!(default_thread_pool_strategy(), ThreadPoolStrategy::Global);
}

#[test]
fn the_current_configuration_of_a_new_engine_is_valid() {
    let engine = LDCEngine::new();
    let result = engine.validate_current_configuration(&machine(8, 16, true));
    assert!(result.is_valid);
    assert!(result.errors.is_empty());
}
