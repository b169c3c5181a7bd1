use ldc_engine::compact_store::CompactStore;
use ldc_engine::config::LDCConfig;
use ldc_engine::direction::Direction;
use ldc_engine::engine::LDCEngine;
use ldc_engine::features::{FeatureSeries, OptimizedTrainingSample, TrainingSample};
use ldc_engine::mmap_storage::MemoryMappedStorage;

fn sample(i: usize) -> TrainingSample {
    let v = (i as f32).to_bits();
    TrainingSample {
        features: FeatureSeries { f1: v, f2: v, f3: v, f4: v, f5: v },
        label: Direction::Long,
        timestamp: i as i64,
        bar_index: i,
    }
}

fn engine_with_window(max: usize) -> LDCEngine {
    let mut config = LDCConfig::default();
    config.max_bars_back = max;
    LDCEngine::with_config(config)
}

fn anon_storage(capacity: usize) -> MemoryMappedStorage {
    let map = memmap2::MmapMut::map_anon(64 * capacity).unwrap();
    MemoryMappedStorage::from_maps("anon".to_string(), None, Some(map), capacity, false).unwrap()
}

fn bar_indices(v: &[TrainingSample]) -> Vec<usize> {
    v.iter().map(|s| s.bar_index).collect()
}

#[test]
fn compact_mode_round_trips_the_window() {
    let mut engine = engine_with_window(10);
    for i in 0..4 {
        engine.add_training_sample(sample(i)).unwrap();
    }
    let mut store = CompactStore::new();
    assert!(!store.is_optimized_storage_enabled());
    engine.enable_optimized_storage(&mut store);
    assert!(store.is_optimized_storage_enabled());
    assert_eq!(store.compact_len(), 4);
    engine.clear_training_data();
    engine.disable_optimized_storage(&mut store);
    assert!(!store.is_optimized_storage_enabled());
    assert_eq!(bar_indices(&engine.training_samples()), vec![0, 1, 2, 3]);
}

#[test]
fn compact_window_drops_its_oldest_sample_when_full() {
    let mut engine = engine_with_window(3);
    let mut store = CompactStore::new();
    engine.enable_optimized_storage(&mut store);
    for i in 0..5 {
        let index = engine.add_training_sample_optimized(&mut store, sample(i)).unwrap();
        assert_eq!(index, i.min(3));
    }
    assert_eq!(store.compact_len(), 3);
    assert_eq!(engine.training_samples_count(), 0);
    let found = engine.get_training_samples_for_search_optimized(&store, None);
    assert_eq!(bar_indices(&found), vec![2, 3, 4]);
    let limited = engine.get_training_samples_for_search_optimized(&store, Some(2));
    assert_eq!(bar_indices(&limited), vec![2, 3]);
}

#[test]
fn regular_mode_adds_to_the_window() {
    let mut engine = engine_with_window(2);
    let mut store = CompactStore::new();
    for i in 0..3 {
        engine.add_training_sample_optimized(&mut store, sample(i)).unwrap();
    }
    assert_eq!(bar_indices(&engine.training_samples()), vec![1, 2]);
    assert_eq!(store.compact_len(), 0);
    let found = engine.get_training_samples_for_search_optimized(&store, Some(1));
    assert_eq!(bar_indices(&found), vec![1]);
}

#[test]
fn mapped_storage_takes_samples_while_it_has_room() {
    let mut engine = engine_with_window(100);
    let mut store = CompactStore::new();
    engine.enable_optimized_storage(&mut store);
    engine.add_training_sample_optimized(&mut store, sample(0)).unwrap();
    store.initialize_memory_mapped_storage(anon_storage(2)).unwrap();
    assert_eq!(store.get_memory_mapped_stats(), Some((1, 2)));
    engine.add_training_sample_optimized(&mut store, sample(1)).unwrap();
    assert_eq!(store.get_memory_mapped_stats(), Some((2, 2)));
    assert_eq!(store.compact_len(), 1);
    engine.add_training_sample_optimized(&mut store, sample(2)).unwrap();
    assert_eq!(store.compact_len(), 2);
    let found = engine.get_training_samples_for_search_optimized(&store, None);
    assert_eq!(bar_indices(&found), vec![0, 1, 0, 2]);
    let limited = engine.get_training_samples_for_search_optimized(&store, Some(3));
    assert_eq!(bar_indices(&limited), vec![0, 1, 0]);
}

#[test]
fn a_non_finite_sample_is_refused_by_the_mapped_storage() {
    let mut engine = engine_with_window(100);
    let mut store = CompactStore::new();
    engine.enable_optimized_storage(&mut store);
    store.initialize_memory_mapped_storage(anon_storage(4)).unwrap();
    let mut bad = sample(1);
    bad.features.f3 = f32::NAN.to_bits();
    assert!(engine.add_training_sample_optimized(&mut store, bad).is_err());
    assert_eq!(store.get_memory_mapped_stats(), Some((0, 4)));
}

#[test]
fn migration_into_a_full_storage_fails_and_attaches_nothing() {
    let mut engine = engine_with_window(100);
    let mut store = CompactStore::new();
    engine.enable_optimized_storage(&mut store);
    for i in 0..3 {
        engine.add_training_sample_optimized(&mut store, sample(i)).unwrap();
    }
    assert!(store.initialize_memory_mapped_storage(anon_storage(2)).is_err());
    assert!(!store.has_memory_mapped_storage());
    let mut other = CompactStore::new();
    other.attach_memory_mapped_storage(anon_storage(2));
    assert_eq!(other.get_memory_mapped_stats(), Some((0, 2)));
    let stored = OptimizedTrainingSample::from_training_sample(&sample(9));
    assert_eq!(stored.bar_index, 9);
}

#[test]
fn cleanup_turns_compact_mode_on_and_shrinks_it() {
    let mut engine = engine_with_window(100);
    for i in 0..40 {
        engine.add_training_sample(sample(i)).unwrap();
    }
    let mut store = CompactStore::new();
    engine.soft_memory_cleanup(&mut store);
    assert!(store.is_optimized_storage_enabled());
    assert_eq!(store.compact_len(), 40);
    engine.shrink_after_cleanup(&mut store);
    assert_eq!(store.compact_len(), 30);
    assert_eq!(engine.training_samples_count(), 40);
    let found = engine.get_training_samples_for_search_optimized(&store, None);
    assert_eq!(found[0].bar_index, 10);

    let mut no_pool = LDCConfig::default();
    no_pool.memory_pool_size = 0;
    let plain = LDCEngine::with_config(no_pool);
    let mut off = CompactStore::new();
    plain.soft_memory_cleanup(&mut off);
    assert!(!off.is_optimized_storage_enabled());
}

#[test]
fn test_ldc_engine_optimized_storage() {
    let mut engine = LDCEngine::new();
    let mut store = CompactStore::new();

    let f = |v: f32| v.to_bits();
    let sample1 = TrainingSample {
        features: FeatureSeries { f1: f(1.0), f2: f(2.0), f3: f(3.0), f4: f(4.0), f5: f(5.0) },
        label: Direction::Long,
        timestamp: 1000,
        bar_index: 1,
    };
    let sample2 = TrainingSample {
        features: FeatureSeries { f1: f(2.0), f2: f(3.0), f3: f(4.0), f4: f(5.0), f5: f(6.0) },
        label: Direction::Short,
        timestamp: 2000,
        bar_index: 2,
    };

    engine.add_training_sample(sample1).unwrap();
    engine.add_training_sample(sample2).unwrap();
    assert_eq!(engine.training_samples_count(), 2);

    engine.enable_optimized_storage(&mut store);
    assert!(store.is_optimized_storage_enabled());
    assert_eq!(store.compact_len(), 2);

    let samples = engine.get_training_samples_for_search_optimized(&store, None);
    assert_eq!(samples.len(), 2);
    assert_eq!(samples[0].features.f1, sample1.features.f1);
    assert_eq!(samples[1].features.f1, sample2.features.f1);

    engine.disable_optimized_storage(&mut store);
    assert!(!store.is_optimized_storage_enabled());
    assert_eq!(engine.training_samples_count(), 2);
}
