use ldc_engine::direction::Direction;
use ldc_engine::features::{
    decode_sample, encode_sample, FeatureSeries, OptimizedTrainingSample, TrainingSample,
};
use ldc_engine::hnsw_ids::{rebuild_accepted, HNSWConfig, HnswIdMap, HnswSearchError};
use ldc_engine::memory_pool::MemoryPool;
use ldc_engine::mmap_storage::MemoryMappedStorage;
use ldc_engine::text::decimal_string;
use ldc_engine::threading::{
    adjust_optimal_thread_count, calculate_optimal_chunk_size, get_estimated_memory_usage_mb,
    needs_pool_recreation, validate_thread_count, EfficiencyBand,
};

fn sample(i: usize) -> TrainingSample {
    TrainingSample {
        features: FeatureSeries {
            f1: (i as f32).to_bits(),
            f2: 2.5f32.to_bits(),
            f3: (-1.0f32).to_bits(),
            f4: 0.0f32.to_bits(),
            f5: 7.0f32.to_bits(),
        },
        label: Direction::Short,
        timestamp: 1_000 + i as i64,
        bar_index: i,
    }
}

#[test]
fn test_memory_pool_basic_operations() {
    let mut pool = MemoryPool::new(1).unwrap();
    let id = pool.allocate(64, 8);
    assert!(id.is_ok());
    assert_eq!(pool.allocation_count(), 1);
    assert!(pool.allocated_bytes() >= 64);
    if let Ok(id) = id {
        assert!(pool.deallocate(id));
        assert_eq!(pool.deallocation_count(), 1);
    }
    let utilization = pool.allocated_bytes() as f64 / pool.pool_size_bytes() as f64 * 100.0;
    assert!(utilization >= 0.0 && utilization <= 100.0);
}

#[test]
fn pool_refuses_what_does_not_fit() {
    let mut pool = MemoryPool::new(1).unwrap();
    assert!(pool.allocate(2 * 1024 * 1024, 8).is_err());
    assert!(pool.allocate(16, 3).is_err());
    let a = pool.allocate(1024, 16).unwrap();
    assert_eq!(pool.allocated_bytes(), 1024);
    assert!(pool.deallocate(a));
    assert!(!pool.deallocate(a));
    assert_eq!(pool.allocated_bytes(), 0);
    // The freed block is reused.
    let b = pool.allocate(512, 8).unwrap();
    assert_eq!(b, a);
}

#[test]
fn sample_bytes_round_trip() {
    let s = OptimizedTrainingSample::from_training_sample(&sample(9));
    let bytes = encode_sample(&s);
    assert_eq!(bytes.len(), OptimizedTrainingSample::size_of());
    let back = decode_sample(&bytes, 0).unwrap().to_training_sample();
    let written = sample(9);
    assert_eq!(back.features, written.features);
    assert_eq!(back.label, written.label);
    assert_eq!(back.timestamp, written.timestamp);
    assert_eq!(back.bar_index, written.bar_index);
}

#[test]
fn mapped_storage_reads_back_what_was_written() {
    let map = memmap2::MmapMut::map_anon(64 * 4).unwrap();
    let mut storage =
        MemoryMappedStorage::from_maps("anon".to_string(), None, Some(map), 4, false).unwrap();
    assert!(storage.is_empty());
    for i in 0..3 {
        let s = OptimizedTrainingSample::from_training_sample(&sample(i));
        storage.push_sample(&s).unwrap();
    }
    assert_eq!(storage.len(), 3);
    assert_eq!(storage.capacity(), 4);
    let got = storage.get_sample(1).unwrap().to_training_sample();
    assert_eq!(got.bar_index, 1);
    assert_eq!(got.features, sample(1).features);
    assert!(storage.get_sample(3).is_none());
    let replacement = OptimizedTrainingSample::from_training_sample(&sample(7));
    storage.set_sample(0, &replacement).unwrap();
    assert_eq!(storage.get_sample(0).unwrap().to_training_sample().bar_index, 7);
    let s = OptimizedTrainingSample::from_training_sample(&sample(3));
    storage.push_sample(&s).unwrap();
    assert!(storage.push_sample(&s).is_err());
    assert_eq!(storage.samples().len(), 4);
}

#[test]
fn mapped_storage_refuses_zero_capacity() {
    assert!(MemoryMappedStorage::validate_capacity(0).is_err());
    assert_eq!(MemoryMappedStorage::validate_capacity(10).unwrap(), 640);
}

#[test]
fn decimal_text() {
    assert_eq!(decimal_string(0), "0");
    assert_eq!(decimal_string(7), "7");
    assert_eq!(decimal_string(1200345), "1200345");
}

#[test]
fn chunk_and_thread_sizes() {
    // 1000 samples on 4 threads: 8 chunks of 125, within 16..=256.
    assert_eq!(calculate_optimal_chunk_size(1000, 4, 64), 125);
    assert_eq!(calculate_optimal_chunk_size(10, 4, 64), 16);
    assert_eq!(calculate_optimal_chunk_size(100000, 4, 64), 256);
    assert_eq!(calculate_optimal_chunk_size(100, 0, 64), 64);
    assert_eq!(adjust_optimal_thread_count(8, EfficiencyBand::Low, 4), 6);
    assert_eq!(adjust_optimal_thread_count(8, EfficiencyBand::High, 4), 8);
    assert_eq!(adjust_optimal_thread_count(4, EfficiencyBand::High, 4), 5);
    assert_eq!(adjust_optimal_thread_count(1, EfficiencyBand::Low, 4), 1);
    assert_eq!(get_estimated_memory_usage_mb(1 << 20, 0, 1 << 21, 0, 0), 42);
}

#[test]
fn hnsw_identifiers() {
    let mut ids = HnswIdMap::new();
    assert_eq!(ids.search_width(3), Err(HnswSearchError::EmptyIndex));
    assert_eq!(ids.record_insert(5), 0);
    assert_eq!(ids.record_insert(6), 1);
    assert_eq!(ids.sample_of(1), Some(6));
    assert_eq!(ids.sample_of(2), None);
    assert_eq!(ids.search_width(0), Err(HnswSearchError::ZeroK));
    assert_eq!(ids.search_width(1), Ok(2));
    assert_eq!(ids.search_width(5), Ok(2));
    ids.clear();
    assert!(ids.is_empty());
    assert_eq!(HNSWConfig::default().ef_search, 50);
}

#[test]
fn hnsw_rebuild_kept_with_four_in_five_inserted() {
    assert!(rebuild_accepted(8, 10));
    assert!(rebuild_accepted(4, 5));
    assert!(!rebuild_accepted(7, 10));
    assert!(!rebuild_accepted(0, 0));
    assert!(rebuild_accepted(10, 10));
}

#[test]
fn thread_counts_for_a_dedicated_pool_are_bounded() {
    assert!(validate_thread_count(0).is_err());
    assert_eq!(validate_thread_count(1).unwrap(), 1);
    assert_eq!(validate_thread_count(128).unwrap(), 128);
    assert!(validate_thread_count(129).is_err());
    assert!(needs_pool_recreation(false, 4, 4));
    assert!(needs_pool_recreation(true, 4, 8));
    assert!(!needs_pool_recreation(true, 8, 8));
}

#[test]
fn peak_follows_allocations_that_reuse_a_block() {
    let mut pool = MemoryPool::new(1).unwrap();
    let a = pool.allocate(64, 8).unwrap();
    assert!(pool.deallocate(a));
    let _b = pool.allocate(100, 8).unwrap();
    let c = pool.allocate(50, 8).unwrap();
    assert_eq!(c, a);
    assert_eq!(pool.allocated_bytes(), 164);
    assert_eq!(pool.peak_allocated_bytes(), 164);
    assert!(pool.peak_allocated_bytes() >= pool.allocated_bytes());
}

#[test]
fn a_block_is_released_only_once() {
    let mut pool = MemoryPool::new(1).unwrap();
    let a = pool.allocate(256, 8).unwrap();
    assert!(pool.deallocate(a));
    assert_eq!(pool.allocated_bytes(), 0);
    assert_eq!(pool.deallocation_count(), 1);
    assert!(!pool.deallocate(a));
    assert_eq!(pool.deallocation_count(), 1);
    assert!(!pool.deallocate(12345));
}

#[test]
fn storage_needs_the_map_of_its_mode() {
    let small = memmap2::MmapMut::map_anon(64 * 3).unwrap();
    assert!(MemoryMappedStorage::from_maps("f".to_string(), None, Some(small), 4, false).is_err());
    assert!(MemoryMappedStorage::from_maps("f".to_string(), None, None, 4, false).is_err());
    let zero = memmap2::MmapMut::map_anon(64).unwrap();
    assert!(MemoryMappedStorage::from_maps("f".to_string(), None, Some(zero), 0, false).is_err());
    // A read-only storage holds no sample, so any existing map will do.
    let short = memmap2::MmapMut::map_anon(8).unwrap().make_read_only().unwrap();
    let storage = MemoryMappedStorage::from_maps("f".to_string(), Some(short), None, 4, true).unwrap();
    assert_eq!(storage.len(), 0);
    assert_eq!(storage.file_path(), "f");
    assert!(MemoryMappedStorage::from_maps("f".to_string(), None, None, 4, true).is_err());
}

#[test]
fn reusing_a_larger_block_can_take_the_pool_past_its_size() {
    let mut pool = MemoryPool::new(1).unwrap();
    let a = pool.allocate(600_000, 8).unwrap();
    assert!(pool.deallocate(a));
    // The free block is not aligned enough, so a new block is made.
    let _b = pool.allocate(500_000, 16).unwrap();
    // The request fits (500000 + 1 bytes) and reuses the 600000-byte block.
    let c = pool.allocate(1, 8).unwrap();
    assert_eq!(c, a);
    assert_eq!(pool.allocated_bytes(), 1_100_000);
    assert!(pool.allocated_bytes() > pool.pool_size_bytes());
    assert!(pool.peak_allocated_bytes() >= pool.allocated_bytes());
}
