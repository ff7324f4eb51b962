use std::time::Instant;

use base64::engine::general_purpose::STANDARD;
use base64::Engine;

use sol_trade_sdk::encoding::Base64Encoder;
use sol_trade_sdk::hardware::{
    CacheAlignedCounter, CacheLineAligned, CacheOptimizedRingBuffer, MemoryBarriers, SIMDMemoryOps,
};
use sol_trade_sdk::protocol::{
    EventMessage, EventType, ProtocolOptimizationConfig, ProtocolStackOptimizer, SerializationProtocol,
};
use sol_trade_sdk::realtime::{RealtimeConfig, RealtimeSystemOptimizer};
use sol_trade_sdk::serialization::{get_serializer_stats, ZeroAllocSerializer};
use sol_trade_sdk::syscall::{FastAllocation, SyscallBypassConfig, SystemCallBypassManager};
use sol_trade_sdk::timing::fast_now_nanos;

#[test]
fn test_fast_now_overhead() {
    let iterations = 10_000;
    let start = Instant::now();

    for _ in 0..iterations {
        let _ = fast_now_nanos();
    }

    let total_elapsed = start.elapsed();
    let avg_per_call = total_elapsed.as_nanos() / iterations;

    assert!(avg_per_call < 100);
}

#[test]
fn test_instant_now_overhead() {
    let iterations = 10_000;
    let start = Instant::now();

    for _ in 0..iterations {
        let _ = Instant::now();
    }

    let total_elapsed = start.elapsed();
    let _avg_per_call = total_elapsed.as_nanos() / iterations;
}

#[test]
fn test_cache_aligned_counter() {
    let mut counter = CacheAlignedCounter::new(0);
    assert!(counter.ensure_cache_aligned());

    assert_eq!(counter.load(), 0);
    counter.increment();
    assert_eq!(counter.load(), 1);
}

#[test]
fn test_simd_memcpy() {
    let src = [1u8, 2, 3, 4, 5, 6, 7, 8, 9, 10];
    let mut dst = [0u8; 10];

    SIMDMemoryOps::memcpy_simd_optimized(&mut dst, &src, src.len());

    assert_eq!(src, dst);
}

#[test]
fn test_cache_optimized_ring_buffer() {
    let mut buffer: CacheOptimizedRingBuffer<u64> = CacheOptimizedRingBuffer::new(16).unwrap();

    assert!(buffer.is_empty());

    assert!(buffer.try_push(42));
    assert_eq!(buffer.len(), 1);

    assert_eq!(buffer.try_pop(), Some(42));
    assert!(buffer.is_empty());
}

#[test]
fn test_simd_memcmp() {
    let a = [1u8, 2, 3, 4, 5];
    let b = [1u8, 2, 3, 4, 5];
    let c = [1u8, 2, 3, 4, 6];

    assert!(SIMDMemoryOps::memcmp_simd_optimized(&a, &b, a.len()));
    assert!(!SIMDMemoryOps::memcmp_simd_optimized(&a, &c, a.len()));
}

#[test]
fn test_stats_snapshot() {
    let optimizer = RealtimeSystemOptimizer::new(RealtimeConfig::default()).unwrap();
    let stats = optimizer.get_stats();

    assert_eq!(stats.scheduling_latency_ns, 0);
    assert_eq!(stats.max_scheduling_latency_ns, 0);
    assert_eq!(stats.page_faults, 0);
}

#[test]
fn test_extreme_bypass_config() {
    let config = SystemCallBypassManager::extreme_bypass_config();
    assert!(config.enable_batch_processing);
    assert!(config.enable_fast_time);
    assert!(config.enable_vdso);
    assert!(config.enable_io_uring);
    assert_eq!(config.batch_size, 1000);
    assert_eq!(config.syscall_cache_size, 10000);
}

#[test]
fn test_userspace_allocation() {
    let config = SyscallBypassConfig::default();
    let mut manager = SystemCallBypassManager::new(config).unwrap();

    let allocation = manager.fast_allocate(64).unwrap();
    assert!(matches!(allocation, FastAllocation::Pool { .. }));

    let stats = manager.get_bypass_stats();
    assert_eq!(stats.memory_operations_avoided, 1);
}

#[test]
fn test_base64_encode() {
    let data = b"Hello, World!";
    let encoded = Base64Encoder::encode(data);
    assert!(!encoded.is_empty());

    let decoded = STANDARD.decode(&encoded).unwrap();
    assert_eq!(&decoded[..data.len()], data);
}

#[test]
fn test_serializer_stats() {
    let serializer = ZeroAllocSerializer::with_default_pool();
    let (available, capacity) = get_serializer_stats(&serializer);
    assert!(available <= capacity);
    assert_eq!(capacity, 10_000);
}

#[test]
fn test_protocol_optimizer_creation() {
    let config = ProtocolOptimizationConfig::default();
    let optimizer = ProtocolStackOptimizer::new(config).unwrap();

    let stats = optimizer.get_stats();
    assert_eq!(stats.fast_path_hits, 0);
    assert_eq!(stats.slow_path_hits, 0);
}

#[test]
fn test_extreme_optimization_config() {
    let config = ProtocolStackOptimizer::extreme_optimization_config();
    assert!(config.enable_quic_fast_path);
    assert!(config.skip_integrity_checks);
    assert!(config.skip_error_recovery);
    assert!(config.enable_unchecked_buffers);
    assert_eq!(config.max_batch_size, 10000);
}

fn block_meta_event(id: &str, data: Vec<u8>, timestamp: u64) -> EventMessage {
    EventMessage {
        event_id: id.to_string(),
        event_type: EventType::BlockMeta,
        data,
        serialization_format: SerializationProtocol::Bincode,
        timestamp,
    }
}

#[test]
fn test_unsafe_serialization() {
    let config = ProtocolOptimizationConfig::default();
    let mut optimizer = ProtocolStackOptimizer::new(config).unwrap();

    let event = block_meta_event("test", vec![1, 2, 3, 4, 5], 1234567890);

    let mut buffer = vec![0u8; 1024];
    let size = optimizer.serialize_event_unchecked(&event, &mut buffer, &[]).unwrap();

    assert!(size > 0);
    assert!(size < buffer.len());

    let stats = optimizer.get_stats();
    assert_eq!(stats.unchecked_operations, 1);
}

#[test]
fn test_route_caching() {
    let config = ProtocolOptimizationConfig::default();
    let mut optimizer = ProtocolStackOptimizer::new(config).unwrap();

    let endpoints = vec!["127.0.0.1:8080".to_string(), "127.0.0.1:8081".to_string()];
    optimizer.precalculate_routes(&endpoints).unwrap();

    assert_eq!(optimizer.fast_route_lookup("127.0.0.1:8080"), Some(0));
    assert_eq!(optimizer.fast_route_lookup("127.0.0.1:8081"), Some(1));
    assert_eq!(optimizer.fast_route_lookup("127.0.0.1:9999"), None);
}

#[test]
fn test_batch_processing() {
    let config = ProtocolOptimizationConfig::default();
    let mut optimizer = ProtocolStackOptimizer::new(config).unwrap();

    let events = vec![
        block_meta_event("test1", vec![1, 2, 3], 1234567890),
        block_meta_event("test2", vec![4, 5, 6], 1234567891),
    ];

    let mut buffers = vec![vec![0u8; 1024], vec![0u8; 1024]];
    let encoded = vec![Vec::new(), Vec::new()];

    let sizes = optimizer.process_events_batch(&events, &mut buffers, &encoded).unwrap();
    assert_eq!(sizes.len(), 2);
    assert!(sizes[0] > 0);
    assert!(sizes[1] > 0);

    let stats = optimizer.get_stats();
    assert_eq!(stats.batch_operations, 1);
}

#[test]
fn memory_barriers_run() {
    MemoryBarriers::compiler_barrier();
    MemoryBarriers::memory_barrier_light();
    MemoryBarriers::memory_barrier_heavy();
    MemoryBarriers::store_barrier();
    MemoryBarriers::load_barrier();
}

#[test]
fn inline_frame_layout() {
    let mut optimizer = ProtocolStackOptimizer::new(ProtocolOptimizationConfig::default()).unwrap();
    let event = block_meta_event("ab", vec![9, 8], 0x0102030405060708);
    let mut buffer = vec![0xEEu8; 32];
    let size = optimizer.serialize_event_unchecked(&event, &mut buffer, &[]).unwrap();
    assert_eq!(size, 4 + 2 + 1 + 4 + 2 + 8);
    assert_eq!(
        &buffer[..size],
        &[2, 0, 0, 0, b'a', b'b', 0, 2, 0, 0, 0, 9, 8, 8, 7, 6, 5, 4, 3, 2, 1]
    );
    assert_eq!(buffer[size], 0xEE);
    assert_eq!(optimizer.get_stats().checks_skipped, 5);
    assert_eq!(optimizer.get_stats().inline_operations, 1);

    let mut short = vec![0u8; 4];
    assert_eq!(
        optimizer.serialize_event_unchecked(&event, &mut short, &[]),
        Err("Buffer too small".to_string())
    );
    assert_eq!(short, vec![0u8; 4]);
}

#[test]
fn cached_encoding_is_reused() {
    let mut config = ProtocolOptimizationConfig::default();
    config.enable_inline_serialization = false;
    let mut optimizer = ProtocolStackOptimizer::new(config).unwrap();
    let event = block_meta_event("e1", vec![1], 7);

    let mut buffer = vec![0u8; 8];
    assert_eq!(optimizer.serialize_event_unchecked(&event, &mut buffer, &[5, 6, 7]), Ok(3));
    assert_eq!(&buffer[..3], &[5, 6, 7]);
    assert_eq!(optimizer.get_stats().fast_path_hits, 0);

    let mut second = vec![0u8; 8];
    assert_eq!(optimizer.serialize_event_unchecked(&event, &mut second, &[1, 1, 1, 1]), Ok(3));
    assert_eq!(&second[..3], &[5, 6, 7]);
    assert_eq!(optimizer.get_stats().fast_path_hits, 1);

    assert_eq!(optimizer.cleanup_cache(), 1);
    let mut third = vec![0u8; 8];
    assert_eq!(optimizer.serialize_event_unchecked(&event, &mut third, &[4, 4]), Ok(2));
    assert_eq!(&third[..2], &[4, 4]);
}

#[test]
fn batch_length_mismatch() {
    let mut optimizer = ProtocolStackOptimizer::new(ProtocolOptimizationConfig::default()).unwrap();
    let events = vec![block_meta_event("x", vec![], 0)];
    let mut buffers: Vec<Vec<u8>> = Vec::new();
    let encoded = vec![Vec::new()];
    assert_eq!(
        optimizer.process_events_batch(&events, &mut buffers, &encoded),
        Err("Events and buffers length mismatch".to_string())
    );
    assert_eq!(optimizer.get_stats().batch_operations, 0);
}

#[test]
fn later_duplicate_route_wins() {
    let mut optimizer = ProtocolStackOptimizer::new(ProtocolOptimizationConfig::default()).unwrap();
    let endpoints = vec!["a".to_string(), "b".to_string(), "a".to_string()];
    optimizer.precalculate_routes(&endpoints).unwrap();
    assert_eq!(optimizer.fast_route_lookup("a"), Some(2));
    assert_eq!(optimizer.fast_route_lookup("b"), Some(1));
}

#[test]
fn bounded_buffer_write() {
    let mut config = ProtocolOptimizationConfig::default();
    config.enable_unchecked_buffers = false;
    let mut optimizer = ProtocolStackOptimizer::new(config).unwrap();
    let mut dst = [0u8; 5];
    let copied = optimizer.unchecked_buffer_write(&[1, 2, 3, 4], &mut dst, 3);
    assert_eq!(copied, 2);
    assert_eq!(dst, [0, 0, 0, 1, 2]);
    assert_eq!(optimizer.get_stats().unchecked_operations, 0);
}

#[test]
fn memzero_clears_prefix() {
    let mut buf = [7u8; 6];
    SIMDMemoryOps::memzero_simd_optimized(&mut buf, 4);
    assert_eq!(buf, [0, 0, 0, 0, 7, 7]);
}
