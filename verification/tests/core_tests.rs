use sol_trade_sdk::bonding_curve::GlobalAccount;
use sol_trade_sdk::encoding::push_decimal;
use sol_trade_sdk::kernel::{KernelBypassUDP, RxQueue, TxQueue};
use sol_trade_sdk::protocol::{EventMessage, EventType, SerializationProtocol};
use sol_trade_sdk::pubkey::Pubkey;
use sol_trade_sdk::realtime::{RealtimeConfig, RealtimeSystemOptimizer};
use sol_trade_sdk::seed_accounts::{create_associated_token_account_use_seed, RentCache};
use sol_trade_sdk::string_map::StringMap;
use sol_trade_sdk::swqos_requests::{
    bloxroute_batch_body, bloxroute_body, blockrazor_health_url, flashblock_body, replace_str, zeroslot_body,
    zeroslot_url,
};
use sol_trade_sdk::syscall::{
    IOOptimizer, SyscallBatchProcessor, SyscallBypassConfig, SyscallRequest, SystemCallBypassManager,
};
use sol_trade_sdk::system_ix::{
    add_nonce_instruction, compute_budget_instructions, get_transaction_blockhash, nonce_info_from_account_data,
    Blockhash, DurableNonceInfo,
};
use sol_trade_sdk::transaction::build_transaction;
use sol_trade_sdk::ultra::{
    worker_core, CpuAffinityConfig, LockFreeEventDispatcher, ThreadPriority, UltraLowLatencyStats,
    ZeroAllocSerializer,
};
use sol_trade_sdk::wsol::{handle_wsol, wrap_sol_only, wrap_wsol_to_sol, wrap_wsol_to_sol_without_create};
use sol_trade_sdk::zero_copy::{DirectMemoryAccessManager, MemoryMappedBuffer, SharedMemoryPool};

fn key(b: u8) -> Pubkey {
    Pubkey([b; 32])
}

fn event(id: &str, data: Vec<u8>) -> EventMessage {
    EventMessage {
        event_id: id.to_string(),
        event_type: EventType::BlockMeta,
        data,
        serialization_format: SerializationProtocol::Bincode,
        timestamp: 1,
    }
}

#[test]
fn test_tx_queue_creation() {
    let tx_queue = TxQueue::new(1000).unwrap();
    assert_eq!(tx_queue.capacity(), 1000);
    assert_eq!(tx_queue.pending_packets(), 0);
}

#[test]
fn test_rx_queue_creation() {
    let rx_queue = RxQueue::new(1000).unwrap();
    assert_eq!(rx_queue.capacity(), 1000);
    assert_eq!(rx_queue.available_packets(), 0);
}

#[test]
fn test_kernel_bypass_udp() {
    let udp = KernelBypassUDP::new("eth0".to_string(), Some(0)).unwrap();
    let stats = udp.get_network_counters();
    assert_eq!(stats.packets_sent, 0);
    assert_eq!(stats.packets_received, 0);
}

#[test]
fn tx_ring_sends_and_drains() {
    let mut udp = KernelBypassUDP::new("eth0".to_string(), None).unwrap();
    udp.send_raw_packet(&[1, 2, 3], Some(0x7f000001), 8080).unwrap();
    assert_eq!(
        udp.send_raw_packet(&[1], None, 8080),
        Err("Only IPv4 supported".to_string())
    );
    let counters = udp.get_network_counters();
    assert_eq!(counters.bytes_sent, 3);
    assert_eq!(counters.send_errors, 1);
    assert_eq!(udp.tx_drain_step(), 1);
    assert_eq!(udp.get_network_counters().packets_sent, 1);
    assert_eq!(udp.tx_drain_step(), 0);
    assert_eq!(udp.traffic_report(), Some((1, 3, 0, 0)));
}

#[test]
fn tx_ring_refuses_when_full() {
    let mut q = TxQueue::new(2).unwrap();
    q.send_packet_zero_copy(&[9], Some(1), 1).unwrap();
    assert_eq!(q.send_packet_zero_copy(&[9], Some(1), 1), Err("TX queue is full".to_string()));
    assert_eq!(q.pending_packets(), 1);
}

#[test]
fn rx_ring_empty() {
    let mut q = RxQueue::new(4).unwrap();
    let mut buf = [0u8; 8];
    assert_eq!(q.receive_packet_zero_copy(&mut buf), Err("RX queue is empty".to_string()));
}

#[test]
fn decimal_text() {
    let mut s = String::from("n=");
    push_decimal(&mut s, 0);
    push_decimal(&mut s, 1500);
    assert_eq!(s, "n=01500");
    let mut t = String::new();
    push_decimal(&mut t, u64::MAX);
    assert_eq!(t, u64::MAX.to_string());
}

#[test]
fn test_lockfree_dispatcher() {
    let mut dispatcher = LockFreeEventDispatcher::new(4, 1000, None);
    assert!(dispatcher.dispatch_event_ultra_fast("client_1", event("test_1", vec![1, 2, 3, 4])).is_ok());
    let stats = dispatcher.get_performance_stats();
    assert_eq!(stats.events_processed, 1);
}

#[test]
fn dispatcher_assigns_queues_in_turn() {
    let mut d = LockFreeEventDispatcher::new(2, 1, None);
    d.dispatch_event_ultra_fast("a", event("1", vec![])).unwrap();
    d.dispatch_event_ultra_fast("b", event("2", vec![])).unwrap();
    assert_eq!(d.get_queue_stats(), vec![(0, 1), (1, 1)]);
    assert_eq!(
        d.dispatch_event_ultra_fast("a", event("3", vec![])),
        Err("Queue overflow for client: a".to_string())
    );
    assert_eq!(d.get_performance_stats().queue_overflows, 1);
    let taken = d.drain_queue(0);
    assert_eq!(taken.len(), 1);
    assert_eq!(taken[0].event_id, "1");
    assert_eq!(d.get_queue_stats(), vec![(0, 0), (1, 1)]);
    assert_eq!(d.get_prefetch_stats(), (0, 0));
}

#[test]
fn latency_bands() {
    let mut s = UltraLowLatencyStats::new();
    s.record_event_latency(5_000);
    s.record_event_latency(50_000);
    s.record_event_latency(2_000_000);
    assert_eq!(s.events_processed, 3);
    assert_eq!(s.total_latency_ns, 2_055_000);
    assert_eq!(s.min_latency_ns, 5_000);
    assert_eq!(s.max_latency_ns, 2_000_000);
    assert_eq!(s.sub_millisecond_events, 2);
    assert_eq!(s.ultra_fast_events, 2);
    assert_eq!(s.lightning_fast_events, 1);
}

#[test]
fn worker_cores_in_turn() {
    let config = CpuAffinityConfig { core_ids: vec![2, 5], numa_optimization: false, priority: ThreadPriority::High };
    assert_eq!(worker_core(&config, 0), Some(2));
    assert_eq!(worker_core(&config, 3), Some(5));
    let none = CpuAffinityConfig { core_ids: vec![], numa_optimization: false, priority: ThreadPriority::Normal };
    assert_eq!(worker_core(&none, 1), None);
}

#[test]
fn test_zero_alloc_serializer() {
    let mut serializer = ZeroAllocSerializer::new(10, 1024);

    let test_data = "Hello, world!";
    let encoded = bincode::serialize(&test_data).unwrap();
    let result = serializer.serialize_zero_alloc(&encoded, "string");
    assert!(result.is_ok());

    let serialized = result.unwrap();
    assert!(!serialized.is_empty());

    serializer.return_buffer(serialized);

    let (available, capacity) = serializer.get_pool_stats();
    assert!(available > 0);
    assert_eq!(capacity, 10);
}

#[test]
fn string_map_overwrites() {
    let mut m: StringMap<usize> = StringMap::new();
    m.insert("x".to_string(), 1);
    m.insert("y".to_string(), 2);
    m.insert("x".to_string(), 3);
    assert_eq!(m.get("x"), Some(3));
    assert_eq!(m.get("y"), Some(2));
    assert_eq!(m.get("z"), None);
}

#[test]
fn compute_budget_layout() {
    let ixs = compute_budget_instructions(5, 200_000);
    assert_eq!(ixs.len(), 2);
    assert_eq!(ixs[0].data, vec![3, 5, 0, 0, 0, 0, 0, 0, 0]);
    assert_eq!(ixs[1].data, vec![2, 0x40, 0x0d, 0x03, 0]);
    assert!(ixs[0].accounts.is_empty());
    assert_eq!(ixs[0].program_id.0[0], 3);
    assert_eq!(compute_budget_instructions(0, 0).len(), 0);
    assert_eq!(compute_budget_instructions(0, 7).len(), 1);
}

#[test]
fn nonce_instruction_and_blockhash() {
    let mut ixs = Vec::new();
    let nonce = DurableNonceInfo { nonce_account: Some(key(7)), current_nonce: Some(Blockhash([9; 32])) };
    add_nonce_instruction(&mut ixs, &key(1), Some(nonce)).unwrap();
    assert_eq!(ixs.len(), 1);
    assert_eq!(ixs[0].data, vec![4, 0, 0, 0]);
    assert_eq!(ixs[0].accounts[0].pubkey.0, [7u8; 32]);
    assert!(ixs[0].accounts[2].is_signer);
    add_nonce_instruction(&mut ixs, &key(1), None).unwrap();
    assert_eq!(ixs.len(), 1);
    assert_eq!(get_transaction_blockhash(Some(Blockhash([1; 32])), Some(nonce)).0, [9; 32]);
    assert_eq!(get_transaction_blockhash(Some(Blockhash([1; 32])), None).0, [1; 32]);
}

#[test]
fn nonce_account_decoding() {
    let mut data = vec![1u8, 0, 0, 0, 1, 0, 0, 0];
    data.extend_from_slice(&[5u8; 32]);
    data.extend_from_slice(&[6u8; 32]);
    data.extend_from_slice(&5000u64.to_le_bytes());
    let info = nonce_info_from_account_data(&key(3), &data).unwrap();
    assert_eq!(info.nonce_account.unwrap().0, [3u8; 32]);
    assert_eq!(info.current_nonce.unwrap().0, [6u8; 32]);
    assert!(nonce_info_from_account_data(&key(3), &[0u8; 80]).is_none());
}

#[test]
fn transaction_instruction_order() {
    let business = compute_budget_instructions(1, 0);
    let nonce = DurableNonceInfo { nonce_account: Some(key(7)), current_nonce: Some(Blockhash([9; 32])) };
    let plan = build_transaction(&key(1), 100, 2, &business, None, Some(nonce), Some((key(8), 1000))).unwrap();
    assert_eq!(plan.instructions.len(), 5);
    assert_eq!(plan.instructions[0].data, vec![4, 0, 0, 0]);
    assert_eq!(plan.instructions[1].data[0], 2);
    assert_eq!(plan.instructions[1].accounts[1].pubkey.0, [8u8; 32]);
    assert_eq!(plan.instructions[2].data[0], 3);
    assert_eq!(plan.instructions[3].data[0], 2);
    assert_eq!(plan.blockhash.0, [9; 32]);
}

#[test]
fn seed_account_needs_rent() {
    let rents = RentCache::new();
    let token_program = sol_trade_sdk::pubkey::token_program();
    assert_eq!(
        create_associated_token_account_use_seed(&rents, &key(1), &key(1), &key(2), &token_program).unwrap_err(),
        "Rent not initialized"
    );
    let mut rents = RentCache::new();
    rents.update_rents(2039280, 2039280);
    let ixs = create_associated_token_account_use_seed(&rents, &key(1), &key(1), &key(2), &token_program).unwrap();
    assert_eq!(ixs.len(), 2);
    assert_eq!(&ixs[0].data[..4], &[3, 0, 0, 0]);
    assert_eq!(ixs[1].data[0], 18);
    assert_eq!(wrap_wsol_to_sol(&RentCache::new(), &key(1), 5).unwrap_err(), "Rent not initialized");
    assert_eq!(wrap_wsol_to_sol(&rents, &key(1), 5).unwrap().len(), 4);
}

#[test]
fn wsol_wrapping_instructions() {
    let ixs = handle_wsol(&key(1), 10).unwrap();
    assert_eq!(ixs.len(), 3);
    assert_eq!(ixs[1].data, vec![2, 0, 0, 0, 10, 0, 0, 0, 0, 0, 0, 0]);
    assert_eq!(ixs[2].data, vec![17]);
    assert_eq!(wrap_sol_only(&key(1), 10).unwrap().len(), 2);
    let unwrap = wrap_wsol_to_sol_without_create(&key(1), 10).unwrap();
    assert_eq!(unwrap[0].data[0], 3);
    assert_eq!(unwrap[1].data, vec![9]);
}

#[test]
fn landing_service_requests() {
    assert_eq!(
        zeroslot_body("QUJD"),
        "{\"id\":1,\"jsonrpc\":\"2.0\",\"method\":\"sendTransaction\",\"params\":[\"QUJD\",{\"encoding\":\"base64\",\"skipPreflight\":true}]}"
    );
    assert_eq!(zeroslot_url("https://x", "k"), "https://x/?api-key=k");
    assert_eq!(flashblock_body("QQ=="), "{\"transactions\":[\"QQ==\"]}");
    assert_eq!(
        bloxroute_body("QQ=="),
        "{\"transaction\":{\"content\":\"QQ==\"},\"frontRunningProtection\":false,\"useStakedRPCs\":true}"
    );
    assert_eq!(
        bloxroute_batch_body(&vec!["a".to_string(), "b".to_string()]),
        "{\"entries\":[{\"transaction\":{\"content\":\"a\"}},{\"transaction\":{\"content\":\"b\"}}]}"
    );
    assert_eq!(bloxroute_batch_body(&vec![]), "{\"entries\":[]}");
    assert_eq!(
        blockrazor_health_url("http://fra.blockrazor.xyz:443/v2/sendTransaction"),
        "http://fra.blockrazor.xyz:443/v2/health"
    );
    assert_eq!(replace_str("aaa", "aa", "b"), "ba");
}

#[test]
fn global_account_initial_buy() {
    let g = GlobalAccount {
        discriminator: 0,
        account: key(0),
        initialized: true,
        authority: key(0),
        fee_recipient: key(0),
        initial_virtual_token_reserves: 1_073_000_000_000_000,
        initial_virtual_sol_reserves: 30_000_000_000,
        initial_real_token_reserves: 793_100_000_000_000,
        token_total_supply: 1_000_000_000_000_000,
        fee_basis_points: 95,
        withdraw_authority: key(0),
        enable_migrate: false,
        pool_migration_fee: 0,
        creator_fee: 0,
        fee_recipients: [key(0); 7],
    };
    assert_eq!(g.get_initial_buy_price(0), 0);
    let n: u128 = 30_000_000_000u128 * 1_073_000_000_000_000u128;
    let expected = 1_073_000_000_000_000u128 - (n / (30_000_000_000u128 + 1_000_000_000) + 1);
    assert_eq!(g.get_initial_buy_price(1_000_000_000) as u128, expected);
    assert_eq!(g.get_initial_buy_price(u64::MAX), 793_100_000_000_000);
}

#[test]
fn test_shared_memory_pool() {
    let mut pool = SharedMemoryPool::new(0, 1024 * 1024, 4096).unwrap();
    let block1 = pool.allocate_block().expect("Should allocate block");
    assert_eq!(block1.size(), 4096);
    let block2 = pool.allocate_block().expect("Should allocate another block");
    assert_eq!(block2.size(), 4096);
    pool.deallocate_block(block1);
    pool.deallocate_block(block2);
}

#[test]
fn test_memory_mapped_buffer() {
    let mut buffer = MemoryMappedBuffer::new(0, 1024 * 1024).unwrap();
    let test_data = b"Hello, Zero-Copy World!";
    let written = buffer.write_data(test_data).unwrap();
    assert_eq!(written, test_data.len());
    let mut read_buffer = vec![0u8; test_data.len()];
    let read = buffer.read_data(&mut read_buffer).unwrap();
    assert_eq!(read, test_data.len());
    assert_eq!(&read_buffer, test_data);
}

#[test]
fn test_dma_transfer() {
    let mut dma_manager = DirectMemoryAccessManager::new(4).unwrap();
    let src = vec![1u8, 2, 3, 4, 5, 6, 7, 8];
    let mut dst = vec![0u8; 8];
    let transferred = dma_manager.dma_transfer(&src, &mut dst).unwrap();
    assert_eq!(transferred, 8);
    assert_eq!(src, dst);
}

#[test]
fn test_syscall_batch_processor() {
    let mut processor = SyscallBatchProcessor::new(10).unwrap();
    let request = SyscallRequest::Write { fd: 1, data: vec![1, 2, 3, 4, 5] };
    processor.submit_request(request).unwrap();
    let processed = processor.execute_batch().unwrap();
    assert_eq!(processed, 1);
}

#[test]
fn test_io_optimizer() {
    let config = SyscallBypassConfig::default();
    let mut optimizer = IOOptimizer::new(&config).unwrap();
    let requests = vec![b"test data".to_vec()];
    let results = optimizer.batch_async_write(&requests).unwrap();
    assert_eq!(results.len(), 1);
    assert_eq!(results[0], 9);
}

#[test]
fn test_system_call_bypass_manager() {
    let config = SyscallBypassConfig::default();
    let mut manager = SystemCallBypassManager::new(config).unwrap();
    let timestamp = manager.fast_timestamp_nanos();
    assert!(timestamp > 0);
    let stats = manager.get_bypass_stats();
    assert_eq!(stats.time_calls_cached, 1);
}

#[test]
fn test_realtime_optimizer_creation() {
    let config = RealtimeConfig::default();
    let optimizer = RealtimeSystemOptimizer::new(config).unwrap();
    let status = optimizer.get_optimization_status();
    assert!(!status.realtime_scheduling_enabled);
}

#[test]
fn test_ultra_low_latency_config() {
    let config = RealtimeSystemOptimizer::ultra_low_latency_config();
    assert!(config.enable_realtime_scheduling);
    assert_eq!(config.realtime_priority, 99);
    assert!(config.enable_memory_locking);
    assert_eq!(config.memory_lock_limit, 8 * 1024 * 1024 * 1024);
}

use sol_trade_sdk::gas_fee_strategy::{GasFeeStrategyType, GasFeeStrategyValue};
use sol_trade_sdk::parallel::{
    confirmed_answer, is_landed_error, plan_parallel_tasks, submitted_answer, PollOutcome, ResultCollector,
    TaskResult, TxSignature,
};
use sol_trade_sdk::swqos::SwqosType;

fn strategy(t: SwqosType, tip_bits: u64) -> (SwqosType, GasFeeStrategyType, GasFeeStrategyValue) {
    (t, GasFeeStrategyType::Normal, GasFeeStrategyValue { cu_limit: 1, cu_price: 2, tip_bits })
}

#[test]
fn parallel_task_planning() {
    let clients = vec![SwqosType::Jito, SwqosType::Default];
    let configs = vec![strategy(SwqosType::Default, 0), strategy(SwqosType::Jito, 1), strategy(SwqosType::Bloxroute, 2)];
    let ok = vec![true, true, true];
    let tasks = plan_parallel_tasks(&clients, &configs, &ok, true, false, false).unwrap();
    assert_eq!(tasks.len(), 2);
    assert_eq!(tasks[0].client_index, 0);
    assert_eq!(tasks[0].value.tip_bits, 1);
    assert_eq!(tasks[1].client_index, 1);
    let untipped = plan_parallel_tasks(&clients, &configs, &ok, false, true, false).unwrap();
    assert_eq!(untipped.len(), 1);
    assert_eq!(untipped[0].swqos_type, SwqosType::Default);
    assert_eq!(
        plan_parallel_tasks(&clients, &configs, &ok, true, true, false).unwrap_err(),
        "Multiple swqos transactions require durable_nonce to be set."
    );
    assert_eq!(plan_parallel_tasks(&clients, &configs, &ok, true, true, true).unwrap().len(), 2);
    assert_eq!(plan_parallel_tasks(&vec![], &configs, &ok, true, false, false).unwrap_err(), "swqos_clients is empty");
    assert_eq!(
        plan_parallel_tasks(&vec![SwqosType::Jito], &configs, &ok, false, false, false).unwrap_err(),
        "No Rpc Default Swqos configured."
    );
    assert_eq!(
        plan_parallel_tasks(&clients, &configs, &vec![false, false, true], true, false, false).unwrap_err(),
        "No available gas fee strategy configs"
    );
}

#[test]
fn landed_error_classification() {
    assert!(is_landed_error(Some(6004), "ExceededSlippage"));
    assert!(!is_landed_error(Some(500), "request timed out"));
    assert!(is_landed_error(Some(500), "server error"));
    assert!(!is_landed_error(Some(0), "x"));
    assert!(!is_landed_error(None, "timeout"));
}

fn result(success: bool, landed: bool, sig: u8, error: Option<&str>) -> TaskResult {
    result_from(0, success, landed, sig, error)
}

fn result_from(client_index: usize, success: bool, landed: bool, sig: u8, error: Option<&str>) -> TaskResult {
    TaskResult {
        client_index,
        success,
        signature: TxSignature([sig; 64]),
        error: error.map(|e| e.to_string()),
        swqos_type: SwqosType::Jito,
        landed_on_chain: landed,
    }
}

#[test]
fn collector_answers() {
    let mut c = ResultCollector::new(3);
    c.submit(result(false, false, 1, Some("net")));
    assert!(matches!(c.poll(), PollOutcome::Pending));
    c.submit(result(true, true, 2, None));
    match c.poll() {
        PollOutcome::Success(sigs) => {
            assert_eq!(sigs.len(), 2);
            assert_eq!(sigs[1].0[0], 2);
        },
        _ => panic!("expected success"),
    }

    let mut d = ResultCollector::new(2);
    d.submit(result(false, true, 3, Some("slippage")));
    match d.poll() {
        PollOutcome::LandedFailed(sigs, e) => {
            assert_eq!(sigs.len(), 1);
            assert_eq!(e, Some("slippage".to_string()));
        },
        _ => panic!("expected landed failure"),
    }

    let mut f = ResultCollector::new(1);
    f.submit(result(false, false, 4, Some("a")));
    match f.poll() {
        PollOutcome::Completed(ok, sigs, e) => {
            assert!(!ok);
            assert_eq!(sigs.len(), 1);
            assert_eq!(e, Some("a".to_string()));
        },
        _ => panic!("expected completion"),
    }
    assert!(matches!(f.poll(), PollOutcome::NothingCollected));
    assert_eq!(confirmed_answer(None).unwrap_err(), "All transactions failed");
    let answer = submitted_answer(None);
    assert!(!answer.success);
    assert_eq!(answer.error, Some("No SWQOS result within 30s".to_string()));
    let mut g = ResultCollector::new(2);
    g.submit(result(false, false, 5, None));
    let first = g.get_first().unwrap();
    assert_eq!(first.signatures.len(), 1);
    assert!(g.get_first().is_none());
}

#[test]
fn collector_orders_signatures_by_client() {
    let mut c = ResultCollector::new(2);
    c.submit(result_from(1, true, true, 9, None));
    c.submit(result_from(0, false, false, 7, Some("net")));
    match c.poll() {
        PollOutcome::Success(sigs) => {
            assert_eq!(sigs.len(), 2);
            assert_eq!(sigs[0].0[0], 7);
            assert_eq!(sigs[1].0[0], 9);
        },
        _ => panic!("expected success"),
    }
    let mut d = ResultCollector::new(3);
    d.submit(result_from(2, false, false, 3, None));
    d.submit(result_from(0, false, false, 1, None));
    d.submit(result_from(1, false, false, 2, None));
    let first = d.get_first().unwrap();
    let order: Vec<u8> = first.signatures.iter().map(|s| s.0[0]).collect();
    assert_eq!(order, vec![1, 2, 3]);
}

#[test]
fn nonce_not_ready_is_refused() {
    let mut ixs = Vec::new();
    let unfetched = DurableNonceInfo { nonce_account: Some(key(7)), current_nonce: None };
    assert_eq!(add_nonce_instruction(&mut ixs, &key(1), Some(unfetched)).unwrap_err(), "Nonce is not ready");
    let unnamed = DurableNonceInfo { nonce_account: None, current_nonce: Some(Blockhash([9; 32])) };
    assert_eq!(add_nonce_instruction(&mut ixs, &key(1), Some(unnamed)).unwrap_err(), "Nonce is not ready");
    assert!(ixs.is_empty());
}
