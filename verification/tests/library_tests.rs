use std::hash::Hasher;
use sol_trade_sdk::bonding_curve::{
    BondingCurveAccount, INITIAL_REAL_TOKEN_RESERVES, INITIAL_VIRTUAL_SOL_RESERVES,
    INITIAL_VIRTUAL_TOKEN_RESERVES, TOKEN_TOTAL_SUPPLY,
};
use sol_trade_sdk::calc::{calculate_with_slippage_buy, calculate_with_slippage_sell, ceil_div, compute_fee};
use sol_trade_sdk::encoding::{
    decrypt_private_key, encode_serialized, encrypt_private_key, xor_encrypt_decrypt, xor_key,
    Base64Encoder, TransactionEncoding,
};
use sol_trade_sdk::execution::{
    confirmation_outcome, needs_poll, simulation_fee_config, tip_enabled, trade_is_buy, ExecutionPath,
    InstructionProcessor,
};
use sol_trade_sdk::gas_fee_strategy::{GasFeeStrategy, GasFeeStrategyType};
use sol_trade_sdk::pubkey::{token_program, wsol_token_account, Pubkey};
use sol_trade_sdk::pumpswap::{
    buy_base_input_internal, buy_quote_input_internal, sell_base_input_internal, sell_quote_input_internal,
};
use sol_trade_sdk::realtime::numa_balancing_enabled;
use sol_trade_sdk::swqos::{
    enabled_swqos_configs, swqos_blacklisted, EndpointTable, SwqosConfig, SwqosRegion, SwqosType, TradeType,
};
use sol_trade_sdk::syscall::{group_requests, SyscallRequest};
use sol_trade_sdk::timing::{
    best_sample, drifted, elapsed_between, fast_elapsed, micros_after, micros_between, now_micros, HighPerformanceClock,
};
use std::time::Instant;
use sol_trade_sdk::token_accounts::{
    close_account, get_associated_token_address, get_associated_token_address_with_program_id_use_seed,
    initialize_account3, mint_seed, transfer, Instruction,
};
use sol_trade_sdk::trading::{
    parse_token_amount, plan_buy, plan_sell, sell_amount_by_percent, DexParamEnum, DexType, PumpSwapParams,
    TradeTokenType,
};
use sol_trade_sdk::wsol::{WsolAtaSetup, WsolSetupAction, WsolSetupEvent};

fn key(b: u8) -> Pubkey {
    Pubkey([b; 32])
}

#[test]
fn rounding_and_slippage_values() {
    assert_eq!(ceil_div(7, 2), 4);
    assert_eq!(ceil_div(8, 2), 4);
    assert_eq!(ceil_div(0, 5), 0);
    assert_eq!(compute_fee(1000, 25), 3);
    assert_eq!(compute_fee(10_000, 25), 25);
    assert_eq!(calculate_with_slippage_buy(1000, 500), 1050);
    assert_eq!(calculate_with_slippage_sell(1000, 500), 950);
    // Slippage that would take everything leaves one unit.
    assert_eq!(calculate_with_slippage_sell(0, 20_000), 1);
    assert_eq!(calculate_with_slippage_sell(1, 10_000), 1);
}

#[test]
fn pumpswap_buy_quotes() {
    let none = Pubkey([0; 32]);
    let creator = key(7);
    let r = buy_base_input_internal(1000, 100, 1_000_000, 2_000_000, &none).unwrap();
    assert_eq!((r.internal_quote_amount, r.ui_quote, r.max_quote), (2003, 2010, 2030));
    let r = buy_base_input_internal(1000, 100, 1_000_000, 2_000_000, &creator).unwrap();
    assert_eq!((r.internal_quote_amount, r.ui_quote, r.max_quote), (2003, 2012, 2032));
    let r = buy_quote_input_internal(10_000, 100, 1_000_000, 2_000_000, &none).unwrap();
    assert_eq!((r.base, r.internal_quote_without_fees, r.max_quote), (4962, 9975, 10100));
    let r = buy_quote_input_internal(10_000, 100, 1_000_000, 2_000_000, &creator).unwrap();
    assert_eq!((r.base, r.internal_quote_without_fees, r.max_quote), (4960, 9970, 10100));
}

#[test]
fn pumpswap_sell_quotes() {
    let none = Pubkey([0; 32]);
    let creator = key(7);
    let r = sell_base_input_internal(1000, 100, 1_000_000, 2_000_000, &none).unwrap();
    assert_eq!((r.ui_quote, r.min_quote, r.internal_quote_amount_out), (1993, 1974, 1998));
    let r = sell_base_input_internal(1000, 100, 1_000_000, 2_000_000, &creator).unwrap();
    assert_eq!((r.ui_quote, r.min_quote, r.internal_quote_amount_out), (1992, 1973, 1998));
    let r = sell_quote_input_internal(1000, 100, 1_000_000, 2_000_000, &none).unwrap();
    assert_eq!((r.internal_raw_quote, r.base, r.min_quote), (1003, 502, 990));
    let r = sell_quote_input_internal(1000, 100, 1_000_000, 2_000_000, &creator).unwrap();
    assert_eq!((r.internal_raw_quote, r.base, r.min_quote), (1004, 503, 990));
}

#[test]
fn pumpswap_errors() {
    let none = Pubkey([0; 32]);
    assert_eq!(
        buy_base_input_internal(1, 0, 0, 10, &none).unwrap_err(),
        "Invalid input: 'baseReserve' or 'quoteReserve' cannot be zero."
    );
    assert_eq!(
        buy_base_input_internal(11, 0, 10, 10, &none).unwrap_err(),
        "Cannot buy more base tokens than the pool reserves."
    );
    assert_eq!(
        buy_base_input_internal(10, 0, 10, 10, &none).unwrap_err(),
        "Pool would be depleted; denominator is zero."
    );
    assert_eq!(
        buy_quote_input_internal(1, 0, 10, 0, &none).unwrap_err(),
        "Invalid input: 'baseReserve' or 'quoteReserve' cannot be zero."
    );
    assert_eq!(
        sell_base_input_internal(1, 0, 0, 10, &none).unwrap_err(),
        "Invalid input: 'baseReserve' or 'quoteReserve' cannot be zero."
    );
    assert_eq!(
        sell_quote_input_internal(11, 0, 10, 10, &none).unwrap_err(),
        "Cannot receive more quote tokens than the pool quote reserves."
    );
    assert_eq!(
        sell_quote_input_internal(10, 0, 10, 10, &none).unwrap_err(),
        "Invalid input: Desired quote amount exceeds available reserve."
    );
}

fn fresh_curve() -> BondingCurveAccount {
    let mut c = BondingCurveAccount::default();
    c.virtual_token_reserves = INITIAL_VIRTUAL_TOKEN_RESERVES;
    c.virtual_sol_reserves = INITIAL_VIRTUAL_SOL_RESERVES;
    c.real_token_reserves = INITIAL_REAL_TOKEN_RESERVES;
    c.token_total_supply = TOKEN_TOTAL_SUPPLY;
    c
}

#[test]
fn bonding_curve_prices() {
    let c = fresh_curve();
    let vsr = INITIAL_VIRTUAL_SOL_RESERVES as u128;
    let vtr = INITIAL_VIRTUAL_TOKEN_RESERVES as u128;
    let amount: u128 = 1_000_000_000;
    let expected = (vtr - (vsr * vtr / (vsr + amount) + 1)) as u64;
    assert_eq!(c.get_buy_price(1_000_000_000).unwrap(), expected);
    assert_eq!(c.get_buy_price(0).unwrap(), 0);
    // A huge buy is capped at the real token reserves.
    assert_eq!(c.get_buy_price(u64::MAX / 2).unwrap(), INITIAL_REAL_TOKEN_RESERVES);
    let tokens: u128 = 1_000_000_000_000;
    let gross = tokens * vsr / (vtr + tokens);
    let net = gross - gross * 100 / 10_000;
    assert_eq!(c.get_sell_price(1_000_000_000_000, 100).unwrap(), net as u64);
    assert_eq!(
        c.get_market_cap_sol(),
        (TOKEN_TOTAL_SUPPLY as u128 * vsr / vtr) as u64
    );
    let mut done = fresh_curve();
    done.complete = true;
    assert_eq!(done.get_buy_price(5).unwrap_err(), "Curve is complete");
    assert_eq!(done.get_sell_price(5, 0).unwrap_err(), "Curve is complete");
    let empty = BondingCurveAccount::default();
    assert_eq!(empty.get_market_cap_sol(), 0);
}

#[test]
fn gas_fee_set_then_get_and_exclusivity() {
    let mut s = GasFeeStrategy::new();
    assert!(s.get(SwqosType::Jito, TradeType::Buy, GasFeeStrategyType::Normal).is_none());
    s.set(SwqosType::Jito, TradeType::Buy, GasFeeStrategyType::Normal, 200_000, 1000, 7);
    let v = s.get(SwqosType::Jito, TradeType::Buy, GasFeeStrategyType::Normal).unwrap();
    assert_eq!((v.cu_limit, v.cu_price, v.tip_bits), (200_000, 1000, 7));
    // A high/low strategy replaces the normal one of the same service and trade.
    s.set(SwqosType::Jito, TradeType::Buy, GasFeeStrategyType::LowTipHighCuPrice, 1, 2, 3);
    assert!(s.get(SwqosType::Jito, TradeType::Buy, GasFeeStrategyType::Normal).is_none());
    assert!(s.get(SwqosType::Jito, TradeType::Buy, GasFeeStrategyType::LowTipHighCuPrice).is_some());
    // ... and a normal one replaces both high/low strategies.
    s.set(SwqosType::Jito, TradeType::Buy, GasFeeStrategyType::HighTipLowCuPrice, 4, 5, 6);
    s.set(SwqosType::Jito, TradeType::Buy, GasFeeStrategyType::Normal, 9, 9, 9);
    assert!(s.get(SwqosType::Jito, TradeType::Buy, GasFeeStrategyType::LowTipHighCuPrice).is_none());
    assert!(s.get(SwqosType::Jito, TradeType::Buy, GasFeeStrategyType::HighTipLowCuPrice).is_none());
    // Other keys are untouched.
    s.set(SwqosType::Bloxroute, TradeType::Sell, GasFeeStrategyType::Normal, 1, 1, 1);
    assert!(s.get(SwqosType::Jito, TradeType::Buy, GasFeeStrategyType::Normal).is_some());
    s.del(SwqosType::Jito, TradeType::Buy, GasFeeStrategyType::Normal);
    assert!(s.get(SwqosType::Jito, TradeType::Buy, GasFeeStrategyType::Normal).is_none());
    assert!(s.get(SwqosType::Bloxroute, TradeType::Sell, GasFeeStrategyType::Normal).is_some());
}

#[test]
fn gas_fee_updates_and_listing() {
    let mut s = GasFeeStrategy::new();
    s.set(SwqosType::Jito, TradeType::Buy, GasFeeStrategyType::Normal, 10, 20, 30);
    s.set(SwqosType::Default, TradeType::Buy, GasFeeStrategyType::Normal, 11, 21, 31);
    s.set(SwqosType::Jito, TradeType::Sell, GasFeeStrategyType::Normal, 12, 22, 32);
    s.update_buy_tip(99);
    s.update_sell_cu_price(77);
    let jb = s.get(SwqosType::Jito, TradeType::Buy, GasFeeStrategyType::Normal).unwrap();
    assert_eq!((jb.cu_limit, jb.cu_price, jb.tip_bits), (10, 20, 99));
    let js = s.get(SwqosType::Jito, TradeType::Sell, GasFeeStrategyType::Normal).unwrap();
    assert_eq!((js.cu_limit, js.cu_price, js.tip_bits), (12, 77, 32));
    let buys = s.get_strategies(TradeType::Buy);
    assert_eq!(buys.len(), 2);
    assert!(buys.iter().any(|(t, g, v)| *t == SwqosType::Jito && *g == GasFeeStrategyType::Normal && v.tip_bits == 99));
    assert!(buys.iter().any(|(t, _, v)| *t == SwqosType::Default && v.cu_limit == 11));
    assert_eq!(s.get_strategies(TradeType::Create).len(), 0);
    s.del_all(SwqosType::Jito, TradeType::Buy);
    assert_eq!(s.get_strategies(TradeType::Buy).len(), 1);
    s.clear();
    assert_eq!(s.get_strategies(TradeType::Sell).len(), 0);
}

#[test]
fn simulation_fee_configuration() {
    let mut s = GasFeeStrategy::new();
    assert_eq!(simulation_fee_config(&s, true, true).unwrap_err(), "No default gas fee strategy found");
    s.set(SwqosType::Default, TradeType::Sell, GasFeeStrategyType::HighTipLowCuPrice, 5, 6, 7);
    assert_eq!(simulation_fee_config(&s, false, true).unwrap(), (5, 6, 7));
    assert_eq!(simulation_fee_config(&s, false, false).unwrap(), (5, 6, 0));
    assert!(trade_is_buy(TradeType::CreateAndBuy));
    assert!(!trade_is_buy(TradeType::Sell));
    assert!(tip_enabled(true, false));
    assert!(!tip_enabled(false, false));
}

#[test]
fn confirmation_decisions() {
    let ok: Result<(bool, Vec<u8>, Option<String>), String> = Ok((true, vec![1], None));
    assert!(needs_poll(true, true, &ok));
    assert!(!needs_poll(true, false, &ok));
    assert!(!needs_poll(false, true, &ok));
    let empty: Result<(bool, Vec<u8>, Option<String>), String> = Ok((true, vec![], None));
    assert!(!needs_poll(true, true, &empty));
    let r = confirmation_outcome(true, true, ok.clone(), Some(Err("landed with error".to_string())));
    assert_eq!(r, Ok((false, vec![1], Some("landed with error".to_string()))));
    let r = confirmation_outcome(true, true, ok.clone(), Some(Ok(())));
    assert_eq!(r, Ok((true, vec![1], None)));
    let failed: Result<(bool, Vec<u8>, Option<String>), String> = Err("send failed".to_string());
    let r = confirmation_outcome(true, true, failed.clone(), None);
    assert_eq!(r, Ok((false, vec![], Some("send failed".to_string()))));
    assert_eq!(confirmation_outcome(false, true, failed.clone(), None), failed);
}

fn endpoint_table() -> EndpointTable {
    let mut rows = Vec::new();
    for t in 0..15 {
        let mut row = Vec::new();
        for r in 0..8 {
            row.push(format!("https://svc{}.region{}", t, r));
        }
        rows.push(row);
    }
    EndpointTable { rows }
}

#[test]
fn swqos_endpoints_and_blacklist() {
    let table = endpoint_table();
    assert_eq!(
        SwqosConfig::get_endpoint(SwqosType::Jito, SwqosRegion::Frankfurt, None, &table),
        "https://svc0.region1"
    );
    assert_eq!(
        SwqosConfig::get_endpoint(SwqosType::Jito, SwqosRegion::Tokyo, Some("custom".to_string()), &table),
        "custom"
    );
    assert_eq!(SwqosConfig::get_endpoint(SwqosType::Lightspeed, SwqosRegion::Tokyo, None, &table), "");
    assert!(swqos_blacklisted(SwqosType::NextBlock));
    assert!(!swqos_blacklisted(SwqosType::Jito));
    let configs = vec![
        SwqosConfig::Jito("a".to_string(), SwqosRegion::NewYork, None),
        SwqosConfig::NextBlock("b".to_string(), SwqosRegion::NewYork, None),
        SwqosConfig::Default("rpc".to_string()),
    ];
    let enabled = enabled_swqos_configs(&configs);
    assert_eq!(enabled.len(), 2);
    assert_eq!(enabled[0].swqos_type(), SwqosType::Jito);
    assert_eq!(enabled[1].swqos_type(), SwqosType::Default);
    let plan = SwqosConfig::Helius(String::new(), SwqosRegion::London, None, Some(true)).plan_client(&table);
    assert_eq!(plan.swqos_type, SwqosType::Helius);
    assert_eq!(plan.endpoint, "https://svc13.region5");
    assert!(plan.credential.is_none());
    assert!(plan.swqos_only);
    let plan = SwqosConfig::Stellium("tok".to_string(), SwqosRegion::Amsterdam, None).plan_client(&table);
    assert_eq!(plan.endpoint, "https://svc9.region2");
    assert_eq!(plan.credential, Some("tok".to_string()));
}

fn swap_params() -> PumpSwapParams {
    PumpSwapParams {
        pool: key(1),
        base_mint: key(2),
        quote_mint: wsol_token_account(),
        pool_base_token_account: key(3),
        pool_quote_token_account: key(4),
        pool_base_token_reserves: 10,
        pool_quote_token_reserves: 20,
        coin_creator_vault_ata: key(5),
        coin_creator_vault_authority: key(6),
        base_token_program: key(8),
        quote_token_program: key(9),
        is_mayhem_mode: false,
        is_cashback_coin: false,
    }
}

#[test]
fn trade_planning() {
    let params = DexParamEnum::PumpSwap(swap_params());
    let p = plan_buy(DexType::PumpSwap, TradeTokenType::WSOL, key(2), 500, true, false, true, Some(true), &params)
        .unwrap();
    assert_eq!(p.trade_type, TradeType::Buy);
    assert_eq!(p.input_mint.0, wsol_token_account().0);
    assert_eq!(p.output_mint.0, key(2).0);
    assert_eq!(p.input_amount, Some(500));
    assert!(p.with_tip && p.create_input_mint_ata && !p.close_input_mint_ata && p.create_output_mint_ata);
    assert_eq!(
        plan_buy(DexType::PumpSwap, TradeTokenType::USD1, key(2), 1, true, true, true, None, &params).unwrap_err(),
        "Current version only supports SOL, WSOL, and USDC input for PumpFun/PumpSwap"
    );
    assert_eq!(
        plan_buy(DexType::PumpFun, TradeTokenType::SOL, key(2), 1, true, true, true, None, &params).unwrap_err(),
        "Invalid protocol params for Trade"
    );
    let s = plan_sell(DexType::PumpSwap, TradeTokenType::SOL, key(2), 7, false, true, true, true, &params).unwrap();
    assert_eq!(s.trade_type, TradeType::Sell);
    assert_eq!(s.input_mint.0, key(2).0);
    assert!(!s.with_tip && s.close_input_mint_ata && s.close_output_mint_ata && !s.create_input_mint_ata);
    assert_eq!(
        plan_sell(DexType::PumpSwap, TradeTokenType::USD1, key(2), 7, false, true, true, true, &params).unwrap_err(),
        "Current version only supports SOL, WSOL, and USDC output for PumpFun/PumpSwap"
    );
}

#[test]
fn sell_percentages_and_amount_parsing() {
    assert_eq!(sell_amount_by_percent(1000, 50).unwrap(), 500);
    assert_eq!(sell_amount_by_percent(999, 100).unwrap(), 999);
    assert_eq!(sell_amount_by_percent(7, 33).unwrap(), 2);
    assert_eq!(sell_amount_by_percent(1000, 0).unwrap_err(), "Percentage must be between 1 and 100");
    assert_eq!(sell_amount_by_percent(1000, 101).unwrap_err(), "Percentage must be between 1 and 100");
    assert_eq!(parse_token_amount("12345"), Some(12345));
    assert_eq!(parse_token_amount("+42"), Some(42));
    assert_eq!(parse_token_amount("18446744073709551615"), Some(u64::MAX));
    assert_eq!(parse_token_amount("18446744073709551616"), None);
    assert_eq!(parse_token_amount(""), None);
    assert_eq!(parse_token_amount("+"), None);
    assert_eq!(parse_token_amount("-1"), None);
    assert_eq!(parse_token_amount("1.5"), None);
}

#[test]
fn token_program_instructions() {
    let prog = token_program();
    let ix: Instruction = close_account(&prog, &key(1), &key(2), &key(3), &vec![]);
    assert_eq!(ix.data, vec![9u8]);
    assert_eq!(ix.accounts.len(), 3);
    assert!(ix.accounts[2].is_signer && !ix.accounts[2].is_writable);
    let ix = transfer(&prog, &key(1), &key(2), &key(3), 0x0102_0304_0506_0708, &vec![key(4)]);
    assert_eq!(ix.data, vec![3u8, 8, 7, 6, 5, 4, 3, 2, 1]);
    assert_eq!(ix.accounts.len(), 4);
    assert!(!ix.accounts[2].is_signer);
    assert!(ix.accounts[3].is_signer && !ix.accounts[3].is_writable);
    let ix = initialize_account3(&prog, &key(1), &key(2), &key(3));
    let mut data = vec![18u8];
    data.extend_from_slice(&[3u8; 32]);
    assert_eq!(ix.data, data);
    assert_eq!(ix.accounts.len(), 2);
}

#[test]
fn associated_token_address_matches_derivation() {
    let wallet = key(11);
    let mint = key(12);
    let ata = get_associated_token_address(&wallet, &mint).unwrap();
    let ata_program =
        solana_pubkey::Pubkey::from_str_const("ATokenGPvbdGVxr1b2hvZbsiqW5xWH25efTNsLJA8knL");
    let (expected, _) = solana_pubkey::Pubkey::find_program_address(
        &[&wallet.0, &token_program().0, &mint.0],
        &ata_program,
    );
    assert_eq!(ata.0, expected.to_bytes());
    assert_ne!(ata.0, wallet.0);
}

#[test]
fn mint_seed_is_hex_of_fnv_hash() {
    let mint = key(5);
    let mut h = fnv::FnvHasher::default();
    h.write(&mint.0);
    let expected = format!("{:08x}", h.finish() as u32);
    assert_eq!(mint_seed(&mint), expected);
    assert_eq!(mint_seed(&mint).len(), 8);
}

#[test]
fn private_key_round_trip() {
    let plain = "4vJ9JU1bJJE96FWSJKvHsmmFADCg4gpZQff4P3bkLKi";
    let enc = encrypt_private_key(plain);
    assert_ne!(enc, plain);
    assert_eq!(decrypt_private_key(&enc).unwrap(), plain);
    assert!(decrypt_private_key("not base64 !!").unwrap_err().starts_with("Failed to decode base64: "));
    // 0xff ^ key byte is not valid UTF-8 on its own.
    let bad = Base64Encoder::encode(&[0xffu8 ^ 112]);
    assert!(decrypt_private_key(&bad)
        .unwrap_err()
        .starts_with("Failed to decode decrypted key as UTF-8: "));
    let key_bytes = xor_key();
    let data = b"hello world".to_vec();
    let once = xor_encrypt_decrypt(&data, &key_bytes);
    assert_ne!(once, data);
    assert_eq!(xor_encrypt_decrypt(&once, &key_bytes), data);
}

#[test]
fn serialized_transaction_encodings() {
    assert_eq!(encode_serialized(b"Hello, World!", TransactionEncoding::Base64).unwrap(), "SGVsbG8sIFdvcmxkIQ==");
    assert_eq!(encode_serialized(&[0, 0, 1], TransactionEncoding::Base58).unwrap(), "112");
    assert_eq!(encode_serialized(b"x", TransactionEncoding::Json).unwrap_err(), "Unsupported encoding");
}

#[test]
fn instruction_checks() {
    assert_eq!(InstructionProcessor::preprocess(&[]).unwrap_err(), "Instructions empty");
    let ix = Instruction { program_id: key(1), accounts: vec![], data: vec![1, 2, 3] };
    let ix2 = close_account(&token_program(), &key(1), &key(2), &key(3), &vec![]);
    let list = vec![ix, ix2];
    assert!(InstructionProcessor::preprocess(&list).is_ok());
    assert_eq!(InstructionProcessor::calculate_size(&list), 3 + 1 + 3 * 32);
    assert!(!InstructionProcessor::is_large(&list));
    assert!(ExecutionPath::is_buy(&wsol_token_account()));
    assert!(!ExecutionPath::is_buy(&key(77)));
}

#[test]
fn wsol_setup_retries_three_times_then_aborts() {
    let (mut s, a) = WsolAtaSetup::start(true);
    assert_eq!(a, WsolSetupAction::CheckAccount);
    assert_eq!(s.on_event(WsolSetupEvent::AccountMissing), WsolSetupAction::FetchBlockhash { delay_secs: 0 });
    let mut sends = 0;
    let mut last = WsolSetupAction::Done;
    for round in 0..3 {
        assert_eq!(s.on_event(WsolSetupEvent::BlockhashReady), WsolSetupAction::SendAndConfirm { timeout_secs: 10 });
        sends += 1;
        last = s.on_event(WsolSetupEvent::TimedOut);
        if round < 2 {
            assert_eq!(last, WsolSetupAction::FetchBlockhash { delay_secs: 2 });
        }
    }
    assert_eq!(sends, 3);
    assert_eq!(
        last,
        WsolSetupAction::Abort {
            delay_secs: 5,
            error: "Transaction confirmation timeout (10s)".to_string()
        }
    );
}

#[test]
fn wsol_setup_recovers_when_account_appears() {
    let (mut s, _) = WsolAtaSetup::start(true);
    s.on_event(WsolSetupEvent::AccountMissing);
    s.on_event(WsolSetupEvent::BlockhashReady);
    assert_eq!(s.on_event(WsolSetupEvent::SendFailed("boom".to_string())), WsolSetupAction::RecheckAccount);
    assert_eq!(s.on_event(WsolSetupEvent::AccountFound), WsolSetupAction::Done);
    let (mut t, _) = WsolAtaSetup::start(false);
    assert_eq!(t.on_event(WsolSetupEvent::AccountMissing), WsolSetupAction::Done);
    let (mut u, _) = WsolAtaSetup::start(true);
    assert_eq!(u.on_event(WsolSetupEvent::AccountFound), WsolSetupAction::Done);
}

#[test]
fn timing_arithmetic() {
    assert_eq!(micros_between(1_500, 1_000), 500);
    assert_eq!(micros_between(i64::MIN, 1), i64::MAX);
    assert_eq!(micros_after(i64::MAX, 1), i64::MIN);
    assert_eq!(elapsed_between(10, 4), 6);
    assert_eq!(elapsed_between(4, 10), 0);
    assert_eq!(best_sample(&vec![5, 3, 9, 3]), 1);
    assert!(drifted(0, 1001));
    assert!(!drifted(0, 1000));
    assert!(drifted(5000, 3999));
}

#[test]
fn numa_balancing_setting() {
    assert!(numa_balancing_enabled("1"));
    assert!(numa_balancing_enabled(" 1\n"));
    assert!(!numa_balancing_enabled("0"));
    assert!(!numa_balancing_enabled("11"));
    assert!(!numa_balancing_enabled(""));
}

#[test]
fn syscall_grouping_keeps_order() {
    let batch = vec![
        SyscallRequest::Write { fd: 1, data: vec![1] },
        SyscallRequest::GetTime,
        SyscallRequest::Read { fd: 2, size: 8 },
        SyscallRequest::Send { socket: 3, data: vec![2] },
        SyscallRequest::Write { fd: 4, data: vec![3] },
        SyscallRequest::MemFree { ptr: 0 },
    ];
    let g = group_requests(batch);
    assert_eq!(g.writes, vec![(1, vec![1]), (4, vec![3])]);
    assert_eq!(g.reads, vec![(2, 8)]);
    assert_eq!(g.sends, vec![(3, vec![2])]);
}

#[test]
fn seed_account_matches_derivation() {
    let wallet = key(21);
    let mint = key(22);
    let account = get_associated_token_address_with_program_id_use_seed(&wallet, &mint, &token_program()).unwrap();
    let expected = solana_pubkey::Pubkey::create_with_seed(
        &solana_pubkey::Pubkey::new_from_array(wallet.0),
        &mint_seed(&mint),
        &solana_pubkey::Pubkey::new_from_array(token_program().0),
    )
    .unwrap();
    assert_eq!(account.0, expected.to_bytes());
    assert_ne!(account.0, wallet.0);
    // An owner id ending like a program-derived address is refused.
    let mut bad_owner = [7u8; 32];
    bad_owner[11..].copy_from_slice(b"ProgramDerivedAddress");
    assert_eq!(
        get_associated_token_address_with_program_id_use_seed(&wallet, &mint, &Pubkey(bad_owner)).unwrap_err(),
        "Provided owner is not allowed"
    );
}

#[test]
fn clock_calibration_decision() {
    let mut clock = HighPerformanceClock::new();
    let before = clock.now_micros();
    assert!(before > 1_600_000_000_000_000);
    assert!(!clock.calibrate_at(299, Instant::now(), Some(0), 0));
    assert!(clock.now_micros() >= before);
    assert!(clock.calibrate_at(300, Instant::now(), Some(0), 0));
    assert!(clock.now_micros() < 60_000_000);
    assert!(clock.calibrate_at(301, Instant::now(), None, 0));
    assert!(clock.now_micros() < 60_000_000);
    assert!(clock.calibrate_at(400, Instant::now(), Some(500), 0));
    assert!(clock.now_micros() < 60_000_000);
    assert!(clock.now_micros_with_calibration() < 60_000_000);
}

#[test]
fn fast_elapsed_from_the_far_future_is_zero() {
    assert_eq!(fast_elapsed(u64::MAX), std::time::Duration::ZERO);
    assert!(fast_elapsed(0) > std::time::Duration::from_secs(1_600_000_000));
    assert!(now_micros() > 1_600_000_000_000_000);
}

#[test]
fn message_kind_follows_lookup_table() {
    let table = sol_trade_sdk::requests::AddressLookupTableAccount {
        key: sol_trade_sdk::pubkey::Pubkey([3; 32]),
        addresses: vec![sol_trade_sdk::pubkey::Pubkey([4; 32])],
    };
    assert_eq!(sol_trade_sdk::transaction::message_kind(Some(&table)), sol_trade_sdk::transaction::MessageKind::V0);
    assert_eq!(sol_trade_sdk::transaction::message_kind(None), sol_trade_sdk::transaction::MessageKind::Legacy);
}

#[test]
fn elapsed_since_now_and_timestamps() {
    let start = now_micros();
    let e = sol_trade_sdk::timing::elapsed_micros_since(start);
    assert!(e >= 0 && e < 60_000_000);
    assert_eq!(sol_trade_sdk::timing::nanos_timestamp(None), 0);
    assert_eq!(sol_trade_sdk::timing::nanos_timestamp(Some((1u128 << 64) + 5)), 5);
    assert_eq!(sol_trade_sdk::timing::nanos_timestamp(Some(42)), 42);
}

#[test]
fn later_monotonic_counts_give_later_readings() {
    let base = 1_700_000_000_000_000i64;
    let a = micros_after(base, 10);
    let b = micros_after(base, 250);
    assert!(a <= b);
    assert_eq!(b - a, 240);
}

#[test]
fn nanosecond_unit_conversions() {
    let n: u64 = 1_234_567_890;
    assert_eq!(sol_trade_sdk::timing::nanos_to_micros(n), 1_234_567);
    assert_eq!(sol_trade_sdk::timing::nanos_to_millis(n), 1_234);
    assert_eq!(sol_trade_sdk::timing::nanos_to_millis(999_999), 0);
    let micros = sol_trade_sdk::timing::fast_now_micros();
    let millis = sol_trade_sdk::timing::fast_now_millis();
    assert!(micros / 1000 <= millis + 1 && millis <= micros / 1000 + 1_000);
    assert!(millis > 1_600_000_000_000);
}
