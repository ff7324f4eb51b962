//! Verified core of a Solana trading SDK: PumpFun / PumpSwap pricing math,
//! gas-fee strategy tables, SWQOS routing configuration and the data
//! structures behind the performance layer.

pub mod calc;
pub mod pubkey;
pub mod pumpswap;
pub mod bonding_curve;
pub mod swqos;
pub mod gas_fee_strategy;
pub mod hardware;
pub mod zero_copy;
pub mod trading;
pub mod timing;
pub mod token_accounts;
pub mod wsol;
pub mod swqos_requests;
pub mod realtime;
pub mod queues;
pub mod syscall;
pub mod encoding;
pub mod serialization;
pub mod execution;
pub mod protocol;
pub mod system_ix;
pub mod seed_accounts;
pub mod transaction;
pub mod requests;
pub mod kernel;
pub mod ultra;
pub mod string_map;
pub mod parallel;
