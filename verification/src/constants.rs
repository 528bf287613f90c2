//! Protocol constants.

use vstd::prelude::*;

verus! {

/// Namespace of escrow record addresses: the ASCII bytes of `escrow`.
pub const ESCROW_SEED: [u8; 6] = [101, 115, 99, 114, 111, 119];

/// Namespace of reputation record addresses: the ASCII bytes of `reputation`.
pub const REPUTATION_SEED: [u8; 10] = [114, 101, 112, 117, 116, 97, 116, 105, 111, 110];

/// Namespace of the configuration record's address: the ASCII bytes of `config`.
pub const CONFIG_SEED: [u8; 6] = [99, 111, 110, 102, 105, 103];

/// Namespace of the fee vault's address: the ASCII bytes of `fee_collector`.
pub const FEE_COLLECTOR_SEED: [u8; 13] = [102, 101, 101, 95, 99, 111, 108, 108, 101, 99, 116, 111, 114];

/// Namespace of arbiter record addresses: the ASCII bytes of `arbiter`.
pub const ARBITER_SEED: [u8; 7] = [97, 114, 98, 105, 116, 101, 114];

/// Smallest amount an escrow may hold (0.01 SOL, in lamports).
pub const MIN_ESCROW_AMOUNT: u64 = 10_000_000;

/// Largest amount an escrow may hold (1000 SOL, in lamports).
pub const MAX_ESCROW_AMOUNT: u64 = 1_000_000_000_000;

/// Dispute window in seconds (7 days).
pub const DISPUTE_WINDOW: i64 = 7 * 24 * 60 * 60;

/// Timeout period in seconds (30 days).
pub const TIMEOUT_PERIOD: i64 = 30 * 24 * 60 * 60;

/// Largest platform fee, in basis points (10%).
pub const MAX_FEE_BASIS_POINTS: u16 = 1000;

/// Basis points in a whole.
pub const BASIS_POINTS_DENOMINATOR: u64 = 10_000;

} // verus!
