//! The operations, one module each.

pub mod add_arbiter;
pub mod cancel_escrow;
pub mod create_escrow;
pub mod initialize;
pub mod initialize_config;
pub mod raise_dispute;
pub mod refund_buyer;
pub mod release_funds;
pub mod remove_arbiter;
pub mod resolve_dispute;
pub mod update_reputation;
pub mod withdraw_fees;
