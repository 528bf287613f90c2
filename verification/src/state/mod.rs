//! The persisted records: escrows, the configuration, arbiters, reputations.

pub mod config;
pub mod escrow;
pub mod reputation;

pub use config::{Arbiter, Config};
pub use escrow::{Escrow, EscrowStatus};
pub use reputation::Reputation;
