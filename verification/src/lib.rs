//! An escrow and dispute-resolution engine over plain values.
//!
//! Every operation takes the records and balances it touches, checks that the
//! request is legal, and either applies all of its effects or none of them.
//! The operations live in `instructions`, one module each, and are offered
//! here under their own names.

pub mod address;
pub mod constants;
pub mod errors;
pub mod events;
pub mod identity;
pub mod instructions;
pub mod laws;
pub mod state;
pub mod vault;

pub use instructions::add_arbiter::handler as add_arbiter;
pub use instructions::cancel_escrow::handler as cancel_escrow;
pub use instructions::create_escrow::handler as create_escrow;
pub use instructions::initialize::handler as initialize_reputation;
pub use instructions::initialize_config::handler as initialize_config;
pub use instructions::raise_dispute::handler as raise_dispute;
pub use instructions::refund_buyer::handler as refund_buyer;
pub use instructions::release_funds::handler as release_funds;
pub use instructions::remove_arbiter::handler as remove_arbiter;
pub use instructions::resolve_dispute::handler as resolve_dispute;
pub use instructions::update_reputation::handler as update_reputation;
pub use instructions::withdraw_fees::handler as withdraw_fees;
