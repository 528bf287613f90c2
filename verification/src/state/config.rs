//! The protocol configuration and the arbiter registry.

use vstd::prelude::*;

use crate::constants::MAX_FEE_BASIS_POINTS;
use crate::identity::Identity;

verus! {

/// The protocol's single configuration record.
#[derive(Clone, Copy, Debug, PartialEq, Eq)]
pub struct Config {
    pub admin: Identity,
    /// Platform fee in basis points (100 = 1%).
    pub fee_basis_points: u16,
    pub bump: u8,
    pub fee_collector_bump: u8,
}

impl Config {
    /// Bytes of a stored record: discriminator, admin, fee, two bumps.
    pub const LEN: usize = 8 + 32 + 2 + 1 + 1;

    /// The invariant of every record that `initialize_config` made: the fee
    /// is at most 10%.
    pub open spec fn wf(&self) -> bool {
        self.fee_basis_points <= MAX_FEE_BASIS_POINTS
    }

    pub fn is_admin(&self, key: &Identity) -> (r: bool)
        ensures
            r == (self.admin == *key),
    {
        self.admin == *key
    }
}

/// One registered arbiter; removal clears `is_active` and keeps the record.
#[derive(Clone, Copy, Debug, PartialEq, Eq)]
pub struct Arbiter {
    pub arbiter: Identity,
    pub added_by: Identity,
    pub added_at: i64,
    pub is_active: bool,
    pub bump: u8,
}

impl Arbiter {
    /// Bytes of a stored record: discriminator, arbiter, admin, time, flag,
    /// bump.
    pub const LEN: usize = 8 + 32 + 32 + 8 + 1 + 1;

    pub fn can_resolve_disputes(&self) -> (r: bool)
        ensures
            r == self.is_active,
    {
        self.is_active
    }
}

} // verus!
