//! The escrow record and the legality of its status transitions.

use vstd::prelude::*;

use crate::constants::{MAX_ESCROW_AMOUNT, MIN_ESCROW_AMOUNT};
use crate::identity::Identity;

verus! {

/// Where an escrow stands in its lifecycle.
#[derive(Clone, Copy, Debug, PartialEq, Eq, Structural)]
pub enum EscrowStatus {
    Initialized,
    Active,
    Completed,
    Cancelled,
    Disputed,
}

/// Value held for a buyer and a seller until it is released, returned or
/// divided.
#[derive(Clone, Copy, Debug, PartialEq, Eq)]
pub struct Escrow {
    pub buyer: Identity,
    pub seller: Identity,
    pub amount: u64,
    pub status: EscrowStatus,
    pub created_at: i64,
    pub bump: u8,
}

impl Escrow {
    /// Bytes of a stored record: discriminator, buyer, seller, amount,
    /// status, creation time, bump.
    pub const LEN: usize = 8 + 32 + 32 + 8 + 1 + 8 + 1;

    /// The invariant of every record that `create_escrow` made: two distinct
    /// parties and an amount within the allowed range.
    pub open spec fn wf(&self) -> bool {
        &&& self.buyer != self.seller
        &&& MIN_ESCROW_AMOUNT <= self.amount <= MAX_ESCROW_AMOUNT
    }

    /// Whether `from` may change into `to`: a record is activated, an active
    /// one is completed, cancelled or disputed, a disputed one is completed or
    /// cancelled, and a terminal one never changes.
    pub open spec fn legal_transition(from: EscrowStatus, to: EscrowStatus) -> bool {
        match from {
            EscrowStatus::Initialized => to == EscrowStatus::Active || to == EscrowStatus::Cancelled,
            EscrowStatus::Active => to == EscrowStatus::Completed || to == EscrowStatus::Cancelled || to
                == EscrowStatus::Disputed,
            EscrowStatus::Disputed => to == EscrowStatus::Completed || to == EscrowStatus::Cancelled,
            EscrowStatus::Completed | EscrowStatus::Cancelled => false,
        }
    }

    pub fn is_active(&self) -> (r: bool)
        ensures
            r == (self.status == EscrowStatus::Active),
    {
        self.status == EscrowStatus::Active
    }

    /// Funds may be released only from an active escrow.
    pub fn can_release(&self) -> (r: bool)
        ensures
            r == (self.status == EscrowStatus::Active),
    {
        matches!(self.status, EscrowStatus::Active)
    }

    /// An escrow may be cancelled until it is completed, cancelled or
    /// disputed.
    pub fn can_cancel(&self) -> (r: bool)
        ensures
            r == (self.status == EscrowStatus::Initialized || self.status == EscrowStatus::Active),
    {
        matches!(self.status, EscrowStatus::Initialized | EscrowStatus::Active)
    }

    /// Whether the escrow has reached a terminal status.
    pub fn is_finalized(&self) -> (r: bool)
        ensures
            r == (self.status == EscrowStatus::Completed || self.status == EscrowStatus::Cancelled),
    {
        matches!(self.status, EscrowStatus::Completed | EscrowStatus::Cancelled)
    }
}

} // verus!
