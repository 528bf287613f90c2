//! The audit entries that operations hand back for publication.

use vstd::prelude::*;

use crate::identity::Identity;
use crate::state::Reputation;

verus! {

#[derive(Clone, Copy, Debug, PartialEq, Eq)]
pub struct EscrowCreated {
    pub escrow: Identity,
    pub buyer: Identity,
    pub seller: Identity,
    pub amount: u64,
    pub timestamp: i64,
}

#[derive(Clone, Copy, Debug, PartialEq, Eq)]
pub struct FundsReleased {
    pub escrow: Identity,
    pub seller: Identity,
    /// What the seller received.
    pub amount: u64,
    /// What the fee vault received.
    pub fee_amount: u64,
    pub timestamp: i64,
}

#[derive(Clone, Copy, Debug, PartialEq, Eq)]
pub struct EscrowCancelled {
    pub escrow: Identity,
    pub buyer: Identity,
    pub amount: u64,
    pub timestamp: i64,
}

#[derive(Clone, Debug, PartialEq, Eq)]
pub struct RefundIssued {
    pub escrow: Identity,
    pub buyer: Identity,
    pub amount: u64,
    pub reason: String,
    pub timestamp: i64,
}

/// A `RefundIssued` entry with its reason as a sequence of characters.
pub struct RefundIssuedView {
    pub escrow: Identity,
    pub buyer: Identity,
    pub amount: u64,
    pub reason: Seq<char>,
    pub timestamp: i64,
}

impl View for RefundIssued {
    type V = RefundIssuedView;

    open spec fn view(&self) -> RefundIssuedView {
        RefundIssuedView {
            escrow: self.escrow,
            buyer: self.buyer,
            amount: self.amount,
            reason: self.reason@,
            timestamp: self.timestamp,
        }
    }
}

#[derive(Clone, Copy, Debug, PartialEq, Eq)]
pub struct DisputeRaised {
    pub escrow: Identity,
    pub raised_by: Identity,
    pub timestamp: i64,
}

#[derive(Clone, Debug, PartialEq, Eq)]
pub struct DisputeResolved {
    pub escrow: Identity,
    pub arbiter: Identity,
    pub resolution: String,
    pub timestamp: i64,
}

/// A `DisputeResolved` entry with its resolution as a sequence of characters.
pub struct DisputeResolvedView {
    pub escrow: Identity,
    pub arbiter: Identity,
    pub resolution: Seq<char>,
    pub timestamp: i64,
}

impl View for DisputeResolved {
    type V = DisputeResolvedView;

    open spec fn view(&self) -> DisputeResolvedView {
        DisputeResolvedView {
            escrow: self.escrow,
            arbiter: self.arbiter,
            resolution: self.resolution@,
            timestamp: self.timestamp,
        }
    }
}

#[derive(Clone, Copy, Debug, PartialEq, Eq)]
pub struct ReputationUpdated {
    pub user: Identity,
    pub successful_trades: u64,
    pub failed_trades: u64,
}

impl ReputationUpdated {
    /// The entry that reports a record as it stands.
    pub open spec fn spec_of(record: Reputation) -> ReputationUpdated {
        ReputationUpdated {
            user: record.user,
            successful_trades: record.successful_trades,
            failed_trades: record.failed_trades,
        }
    }

    /// The entry for a record that may be absent.
    pub open spec fn spec_of_optional(record: Option<Reputation>) -> Option<ReputationUpdated> {
        match record {
            Some(found) => Some(Self::spec_of(found)),
            None => None,
        }
    }

    #[verifier::when_used_as_spec(spec_of)]
    pub fn of(record: Reputation) -> (entry: ReputationUpdated)
        ensures
            entry == Self::spec_of(record),
    {
        ReputationUpdated {
            user: record.user,
            successful_trades: record.successful_trades,
            failed_trades: record.failed_trades,
        }
    }
}

/// The reputation entries of one settlement: one for each party whose record
/// exists.
#[derive(Clone, Copy, Debug, PartialEq, Eq)]
pub struct ReputationUpdates {
    pub buyer: Option<ReputationUpdated>,
    pub seller: Option<ReputationUpdated>,
}

} // verus!
