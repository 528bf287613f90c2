//! Returning a disputed escrow's value to its buyer.

use vstd::prelude::*;

use crate::errors::EscrowError;
use crate::events::{RefundIssued, RefundIssuedView, ReputationUpdated, ReputationUpdates};
use crate::identity::Identity;
use crate::instructions::update_reputation::{counted_optional, spec_counted_optional, ReputationUpdate};
use crate::state::{Escrow, EscrowStatus, Reputation};
use crate::vault::{credit, Account, Wallet};

verus! {

/// What `refund_buyer` reads and changes.
#[derive(Clone, Copy, Debug, PartialEq, Eq)]
pub struct RefundBuyer {
    pub escrow: Account<Escrow>,
    /// The caller.
    pub buyer: Wallet,
    pub seller: Identity,
    pub buyer_reputation: Option<Reputation>,
    pub seller_reputation: Option<Reputation>,
}

/// The reason published with a refund.
pub open spec fn refund_reason() -> Seq<char> {
    "Disputed escrow refund"@
}

impl RefundBuyer {
    /// The caller is the escrow's buyer, and the seller named is its seller.
    pub open spec fn parties_match(&self) -> bool {
        self.escrow.data.buyer == self.buyer.key && self.escrow.data.seller == self.seller
    }

    /// What the buyer receives: all that the vault holds above the balance
    /// that must stay with the record.
    pub open spec fn refund(&self, retained: u64) -> int {
        self.escrow.balance - retained
    }

    /// Why the refund is refused, if it is. The checks stand in the order in
    /// which they are made.
    pub open spec fn refusal(&self, retained: u64) -> Option<EscrowError> {
        if !self.parties_match() {
            Some(EscrowError::Unauthorized)
        } else if self.escrow.data.status != EscrowStatus::Disputed {
            Some(EscrowError::InvalidState)
        } else if self.escrow.balance <= retained {
            Some(EscrowError::InsufficientFunds)
        } else if self.buyer.balance + self.refund(retained) > u64::MAX {
            Some(EscrowError::Overflow)
        } else {
            None
        }
    }

    /// The state after the refund.
    pub open spec fn refunded(self, retained: u64) -> RefundBuyer {
        RefundBuyer {
            escrow: Account {
                balance: retained,
                data: Escrow { status: EscrowStatus::Cancelled, ..self.escrow.data },
                ..self.escrow
            },
            buyer: Wallet { balance: (self.buyer.balance + self.refund(retained)) as u64, ..self.buyer },
            buyer_reputation: spec_counted_optional(self.buyer_reputation, ReputationUpdate::Failed),
            seller_reputation: spec_counted_optional(self.seller_reputation, ReputationUpdate::Failed),
            ..self
        }
    }

    /// The value held by the vault and the buyer together.
    pub open spec fn total_value(&self) -> int {
        self.escrow.balance + self.buyer.balance
    }
}

/// Returns a disputed escrow's value to its buyer, leaving `retained`, the
/// minimum balance that keeps the record allocated, in the vault.
///
/// Refused, with nothing changed: `Unauthorized` unless the caller is the
/// escrow's buyer and the seller named its seller; `InvalidState` unless the
/// escrow is disputed; `InsufficientFunds` unless the vault holds more than
/// `retained`; `Overflow` where the buyer's balance cannot take the refund.
/// Otherwise the buyer receives all above `retained`, the escrow is
/// cancelled, and each party's reputation record, where there is one, counts
/// a failure. The entry reports the escrow's amount.
pub fn handler(ctx: &mut RefundBuyer, retained: u64, timestamp: i64) -> (r: Result<
    (RefundIssued, ReputationUpdates),
    EscrowError,
>)
    ensures
        match old(ctx).refusal(retained) {
            Some(e) => r == Err::<(RefundIssued, ReputationUpdates), EscrowError>(e) && *final(ctx) == *old(ctx),
            None => {
                &&& *final(ctx) == old(ctx).refunded(retained)
                &&& final(ctx).total_value() == old(ctx).total_value()
                &&& final(ctx).buyer.balance - old(ctx).buyer.balance == old(ctx).escrow.balance - retained
                &&& r matches Ok(entries)
                &&& entries.0@ == (RefundIssuedView {
                    escrow: old(ctx).escrow.key,
                    buyer: old(ctx).buyer.key,
                    amount: old(ctx).escrow.data.amount,
                    reason: refund_reason(),
                    timestamp,
                })
                &&& entries.1.buyer == ReputationUpdated::spec_of_optional(final(ctx).buyer_reputation)
                &&& entries.1.seller == ReputationUpdated::spec_of_optional(final(ctx).seller_reputation)
            },
        },
{
    if ctx.escrow.data.buyer != ctx.buyer.key || ctx.escrow.data.seller != ctx.seller {
        return Err(EscrowError::Unauthorized);
    }
    if !matches!(ctx.escrow.data.status, EscrowStatus::Disputed) {
        return Err(EscrowError::InvalidState);
    }
    if ctx.escrow.balance <= retained {
        return Err(EscrowError::InsufficientFunds);
    }
    let buyer_balance = match credit(ctx.buyer.balance, ctx.escrow.balance - retained) {
        Ok(sum) => sum,
        Err(e) => {
            return Err(e);
        },
    };
    let (buyer_reputation, buyer_entry) = counted_optional(ctx.buyer_reputation, ReputationUpdate::Failed);
    let (seller_reputation, seller_entry) = counted_optional(ctx.seller_reputation, ReputationUpdate::Failed);

    ctx.escrow.balance = retained;
    ctx.buyer.balance = buyer_balance;
    ctx.escrow.data.status = EscrowStatus::Cancelled;
    ctx.buyer_reputation = buyer_reputation;
    ctx.seller_reputation = seller_reputation;

    Ok(
        (
            RefundIssued {
                escrow: ctx.escrow.key,
                buyer: ctx.buyer.key,
                amount: ctx.escrow.data.amount,
                reason: "Disputed escrow refund".to_owned(),
                timestamp,
            },
            ReputationUpdates { buyer: buyer_entry, seller: seller_entry },
        ),
    )
}

} // verus!
