//! Settling a disputed escrow by an arbiter's decision.

use vstd::prelude::*;

use crate::errors::EscrowError;
use crate::events::{DisputeResolved, DisputeResolvedView, ReputationUpdated, ReputationUpdates};
use crate::identity::Identity;
use crate::instructions::update_reputation::{counted_optional, spec_counted_optional, ReputationUpdate};
use crate::state::{Arbiter, Escrow, EscrowStatus, Reputation};
use crate::vault::{credit, debit, Account, Wallet};

verus! {

/// An arbiter's decision.
#[derive(Clone, Copy, Debug, PartialEq, Eq, Structural)]
pub enum DisputeResolution {
    /// The whole amount returns to the buyer.
    FavorBuyer,
    /// The whole amount goes to the seller.
    FavorSeller,
    /// Each party gets half; the seller's half carries the odd unit.
    Split,
}

/// What `resolve_dispute` reads and changes.
#[derive(Clone, Copy, Debug, PartialEq, Eq)]
pub struct ResolveDispute {
    pub escrow: Account<Escrow>,
    /// The caller.
    pub arbiter: Identity,
    /// The caller's registry record, if there is one.
    pub arbiter_account: Option<Arbiter>,
    pub buyer: Wallet,
    pub seller: Wallet,
    pub buyer_reputation: Option<Reputation>,
    pub seller_reputation: Option<Reputation>,
}

/// The part of `amount` that the buyer receives.
pub open spec fn buyer_share(amount: u64, resolution: DisputeResolution) -> u64 {
    match resolution {
        DisputeResolution::FavorBuyer => amount,
        DisputeResolution::FavorSeller => 0,
        DisputeResolution::Split => amount / 2,
    }
}

/// The part of `amount` that the seller receives: all that the buyer does not.
pub open spec fn seller_share(amount: u64, resolution: DisputeResolution) -> u64 {
    (amount - buyer_share(amount, resolution)) as u64
}

/// How the decision counts in the buyer's reputation.
pub open spec fn buyer_verdict(resolution: DisputeResolution) -> ReputationUpdate {
    match resolution {
        DisputeResolution::FavorBuyer => ReputationUpdate::Successful,
        DisputeResolution::FavorSeller => ReputationUpdate::Failed,
        DisputeResolution::Split => ReputationUpdate::Failed,
    }
}

/// How the decision counts in the seller's reputation.
pub open spec fn seller_verdict(resolution: DisputeResolution) -> ReputationUpdate {
    match resolution {
        DisputeResolution::FavorBuyer => ReputationUpdate::Failed,
        DisputeResolution::FavorSeller => ReputationUpdate::Successful,
        DisputeResolution::Split => ReputationUpdate::Failed,
    }
}

/// The name under which a decision is published.
pub open spec fn resolution_name(resolution: DisputeResolution) -> Seq<char> {
    match resolution {
        DisputeResolution::FavorBuyer => "FavorBuyer"@,
        DisputeResolution::FavorSeller => "FavorSeller"@,
        DisputeResolution::Split => "Split"@,
    }
}

/// Divides `amount` between buyer and seller as the decision says.
pub fn shares(amount: u64, resolution: DisputeResolution) -> (parts: (u64, u64))
    ensures
        parts.0 == buyer_share(amount, resolution),
        parts.1 == seller_share(amount, resolution),
        parts.0 + parts.1 == amount,
{
    match resolution {
        DisputeResolution::FavorBuyer => (amount, 0),
        DisputeResolution::FavorSeller => (0, amount),
        DisputeResolution::Split => {
            let half: u64 = amount / 2;
            (half, amount - half)
        },
    }
}

/// Every decision hands out the whole amount, no more and no less. A split
/// gives the buyer half, rounded down, and the seller the rest, so an odd
/// amount leaves its odd unit with the seller.
pub proof fn lemma_shares_conserve(amount: u64, resolution: DisputeResolution)
    ensures
        buyer_share(amount, resolution) + seller_share(amount, resolution) == amount,
        resolution == DisputeResolution::Split ==> buyer_share(amount, resolution) == amount / 2
            && seller_share(amount, resolution) == amount / 2 + amount % 2,
{
}

impl ResolveDispute {
    /// The wallets handed in are those of the escrow's own buyer and seller.
    pub open spec fn parties_match(&self) -> bool {
        self.escrow.data.buyer == self.buyer.key && self.escrow.data.seller == self.seller.key
    }

    /// The caller has a registry record of their own that is still active.
    pub open spec fn arbiter_authorized(&self) -> bool {
        self.arbiter_account matches Some(record) && record.arbiter == self.arbiter && record.is_active
    }

    /// Why the resolution is refused, if it is. The checks stand in the order
    /// in which they are made.
    pub open spec fn refusal(&self, resolution: DisputeResolution) -> Option<EscrowError> {
        let amount = self.escrow.data.amount;
        if !self.parties_match() {
            Some(EscrowError::Unauthorized)
        } else if self.escrow.data.status != EscrowStatus::Disputed {
            Some(EscrowError::InvalidState)
        } else if !self.arbiter_authorized() {
            Some(EscrowError::UnauthorizedArbiter)
        } else if self.escrow.balance < amount {
            Some(EscrowError::InsufficientFunds)
        } else if self.buyer.balance + buyer_share(amount, resolution) > u64::MAX || self.seller.balance
            + seller_share(amount, resolution) > u64::MAX {
            Some(EscrowError::Overflow)
        } else {
            None
        }
    }

    /// The state after the resolution.
    pub open spec fn resolved(self, resolution: DisputeResolution) -> ResolveDispute {
        let amount = self.escrow.data.amount;
        ResolveDispute {
            escrow: Account {
                balance: (self.escrow.balance - amount) as u64,
                data: Escrow { status: EscrowStatus::Completed, ..self.escrow.data },
                ..self.escrow
            },
            buyer: Wallet { balance: (self.buyer.balance + buyer_share(amount, resolution)) as u64, ..self.buyer },
            seller: Wallet {
                balance: (self.seller.balance + seller_share(amount, resolution)) as u64,
                ..self.seller
            },
            buyer_reputation: spec_counted_optional(self.buyer_reputation, buyer_verdict(resolution)),
            seller_reputation: spec_counted_optional(self.seller_reputation, seller_verdict(resolution)),
            ..self
        }
    }

    /// The value held by the three balances together.
    pub open spec fn total_value(&self) -> int {
        self.escrow.balance + self.buyer.balance + self.seller.balance
    }
}

/// Settles a disputed escrow as an active arbiter decides.
///
/// Refused, with nothing changed: `Unauthorized` unless the wallets are those
/// of the escrow's buyer and seller; `InvalidState` unless the escrow is
/// disputed; `UnauthorizedArbiter` unless the caller's own registry record
/// exists and is active; `InsufficientFunds` where the vault holds less than
/// the amount; `Overflow` where a recipient's balance cannot take its share.
/// Otherwise the vault gives up the amount, each party receives its share,
/// the escrow is completed, and each party's reputation record, where there
/// is one, counts the verdict.
pub fn handler(ctx: &mut ResolveDispute, resolution: DisputeResolution, timestamp: i64) -> (r: Result<
    (DisputeResolved, ReputationUpdates),
    EscrowError,
>)
    ensures
        match old(ctx).refusal(resolution) {
            Some(e) => r == Err::<(DisputeResolved, ReputationUpdates), EscrowError>(e) && *final(ctx) == *old(
                ctx,
            ),
            None => {
                &&& *final(ctx) == old(ctx).resolved(resolution)
                &&& final(ctx).total_value() == old(ctx).total_value()
                &&& r matches Ok(entries)
                &&& entries.0@ == (DisputeResolvedView {
                    escrow: old(ctx).escrow.key,
                    arbiter: old(ctx).arbiter,
                    resolution: resolution_name(resolution),
                    timestamp,
                })
                &&& entries.1.buyer == ReputationUpdated::spec_of_optional(final(ctx).buyer_reputation)
                &&& entries.1.seller == ReputationUpdated::spec_of_optional(final(ctx).seller_reputation)
            },
        },
{
    if ctx.escrow.data.buyer != ctx.buyer.key || ctx.escrow.data.seller != ctx.seller.key {
        return Err(EscrowError::Unauthorized);
    }
    if ctx.escrow.data.status != EscrowStatus::Disputed {
        return Err(EscrowError::InvalidState);
    }
    let authorized = match &ctx.arbiter_account {
        Some(record) => record.arbiter == ctx.arbiter && record.can_resolve_disputes(),
        None => false,
    };
    if !authorized {
        return Err(EscrowError::UnauthorizedArbiter);
    }
    let amount = ctx.escrow.data.amount;
    let (to_buyer, to_seller) = shares(amount, resolution);
    let vault_balance = match debit(ctx.escrow.balance, amount) {
        Ok(rest) => rest,
        Err(e) => {
            return Err(e);
        },
    };
    let buyer_balance = match credit(ctx.buyer.balance, to_buyer) {
        Ok(sum) => sum,
        Err(e) => {
            return Err(e);
        },
    };
    let seller_balance = match credit(ctx.seller.balance, to_seller) {
        Ok(sum) => sum,
        Err(e) => {
            return Err(e);
        },
    };
    let (buyer_verdict, seller_verdict, name) = match resolution {
        DisputeResolution::FavorBuyer => (
            ReputationUpdate::Successful,
            ReputationUpdate::Failed,
            "FavorBuyer".to_owned(),
        ),
        DisputeResolution::FavorSeller => (
            ReputationUpdate::Failed,
            ReputationUpdate::Successful,
            "FavorSeller".to_owned(),
        ),
        DisputeResolution::Split => (ReputationUpdate::Failed, ReputationUpdate::Failed, "Split".to_owned()),
    };
    let (buyer_reputation, buyer_entry) = counted_optional(ctx.buyer_reputation, buyer_verdict);
    let (seller_reputation, seller_entry) = counted_optional(ctx.seller_reputation, seller_verdict);

    ctx.escrow.balance = vault_balance;
    ctx.buyer.balance = buyer_balance;
    ctx.seller.balance = seller_balance;
    ctx.escrow.data.status = EscrowStatus::Completed;
    ctx.buyer_reputation = buyer_reputation;
    ctx.seller_reputation = seller_reputation;

    Ok(
        (
            DisputeResolved { escrow: ctx.escrow.key, arbiter: ctx.arbiter, resolution: name, timestamp },
            ReputationUpdates { buyer: buyer_entry, seller: seller_entry },
        ),
    )
}

} // verus!
