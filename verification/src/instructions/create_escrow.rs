//! Opening an escrow: the buyer's value moves into the vault.

use vstd::prelude::*;

use crate::constants::{MAX_ESCROW_AMOUNT, MIN_ESCROW_AMOUNT};
use crate::errors::EscrowError;
use crate::events::EscrowCreated;
use crate::identity::Identity;
use crate::state::{Escrow, EscrowStatus};
use crate::vault::{transfer, Wallet};

verus! {

/// What `create_escrow` reads and changes.
#[derive(Clone, Copy, Debug, PartialEq, Eq)]
pub struct CreateEscrow {
    /// The vault of the escrow to be: the fresh account at its address.
    pub escrow: Wallet,
    /// The caller, who funds the escrow.
    pub buyer: Wallet,
    pub seller: Identity,
    /// The bump seed of the escrow's address.
    pub bump: u8,
}

impl CreateEscrow {
    /// Why the creation is refused, if it is. The checks stand in the order
    /// in which they are made.
    pub open spec fn refusal(&self, amount: u64) -> Option<EscrowError> {
        if self.buyer.key == self.seller {
            Some(EscrowError::InvalidParties)
        } else if amount < MIN_ESCROW_AMOUNT || amount > MAX_ESCROW_AMOUNT {
            Some(EscrowError::InvalidAmount)
        } else if self.buyer.balance < amount {
            Some(EscrowError::InsufficientFunds)
        } else if self.escrow.balance + amount > u64::MAX {
            Some(EscrowError::Overflow)
        } else {
            None
        }
    }

    /// The state after the creation.
    pub open spec fn funded(self, amount: u64) -> CreateEscrow {
        CreateEscrow {
            escrow: Wallet { balance: (self.escrow.balance + amount) as u64, ..self.escrow },
            buyer: Wallet { balance: (self.buyer.balance - amount) as u64, ..self.buyer },
            ..self
        }
    }

    /// The record that the creation makes.
    pub open spec fn record(&self, amount: u64, timestamp: i64) -> Escrow {
        Escrow {
            buyer: self.buyer.key,
            seller: self.seller,
            amount,
            status: EscrowStatus::Active,
            created_at: timestamp,
            bump: self.bump,
        }
    }

    /// The value held by the vault and the buyer together.
    pub open spec fn total_value(&self) -> int {
        self.escrow.balance + self.buyer.balance
    }
}

/// Opens an escrow of `amount` between the caller and `seller`.
///
/// Refused, with nothing changed: `InvalidParties` where buyer and seller are
/// the same; `InvalidAmount` where the amount is below the minimum or above
/// the maximum; `InsufficientFunds` where the buyer holds less than it;
/// `Overflow` where the vault cannot take it. Otherwise the amount moves from
/// the buyer into the vault, and the new record is active and well-formed.
pub fn handler(ctx: &mut CreateEscrow, amount: u64, timestamp: i64) -> (r: Result<
    (Escrow, EscrowCreated),
    EscrowError,
>)
    ensures
        match old(ctx).refusal(amount) {
            Some(e) => r == Err::<(Escrow, EscrowCreated), EscrowError>(e) && *final(ctx) == *old(ctx),
            None => {
                &&& *final(ctx) == old(ctx).funded(amount)
                &&& final(ctx).total_value() == old(ctx).total_value()
                &&& r matches Ok(made)
                &&& made.0 == old(ctx).record(amount, timestamp)
                &&& made.0.wf()
                &&& made.1 == (EscrowCreated {
                    escrow: old(ctx).escrow.key,
                    buyer: old(ctx).buyer.key,
                    seller: old(ctx).seller,
                    amount,
                    timestamp,
                })
            },
        },
        amount < MIN_ESCROW_AMOUNT || amount > MAX_ESCROW_AMOUNT ==> r is Err && *final(ctx) == *old(ctx),
        old(ctx).buyer.key != old(ctx).seller && (amount < MIN_ESCROW_AMOUNT || amount > MAX_ESCROW_AMOUNT)
            ==> r == Err::<(Escrow, EscrowCreated), EscrowError>(EscrowError::InvalidAmount),
        old(ctx).buyer.key == old(ctx).seller ==> r == Err::<(Escrow, EscrowCreated), EscrowError>(
            EscrowError::InvalidParties,
        ),
{
    if ctx.buyer.key == ctx.seller {
        return Err(EscrowError::InvalidParties);
    }
    if amount < MIN_ESCROW_AMOUNT || amount > MAX_ESCROW_AMOUNT {
        return Err(EscrowError::InvalidAmount);
    }
    let (buyer_balance, vault_balance) = match transfer(ctx.buyer.balance, ctx.escrow.balance, amount) {
        Ok(balances) => balances,
        Err(e) => {
            return Err(e);
        },
    };
    ctx.buyer.balance = buyer_balance;
    ctx.escrow.balance = vault_balance;
    Ok(
        (
            Escrow {
                buyer: ctx.buyer.key,
                seller: ctx.seller,
                amount,
                status: EscrowStatus::Active,
                created_at: timestamp,
                bump: ctx.bump,
            },
            EscrowCreated {
                escrow: ctx.escrow.key,
                buyer: ctx.buyer.key,
                seller: ctx.seller,
                amount,
                timestamp,
            },
        ),
    )
}

} // verus!
