//! Cancelling an escrow before it is settled or disputed.

use vstd::prelude::*;

use crate::errors::EscrowError;
use crate::events::EscrowCancelled;
use crate::state::{Escrow, EscrowStatus};
use crate::vault::{transfer, Account, Wallet};

verus! {

/// What `cancel_escrow` reads and changes.
#[derive(Clone, Copy, Debug, PartialEq, Eq)]
pub struct CancelEscrow {
    pub escrow: Account<Escrow>,
    /// The caller.
    pub buyer: Wallet,
}

impl CancelEscrow {
    /// Why the cancellation is refused, if it is. The checks stand in the
    /// order in which they are made.
    pub open spec fn refusal(&self) -> Option<EscrowError> {
        let status = self.escrow.data.status;
        let amount = self.escrow.data.amount;
        if self.escrow.data.buyer != self.buyer.key {
            Some(EscrowError::Unauthorized)
        } else if status != EscrowStatus::Initialized && status != EscrowStatus::Active {
            Some(EscrowError::InvalidState)
        } else if self.escrow.balance < amount || self.buyer.balance + amount > u64::MAX {
            Some(EscrowError::InsufficientFunds)
        } else {
            None
        }
    }

    /// The state after the cancellation.
    pub open spec fn cancelled(self) -> CancelEscrow {
        let amount = self.escrow.data.amount;
        CancelEscrow {
            escrow: Account {
                balance: (self.escrow.balance - amount) as u64,
                data: Escrow { status: EscrowStatus::Cancelled, ..self.escrow.data },
                ..self.escrow
            },
            buyer: Wallet { balance: (self.buyer.balance + amount) as u64, ..self.buyer },
        }
    }

    /// The value held by the vault and the buyer together.
    pub open spec fn total_value(&self) -> int {
        self.escrow.balance + self.buyer.balance
    }
}

/// Cancels an escrow and returns its whole amount to the buyer.
///
/// Refused, with nothing changed: `Unauthorized` unless the caller is the
/// escrow's buyer; `InvalidState` unless the escrow is initialized or active;
/// `InsufficientFunds` where the vault holds less than the amount or the
/// buyer's balance cannot take it.
pub fn handler(ctx: &mut CancelEscrow, timestamp: i64) -> (r: Result<EscrowCancelled, EscrowError>)
    ensures
        match old(ctx).refusal() {
            Some(e) => r == Err::<EscrowCancelled, EscrowError>(e) && *final(ctx) == *old(ctx),
            None => {
                &&& *final(ctx) == old(ctx).cancelled()
                &&& final(ctx).total_value() == old(ctx).total_value()
                &&& r == Ok::<EscrowCancelled, EscrowError>(
                    EscrowCancelled {
                        escrow: old(ctx).escrow.key,
                        buyer: old(ctx).buyer.key,
                        amount: old(ctx).escrow.data.amount,
                        timestamp,
                    },
                )
            },
        },
{
    if ctx.escrow.data.buyer != ctx.buyer.key {
        return Err(EscrowError::Unauthorized);
    }
    if !ctx.escrow.data.can_cancel() {
        return Err(EscrowError::InvalidState);
    }
    let amount = ctx.escrow.data.amount;
    let (vault_balance, buyer_balance) = match transfer(ctx.escrow.balance, ctx.buyer.balance, amount) {
        Ok(balances) => balances,
        Err(_) => {
            return Err(EscrowError::InsufficientFunds);
        },
    };
    ctx.escrow.balance = vault_balance;
    ctx.buyer.balance = buyer_balance;
    ctx.escrow.data.status = EscrowStatus::Cancelled;
    Ok(EscrowCancelled { escrow: ctx.escrow.key, buyer: ctx.buyer.key, amount, timestamp })
}

} // verus!
