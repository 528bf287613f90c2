//! Withdrawing accumulated fees from the fee vault.

use vstd::prelude::*;

use crate::errors::EscrowError;
use crate::state::Config;
use crate::vault::{transfer, Wallet};

verus! {

/// What `withdraw_fees` reads and changes.
#[derive(Clone, Copy, Debug, PartialEq, Eq)]
pub struct WithdrawFees {
    pub config: Config,
    /// The caller.
    pub admin: Wallet,
    pub fee_collector: Wallet,
}

impl WithdrawFees {
    /// Why the withdrawal is refused, if it is. The checks stand in the
    /// order in which they are made.
    pub open spec fn refusal(&self, amount: u64) -> Option<EscrowError> {
        if self.config.admin != self.admin.key {
            Some(EscrowError::Unauthorized)
        } else if self.fee_collector.balance < amount {
            Some(EscrowError::InsufficientFunds)
        } else if self.admin.balance + amount > u64::MAX {
            Some(EscrowError::Overflow)
        } else {
            None
        }
    }

    /// The state after the withdrawal.
    pub open spec fn withdrawn(self, amount: u64) -> WithdrawFees {
        WithdrawFees {
            admin: Wallet { balance: (self.admin.balance + amount) as u64, ..self.admin },
            fee_collector: Wallet {
                balance: (self.fee_collector.balance - amount) as u64,
                ..self.fee_collector
            },
            ..self
        }
    }

    /// The value held by the fee vault and the admin together.
    pub open spec fn total_value(&self) -> int {
        self.fee_collector.balance + self.admin.balance
    }
}

/// Moves `amount` from the fee vault to the admin.
///
/// Refused, with nothing changed: `Unauthorized` unless the caller is the
/// configured admin; `InsufficientFunds` where the fee vault holds less than
/// `amount`; `Overflow` where the admin's balance cannot take it.
pub fn handler(ctx: &mut WithdrawFees, amount: u64) -> (r: Result<(), EscrowError>)
    ensures
        match old(ctx).refusal(amount) {
            Some(e) => r == Err::<(), EscrowError>(e) && *final(ctx) == *old(ctx),
            None => {
                &&& r is Ok
                &&& *final(ctx) == old(ctx).withdrawn(amount)
                &&& final(ctx).total_value() == old(ctx).total_value()
            },
        },
{
    if !ctx.config.is_admin(&ctx.admin.key) {
        return Err(EscrowError::Unauthorized);
    }
    let (vault_balance, admin_balance) = match transfer(ctx.fee_collector.balance, ctx.admin.balance, amount) {
        Ok(balances) => balances,
        Err(e) => {
            return Err(e);
        },
    };
    ctx.fee_collector.balance = vault_balance;
    ctx.admin.balance = admin_balance;
    Ok(())
}

} // verus!
