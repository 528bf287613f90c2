//! Releasing an active escrow to its seller, less the platform fee.

use vstd::prelude::*;

use crate::address::{
    config_address, derived_view, fee_collector_address, is_address, spec_config_address,
    spec_fee_collector_address, spec_is_address,
};
use crate::constants::{BASIS_POINTS_DENOMINATOR, MAX_ESCROW_AMOUNT, MAX_FEE_BASIS_POINTS};
use crate::errors::EscrowError;
use crate::events::{FundsReleased, ReputationUpdated, ReputationUpdates};
use crate::identity::Identity;
use crate::instructions::update_reputation::{counted_optional, spec_counted_optional, ReputationUpdate};
use crate::state::{Config, Escrow, EscrowStatus, Reputation};
use crate::vault::{credit, debit, Account, Wallet};

verus! {

/// What `release_funds` reads and changes.
#[derive(Clone, Copy, Debug, PartialEq, Eq)]
pub struct ReleaseFunds {
    pub escrow: Account<Escrow>,
    /// The caller.
    pub buyer: Wallet,
    pub seller: Wallet,
    pub buyer_reputation: Option<Reputation>,
    pub seller_reputation: Option<Reputation>,
    /// The configuration record; a fee is charged only where both it and the
    /// fee vault are handed in.
    pub config: Option<Account<Config>>,
    pub fee_collector: Option<Wallet>,
}

/// The platform fee on `amount`: so many basis points of it, rounded down.
pub open spec fn spec_fee(amount: u64, fee_basis_points: u16) -> int {
    amount * fee_basis_points / 10_000
}

/// The platform fee on `amount`, or `Overflow` where the product of amount
/// and rate cannot be represented.
pub fn fee(amount: u64, fee_basis_points: u16) -> (r: Result<u64, EscrowError>)
    ensures
        match r {
            Ok(fee) => amount * fee_basis_points <= u64::MAX && fee == spec_fee(amount, fee_basis_points),
            Err(e) => amount * fee_basis_points > u64::MAX && e == EscrowError::Overflow,
        },
{
    match amount.checked_mul(fee_basis_points as u64) {
        Some(product) => Ok(product / BASIS_POINTS_DENOMINATOR),
        None => Err(EscrowError::Overflow),
    }
}

/// A fee of at most the whole never exceeds the amount, and one of at most
/// the largest rate never exceeds a tenth of it. On an amount within the
/// allowed range and a rate up to the largest, the fee can always be computed.
pub proof fn lemma_fee_bounds(amount: u64, fee_basis_points: u16)
    requires
        fee_basis_points <= 10_000,
    ensures
        0 <= spec_fee(amount, fee_basis_points) <= amount,
        fee_basis_points <= MAX_FEE_BASIS_POINTS ==> spec_fee(amount, fee_basis_points) <= amount / 10,
        fee_basis_points <= MAX_FEE_BASIS_POINTS && amount <= MAX_ESCROW_AMOUNT ==> amount * fee_basis_points
            <= u64::MAX,
{
    assert(0 <= (amount * fee_basis_points) / 10_000 <= amount) by (nonlinear_arith)
        requires
            0 <= fee_basis_points <= 10_000,
            0 <= amount,
    ;
    if fee_basis_points <= 1000 {
        assert((amount * fee_basis_points) / 10_000 <= amount / 10) by (nonlinear_arith)
            requires
                0 <= fee_basis_points <= 1000,
                0 <= amount,
        ;
        if amount <= MAX_ESCROW_AMOUNT {
            assert(amount * fee_basis_points <= 1_000_000_000_000 * 1000) by (nonlinear_arith)
                requires
                    0 <= fee_basis_points <= 1000,
                    0 <= amount <= 1_000_000_000_000,
            ;
        }
    }
}

impl ReleaseFunds {
    /// The wallets handed in are those of the escrow's own buyer and seller.
    pub open spec fn parties_match(&self) -> bool {
        self.escrow.data.buyer == self.buyer.key && self.escrow.data.seller == self.seller.key
    }

    /// A fee is charged where both the configuration and the fee vault are
    /// handed in.
    pub open spec fn charges_fee(&self) -> bool {
        self.config is Some && self.fee_collector is Some
    }

    /// The fee rate that applies, in basis points.
    pub open spec fn fee_rate(&self) -> u16 {
        if self.charges_fee() {
            self.config->0.data.fee_basis_points
        } else {
            0
        }
    }

    /// The fee that the fee vault receives.
    pub open spec fn fee_amount(&self) -> int {
        spec_fee(self.escrow.data.amount, self.fee_rate())
    }

    /// What the seller receives.
    pub open spec fn seller_amount(&self) -> int {
        self.escrow.data.amount - self.fee_amount()
    }

    /// All but the escrow's status allows the release: the parties are the
    /// escrow's own, the fee accounts stand at the addresses derived for
    /// them, the fee can be computed, the vault holds the amount, and each
    /// recipient's balance can take its part.
    pub open spec fn funded_and_authorized(
        &self,
        config_address: Option<(Seq<u8>, u8)>,
        fee_collector_address: Option<(Seq<u8>, u8)>,
    ) -> bool {
        let amount = self.escrow.data.amount;
        &&& self.parties_match()
        &&& self.charges_fee() ==> {
            &&& spec_is_address(config_address, self.config->0.key)
            &&& spec_is_address(fee_collector_address, self.fee_collector->0.key)
            &&& self.fee_collector->0.balance + self.fee_amount() <= u64::MAX
        }
        &&& amount * self.fee_rate() <= u64::MAX
        &&& self.fee_amount() <= amount <= self.escrow.balance
        &&& self.seller.balance + self.seller_amount() <= u64::MAX
    }

    /// Why the release is refused, if it is, given the addresses derived for
    /// the configuration record and the fee vault. The checks stand in the
    /// order in which they are made.
    pub open spec fn refusal(
        &self,
        config_address: Option<(Seq<u8>, u8)>,
        fee_collector_address: Option<(Seq<u8>, u8)>,
    ) -> Option<EscrowError> {
        let amount = self.escrow.data.amount;
        if !self.parties_match() {
            Some(EscrowError::Unauthorized)
        } else if self.escrow.data.status != EscrowStatus::Active {
            Some(EscrowError::InvalidState)
        } else if self.charges_fee() && !spec_is_address(config_address, self.config->0.key) {
            Some(EscrowError::InvalidState)
        } else if self.charges_fee() && !spec_is_address(fee_collector_address, self.fee_collector->0.key) {
            Some(EscrowError::InvalidFeeCollector)
        } else if amount * self.fee_rate() > u64::MAX {
            Some(EscrowError::Overflow)
        } else if self.fee_amount() > amount || self.escrow.balance < amount {
            Some(EscrowError::InsufficientFunds)
        } else if (self.charges_fee() && self.fee_collector->0.balance + self.fee_amount() > u64::MAX)
            || self.seller.balance + self.seller_amount() > u64::MAX {
            Some(EscrowError::Overflow)
        } else {
            None
        }
    }

    /// The state after the release.
    pub open spec fn released(self) -> ReleaseFunds {
        ReleaseFunds {
            escrow: Account {
                balance: (self.escrow.balance - self.escrow.data.amount) as u64,
                data: Escrow { status: EscrowStatus::Completed, ..self.escrow.data },
                ..self.escrow
            },
            seller: Wallet { balance: (self.seller.balance + self.seller_amount()) as u64, ..self.seller },
            fee_collector: match self.fee_collector {
                Some(vault) if self.charges_fee() => Some(
                    Wallet { balance: (vault.balance + self.fee_amount()) as u64, ..vault },
                ),
                other => other,
            },
            buyer_reputation: spec_counted_optional(self.buyer_reputation, ReputationUpdate::Successful),
            seller_reputation: spec_counted_optional(self.seller_reputation, ReputationUpdate::Successful),
            ..self
        }
    }

    /// The value held by the escrow vault, the seller and the fee vault
    /// together.
    pub open spec fn total_value(&self) -> int {
        self.escrow.balance + self.seller.balance + match self.fee_collector {
            Some(vault) => vault.balance as int,
            None => 0,
        }
    }
}

/// Releases an active escrow, given the addresses that were derived for the
/// configuration record and the fee vault.
///
/// Refused, with nothing changed: `Unauthorized` unless the wallets are those
/// of the escrow's buyer and seller; `InvalidState` unless the escrow is
/// active, or where a fee is charged and the configuration record is not at
/// its derived address; `InvalidFeeCollector` where the fee vault is not at
/// its derived address; `Overflow` where the fee cannot be computed or a
/// recipient's balance cannot take its part; `InsufficientFunds` where the
/// vault holds less than the amount. Otherwise the fee vault receives the
/// fee, the seller the rest, the escrow is completed, and each party's
/// reputation record, where there is one, counts a success.
pub fn settle(
    ctx: &mut ReleaseFunds,
    config_address: Option<(Identity, u8)>,
    fee_collector_address: Option<(Identity, u8)>,
    timestamp: i64,
) -> (r: Result<(FundsReleased, ReputationUpdates), EscrowError>)
    ensures
        match old(ctx).refusal(derived_view(config_address), derived_view(fee_collector_address)) {
            Some(e) => r == Err::<(FundsReleased, ReputationUpdates), EscrowError>(e) && *final(ctx) == *old(
                ctx,
            ),
            None => {
                &&& *final(ctx) == old(ctx).released()
                &&& final(ctx).total_value() == old(ctx).total_value()
                &&& r matches Ok(entries)
                &&& entries.0 == (FundsReleased {
                    escrow: old(ctx).escrow.key,
                    seller: old(ctx).seller.key,
                    amount: old(ctx).seller_amount() as u64,
                    fee_amount: old(ctx).fee_amount() as u64,
                    timestamp,
                })
                &&& entries.0.fee_amount + entries.0.amount == old(ctx).escrow.data.amount
                &&& entries.1.buyer == ReputationUpdated::spec_of_optional(final(ctx).buyer_reputation)
                &&& entries.1.seller == ReputationUpdated::spec_of_optional(final(ctx).seller_reputation)
            },
        },
{
    if ctx.escrow.data.buyer != ctx.buyer.key || ctx.escrow.data.seller != ctx.seller.key {
        return Err(EscrowError::Unauthorized);
    }
    if !ctx.escrow.data.can_release() {
        return Err(EscrowError::InvalidState);
    }
    let amount = ctx.escrow.data.amount;
    let mut fee_amount: u64 = 0;
    let mut fee_vault: Option<Wallet> = ctx.fee_collector;
    if let Some(config) = &ctx.config {
        if let Some(vault) = &ctx.fee_collector {
            if !is_address(&config_address, &config.key) {
                return Err(EscrowError::InvalidState);
            }
            if !is_address(&fee_collector_address, &vault.key) {
                return Err(EscrowError::InvalidFeeCollector);
            }
            fee_amount = match fee(amount, config.data.fee_basis_points) {
                Ok(part) => part,
                Err(e) => {
                    return Err(e);
                },
            };
            if fee_amount > amount || ctx.escrow.balance < amount {
                return Err(EscrowError::InsufficientFunds);
            }
            let vault_balance = match credit(vault.balance, fee_amount) {
                Ok(sum) => sum,
                Err(e) => {
                    return Err(e);
                },
            };
            fee_vault = Some(Wallet { key: vault.key, balance: vault_balance });
        }
    }
    let seller_amount: u64 = amount - fee_amount;
    let escrow_balance = match debit(ctx.escrow.balance, amount) {
        Ok(rest) => rest,
        Err(e) => {
            return Err(e);
        },
    };
    let seller_balance = match credit(ctx.seller.balance, seller_amount) {
        Ok(sum) => sum,
        Err(e) => {
            return Err(e);
        },
    };
    let (buyer_reputation, buyer_entry) = counted_optional(ctx.buyer_reputation, ReputationUpdate::Successful);
    let (seller_reputation, seller_entry) = counted_optional(
        ctx.seller_reputation,
        ReputationUpdate::Successful,
    );

    ctx.escrow.balance = escrow_balance;
    ctx.escrow.data.status = EscrowStatus::Completed;
    ctx.seller.balance = seller_balance;
    ctx.fee_collector = fee_vault;
    ctx.buyer_reputation = buyer_reputation;
    ctx.seller_reputation = seller_reputation;

    Ok(
        (
            FundsReleased {
                escrow: ctx.escrow.key,
                seller: ctx.seller.key,
                amount: seller_amount,
                fee_amount,
                timestamp,
            },
            ReputationUpdates { buyer: buyer_entry, seller: seller_entry },
        ),
    )
}

/// Releases an active escrow to its seller: derives the addresses of the
/// configuration record and the fee vault under `program_id` where a fee is
/// charged, and settles against them.
pub fn handler(ctx: &mut ReleaseFunds, program_id: &Identity, timestamp: i64) -> (r: Result<
    (FundsReleased, ReputationUpdates),
    EscrowError,
>)
    ensures
        match old(ctx).refusal(spec_config_address(*program_id), spec_fee_collector_address(*program_id)) {
            Some(e) => r == Err::<(FundsReleased, ReputationUpdates), EscrowError>(e) && *final(ctx) == *old(
                ctx,
            ),
            None => {
                &&& *final(ctx) == old(ctx).released()
                &&& final(ctx).total_value() == old(ctx).total_value()
                &&& r matches Ok(entries)
                &&& entries.0 == (FundsReleased {
                    escrow: old(ctx).escrow.key,
                    seller: old(ctx).seller.key,
                    amount: old(ctx).seller_amount() as u64,
                    fee_amount: old(ctx).fee_amount() as u64,
                    timestamp,
                })
                &&& entries.0.fee_amount + entries.0.amount == old(ctx).escrow.data.amount
                &&& entries.1.buyer == ReputationUpdated::spec_of_optional(final(ctx).buyer_reputation)
                &&& entries.1.seller == ReputationUpdated::spec_of_optional(final(ctx).seller_reputation)
            },
        },
{
    if ctx.config.is_some() && ctx.fee_collector.is_some() {
        let config = config_address(program_id);
        let fee_collector = fee_collector_address(program_id);
        settle(ctx, config, fee_collector, timestamp)
    } else {
        settle(ctx, None, None, timestamp)
    }
}

} // verus!
