use escrow::constants::{DISPUTE_WINDOW, MAX_FEE_BASIS_POINTS, TIMEOUT_PERIOD};
use escrow::errors::{ConfigError, EscrowError};
use escrow::identity::Identity;
use escrow::instructions::add_arbiter::{handler as add_arbiter, AddArbiter};
use escrow::instructions::initialize_config::{handler as initialize_config, InitializeConfig};
use escrow::instructions::remove_arbiter::{handler as remove_arbiter, RemoveArbiter};
use escrow::instructions::withdraw_fees::{handler as withdraw_fees, WithdrawFees};
use escrow::state::{Arbiter, Config};
use escrow::vault::{credit, debit, transfer, Wallet};

fn id(tag: u8) -> Identity {
    Identity::new([tag; 32])
}

fn config() -> Config {
    Config { admin: id(5), fee_basis_points: 250, bump: 255, fee_collector_bump: 253 }
}

#[test]
fn initialize_config_accepts_fees_up_to_ten_percent() {
    let ctx = InitializeConfig { admin: id(5), fee_collector: id(21), bump: 255, fee_collector_bump: 253 };
    assert_eq!(
        initialize_config(&ctx, 1000),
        Ok(Config { admin: id(5), fee_basis_points: 1000, bump: 255, fee_collector_bump: 253 })
    );
    assert_eq!(
        initialize_config(&ctx, 0),
        Ok(Config { admin: id(5), fee_basis_points: 0, bump: 255, fee_collector_bump: 253 })
    );
    assert_eq!(MAX_FEE_BASIS_POINTS, 1000);
}

#[test]
fn initialize_config_refuses_a_fee_above_ten_percent() {
    let ctx = InitializeConfig { admin: id(5), fee_collector: id(21), bump: 255, fee_collector_bump: 253 };
    assert_eq!(initialize_config(&ctx, 1001), Err(ConfigError::FeeTooHigh));
    assert_eq!(initialize_config(&ctx, u16::MAX), Err(ConfigError::FeeTooHigh));
}

#[test]
fn config_knows_its_admin() {
    assert!(config().is_admin(&id(5)));
    assert!(!config().is_admin(&id(6)));
    assert_eq!(Config::LEN, 44);
    assert_eq!(Arbiter::LEN, 82);
}

#[test]
fn add_arbiter_registers_an_active_arbiter() {
    let ctx = AddArbiter { config: config(), arbiter: id(3), admin: id(5), bump: 250 };
    let record = add_arbiter(&ctx, 1234).unwrap();
    assert_eq!(record, Arbiter { arbiter: id(3), added_by: id(5), added_at: 1234, is_active: true, bump: 250 });
    assert!(record.can_resolve_disputes());
}

#[test]
fn add_arbiter_is_for_the_admin() {
    let ctx = AddArbiter { config: config(), arbiter: id(3), admin: id(3), bump: 250 };
    assert_eq!(add_arbiter(&ctx, 1234), Err(EscrowError::Unauthorized));
}

#[test]
fn remove_arbiter_clears_the_flag_and_keeps_the_record() {
    let record = Arbiter { arbiter: id(3), added_by: id(5), added_at: 1234, is_active: true, bump: 250 };
    let mut ctx = RemoveArbiter { config: config(), arbiter_account: record, admin: id(5) };
    assert_eq!(remove_arbiter(&mut ctx), Ok(()));
    assert_eq!(
        ctx.arbiter_account,
        Arbiter { arbiter: id(3), added_by: id(5), added_at: 1234, is_active: false, bump: 250 }
    );
    assert!(!ctx.arbiter_account.can_resolve_disputes());
    assert_eq!(ctx.config, config());
    assert_eq!(remove_arbiter(&mut ctx), Ok(()));
    assert!(!ctx.arbiter_account.is_active);
}

#[test]
fn remove_arbiter_is_for_the_admin() {
    let record = Arbiter { arbiter: id(3), added_by: id(5), added_at: 1234, is_active: true, bump: 250 };
    let mut ctx = RemoveArbiter { config: config(), arbiter_account: record, admin: id(3) };
    let before = ctx;
    assert_eq!(remove_arbiter(&mut ctx), Err(EscrowError::Unauthorized));
    assert_eq!(ctx, before);
}

#[test]
fn withdraw_fees_moves_value_to_the_admin() {
    let mut ctx = WithdrawFees {
        config: config(),
        admin: Wallet { key: id(5), balance: 10 },
        fee_collector: Wallet { key: id(21), balance: 1_000 },
    };
    assert_eq!(withdraw_fees(&mut ctx, 400), Ok(()));
    assert_eq!(ctx.admin.balance, 410);
    assert_eq!(ctx.fee_collector.balance, 600);
    assert_eq!(withdraw_fees(&mut ctx, 600), Ok(()));
    assert_eq!(ctx.admin.balance, 1_010);
    assert_eq!(ctx.fee_collector.balance, 0);
    assert_eq!(withdraw_fees(&mut ctx, 0), Ok(()));
}

#[test]
fn withdraw_fees_refusals_leave_everything_as_it_was() {
    let mut ctx = WithdrawFees {
        config: config(),
        admin: Wallet { key: id(6), balance: 10 },
        fee_collector: Wallet { key: id(21), balance: 1_000 },
    };
    let before = ctx;
    assert_eq!(withdraw_fees(&mut ctx, 400), Err(EscrowError::Unauthorized));
    assert_eq!(ctx, before);
    ctx.admin.key = id(5);
    let before = ctx;
    assert_eq!(withdraw_fees(&mut ctx, 1_001), Err(EscrowError::InsufficientFunds));
    assert_eq!(ctx, before);
    ctx.admin.balance = u64::MAX - 399;
    let before = ctx;
    assert_eq!(withdraw_fees(&mut ctx, 400), Err(EscrowError::Overflow));
    assert_eq!(ctx, before);
}

#[test]
fn vault_primitives_are_checked() {
    assert_eq!(debit(10, 3), Ok(7));
    assert_eq!(debit(10, 10), Ok(0));
    assert_eq!(debit(10, 11), Err(EscrowError::InsufficientFunds));
    assert_eq!(credit(10, 3), Ok(13));
    assert_eq!(credit(u64::MAX - 3, 3), Ok(u64::MAX));
    assert_eq!(credit(u64::MAX - 3, 4), Err(EscrowError::Overflow));
    assert_eq!(transfer(10, 20, 4), Ok((6, 24)));
    assert_eq!(transfer(10, 20, 11), Err(EscrowError::InsufficientFunds));
    assert_eq!(transfer(10, u64::MAX, 1), Err(EscrowError::Overflow));
    assert_eq!(transfer(0, u64::MAX, 1), Err(EscrowError::InsufficientFunds));
}

#[test]
fn time_constants_are_in_seconds() {
    assert_eq!(DISPUTE_WINDOW, 604_800);
    assert_eq!(TIMEOUT_PERIOD, 2_592_000);
}

#[test]
fn errors_carry_their_messages() {
    assert_eq!(EscrowError::InvalidState.message(), "Invalid escrow state");
    assert_eq!(EscrowError::Unauthorized.message(), "Unauthorized action");
    assert_eq!(EscrowError::InsufficientFunds.message(), "Insufficient funds");
    assert_eq!(EscrowError::AlreadyFinalized.message(), "Escrow already finalized");
    assert_eq!(EscrowError::InvalidAmount.message(), "Invalid amount - must be within allowed range");
    assert_eq!(EscrowError::InvalidParties.message(), "Buyer and seller must be different accounts");
    assert_eq!(EscrowError::NotBuyer.message(), "Not the buyer of this escrow");
    assert_eq!(EscrowError::NotSeller.message(), "Not the seller of this escrow");
    assert_eq!(EscrowError::Overflow.message(), "Arithmetic overflow");
    assert_eq!(
        EscrowError::UnauthorizedArbiter.message(),
        "Arbiter is not authorized or has been deactivated"
    );
    assert_eq!(EscrowError::InvalidFeeCollector.message(), "Fee collector is not the protocol's fee vault");
    assert_eq!(ConfigError::FeeTooHigh.message(), "Fee cannot exceed 10% (1000 basis points)");
    assert_eq!(ConfigError::Unauthorized.message(), "Unauthorized action");
    assert_eq!(ConfigError::InsufficientFunds.message(), "Insufficient funds");
}
