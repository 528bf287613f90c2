use escrow::constants::{MAX_ESCROW_AMOUNT, MIN_ESCROW_AMOUNT};
use escrow::errors::EscrowError;
use escrow::events::EscrowCreated;
use escrow::identity::Identity;
use escrow::instructions::create_escrow::{handler as create_escrow, CreateEscrow};
use escrow::state::{Escrow, EscrowStatus};
use escrow::vault::Wallet;

fn id(tag: u8) -> Identity {
    Identity::new([tag; 32])
}

fn request(buyer_balance: u64) -> CreateEscrow {
    CreateEscrow {
        escrow: Wallet { key: id(9), balance: 1_500_000 },
        buyer: Wallet { key: id(1), balance: buyer_balance },
        seller: id(2),
        bump: 254,
    }
}

#[test]
fn create_escrow_moves_the_amount_into_the_vault() {
    let mut ctx = request(80_000_000);
    let (record, entry) = create_escrow(&mut ctx, 50_000_000, 1_700_000_000).unwrap();
    assert_eq!(
        record,
        Escrow {
            buyer: id(1),
            seller: id(2),
            amount: 50_000_000,
            status: EscrowStatus::Active,
            created_at: 1_700_000_000,
            bump: 254,
        }
    );
    assert_eq!(
        entry,
        EscrowCreated { escrow: id(9), buyer: id(1), seller: id(2), amount: 50_000_000, timestamp: 1_700_000_000 }
    );
    assert_eq!(ctx.buyer.balance, 30_000_000);
    assert_eq!(ctx.escrow.balance, 51_500_000);
    assert!(record.is_active());
    assert!(record.can_release());
    assert!(record.can_cancel());
    assert!(!record.is_finalized());
}

#[test]
fn create_escrow_accepts_both_ends_of_the_range() {
    let mut low = request(MIN_ESCROW_AMOUNT);
    let (record, _) = create_escrow(&mut low, MIN_ESCROW_AMOUNT, 0).unwrap();
    assert_eq!(record.amount, 10_000_000);
    assert_eq!(low.buyer.balance, 0);
    let mut high = request(MAX_ESCROW_AMOUNT + 5);
    let (record, _) = create_escrow(&mut high, MAX_ESCROW_AMOUNT, 0).unwrap();
    assert_eq!(record.amount, 1_000_000_000_000);
    assert_eq!(high.buyer.balance, 5);
    assert_eq!(high.escrow.balance, 1_000_001_500_000);
}

#[test]
fn create_escrow_refuses_an_amount_below_the_minimum() {
    let mut ctx = request(80_000_000);
    let before = ctx;
    assert_eq!(create_escrow(&mut ctx, MIN_ESCROW_AMOUNT - 1, 0), Err(EscrowError::InvalidAmount));
    assert_eq!(ctx, before);
    assert_eq!(create_escrow(&mut ctx, 0, 0), Err(EscrowError::InvalidAmount));
    assert_eq!(ctx, before);
    assert_eq!(create_escrow(&mut ctx, 5, 0), Err(EscrowError::InvalidAmount));
    assert_eq!(ctx, before);
}

#[test]
fn create_escrow_refuses_an_amount_above_the_maximum() {
    let mut ctx = request(u64::MAX);
    let before = ctx;
    assert_eq!(create_escrow(&mut ctx, MAX_ESCROW_AMOUNT + 1, 0), Err(EscrowError::InvalidAmount));
    assert_eq!(ctx, before);
    assert_eq!(create_escrow(&mut ctx, u64::MAX, 0), Err(EscrowError::InvalidAmount));
    assert_eq!(ctx, before);
}

#[test]
fn create_escrow_refuses_equal_parties_whatever_the_amount() {
    for amount in [0, MIN_ESCROW_AMOUNT - 1, 50_000_000, MAX_ESCROW_AMOUNT, MAX_ESCROW_AMOUNT + 1, u64::MAX] {
        let mut ctx = request(u64::MAX);
        ctx.seller = ctx.buyer.key;
        let before = ctx;
        assert_eq!(create_escrow(&mut ctx, amount, 0), Err(EscrowError::InvalidParties));
        assert_eq!(ctx, before);
    }
}

#[test]
fn create_escrow_judges_the_range_before_the_buyers_balance() {
    let mut ctx = request(0);
    let before = ctx;
    assert_eq!(create_escrow(&mut ctx, MIN_ESCROW_AMOUNT - 1, 0), Err(EscrowError::InvalidAmount));
    assert_eq!(ctx, before);
    assert_eq!(create_escrow(&mut ctx, MAX_ESCROW_AMOUNT + 1, 0), Err(EscrowError::InvalidAmount));
    assert_eq!(ctx, before);
    assert_eq!(create_escrow(&mut ctx, MIN_ESCROW_AMOUNT, 0), Err(EscrowError::InsufficientFunds));
    assert_eq!(ctx, before);
}

#[test]
fn create_escrow_refuses_a_buyer_who_holds_too_little() {
    let mut ctx = request(49_999_999);
    let before = ctx;
    assert_eq!(create_escrow(&mut ctx, 50_000_000, 0), Err(EscrowError::InsufficientFunds));
    assert_eq!(ctx, before);
}

#[test]
fn create_escrow_refuses_a_vault_that_cannot_take_the_amount() {
    let mut ctx = request(80_000_000);
    ctx.escrow.balance = u64::MAX - 49_999_999;
    let before = ctx;
    assert_eq!(create_escrow(&mut ctx, 50_000_000, 0), Err(EscrowError::Overflow));
    assert_eq!(ctx, before);
}
