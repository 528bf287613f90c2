use escrow::errors::EscrowError;
use escrow::events::ReputationUpdated;
use escrow::identity::Identity;
use escrow::instructions::initialize::{handler as initialize_reputation, InitializeReputation};
use escrow::instructions::update_reputation::{
    counted, counted_optional, handler as update_reputation, ReputationUpdate, UpdateReputation,
};
use escrow::state::Reputation;

fn user(tag: u8) -> Identity {
    Identity::new([tag; 32])
}

#[test]
fn counters_step_by_one() {
    let mut record = Reputation { user: user(1), successful_trades: 3, failed_trades: 4 };
    record.increment_successful();
    assert_eq!(record.successful_trades, 4);
    assert_eq!(record.failed_trades, 4);
    record.increment_failed();
    assert_eq!(record.successful_trades, 4);
    assert_eq!(record.failed_trades, 5);
    assert_eq!(record.user, user(1));
}

#[test]
fn counters_saturate_at_the_largest_value() {
    let mut record = Reputation { user: user(1), successful_trades: u64::MAX - 1, failed_trades: u64::MAX };
    record.increment_successful();
    assert_eq!(record.successful_trades, u64::MAX);
    record.increment_successful();
    record.increment_successful();
    assert_eq!(record.successful_trades, u64::MAX);
    record.increment_failed();
    assert_eq!(record.failed_trades, u64::MAX);
}

#[test]
fn total_trades_saturates() {
    let record = Reputation { user: user(1), successful_trades: 7, failed_trades: 5 };
    assert_eq!(record.total_trades(), 12);
    let full = Reputation { user: user(1), successful_trades: u64::MAX, failed_trades: 5 };
    assert_eq!(full.total_trades(), u64::MAX);
}

#[test]
fn success_percent_rounds_down_and_is_zero_without_trades() {
    let fresh = Reputation { user: user(1), successful_trades: 0, failed_trades: 0 };
    assert_eq!(fresh.success_percent(), 0);
    let mixed = Reputation { user: user(1), successful_trades: 2, failed_trades: 1 };
    assert_eq!(mixed.success_percent(), 66);
    let perfect = Reputation { user: user(1), successful_trades: 9, failed_trades: 0 };
    assert_eq!(perfect.success_percent(), 100);
    let none = Reputation { user: user(1), successful_trades: 0, failed_trades: 9 };
    assert_eq!(none.success_percent(), 0);
    let huge = Reputation { user: user(1), successful_trades: u64::MAX, failed_trades: u64::MAX };
    assert_eq!(huge.success_percent(), 50);
}

#[test]
fn initialize_reputation_starts_at_zero() {
    let ctx = InitializeReputation { user: user(7), payer: user(8) };
    let (record, entry) = initialize_reputation(&ctx).unwrap();
    assert_eq!(record, Reputation { user: user(7), successful_trades: 0, failed_trades: 0 });
    assert_eq!(entry, ReputationUpdated { user: user(7), successful_trades: 0, failed_trades: 0 });
}

#[test]
fn update_reputation_counts_the_outcome() {
    let mut ctx = UpdateReputation {
        reputation: Reputation { user: user(7), successful_trades: 1, failed_trades: 2 },
        user: user(7),
        authority: user(9),
    };
    let entry = update_reputation(&mut ctx, ReputationUpdate::Successful).unwrap();
    assert_eq!(entry, ReputationUpdated { user: user(7), successful_trades: 2, failed_trades: 2 });
    assert_eq!(ctx.reputation.successful_trades, 2);
    let entry = update_reputation(&mut ctx, ReputationUpdate::Failed).unwrap();
    assert_eq!(entry, ReputationUpdated { user: user(7), successful_trades: 2, failed_trades: 3 });
    assert_eq!(ctx.reputation, Reputation { user: user(7), successful_trades: 2, failed_trades: 3 });
}

#[test]
fn update_reputation_refuses_another_users_record() {
    let mut ctx = UpdateReputation {
        reputation: Reputation { user: user(7), successful_trades: 1, failed_trades: 2 },
        user: user(6),
        authority: user(9),
    };
    let before = ctx;
    assert_eq!(update_reputation(&mut ctx, ReputationUpdate::Successful), Err(EscrowError::Unauthorized));
    assert_eq!(ctx, before);
}

#[test]
fn counted_leaves_an_absent_record_absent() {
    assert_eq!(counted_optional(None, ReputationUpdate::Failed), (None, None));
    let record = Reputation { user: user(2), successful_trades: 0, failed_trades: 0 };
    let after = counted(record, ReputationUpdate::Failed);
    assert_eq!(after, Reputation { user: user(2), successful_trades: 0, failed_trades: 1 });
    assert_eq!(
        counted_optional(Some(record), ReputationUpdate::Successful),
        (
            Some(Reputation { user: user(2), successful_trades: 1, failed_trades: 0 }),
            Some(ReputationUpdated { user: user(2), successful_trades: 1, failed_trades: 0 }),
        )
    );
}
