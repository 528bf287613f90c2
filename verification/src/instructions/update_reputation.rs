//! Recording the outcome of a trade in a user's reputation.

use vstd::prelude::*;

use crate::errors::EscrowError;
use crate::events::ReputationUpdated;
use crate::identity::Identity;
use crate::state::Reputation;

verus! {

/// The outcome of a trade for one of its parties.
#[derive(Clone, Copy, Debug, PartialEq, Eq, Structural)]
pub enum ReputationUpdate {
    Successful,
    Failed,
}

/// What `update_reputation` reads and changes.
#[derive(Clone, Copy, Debug, PartialEq, Eq)]
pub struct UpdateReputation {
    pub reputation: Reputation,
    /// The user whose reputation is updated.
    pub user: Identity,
    /// The caller.
    pub authority: Identity,
}

/// A record after one outcome has been counted.
pub open spec fn spec_counted(record: Reputation, update: ReputationUpdate) -> Reputation {
    match update {
        ReputationUpdate::Successful => record.with_success(),
        ReputationUpdate::Failed => record.with_failure(),
    }
}

/// A record that may be absent, after one outcome has been counted: an absent
/// record stays absent.
pub open spec fn spec_counted_optional(record: Option<Reputation>, update: ReputationUpdate) -> Option<
    Reputation,
> {
    match record {
        Some(found) => Some(spec_counted(found, update)),
        None => None,
    }
}

/// Counts one outcome in a record.
#[verifier::when_used_as_spec(spec_counted)]
pub fn counted(record: Reputation, update: ReputationUpdate) -> (after: Reputation)
    ensures
        after == spec_counted(record, update),
{
    let mut after = record;
    match update {
        ReputationUpdate::Successful => {
            after.increment_successful();
        },
        ReputationUpdate::Failed => {
            after.increment_failed();
        },
    }
    after
}

/// Counts one outcome in a record that may be absent, and reports the record
/// as it stands afterwards.
pub fn counted_optional(record: Option<Reputation>, update: ReputationUpdate) -> (r: (
    Option<Reputation>,
    Option<ReputationUpdated>,
))
    ensures
        r.0 == spec_counted_optional(record, update),
        r.1 == ReputationUpdated::spec_of_optional(r.0),
{
    match record {
        Some(found) => {
            let after = counted(found, update);
            (Some(after), Some(ReputationUpdated::of(after)))
        },
        None => (None, None),
    }
}

impl UpdateReputation {
    /// Why the update is refused, if it is: the record belongs to another
    /// user.
    pub open spec fn refusal(&self) -> Option<EscrowError> {
        if self.reputation.user != self.user {
            Some(EscrowError::Unauthorized)
        } else {
            None
        }
    }

    /// The state after the update.
    pub open spec fn updated(self, update: ReputationUpdate) -> UpdateReputation {
        UpdateReputation { reputation: spec_counted(self.reputation, update), ..self }
    }
}

/// Counts one outcome for a user. Refused with `Unauthorized`, and nothing
/// changed, where the record is not that user's.
pub fn handler(ctx: &mut UpdateReputation, update: ReputationUpdate) -> (r: Result<
    ReputationUpdated,
    EscrowError,
>)
    ensures
        match old(ctx).refusal() {
            Some(e) => r == Err::<ReputationUpdated, EscrowError>(e) && *final(ctx) == *old(ctx),
            None => *final(ctx) == old(ctx).updated(update) && r == Ok::<ReputationUpdated, EscrowError>(
                ReputationUpdated::spec_of(final(ctx).reputation),
            ),
        },
        final(ctx).reputation.successful_trades >= old(ctx).reputation.successful_trades,
        final(ctx).reputation.failed_trades >= old(ctx).reputation.failed_trades,
{
    if ctx.reputation.user != ctx.user {
        return Err(EscrowError::Unauthorized);
    }
    ctx.reputation = counted(ctx.reputation, update);
    Ok(ReputationUpdated::of(ctx.reputation))
}

} // verus!
