//! Creating a user's reputation record.

use vstd::prelude::*;

use crate::errors::EscrowError;
use crate::events::ReputationUpdated;
use crate::identity::Identity;
use crate::state::Reputation;

verus! {

/// What `initialize_reputation` reads.
#[derive(Clone, Copy, Debug, PartialEq, Eq)]
pub struct InitializeReputation {
    /// The user whose record is created.
    pub user: Identity,
    /// The caller, who pays for the record.
    pub payer: Identity,
}

/// Makes the reputation record of a user, with both counters at zero. Any
/// caller may do so, and it never fails.
pub fn handler(ctx: &InitializeReputation) -> (r: Result<(Reputation, ReputationUpdated), EscrowError>)
    ensures
        r == Ok::<(Reputation, ReputationUpdated), EscrowError>(
            (
                Reputation { user: ctx.user, successful_trades: 0, failed_trades: 0 },
                ReputationUpdated { user: ctx.user, successful_trades: 0, failed_trades: 0 },
            ),
        ),
{
    Ok(
        (
            Reputation { user: ctx.user, successful_trades: 0, failed_trades: 0 },
            ReputationUpdated { user: ctx.user, successful_trades: 0, failed_trades: 0 },
        ),
    )
}

} // verus!
