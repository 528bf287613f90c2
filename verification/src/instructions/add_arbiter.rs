//! Registering an arbiter.

use vstd::prelude::*;

use crate::errors::EscrowError;
use crate::identity::Identity;
use crate::state::{Arbiter, Config};

verus! {

/// What `add_arbiter` reads.
#[derive(Clone, Copy, Debug, PartialEq, Eq)]
pub struct AddArbiter {
    pub config: Config,
    /// The arbiter to register.
    pub arbiter: Identity,
    /// The caller.
    pub admin: Identity,
    /// The bump seed of the arbiter record's address.
    pub bump: u8,
}

/// Makes the registry record of an arbiter, active from the start. Refused
/// with `Unauthorized` exactly where the caller is not the configured admin.
pub fn handler(ctx: &AddArbiter, timestamp: i64) -> (r: Result<Arbiter, EscrowError>)
    ensures
        ctx.config.admin != ctx.admin ==> r == Err::<Arbiter, EscrowError>(EscrowError::Unauthorized),
        ctx.config.admin == ctx.admin ==> r == Ok::<Arbiter, EscrowError>(
            Arbiter {
                arbiter: ctx.arbiter,
                added_by: ctx.admin,
                added_at: timestamp,
                is_active: true,
                bump: ctx.bump,
            },
        ),
{
    if !ctx.config.is_admin(&ctx.admin) {
        return Err(EscrowError::Unauthorized);
    }
    Ok(
        Arbiter {
            arbiter: ctx.arbiter,
            added_by: ctx.admin,
            added_at: timestamp,
            is_active: true,
            bump: ctx.bump,
        },
    )
}

} // verus!
