//! Deactivating an arbiter.

use vstd::prelude::*;

use crate::errors::EscrowError;
use crate::identity::Identity;
use crate::state::{Arbiter, Config};

verus! {

/// What `remove_arbiter` reads and changes.
#[derive(Clone, Copy, Debug, PartialEq, Eq)]
pub struct RemoveArbiter {
    pub config: Config,
    pub arbiter_account: Arbiter,
    /// The caller.
    pub admin: Identity,
}

/// Clears an arbiter's `is_active` flag and keeps the rest of the record.
/// Refused with `Unauthorized`, and nothing changed, exactly where the caller
/// is not the configured admin.
pub fn handler(ctx: &mut RemoveArbiter) -> (r: Result<(), EscrowError>)
    ensures
        old(ctx).config.admin != old(ctx).admin ==> r == Err::<(), EscrowError>(EscrowError::Unauthorized)
            && *final(ctx) == *old(ctx),
        old(ctx).config.admin == old(ctx).admin ==> r is Ok && *final(ctx) == (RemoveArbiter {
            arbiter_account: Arbiter { is_active: false, ..old(ctx).arbiter_account },
            ..*old(ctx)
        }),
{
    if !ctx.config.is_admin(&ctx.admin) {
        return Err(EscrowError::Unauthorized);
    }
    ctx.arbiter_account.is_active = false;
    Ok(())
}

} // verus!
