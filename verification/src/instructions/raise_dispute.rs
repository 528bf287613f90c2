//! Disputing an active escrow.

use vstd::prelude::*;

use crate::errors::EscrowError;
use crate::events::DisputeRaised;
use crate::identity::Identity;
use crate::state::{Escrow, EscrowStatus};
use crate::vault::Account;

verus! {

/// What `raise_dispute` reads and changes.
#[derive(Clone, Copy, Debug, PartialEq, Eq)]
pub struct RaiseDispute {
    pub escrow: Account<Escrow>,
    /// The caller: the buyer or the seller.
    pub party: Identity,
}

impl RaiseDispute {
    /// Why the dispute is refused, if it is. The checks stand in the order in
    /// which they are made.
    pub open spec fn refusal(&self) -> Option<EscrowError> {
        if self.escrow.data.buyer != self.party && self.escrow.data.seller != self.party {
            Some(EscrowError::Unauthorized)
        } else if self.escrow.data.status != EscrowStatus::Active {
            Some(EscrowError::InvalidState)
        } else {
            None
        }
    }

    /// The state after the dispute is raised.
    pub open spec fn disputed(self) -> RaiseDispute {
        RaiseDispute {
            escrow: Account {
                data: Escrow { status: EscrowStatus::Disputed, ..self.escrow.data },
                ..self.escrow
            },
            ..self
        }
    }
}

/// Marks an active escrow as disputed; no value moves.
///
/// Refused, with nothing changed: `Unauthorized` unless the caller is the
/// escrow's buyer or seller; `InvalidState` unless the escrow is active.
pub fn handler(ctx: &mut RaiseDispute, timestamp: i64) -> (r: Result<DisputeRaised, EscrowError>)
    ensures
        match old(ctx).refusal() {
            Some(e) => r == Err::<DisputeRaised, EscrowError>(e) && *final(ctx) == *old(ctx),
            None => *final(ctx) == old(ctx).disputed() && r == Ok::<DisputeRaised, EscrowError>(
                DisputeRaised { escrow: old(ctx).escrow.key, raised_by: old(ctx).party, timestamp },
            ),
        },
{
    if ctx.escrow.data.buyer != ctx.party && ctx.escrow.data.seller != ctx.party {
        return Err(EscrowError::Unauthorized);
    }
    if !matches!(ctx.escrow.data.status, EscrowStatus::Active) {
        return Err(EscrowError::InvalidState);
    }
    ctx.escrow.data.status = EscrowStatus::Disputed;
    Ok(DisputeRaised { escrow: ctx.escrow.key, raised_by: ctx.party, timestamp })
}

} // verus!
