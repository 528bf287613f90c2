//! Creating the protocol's configuration.

use vstd::prelude::*;

use crate::constants::MAX_FEE_BASIS_POINTS;
use crate::errors::ConfigError;
use crate::identity::Identity;
use crate::state::Config;

verus! {

/// What `initialize_config` reads.
#[derive(Clone, Copy, Debug, PartialEq, Eq)]
pub struct InitializeConfig {
    /// The caller, who becomes the admin.
    pub admin: Identity,
    /// The fee vault that the configuration is bound to.
    pub fee_collector: Identity,
    /// The bump seed of the configuration record's address.
    pub bump: u8,
    /// The bump seed of the fee vault's address.
    pub fee_collector_bump: u8,
}

/// Makes the configuration record with the caller as admin. Refused with
/// `FeeTooHigh` exactly where the fee exceeds 1000 basis points.
pub fn handler(ctx: &InitializeConfig, fee_basis_points: u16) -> (r: Result<Config, ConfigError>)
    ensures
        fee_basis_points > MAX_FEE_BASIS_POINTS ==> r == Err::<Config, ConfigError>(ConfigError::FeeTooHigh),
        fee_basis_points <= MAX_FEE_BASIS_POINTS ==> r == Ok::<Config, ConfigError>(
            Config {
                admin: ctx.admin,
                fee_basis_points,
                bump: ctx.bump,
                fee_collector_bump: ctx.fee_collector_bump,
            },
        ),
        r matches Ok(config) ==> config.wf(),
{
    if fee_basis_points > MAX_FEE_BASIS_POINTS {
        return Err(ConfigError::FeeTooHigh);
    }
    Ok(
        Config {
            admin: ctx.admin,
            fee_basis_points,
            bump: ctx.bump,
            fee_collector_bump: ctx.fee_collector_bump,
        },
    )
}

} // verus!
