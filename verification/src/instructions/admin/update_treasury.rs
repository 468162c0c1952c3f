//! Changing where fees and bonds go.

use vstd::prelude::*;
use crate::errors::PredictError;
use crate::state::address::Address;
use crate::state::platform::PlatformConfig;
use crate::state::token::TokenAccountInfo;

verus! {

/// The records a change of treasury touches. `admin` is who asks for it.
#[derive(Clone, Copy, Debug)]
pub struct UpdateTreasury {
    pub platform_config: PlatformConfig,
    pub admin: Address,
    pub new_treasury: TokenAccountInfo,
}

/// Why a change of treasury is refused, or `None` if it is accepted: the new
/// treasury must hold the platform's collateral.
pub open spec fn update_treasury_refusal(ctx: UpdateTreasury) -> Option<PredictError> {
    if ctx.platform_config.admin != ctx.admin {
        Some(PredictError::Unauthorized)
    } else if ctx.new_treasury.mint != ctx.platform_config.collateral_mint {
        Some(PredictError::InvalidMint)
    } else {
        None
    }
}

/// Makes `ctx.new_treasury` the platform's treasury, or refuses and changes
/// nothing.
pub fn update_treasury(ctx: &mut UpdateTreasury) -> (r: Result<(), PredictError>)
    ensures
        match r {
            Ok(_) => {
                &&& update_treasury_refusal(*old(ctx)).is_none()
                &&& *final(ctx) == (UpdateTreasury {
                    platform_config: PlatformConfig {
                        treasury: old(ctx).new_treasury.key,
                        ..old(ctx).platform_config
                    },
                    ..*old(ctx)
                })
            },
            Err(e) => {
                &&& update_treasury_refusal(*old(ctx)) == Some(e)
                &&& *final(ctx) == *old(ctx)
            },
        },
{
    if ctx.platform_config.admin != ctx.admin {
        return Err(PredictError::Unauthorized);
    }
    if ctx.new_treasury.mint != ctx.platform_config.collateral_mint {
        return Err(PredictError::InvalidMint);
    }
    ctx.platform_config.treasury = ctx.new_treasury.key;
    Ok(())
}

} // verus!
