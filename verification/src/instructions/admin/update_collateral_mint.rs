//! Changing the collateral the platform accepts, together with its treasury.

use vstd::prelude::*;
use crate::errors::PredictError;
use crate::state::address::Address;
use crate::state::platform::PlatformConfig;
use crate::state::token::{RawAccount, TokenAccountInfo, TOKEN_PROGRAM_ID};

verus! {

/// The records a change of collateral touches. `admin` is who asks for it.
/// The new mint and the new treasury are given as stored, unexamined.
#[derive(Clone, Debug)]
pub struct UpdateCollateralMint {
    pub platform_config: PlatformConfig,
    pub admin: Address,
    pub new_collateral_mint: RawAccount,
    pub new_treasury: RawAccount,
}

/// What the new treasury's data decodes to, if it is a token account.
pub open spec fn new_treasury_account(ctx: UpdateCollateralMint) -> Option<TokenAccountInfo> {
    TokenAccountInfo::decoded(ctx.new_treasury.key, ctx.new_treasury.data@)
}

/// Why a change of collateral is refused, or `None` if it is accepted. The
/// token program must own both accounts, and the treasury must be a token
/// account of the new mint; what is not is refused as an invalid mint.
pub open spec fn collateral_mint_refusal(ctx: UpdateCollateralMint) -> Option<PredictError> {
    if ctx.platform_config.admin != ctx.admin {
        Some(PredictError::Unauthorized)
    } else if ctx.new_collateral_mint.owner.bytes != TOKEN_PROGRAM_ID || ctx.new_treasury.owner.bytes
        != TOKEN_PROGRAM_ID {
        Some(PredictError::InvalidMint)
    } else {
        match new_treasury_account(ctx) {
            None => Some(PredictError::InvalidMint),
            Some(info) => if info.mint != ctx.new_collateral_mint.key {
                Some(PredictError::InvalidMint)
            } else {
                None
            },
        }
    }
}

/// The records after an accepted change of collateral.
pub open spec fn collateral_mint_commit(ctx: UpdateCollateralMint) -> UpdateCollateralMint {
    UpdateCollateralMint {
        platform_config: PlatformConfig {
            collateral_mint: ctx.new_collateral_mint.key,
            treasury: ctx.new_treasury.key,
            ..ctx.platform_config
        },
        ..ctx
    }
}

/// Makes the new mint the platform's collateral and the new treasury its
/// treasury, or refuses and changes nothing. The treasury's data is decoded
/// as a token account; data that does not decode is refused like any other
/// treasury that is not of the new mint.
pub fn update_collateral_mint(ctx: &mut UpdateCollateralMint) -> (r: Result<(), PredictError>)
    ensures
        match r {
            Ok(_) => {
                &&& collateral_mint_refusal(*old(ctx)).is_none()
                &&& *final(ctx) == collateral_mint_commit(*old(ctx))
            },
            Err(e) => {
                &&& collateral_mint_refusal(*old(ctx)) == Some(e)
                &&& *final(ctx) == *old(ctx)
            },
        },
{
    if ctx.platform_config.admin != ctx.admin {
        return Err(PredictError::Unauthorized);
    }
    if !ctx.new_collateral_mint.is_token_owned() {
        return Err(PredictError::InvalidMint);
    }
    if !ctx.new_treasury.is_token_owned() {
        return Err(PredictError::InvalidMint);
    }
    let info = match TokenAccountInfo::unpack(ctx.new_treasury.key, ctx.new_treasury.data.as_slice()) {
        Ok(info) => info,
        Err(_) => {
            return Err(PredictError::InvalidMint);
        },
    };
    if info.mint != ctx.new_collateral_mint.key {
        return Err(PredictError::InvalidMint);
    }
    ctx.platform_config.collateral_mint = ctx.new_collateral_mint.key;
    ctx.platform_config.treasury = ctx.new_treasury.key;
    Ok(())
}

} // verus!
