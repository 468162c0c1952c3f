//! Changing the platform's fee.

use vstd::prelude::*;
use crate::errors::PredictError;
use crate::state::address::Address;
use crate::state::market::MAX_FEE_BPS;
use crate::state::platform::PlatformConfig;
use crate::state::token::TokenAccountInfo;

verus! {

/// The records a change of fee touches. `admin` is who asks for it.
#[derive(Clone, Copy, Debug)]
pub struct UpdateFees {
    pub platform_config: PlatformConfig,
    pub admin: Address,
}

/// The records a withdrawal of fees would touch. Fees go straight to the
/// treasury when they are charged, so no operation uses these yet.
#[derive(Clone, Copy, Debug)]
pub struct WithdrawFees {
    pub platform_config: PlatformConfig,
    pub treasury: TokenAccountInfo,
    pub admin: Address,
}

/// Why a change of fee is refused, or `None` if it is accepted.
pub open spec fn update_fees_refusal(ctx: UpdateFees, new_fee_bps: u16) -> Option<PredictError> {
    if ctx.platform_config.admin != ctx.admin {
        Some(PredictError::Unauthorized)
    } else if new_fee_bps > MAX_FEE_BPS {
        Some(PredictError::FeeExceedsMax)
    } else {
        None
    }
}

/// Sets the platform's fee to `new_fee_bps`, or refuses and changes nothing.
pub fn update_fees(ctx: &mut UpdateFees, new_fee_bps: u16) -> (r: Result<(), PredictError>)
    ensures
        match r {
            Ok(_) => {
                &&& update_fees_refusal(*old(ctx), new_fee_bps).is_none()
                &&& *final(ctx) == (UpdateFees {
                    platform_config: PlatformConfig {
                        fee_bps: new_fee_bps,
                        ..old(ctx).platform_config
                    },
                    ..*old(ctx)
                })
            },
            Err(e) => {
                &&& update_fees_refusal(*old(ctx), new_fee_bps) == Some(e)
                &&& *final(ctx) == *old(ctx)
            },
        },
{
    if ctx.platform_config.admin != ctx.admin {
        return Err(PredictError::Unauthorized);
    }
    if new_fee_bps > MAX_FEE_BPS {
        return Err(PredictError::FeeExceedsMax);
    }
    ctx.platform_config.fee_bps = new_fee_bps;
    Ok(())
}

} // verus!
