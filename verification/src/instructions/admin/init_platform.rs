//! Setting the platform up.

use vstd::prelude::*;
use crate::errors::PredictError;
use crate::events::PlatformInitialized;
use crate::state::address::Address;
use crate::state::market::MAX_FEE_BPS;
use crate::state::platform::PlatformConfig;

verus! {

/// The records the set-up touches. `platform_config` is the fresh record to
/// fill in; what it holds before is overwritten.
#[derive(Clone, Copy, Debug)]
pub struct InitPlatform {
    pub platform_config: PlatformConfig,
    pub platform_config_bump: u8,
    pub admin: Address,
    pub collateral_mint: Address,
    pub treasury: Address,
}

/// The configuration a set-up writes: unpaused, with no markets yet.
pub open spec fn initial_config(ctx: InitPlatform, fee_bps: u16, dispute_bond: u64)
    -> PlatformConfig {
    PlatformConfig {
        admin: ctx.admin,
        fee_bps,
        treasury: ctx.treasury,
        paused: false,
        total_markets: 0,
        collateral_mint: ctx.collateral_mint,
        dispute_bond_lamports: dispute_bond,
        bump: ctx.platform_config_bump,
    }
}

/// Writes the platform's first configuration, with `ctx.admin` as its
/// administrator. Refused, with nothing changed, exactly when the fee is
/// above ten percent.
pub fn process_init_platform(ctx: &mut InitPlatform, fee_bps: u16, dispute_bond: u64) -> (r: Result<
    PlatformInitialized,
    PredictError,
>)
    ensures
        match r {
            Ok(event) => {
                &&& fee_bps <= MAX_FEE_BPS
                &&& *final(ctx) == (InitPlatform {
                    platform_config: initial_config(*old(ctx), fee_bps, dispute_bond),
                    ..*old(ctx)
                })
                &&& event == (PlatformInitialized { admin: old(ctx).admin, fee_bps })
            },
            Err(e) => {
                &&& fee_bps > MAX_FEE_BPS
                &&& e == PredictError::FeeExceedsMax
                &&& *final(ctx) == *old(ctx)
            },
        },
{
    if fee_bps > MAX_FEE_BPS {
        return Err(PredictError::FeeExceedsMax);
    }
    ctx.platform_config = PlatformConfig {
        admin: ctx.admin,
        fee_bps,
        treasury: ctx.treasury,
        paused: false,
        total_markets: 0,
        collateral_mint: ctx.collateral_mint,
        dispute_bond_lamports: dispute_bond,
        bump: ctx.platform_config_bump,
    };
    Ok(PlatformInitialized { admin: ctx.admin, fee_bps })
}

} // verus!
