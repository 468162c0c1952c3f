//! Retiring a market that has paid out.

use vstd::prelude::*;
use crate::errors::PredictError;
use crate::state::address::Address;
use crate::state::market::{Market, MarketStatus};
use crate::state::platform::PlatformConfig;
use crate::state::token::{MintInfo, TokenAccountInfo};

verus! {

/// The records the closing of a market reads. `admin` is who asks for it.
#[derive(Clone, Debug)]
pub struct CloseMarket {
    pub market: Market,
    pub yes_mint: MintInfo,
    pub no_mint: MintInfo,
    pub vault: TokenAccountInfo,
    pub platform_config: PlatformConfig,
    pub admin: Address,
}

/// Why the closing of a market is refused, or `None` if it is accepted: the
/// market must be resolved or cancelled, its vault empty, and no share of
/// either class outstanding. The first condition that holds, in this order,
/// decides.
pub open spec fn close_market_refusal(ctx: CloseMarket) -> Option<PredictError> {
    if ctx.platform_config.admin != ctx.admin {
        Some(PredictError::Unauthorized)
    } else if ctx.market.status != MarketStatus::Resolved && ctx.market.status
        != MarketStatus::Cancelled {
        Some(PredictError::MarketNotCloseable)
    } else if ctx.vault.amount != 0 || ctx.yes_mint.supply != 0 || ctx.no_mint.supply != 0 {
        Some(PredictError::OutstandingPositions)
    } else {
        None
    }
}

/// Decides whether a market may be closed. On `Ok` the caller closes the
/// vault, the two mints and the market itself; the engine keeps no record of
/// a closed market.
pub fn process_close_market(ctx: &CloseMarket, market_id: u64) -> (r: Result<(), PredictError>)
    ensures
        match r {
            Ok(_) => close_market_refusal(*ctx).is_none(),
            Err(e) => close_market_refusal(*ctx) == Some(e),
        },
{
    if ctx.platform_config.admin != ctx.admin {
        return Err(PredictError::Unauthorized);
    }
    if ctx.market.status != MarketStatus::Resolved && ctx.market.status != MarketStatus::Cancelled {
        return Err(PredictError::MarketNotCloseable);
    }
    if ctx.vault.amount != 0 {
        return Err(PredictError::OutstandingPositions);
    }
    if ctx.yes_mint.supply != 0 || ctx.no_mint.supply != 0 {
        return Err(PredictError::OutstandingPositions);
    }
    Ok(())
}

} // verus!
