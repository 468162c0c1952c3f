//! Creating a market and seeding its pool.

use vstd::prelude::*;
use crate::errors::PredictError;
use crate::events::MarketCreated;
use crate::state::address::Address;
use crate::state::market::{
    text_len, Market, MarketCategory, MarketStatus, OracleSource, MAX_DESCRIPTION_LEN, MAX_FEE_BPS,
    MAX_TITLE_LEN,
};
use crate::state::platform::PlatformConfig;

verus! {

/// The records the creation of a market touches. `market` is the fresh
/// record to fill in; what it holds before is overwritten. The mints and the
/// vault are those set up for this market.
#[derive(Clone, Debug)]
pub struct CreateMarket {
    pub market: Market,
    pub market_bump: u8,
    pub yes_mint: Address,
    pub no_mint: Address,
    pub vault: Address,
    pub platform_config: PlatformConfig,
    pub admin: Address,
    pub collateral_mint: Address,
}

/// What the creator of a market chooses.
#[derive(Clone, Debug)]
pub struct CreateMarketParams {
    pub title: String,
    pub description: String,
    pub category: MarketCategory,
    pub oracle_source: OracleSource,
    pub oracle_feed: Address,
    pub oracle_threshold: i64,
    pub start_timestamp: i64,
    pub lock_timestamp: i64,
    pub end_timestamp: i64,
    pub min_bet: u64,
    pub max_bet: u64,
    pub is_recurring: bool,
    pub round_duration: Option<i64>,
    pub fee_bps: u16,
    pub initial_liquidity: u64,
}

/// What the caller is to move for a created market: `initial_liquidity` of
/// collateral from the administrator into the market's vault.
#[derive(Clone, Debug)]
pub struct MarketSeed {
    pub initial_liquidity: u64,
    pub event: MarketCreated,
}

/// Why the creation of a market is refused, or `None` if it is accepted. The
/// first condition that holds, in this order, decides.
pub open spec fn create_market_refusal(ctx: CreateMarket, params: CreateMarketParams) -> Option<
    PredictError,
> {
    if ctx.platform_config.admin != ctx.admin {
        Some(PredictError::Unauthorized)
    } else if ctx.platform_config.paused {
        Some(PredictError::PlatformPaused)
    } else if text_len(params.title@) > MAX_TITLE_LEN {
        Some(PredictError::TitleTooLong)
    } else if text_len(params.description@) > MAX_DESCRIPTION_LEN {
        Some(PredictError::DescriptionTooLong)
    } else if !(params.start_timestamp < params.lock_timestamp < params.end_timestamp) {
        Some(PredictError::InvalidTimestamps)
    } else if params.fee_bps > MAX_FEE_BPS {
        Some(PredictError::FeeExceedsMax)
    } else if params.initial_liquidity == 0 {
        Some(PredictError::InsufficientLiquidity)
    } else if ctx.platform_config.total_markets == u64::MAX {
        Some(PredictError::MathOverflow)
    } else {
        None
    }
}

/// The market a creation writes: both reserves and the collateral seeded
/// with the initial liquidity, nothing resolved, `Active` if its start has
/// come and `Pending` if not.
pub open spec fn created_market(
    ctx: CreateMarket,
    market_id: u64,
    params: CreateMarketParams,
    now: i64,
) -> Market {
    Market {
        market_id,
        creator: ctx.admin,
        title: params.title,
        description: params.description,
        category: params.category,
        status: if params.start_timestamp <= now {
            MarketStatus::Active
        } else {
            MarketStatus::Pending
        },
        collateral_mint: ctx.collateral_mint,
        yes_mint: ctx.yes_mint,
        no_mint: ctx.no_mint,
        vault: ctx.vault,
        yes_reserve: params.initial_liquidity,
        no_reserve: params.initial_liquidity,
        total_collateral: params.initial_liquidity,
        oracle_source: params.oracle_source,
        oracle_feed: params.oracle_feed,
        oracle_threshold: params.oracle_threshold,
        start_timestamp: params.start_timestamp,
        lock_timestamp: params.lock_timestamp,
        end_timestamp: params.end_timestamp,
        resolved_outcome: None,
        resolution_price: None,
        resolved_at: None,
        min_bet: params.min_bet,
        max_bet: params.max_bet,
        fee_bps: params.fee_bps,
        is_recurring: params.is_recurring,
        round_duration: params.round_duration,
        current_round: 0,
        bump: ctx.market_bump,
    }
}

/// Creates market `market_id` at time `now`, or refuses.
///
/// A created market is well formed, holds the initial liquidity as both
/// reserves and as its collateral, and is counted by the platform. A refusal
/// changes nothing.
pub fn process_create_market(
    ctx: &mut CreateMarket,
    market_id: u64,
    params: CreateMarketParams,
    now: i64,
) -> (r: Result<MarketSeed, PredictError>)
    ensures
        match r {
            Ok(seed) => {
                &&& create_market_refusal(*old(ctx), params).is_none()
                &&& *final(ctx) == (CreateMarket {
                    market: created_market(*old(ctx), market_id, params, now),
                    platform_config: PlatformConfig {
                        total_markets: (old(ctx).platform_config.total_markets + 1) as u64,
                        ..old(ctx).platform_config
                    },
                    ..*old(ctx)
                })
                &&& final(ctx).market.wf()
                &&& final(ctx).market.k() == params.initial_liquidity * params.initial_liquidity
                &&& seed.initial_liquidity == params.initial_liquidity
                &&& seed.event == (MarketCreated {
                    market_id,
                    creator: old(ctx).admin,
                    title: params.title,
                    oracle_source: params.oracle_source,
                    end_timestamp: params.end_timestamp,
                })
            },
            Err(e) => {
                &&& create_market_refusal(*old(ctx), params) == Some(e)
                &&& *final(ctx) == *old(ctx)
            },
        },
{
    if ctx.platform_config.admin != ctx.admin {
        return Err(PredictError::Unauthorized);
    }
    if ctx.platform_config.paused {
        return Err(PredictError::PlatformPaused);
    }
    if params.title.as_str().as_bytes().len() > MAX_TITLE_LEN {
        return Err(PredictError::TitleTooLong);
    }
    if params.description.as_str().as_bytes().len() > MAX_DESCRIPTION_LEN {
        return Err(PredictError::DescriptionTooLong);
    }
    if !(params.start_timestamp < params.lock_timestamp && params.lock_timestamp
        < params.end_timestamp) {
        return Err(PredictError::InvalidTimestamps);
    }
    if params.fee_bps > MAX_FEE_BPS {
        return Err(PredictError::FeeExceedsMax);
    }
    if params.initial_liquidity == 0 {
        return Err(PredictError::InsufficientLiquidity);
    }
    let total_markets = match ctx.platform_config.total_markets.checked_add(1) {
        Some(n) => n,
        None => {
            return Err(PredictError::MathOverflow);
        },
    };
    let event_title = params.title.clone();
    ctx.market = Market {
        market_id,
        creator: ctx.admin,
        title: params.title,
        description: params.description,
        category: params.category,
        status: if params.start_timestamp <= now {
            MarketStatus::Active
        } else {
            MarketStatus::Pending
        },
        collateral_mint: ctx.collateral_mint,
        yes_mint: ctx.yes_mint,
        no_mint: ctx.no_mint,
        vault: ctx.vault,
        yes_reserve: params.initial_liquidity,
        no_reserve: params.initial_liquidity,
        total_collateral: params.initial_liquidity,
        oracle_source: params.oracle_source,
        oracle_feed: params.oracle_feed,
        oracle_threshold: params.oracle_threshold,
        start_timestamp: params.start_timestamp,
        lock_timestamp: params.lock_timestamp,
        end_timestamp: params.end_timestamp,
        resolved_outcome: None,
        resolution_price: None,
        resolved_at: None,
        min_bet: params.min_bet,
        max_bet: params.max_bet,
        fee_bps: params.fee_bps,
        is_recurring: params.is_recurring,
        round_duration: params.round_duration,
        current_round: 0,
        bump: ctx.market_bump,
    };
    ctx.platform_config.total_markets = total_markets;
    Ok(
        MarketSeed {
            initial_liquidity: params.initial_liquidity,
            event: MarketCreated {
                market_id,
                creator: ctx.admin,
                title: event_title,
                oracle_source: params.oracle_source,
                end_timestamp: params.end_timestamp,
            },
        },
    )
}

} // verus!
