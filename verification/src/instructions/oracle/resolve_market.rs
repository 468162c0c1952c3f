//! Resolving a market by its configured source.

use vstd::prelude::*;
use crate::errors::PredictError;
use crate::events::MarketResolved;
use crate::state::address::Address;
use crate::state::market::{Market, MarketStatus, OracleSource, Outcome};
use crate::state::platform::PlatformConfig;

verus! {

/// How old, in seconds, a reported price may be when it decides a market.
pub const MAX_PRICE_AGE_SECONDS: i64 = 60;

/// A price as a feed reported it: which feed, what price, and when.
#[derive(Clone, Copy, Debug)]
pub struct PriceFeed {
    pub key: Address,
    pub price: i64,
    pub publish_time: i64,
}

/// The records a resolution touches. `admin` is who asks for it;
/// `pyth_price_feed` is the price handed in, if any.
#[derive(Clone, Debug)]
pub struct ResolveMarket {
    pub market: Market,
    pub admin: Address,
    pub platform_config: PlatformConfig,
    pub pyth_price_feed: Option<PriceFeed>,
}

/// The outcome a price decides: Yes if it is above the threshold, else No.
pub open spec fn feed_outcome_spec(price: i64, threshold: i64) -> Outcome {
    if price > threshold {
        Outcome::Yes
    } else {
        Outcome::No
    }
}

/// The outcome a price decides: Yes if it is above the threshold, else No.
pub fn feed_outcome(price: i64, threshold: i64) -> (o: Outcome)
    ensures
        o == feed_outcome_spec(price, threshold),
{
    if price > threshold {
        Outcome::Yes
    } else {
        Outcome::No
    }
}

/// Why a resolution is refused, or `None` if it is accepted. The first
/// condition that holds, in this order, decides. Only a market resolved by
/// its administrator may be resolved before its end.
pub open spec fn resolve_market_refusal(ctx: ResolveMarket, now: i64) -> Option<PredictError> {
    let m = ctx.market;
    if ctx.platform_config.admin != ctx.admin {
        Some(PredictError::Unauthorized)
    } else if m.status != MarketStatus::Active && m.status != MarketStatus::Locked {
        Some(PredictError::AlreadyResolved)
    } else if m.oracle_source != OracleSource::ManualAdmin && now < m.end_timestamp {
        Some(PredictError::RoundIncomplete)
    } else {
        match m.oracle_source {
            OracleSource::ManualAdmin => None,
            OracleSource::Switchboard => Some(PredictError::OracleMismatch),
            OracleSource::Pyth => match ctx.pyth_price_feed {
                None => Some(PredictError::OracleMismatch),
                Some(feed) => if feed.key != m.oracle_feed {
                    Some(PredictError::InvalidPythFeed)
                } else if now - feed.publish_time > MAX_PRICE_AGE_SECONDS {
                    Some(PredictError::OracleStale)
                } else {
                    None
                },
            },
        }
    }
}

/// The outcome an accepted resolution records: the one the administrator
/// names, or the one the price decides.
pub open spec fn resolved_outcome_of(ctx: ResolveMarket, outcome: Outcome) -> Outcome {
    match ctx.market.oracle_source {
        OracleSource::Pyth => feed_outcome_spec(
            ctx.pyth_price_feed.unwrap().price,
            ctx.market.oracle_threshold,
        ),
        _ => outcome,
    }
}

/// The price an accepted resolution records, if a price decided.
pub open spec fn resolution_price_of(ctx: ResolveMarket) -> Option<i64> {
    match ctx.market.oracle_source {
        OracleSource::Pyth => Some(ctx.pyth_price_feed.unwrap().price),
        _ => None,
    }
}

/// The records after an accepted resolution.
pub open spec fn resolve_market_commit(ctx: ResolveMarket, outcome: Outcome, now: i64)
    -> ResolveMarket {
    ResolveMarket {
        market: Market {
            resolved_outcome: Some(resolved_outcome_of(ctx, outcome)),
            resolution_price: resolution_price_of(ctx),
            resolved_at: Some(now),
            status: MarketStatus::Resolved,
            ..ctx.market
        },
        ..ctx
    }
}

/// What an accepted resolution asks the caller to publish.
pub open spec fn resolve_market_event(ctx: ResolveMarket, market_id: u64, outcome: Outcome)
    -> MarketResolved {
    MarketResolved {
        market_id,
        outcome: resolved_outcome_of(ctx, outcome),
        resolution_price: match resolution_price_of(ctx) {
            Some(p) => p,
            None => 0,
        },
        total_collateral: ctx.market.total_collateral,
    }
}

/// Resolves a market at time `now`, or refuses. `outcome` is what the
/// administrator names; it decides only where the market is resolved by its
/// administrator.
///
/// An accepted resolution records the outcome, the deciding price if any and
/// the time, and leaves the market `Resolved`. A refused one changes nothing.
pub fn process_resolve_market(ctx: &mut ResolveMarket, market_id: u64, outcome: Outcome, now: i64)
    -> (r: Result<MarketResolved, PredictError>)
    ensures
        match r {
            Ok(event) => {
                &&& resolve_market_refusal(*old(ctx), now).is_none()
                &&& *final(ctx) == resolve_market_commit(*old(ctx), outcome, now)
                &&& event == resolve_market_event(*old(ctx), market_id, outcome)
                &&& final(ctx).market.status == MarketStatus::Resolved
                &&& final(ctx).market.resolved_outcome.is_some()
                &&& final(ctx).market.total_collateral == old(ctx).market.total_collateral
            },
            Err(e) => {
                &&& resolve_market_refusal(*old(ctx), now) == Some(e)
                &&& *final(ctx) == *old(ctx)
            },
        },
{
    if ctx.platform_config.admin != ctx.admin {
        return Err(PredictError::Unauthorized);
    }
    if ctx.market.status != MarketStatus::Active && ctx.market.status != MarketStatus::Locked {
        return Err(PredictError::AlreadyResolved);
    }
    if ctx.market.oracle_source != OracleSource::ManualAdmin && now < ctx.market.end_timestamp {
        return Err(PredictError::RoundIncomplete);
    }
    let (final_outcome, resolution_price) = match ctx.market.oracle_source {
        OracleSource::ManualAdmin => (outcome, None),
        OracleSource::Pyth => {
            let feed = match ctx.pyth_price_feed {
                Some(feed) => feed,
                None => {
                    return Err(PredictError::OracleMismatch);
                },
            };
            if feed.key != ctx.market.oracle_feed {
                return Err(PredictError::InvalidPythFeed);
            }
            let age: i128 = now as i128 - feed.publish_time as i128;
            if age > MAX_PRICE_AGE_SECONDS as i128 {
                return Err(PredictError::OracleStale);
            }
            (feed_outcome(feed.price, ctx.market.oracle_threshold), Some(feed.price))
        },
        OracleSource::Switchboard => {
            return Err(PredictError::OracleMismatch);
        },
    };
    ctx.market.resolved_outcome = Some(final_outcome);
    ctx.market.resolution_price = resolution_price;
    ctx.market.resolved_at = Some(now);
    ctx.market.status = MarketStatus::Resolved;
    Ok(
        MarketResolved {
            market_id,
            outcome: final_outcome,
            resolution_price: match resolution_price {
                Some(p) => p,
                None => 0,
            },
            total_collateral: ctx.market.total_collateral,
        },
    )
}

} // verus!
