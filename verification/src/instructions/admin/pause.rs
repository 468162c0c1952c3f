//! Halting and resuming the platform or one market.

use vstd::prelude::*;
use crate::errors::PredictError;
use crate::state::address::Address;
use crate::state::market::{Market, MarketStatus};
use crate::state::platform::PlatformConfig;

verus! {

/// The records a halt or resumption of the platform touches.
#[derive(Clone, Copy, Debug)]
pub struct PlatformAdmin {
    pub platform_config: PlatformConfig,
    pub admin: Address,
}

/// The records an operation open to a market's creator would touch. No
/// operation uses these yet: markets are administered by the platform.
#[derive(Clone, Debug)]
pub struct MarketAdmin {
    pub market: Market,
    pub platform_config: PlatformConfig,
    pub admin: Address,
    pub creator: Address,
}

/// The records a halt or resumption of one market touches.
#[derive(Clone, Debug)]
pub struct ToggleMarketCtx {
    pub market: Market,
    pub platform_config: PlatformConfig,
    pub admin: Address,
}

/// The status a market has by the clock and its resolution alone: `Resolved`
/// once an outcome is recorded; else `Locked` from the lock time on; else
/// `Active` from the start time on; else `Pending`.
pub open spec fn status_at(market: Market, now: i64) -> MarketStatus {
    if market.resolved_outcome.is_some() {
        MarketStatus::Resolved
    } else if now >= market.end_timestamp || now >= market.lock_timestamp {
        MarketStatus::Locked
    } else if now >= market.start_timestamp {
        MarketStatus::Active
    } else {
        MarketStatus::Pending
    }
}

/// The status a market has by the clock and its resolution alone. A paused
/// market keeps no memory of what it was; this is what it resumes as.
pub fn recompute_status(market: &Market, now: i64) -> (s: MarketStatus)
    ensures
        s == status_at(*market, now),
{
    if market.resolved_outcome.is_some() {
        MarketStatus::Resolved
    } else if now >= market.end_timestamp {
        MarketStatus::Locked
    } else if now >= market.lock_timestamp {
        MarketStatus::Locked
    } else if now >= market.start_timestamp {
        MarketStatus::Active
    } else {
        MarketStatus::Pending
    }
}

/// Halts the platform. Refused, with nothing changed, exactly when the
/// caller is not the administrator.
pub fn pause_platform(ctx: &mut PlatformAdmin) -> (r: Result<(), PredictError>)
    ensures
        r.is_ok() <==> old(ctx).platform_config.admin == old(ctx).admin,
        r.is_err() ==> r == Err::<(), PredictError>(PredictError::Unauthorized) && *final(ctx)
            == *old(ctx),
        r.is_ok() ==> *final(ctx) == (PlatformAdmin {
            platform_config: PlatformConfig { paused: true, ..old(ctx).platform_config },
            ..*old(ctx)
        }),
{
    if ctx.platform_config.admin != ctx.admin {
        return Err(PredictError::Unauthorized);
    }
    ctx.platform_config.paused = true;
    Ok(())
}

/// Resumes the platform. Refused, with nothing changed, exactly when the
/// caller is not the administrator.
pub fn unpause_platform(ctx: &mut PlatformAdmin) -> (r: Result<(), PredictError>)
    ensures
        r.is_ok() <==> old(ctx).platform_config.admin == old(ctx).admin,
        r.is_err() ==> r == Err::<(), PredictError>(PredictError::Unauthorized) && *final(ctx)
            == *old(ctx),
        r.is_ok() ==> *final(ctx) == (PlatformAdmin {
            platform_config: PlatformConfig { paused: false, ..old(ctx).platform_config },
            ..*old(ctx)
        }),
{
    if ctx.platform_config.admin != ctx.admin {
        return Err(PredictError::Unauthorized);
    }
    ctx.platform_config.paused = false;
    Ok(())
}

/// Whether a market of this status can be halted: one that is pending,
/// active or locked.
pub open spec fn can_pause(status: MarketStatus) -> bool {
    status == MarketStatus::Pending || status == MarketStatus::Active || status
        == MarketStatus::Locked
}

/// The market after a halt is asked for: `Paused` if it was pending, active
/// or locked, and as it was otherwise.
pub open spec fn market_after_pause(market: Market) -> Market {
    if can_pause(market.status) {
        Market { status: MarketStatus::Paused, ..market }
    } else {
        market
    }
}

/// The market after a resumption is asked for at time `now`: with the status
/// it has by the clock and its resolution alone if it was `Paused`, and as it
/// was otherwise.
pub open spec fn market_after_resume(market: Market, now: i64) -> Market {
    if market.status == MarketStatus::Paused {
        Market { status: status_at(market, now), ..market }
    } else {
        market
    }
}

/// Halts a market that is pending, active or locked; a market of any other
/// status is left as it is. Refused, with nothing changed, exactly when the
/// caller is not the administrator.
pub fn pause_market(ctx: &mut ToggleMarketCtx, market_id: u64) -> (r: Result<(), PredictError>)
    ensures
        r.is_ok() <==> old(ctx).platform_config.admin == old(ctx).admin,
        r.is_err() ==> r == Err::<(), PredictError>(PredictError::Unauthorized) && *final(ctx)
            == *old(ctx),
        r.is_ok() ==> *final(ctx) == (ToggleMarketCtx {
            market: market_after_pause(old(ctx).market),
            ..*old(ctx)
        }),
{
    if ctx.platform_config.admin != ctx.admin {
        return Err(PredictError::Unauthorized);
    }
    match ctx.market.status {
        MarketStatus::Pending | MarketStatus::Active | MarketStatus::Locked => {
            ctx.market.status = MarketStatus::Paused;
        },
        _ => {},
    }
    Ok(())
}

/// Resumes a paused market at time `now`, giving it the status it has by the
/// clock and its resolution alone; a market that is not paused is left as it
/// is. Refused, with nothing changed, exactly when the caller is not the
/// administrator.
pub fn unpause_market(ctx: &mut ToggleMarketCtx, market_id: u64, now: i64) -> (r: Result<
    (),
    PredictError,
>)
    ensures
        r.is_ok() <==> old(ctx).platform_config.admin == old(ctx).admin,
        r.is_err() ==> r == Err::<(), PredictError>(PredictError::Unauthorized) && *final(ctx)
            == *old(ctx),
        r.is_ok() ==> *final(ctx) == (ToggleMarketCtx {
            market: market_after_resume(old(ctx).market, now),
            ..*old(ctx)
        }),
{
    if ctx.platform_config.admin != ctx.admin {
        return Err(PredictError::Unauthorized);
    }
    if ctx.market.status == MarketStatus::Paused {
        let status = recompute_status(&ctx.market, now);
        ctx.market.status = status;
    }
    Ok(())
}

/// Resuming is idempotent and forgets what the status was before the halt:
/// the status a paused market resumes as does not depend on any stored
/// status, and resuming a second time at the same moment changes nothing.
pub proof fn lemma_resume_is_idempotent(market: Market, any_status: MarketStatus, now: i64)
    ensures
        status_at(Market { status: any_status, ..market }, now) == status_at(market, now),
        market_after_resume(market_after_resume(market, now), now) == market_after_resume(
            market,
            now,
        ),
        market_after_pause(market_after_pause(market)) == market_after_pause(market),
{
    if market.status == MarketStatus::Paused {
        let resumed = market_after_resume(market, now);
        if resumed.status == MarketStatus::Paused {
            assert(status_at(resumed, now) == status_at(market, now));
            assert(market_after_resume(resumed, now) == resumed);
        }
    }
}

/// Halting and resuming never end a dispute, revive a cancelled market or
/// undo a resolution: a market that is resolving, resolved, disputed or
/// cancelled is left exactly as it is by both.
pub proof fn lemma_halt_spares_settled_markets(market: Market, now: i64)
    requires
        market.status == MarketStatus::Resolving || market.status == MarketStatus::Resolved
            || market.status == MarketStatus::Disputed || market.status
            == MarketStatus::Cancelled,
    ensures
        market_after_pause(market) == market,
        market_after_resume(market, now) == market,
{
}

/// A market with a recorded outcome resumes as `Resolved` at any time; one
/// without resumes as `Pending`, `Active` or `Locked` as the clock passes its
/// start and its lock.
pub proof fn lemma_resume_follows_the_clock(market: Market, now: i64)
    requires
        market.wf(),
    ensures
        market.resolved_outcome.is_some() ==> status_at(market, now) == MarketStatus::Resolved,
        market.resolved_outcome.is_none() && now < market.start_timestamp ==> status_at(market, now)
            == MarketStatus::Pending,
        market.resolved_outcome.is_none() && market.start_timestamp <= now < market.lock_timestamp
            ==> status_at(market, now) == MarketStatus::Active,
        market.resolved_outcome.is_none() && market.lock_timestamp <= now ==> status_at(market, now)
            == MarketStatus::Locked,
{
}

} // verus!
