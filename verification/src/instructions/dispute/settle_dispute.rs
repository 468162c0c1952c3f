//! Settling an open dispute.

use vstd::prelude::*;
use crate::errors::PredictError;
use crate::events::DisputeSettled;
use crate::instructions::dispute::open_dispute::{open_dispute_commit, open_dispute_refusal, OpenDispute};
use crate::state::address::Address;
use crate::state::dispute::{DisputeRecord, DisputeStatus};
use crate::state::market::{Market, MarketStatus, Outcome};
use crate::state::platform::PlatformConfig;

verus! {

/// The records a settlement touches. `admin` is who asks for it.
#[derive(Clone, Debug)]
pub struct SettleDispute {
    pub market: Market,
    pub dispute_record: DisputeRecord,
    pub platform_config: PlatformConfig,
    pub admin: Address,
}

/// Why a settlement is refused, or `None` if it is accepted. The first
/// condition that holds, in this order, decides.
pub open spec fn settle_dispute_refusal(ctx: SettleDispute) -> Option<PredictError> {
    if ctx.platform_config.admin != ctx.admin {
        Some(PredictError::Unauthorized)
    } else if ctx.market.status != MarketStatus::Disputed {
        Some(PredictError::MarketNotActive)
    } else if !ctx.dispute_record.live() {
        Some(PredictError::AlreadyResolved)
    } else {
        None
    }
}

/// The records after a settlement. With a new outcome the dispute is upheld
/// and the market's outcome replaced; without one the dispute is rejected
/// and the outcome stands. Either way the market is `Resolved` again.
pub open spec fn settle_dispute_commit(
    ctx: SettleDispute,
    result_outcome: Option<Outcome>,
    now: i64,
) -> SettleDispute {
    SettleDispute {
        market: Market {
            status: MarketStatus::Resolved,
            resolved_outcome: match result_outcome {
                Some(o) => Some(o),
                None => ctx.market.resolved_outcome,
            },
            ..ctx.market
        },
        dispute_record: DisputeRecord {
            status: if result_outcome.is_some() {
                DisputeStatus::Upheld
            } else {
                DisputeStatus::Rejected
            },
            resolved_at: Some(now),
            ..ctx.dispute_record
        },
        ..ctx
    }
}

/// Settles a dispute at time `now`, or refuses.
///
/// A settlement stamps the dispute with its final status and the time and
/// returns the market to `Resolved`, with `result_outcome` in place of its
/// outcome if one is given. A refusal changes nothing.
pub fn process_settle_dispute(
    ctx: &mut SettleDispute,
    market_id: u64,
    result_outcome: Option<Outcome>,
    now: i64,
) -> (r: Result<DisputeSettled, PredictError>)
    ensures
        match r {
            Ok(event) => {
                &&& settle_dispute_refusal(*old(ctx)).is_none()
                &&& *final(ctx) == settle_dispute_commit(*old(ctx), result_outcome, now)
                &&& event == (DisputeSettled {
                    market_id,
                    upheld: result_outcome.is_some(),
                    new_outcome: final(ctx).market.resolved_outcome,
                })
                &&& final(ctx).market.status == MarketStatus::Resolved
                &&& !final(ctx).dispute_record.live()
            },
            Err(e) => {
                &&& settle_dispute_refusal(*old(ctx)) == Some(e)
                &&& *final(ctx) == *old(ctx)
            },
        },
{
    if ctx.platform_config.admin != ctx.admin {
        return Err(PredictError::Unauthorized);
    }
    if ctx.market.status != MarketStatus::Disputed {
        return Err(PredictError::MarketNotActive);
    }
    if ctx.dispute_record.status != DisputeStatus::Open && ctx.dispute_record.status
        != DisputeStatus::VotingActive {
        return Err(PredictError::AlreadyResolved);
    }
    let upheld = match result_outcome {
        Some(new_outcome) => {
            ctx.market.resolved_outcome = Some(new_outcome);
            ctx.dispute_record.status = DisputeStatus::Upheld;
            true
        },
        None => {
            ctx.dispute_record.status = DisputeStatus::Rejected;
            false
        },
    };
    ctx.market.status = MarketStatus::Resolved;
    ctx.dispute_record.resolved_at = Some(now);
    Ok(DisputeSettled { market_id, upheld, new_outcome: ctx.market.resolved_outcome })
}

/// A dispute never leaves a market stuck: once a dispute has been opened on
/// a market, the administrator's settlement of it is accepted, ends the
/// dispute, and leaves the market `Resolved`, with the new outcome if one
/// was given and the old one otherwise.
pub proof fn lemma_dispute_returns_to_resolved(
    opened: OpenDispute,
    reason: String,
    opened_at: i64,
    settle: SettleDispute,
    result_outcome: Option<Outcome>,
    settled_at: i64,
)
    requires
        open_dispute_refusal(opened, reason).is_none(),
        settle.market == open_dispute_commit(opened, reason, opened_at).market,
        settle.dispute_record == open_dispute_commit(opened, reason, opened_at).dispute_record,
        settle.platform_config.admin == settle.admin,
    ensures
        settle_dispute_refusal(settle).is_none(),
        settle_dispute_commit(settle, result_outcome, settled_at).market.status
            == MarketStatus::Resolved,
        !settle_dispute_commit(settle, result_outcome, settled_at).dispute_record.live(),
        settle_dispute_commit(settle, result_outcome, settled_at).market.resolved_outcome == (
        match result_outcome {
            Some(o) => Some(o),
            None => opened.market.resolved_outcome,
        }),
{
}

} // verus!
