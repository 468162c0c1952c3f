//! Opening a dispute on a resolved market.

use vstd::prelude::*;
use crate::errors::PredictError;
use crate::events::DisputeOpened;
use crate::state::address::Address;
use crate::state::dispute::{DisputeRecord, DisputeStatus, MAX_REASON_LEN};
use crate::state::market::{text_len, Market, MarketStatus};
use crate::state::platform::PlatformConfig;

verus! {

/// The records the opening of a dispute touches. `dispute_record` is the
/// fresh record to fill in; what it holds before is overwritten.
#[derive(Clone, Debug)]
pub struct OpenDispute {
    pub market: Market,
    pub market_key: Address,
    pub dispute_record: DisputeRecord,
    pub dispute_record_bump: u8,
    pub platform_config: PlatformConfig,
    pub disputer: Address,
}

/// What the caller is to move for an opened dispute: `bond` from the
/// disputer to the treasury. The bond is not collateral and leaves the
/// market's accounts untouched.
#[derive(Clone, Copy, Debug)]
pub struct DisputeReceipt {
    pub bond: u64,
    pub event: DisputeOpened,
}

/// Why the opening of a dispute is refused, or `None` if it is accepted:
/// only a resolved market can be disputed, and the reason must fit in 256
/// bytes. The first condition that holds, in this order, decides.
pub open spec fn open_dispute_refusal(ctx: OpenDispute, reason: String) -> Option<PredictError> {
    if ctx.market.status != MarketStatus::Resolved || ctx.market.resolved_outcome.is_none() {
        Some(PredictError::MarketNotResolved)
    } else if text_len(reason@) > MAX_REASON_LEN {
        Some(PredictError::ReasonTooLong)
    } else {
        None
    }
}

/// The records after a dispute was opened: the record is filled in and open,
/// and the market is `Disputed`.
pub open spec fn open_dispute_commit(ctx: OpenDispute, reason: String, now: i64) -> OpenDispute {
    OpenDispute {
        market: Market { status: MarketStatus::Disputed, ..ctx.market },
        dispute_record: DisputeRecord {
            market: ctx.market_key,
            disputer: ctx.disputer,
            reason,
            bond_amount: ctx.platform_config.dispute_bond_lamports,
            status: DisputeStatus::Open,
            votes_for: 0,
            votes_against: 0,
            created_at: now,
            resolved_at: None,
            bump: ctx.dispute_record_bump,
        },
        ..ctx
    }
}

/// Opens a dispute on a resolved market at time `now`, or refuses.
///
/// An opened dispute fills in the record, leaves the market `Disputed` and
/// returns the bond to be posted, which is the platform's fixed bond. A
/// refusal changes nothing; a reason of more than 256 bytes is refused, so
/// no record ever holds one.
pub fn process_open_dispute(ctx: &mut OpenDispute, market_id: u64, reason: String, now: i64) -> (r:
    Result<DisputeReceipt, PredictError>)
    ensures
        match r {
            Ok(receipt) => {
                &&& open_dispute_refusal(*old(ctx), reason).is_none()
                &&& *final(ctx) == open_dispute_commit(*old(ctx), reason, now)
                &&& receipt.bond == old(ctx).platform_config.dispute_bond_lamports
                &&& text_len(final(ctx).dispute_record.reason@) <= MAX_REASON_LEN
                &&& receipt.event == (DisputeOpened {
                    market_id,
                    disputer: old(ctx).disputer,
                    bond: receipt.bond,
                })
            },
            Err(e) => {
                &&& open_dispute_refusal(*old(ctx), reason) == Some(e)
                &&& *final(ctx) == *old(ctx)
            },
        },
{
    if ctx.market.status != MarketStatus::Resolved {
        return Err(PredictError::MarketNotResolved);
    }
    if ctx.market.resolved_outcome.is_none() {
        return Err(PredictError::MarketNotResolved);
    }
    if reason.as_str().as_bytes().len() > MAX_REASON_LEN {
        return Err(PredictError::ReasonTooLong);
    }
    let bond = ctx.platform_config.dispute_bond_lamports;
    ctx.dispute_record = DisputeRecord {
        market: ctx.market_key,
        disputer: ctx.disputer,
        reason,
        bond_amount: bond,
        status: DisputeStatus::Open,
        votes_for: 0,
        votes_against: 0,
        created_at: now,
        resolved_at: None,
        bump: ctx.dispute_record_bump,
    };
    ctx.market.status = MarketStatus::Disputed;
    Ok(DisputeReceipt { bond, event: DisputeOpened { market_id, disputer: ctx.disputer, bond } })
}

} // verus!
