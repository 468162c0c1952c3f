//! Notifications an operation hands back for the caller to publish.

use vstd::prelude::*;
use crate::state::address::Address;
use crate::state::market::{OracleSource, Outcome};

verus! {

/// The platform was set up.
#[derive(Clone, Copy, Debug)]
pub struct PlatformInitialized {
    pub admin: Address,
    pub fee_bps: u16,
}

/// A market was created.
#[derive(Clone, Debug)]
pub struct MarketCreated {
    pub market_id: u64,
    pub creator: Address,
    pub title: String,
    pub oracle_source: OracleSource,
    pub end_timestamp: i64,
}

/// A bet was taken. `amount` is what the user paid, fee included; the two
/// totals are the pool's reserves after the trade.
#[derive(Clone, Copy, Debug)]
pub struct BetPlaced {
    pub market_id: u64,
    pub user: Address,
    pub outcome: Outcome,
    pub amount: u64,
    pub shares: u64,
    pub new_yes_total: u64,
    pub new_no_total: u64,
    pub timestamp: i64,
}

/// Shares were sold back. `refund_amount` is what the user receives, after
/// the exit fee.
#[derive(Clone, Copy, Debug)]
pub struct BetCancelled {
    pub market_id: u64,
    pub user: Address,
    pub shares_burned: u64,
    pub refund_amount: u64,
}

/// A round of a recurring market was locked at a price.
#[derive(Clone, Copy, Debug)]
pub struct RoundLocked {
    pub market_id: u64,
    pub round_id: u64,
    pub lock_price: i64,
}

/// A market was resolved. `resolution_price` is zero where no price decided.
#[derive(Clone, Copy, Debug)]
pub struct MarketResolved {
    pub market_id: u64,
    pub outcome: Outcome,
    pub resolution_price: i64,
    pub total_collateral: u64,
}

/// A position was paid out and its shares burned.
#[derive(Clone, Copy, Debug)]
pub struct PayoutClaimed {
    pub market_id: u64,
    pub user: Address,
    pub amount: u64,
    pub shares_burned: u64,
}

/// A dispute was opened and its bond posted.
#[derive(Clone, Copy, Debug)]
pub struct DisputeOpened {
    pub market_id: u64,
    pub disputer: Address,
    pub bond: u64,
}

/// A dispute was settled. `new_outcome` is the market's outcome after the
/// settlement, changed or not.
#[derive(Clone, Copy, Debug)]
pub struct DisputeSettled {
    pub market_id: u64,
    pub upheld: bool,
    pub new_outcome: Option<Outcome>,
}

/// A round of a recurring market was started.
#[derive(Clone, Copy, Debug)]
pub struct RoundStarted {
    pub market_id: u64,
    pub round_id: u64,
    pub start_ts: i64,
    pub lock_ts: i64,
    pub end_ts: i64,
}

} // verus!
