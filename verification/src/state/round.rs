//! One round of a recurring market.

use vstd::prelude::*;
use crate::state::address::Address;

verus! {

/// Where a round stands.
#[derive(Clone, Copy, Debug, PartialEq, Eq, Structural)]
pub enum RoundStatus {
    Open,
    Locked,
    Resolved,
    Cancelled,
}

/// The prices and totals of one round. No operation of the engine reads or
/// writes it yet; it is carried for recurring markets.
#[derive(Clone, Copy, Debug)]
pub struct RoundState {
    pub market: Address,
    pub round_id: u64,
    pub status: RoundStatus,
    pub lock_price: Option<i64>,
    pub close_price: Option<i64>,
    pub total_yes: u64,
    pub total_no: u64,
    pub start_ts: i64,
    pub lock_ts: i64,
    pub end_ts: i64,
    pub oracle_round_id: Option<u64>,
    pub bump: u8,
}

} // verus!
