//! The record of a contested resolution.

use vstd::prelude::*;
use crate::state::address::Address;

verus! {

/// Longest reason a dispute may carry, in bytes.
pub const MAX_REASON_LEN: usize = 256;

/// Where a dispute stands. `Upheld` and `Rejected` are final.
#[derive(Clone, Copy, Debug, PartialEq, Eq, Structural)]
pub enum DisputeStatus {
    Open,
    VotingActive,
    Upheld,
    Rejected,
}

/// A challenge to a market's resolution, backed by a bond.
#[derive(Clone, Debug)]
pub struct DisputeRecord {
    pub market: Address,
    pub disputer: Address,
    pub reason: String,
    pub bond_amount: u64,
    pub status: DisputeStatus,
    pub votes_for: u64,
    pub votes_against: u64,
    pub created_at: i64,
    pub resolved_at: Option<i64>,
    pub bump: u8,
}

impl DisputeRecord {
    /// Whether the dispute still awaits its settlement.
    pub open spec fn live(&self) -> bool {
        self.status == DisputeStatus::Open || self.status == DisputeStatus::VotingActive
    }
}

} // verus!
