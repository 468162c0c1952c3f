//! What one user holds in one market.

use vstd::prelude::*;
use crate::state::address::Address;

verus! {

/// The shares a user holds in a market and the collateral that user has put
/// in and taken out. `total_claimed` is zero until the one payout is made.
#[derive(Clone, Copy, Debug)]
pub struct UserPosition {
    pub user: Address,
    pub market: Address,
    pub yes_shares: u64,
    pub no_shares: u64,
    pub total_deposited: u64,
    pub total_claimed: u64,
    pub last_bet_timestamp: i64,
    pub bump: u8,
}

impl UserPosition {
    /// Whether the payout of this position has been made.
    pub open spec fn claimed(&self) -> bool {
        self.total_claimed != 0
    }
}

} // verus!
