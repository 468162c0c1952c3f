//! Settings shared by all markets.

use vstd::prelude::*;
use crate::state::address::Address;

verus! {

/// The platform's administrator, fee, sinks and switches.
#[derive(Clone, Copy, Debug)]
pub struct PlatformConfig {
    pub admin: Address,
    pub fee_bps: u16,
    pub treasury: Address,
    pub paused: bool,
    pub total_markets: u64,
    pub collateral_mint: Address,
    pub dispute_bond_lamports: u64,
    pub bump: u8,
}

} // verus!
