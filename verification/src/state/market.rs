//! The market record and the closed sets of values its fields take.

use vstd::prelude::*;
use crate::state::address::Address;

verus! {

/// Longest title a market may carry, in bytes.
pub const MAX_TITLE_LEN: usize = 128;

/// Longest description a market may carry, in bytes.
pub const MAX_DESCRIPTION_LEN: usize = 512;

/// Highest fee a market or the platform may charge, in basis points.
pub const MAX_FEE_BPS: u16 = 1000;

/// The length of a text as it is stored: the number of bytes of its UTF-8
/// encoding.
pub open spec fn text_len(text: Seq<char>) -> nat {
    vstd::utf8::encode_utf8(text).len()
}

/// Where a market stands in its life.
#[derive(Clone, Copy, Debug, PartialEq, Eq, Structural)]
pub enum MarketStatus {
    Pending,
    Active,
    Locked,
    Resolving,
    Resolved,
    Disputed,
    Cancelled,
    Paused,
}

/// The subject area of a market's question.
#[derive(Clone, Copy, Debug, PartialEq, Eq, Structural)]
pub enum MarketCategory {
    Crypto,
    Sports,
    Politics,
    Entertainment,
    Weather,
    Custom,
}

/// The answer to a market's question. Only `Yes` and `No` can be bought;
/// `Invalid` is a resolution that pays both share classes alike.
#[derive(Clone, Copy, Debug, PartialEq, Eq, Structural)]
pub enum Outcome {
    Yes,
    No,
    Invalid,
}

/// Who decides a market's outcome.
#[derive(Clone, Copy, Debug, PartialEq, Eq, Structural)]
pub enum OracleSource {
    Pyth,
    Switchboard,
    ManualAdmin,
}

/// One prediction question with its pricing pool and resolution data.
///
/// `yes_reserve` and `no_reserve` are the two sides of the constant-product
/// pool. They price trades; they are not the number of shares outstanding.
#[derive(Clone, Debug)]
pub struct Market {
    pub market_id: u64,
    pub creator: Address,
    pub title: String,
    pub description: String,
    pub category: MarketCategory,
    pub status: MarketStatus,
    pub collateral_mint: Address,
    pub yes_mint: Address,
    pub no_mint: Address,
    pub vault: Address,
    pub yes_reserve: u64,
    pub no_reserve: u64,
    pub total_collateral: u64,
    pub oracle_source: OracleSource,
    pub oracle_feed: Address,
    pub oracle_threshold: i64,
    pub start_timestamp: i64,
    pub lock_timestamp: i64,
    pub end_timestamp: i64,
    pub resolved_outcome: Option<Outcome>,
    pub resolution_price: Option<i64>,
    pub resolved_at: Option<i64>,
    pub min_bet: u64,
    pub max_bet: u64,
    pub fee_bps: u16,
    pub is_recurring: bool,
    pub round_duration: Option<i64>,
    pub current_round: u64,
    pub bump: u8,
}

impl Market {
    /// What creation establishes and every operation keeps: the three
    /// timestamps strictly increase, the fee is at most ten percent, and the
    /// texts fit their limits.
    pub open spec fn wf(&self) -> bool {
        &&& self.start_timestamp < self.lock_timestamp < self.end_timestamp
        &&& self.fee_bps <= MAX_FEE_BPS
        &&& text_len(self.title@) <= MAX_TITLE_LEN
        &&& text_len(self.description@) <= MAX_DESCRIPTION_LEN
    }

    /// The product of the two reserves, the quantity a trade holds constant.
    pub open spec fn k(&self) -> nat {
        (self.yes_reserve as nat) * (self.no_reserve as nat)
    }
}

} // verus!
