//! Entering a position, leaving it, and collecting on it.

pub mod cancel_bet;
pub mod claim_payout;
pub mod place_bet;

pub use cancel_bet::{process_cancel_bet, CancelBet, CancelReceipt};
pub use claim_payout::{process_claim_payout, ClaimPayout, ClaimReceipt};
pub use place_bet::{process_place_bet, BetReceipt, PlaceBet};
