//! Accounting core of a binary-outcome prediction market: constant-product
//! pricing of Yes/No exposure, fees, resolution, disputes and pro-rata payout.
//!
//! Every operation is a transition over plain records. Moving collateral and
//! minting or burning shares is left to the caller: an operation returns the
//! amounts to move and commits the new state of the records it was given.

pub mod errors;
pub mod events;
pub mod instructions;
pub mod ledger;
pub mod state;
pub mod utils;
