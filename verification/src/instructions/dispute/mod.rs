//! Contesting a resolution and settling the contest.

pub mod open_dispute;
pub mod settle_dispute;

pub use open_dispute::{process_open_dispute, DisputeReceipt, OpenDispute};
pub use settle_dispute::{lemma_dispute_returns_to_resolved, process_settle_dispute, SettleDispute};
