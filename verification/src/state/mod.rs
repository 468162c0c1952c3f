//! The records the engine reads and commits.

pub mod address;
pub mod dispute;
pub mod market;
pub mod platform;
pub mod position;
pub mod round;
pub mod token;

pub use address::Address;
pub use dispute::{DisputeRecord, DisputeStatus, MAX_REASON_LEN};
pub use market::{
    text_len, Market, MarketCategory, MarketStatus, OracleSource, Outcome, MAX_DESCRIPTION_LEN,
    MAX_FEE_BPS, MAX_TITLE_LEN,
};
pub use platform::PlatformConfig;
pub use position::UserPosition;
pub use round::{RoundState, RoundStatus};
pub use token::{MintInfo, RawAccount, TokenAccountInfo, TOKEN_ACCOUNT_LEN, TOKEN_PROGRAM_ID};
