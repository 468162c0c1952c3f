//! Deciding a market's outcome.

pub mod resolve_market;

pub use resolve_market::{
    feed_outcome, process_resolve_market, PriceFeed, ResolveMarket, MAX_PRICE_AGE_SECONDS,
};
