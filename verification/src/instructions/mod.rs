//! The operations of the engine, one per file.

pub mod admin;
pub mod betting;
pub mod dispute;
pub mod oracle;

pub use admin::{
    pause_market, pause_platform, process_close_market,
    process_create_market, process_init_platform, recompute_status, unpause_market,
    unpause_platform, update_collateral_mint, update_fees, update_treasury, CloseMarket,
    CreateMarket, CreateMarketParams, InitPlatform, MarketAdmin, MarketSeed, PlatformAdmin,
    ToggleMarketCtx, UpdateCollateralMint, UpdateFees, UpdateTreasury, WithdrawFees,
};
pub use betting::{
    process_cancel_bet, process_claim_payout, process_place_bet, BetReceipt, CancelBet,
    CancelReceipt, ClaimPayout, ClaimReceipt, PlaceBet,
};
pub use dispute::{
    process_open_dispute, process_settle_dispute, DisputeReceipt, OpenDispute, SettleDispute,
};
pub use oracle::{feed_outcome, process_resolve_market, PriceFeed, ResolveMarket};
