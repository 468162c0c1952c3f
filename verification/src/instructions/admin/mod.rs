//! Operations reserved to the platform's administrator.

pub mod close_market;
pub mod create_market;
pub mod init_platform;
pub mod pause;
pub mod update_collateral_mint;
pub mod update_fees;
pub mod update_treasury;

pub use close_market::{process_close_market, CloseMarket};
pub use create_market::{process_create_market, CreateMarket, CreateMarketParams, MarketSeed};
pub use init_platform::{process_init_platform, InitPlatform};
pub use pause::{
    pause_market, pause_platform, recompute_status, unpause_market, unpause_platform, MarketAdmin,
    PlatformAdmin, ToggleMarketCtx,
};
pub use update_collateral_mint::{update_collateral_mint, UpdateCollateralMint};
pub use update_fees::{update_fees, UpdateFees, WithdrawFees};
pub use update_treasury::{update_treasury, UpdateTreasury};
