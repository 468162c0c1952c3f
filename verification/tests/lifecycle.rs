use solana_predict::errors::{ErrorKind, PredictError};
use solana_predict::instructions::admin::{
    pause_market, pause_platform, recompute_status, unpause_market, unpause_platform,
    PlatformAdmin, ToggleMarketCtx,
};
use solana_predict::instructions::dispute::{
    process_open_dispute, process_settle_dispute, OpenDispute, SettleDispute,
};
use solana_predict::instructions::oracle::{
    feed_outcome, process_resolve_market, PriceFeed, ResolveMarket,
};
use solana_predict::state::{
    Address, DisputeRecord, DisputeStatus, Market, MarketCategory, MarketStatus, OracleSource,
    Outcome, PlatformConfig,
};

fn key(n: u8) -> Address {
    Address::new([n; 32])
}

fn market_of(source: OracleSource) -> Market {
    Market {
        market_id: 7,
        creator: key(1),
        title: String::from("BTC above 100k?"),
        description: String::new(),
        category: MarketCategory::Crypto,
        status: MarketStatus::Active,
        collateral_mint: key(5),
        yes_mint: key(3),
        no_mint: key(4),
        vault: key(6),
        yes_reserve: 910,
        no_reserve: 1098,
        total_collateral: 1098,
        oracle_source: source,
        oracle_feed: key(9),
        oracle_threshold: 100_000,
        start_timestamp: 100,
        lock_timestamp: 200,
        end_timestamp: 300,
        resolved_outcome: None,
        resolution_price: None,
        resolved_at: None,
        min_bet: 10,
        max_bet: 0,
        fee_bps: 200,
        is_recurring: false,
        round_duration: None,
        current_round: 0,
        bump: 255,
    }
}

fn config() -> PlatformConfig {
    PlatformConfig {
        admin: key(1),
        fee_bps: 200,
        treasury: key(7),
        paused: false,
        total_markets: 1,
        collateral_mint: key(5),
        dispute_bond_lamports: 5_000,
        bump: 254,
    }
}

fn resolve_ctx(source: OracleSource, feed: Option<PriceFeed>) -> ResolveMarket {
    ResolveMarket {
        market: market_of(source),
        admin: key(1),
        platform_config: config(),
        pyth_price_feed: feed,
    }
}

fn blank_dispute() -> DisputeRecord {
    DisputeRecord {
        market: key(0),
        disputer: key(0),
        reason: String::new(),
        bond_amount: 0,
        status: DisputeStatus::Rejected,
        votes_for: 9,
        votes_against: 9,
        created_at: 0,
        resolved_at: Some(1),
        bump: 0,
    }
}

fn resolved_market(outcome: Outcome) -> Market {
    let mut m = market_of(OracleSource::ManualAdmin);
    m.status = MarketStatus::Resolved;
    m.resolved_outcome = Some(outcome);
    m.resolved_at = Some(250);
    m
}

#[test]
fn admin_resolves_to_yes_before_the_end() {
    let mut ctx = resolve_ctx(OracleSource::ManualAdmin, None);
    let event = process_resolve_market(&mut ctx, 7, Outcome::Yes, 150).unwrap();
    assert_eq!(ctx.market.status, MarketStatus::Resolved);
    assert_eq!(ctx.market.resolved_outcome, Some(Outcome::Yes));
    assert_eq!(ctx.market.resolution_price, None);
    assert_eq!(ctx.market.resolved_at, Some(150));
    assert_eq!(event.outcome, Outcome::Yes);
    assert_eq!(event.resolution_price, 0);
    assert_eq!(event.total_collateral, 1098);
    assert_eq!(event.market_id, 7);
    assert_eq!(ctx.market.yes_reserve, 910);
    assert_eq!(ctx.market.no_reserve, 1098);
}

#[test]
fn admin_may_resolve_to_invalid() {
    let mut ctx = resolve_ctx(OracleSource::ManualAdmin, None);
    process_resolve_market(&mut ctx, 7, Outcome::Invalid, 150).unwrap();
    assert_eq!(ctx.market.resolved_outcome, Some(Outcome::Invalid));
}

#[test]
fn price_fed_market_cannot_resolve_before_the_end() {
    let feed = PriceFeed { key: key(9), price: 120_000, publish_time: 299 };
    let mut ctx = resolve_ctx(OracleSource::Pyth, Some(feed));
    let e = process_resolve_market(&mut ctx, 7, Outcome::Yes, 299).unwrap_err();
    assert_eq!(e, PredictError::RoundIncomplete);
    assert_eq!(e.kind(), ErrorKind::Oracle);
    assert_eq!(ctx.market.status, MarketStatus::Active);
    assert_eq!(ctx.market.resolved_outcome, None);
    assert_eq!(ctx.market.resolved_at, None);
}

#[test]
fn price_above_the_threshold_resolves_to_yes() {
    let feed = PriceFeed { key: key(9), price: 100_001, publish_time: 280 };
    let mut ctx = resolve_ctx(OracleSource::Pyth, Some(feed));
    let event = process_resolve_market(&mut ctx, 7, Outcome::No, 300).unwrap();
    assert_eq!(ctx.market.resolved_outcome, Some(Outcome::Yes));
    assert_eq!(ctx.market.resolution_price, Some(100_001));
    assert_eq!(ctx.market.resolved_at, Some(300));
    assert_eq!(event.resolution_price, 100_001);
    assert_eq!(event.outcome, Outcome::Yes);
}

#[test]
fn price_at_the_threshold_resolves_to_no() {
    let feed = PriceFeed { key: key(9), price: 100_000, publish_time: 300 };
    let mut ctx = resolve_ctx(OracleSource::Pyth, Some(feed));
    process_resolve_market(&mut ctx, 7, Outcome::Yes, 300).unwrap();
    assert_eq!(ctx.market.resolved_outcome, Some(Outcome::No));
    assert_eq!(feed_outcome(100_000, 100_000), Outcome::No);
    assert_eq!(feed_outcome(100_001, 100_000), Outcome::Yes);
    assert_eq!(feed_outcome(i64::MIN, i64::MAX), Outcome::No);
}

#[test]
fn price_older_than_sixty_seconds_is_stale() {
    let feed = PriceFeed { key: key(9), price: 120_000, publish_time: 239 };
    let mut ctx = resolve_ctx(OracleSource::Pyth, Some(feed));
    let e = process_resolve_market(&mut ctx, 7, Outcome::Yes, 300).unwrap_err();
    assert_eq!(e, PredictError::OracleStale);
    assert_eq!(e.kind(), ErrorKind::Oracle);
    let feed = PriceFeed { key: key(9), price: 120_000, publish_time: 240 };
    let mut ctx = resolve_ctx(OracleSource::Pyth, Some(feed));
    assert!(process_resolve_market(&mut ctx, 7, Outcome::Yes, 300).is_ok());
}

#[test]
fn price_age_is_measured_without_wrapping() {
    let feed = PriceFeed { key: key(9), price: 120_000, publish_time: i64::MIN };
    let mut ctx = resolve_ctx(OracleSource::Pyth, Some(feed));
    assert_eq!(
        process_resolve_market(&mut ctx, 7, Outcome::Yes, i64::MAX).unwrap_err(),
        PredictError::OracleStale
    );
}

#[test]
fn price_of_another_feed_is_refused() {
    let feed = PriceFeed { key: key(10), price: 120_000, publish_time: 300 };
    let mut ctx = resolve_ctx(OracleSource::Pyth, Some(feed));
    assert_eq!(
        process_resolve_market(&mut ctx, 7, Outcome::Yes, 300).unwrap_err(),
        PredictError::InvalidPythFeed
    );
}

#[test]
fn price_fed_market_without_a_price_is_refused() {
    let mut ctx = resolve_ctx(OracleSource::Pyth, None);
    assert_eq!(
        process_resolve_market(&mut ctx, 7, Outcome::Yes, 300).unwrap_err(),
        PredictError::OracleMismatch
    );
}

#[test]
fn switchboard_markets_cannot_be_resolved() {
    let mut ctx = resolve_ctx(OracleSource::Switchboard, None);
    assert_eq!(
        process_resolve_market(&mut ctx, 7, Outcome::Yes, 300).unwrap_err(),
        PredictError::OracleMismatch
    );
    let mut ctx = resolve_ctx(OracleSource::Switchboard, None);
    assert_eq!(
        process_resolve_market(&mut ctx, 7, Outcome::Yes, 299).unwrap_err(),
        PredictError::RoundIncomplete
    );
    assert_eq!(ctx.market.resolved_outcome, None);
}

#[test]
fn resolved_market_cannot_be_resolved_again() {
    let mut ctx = resolve_ctx(OracleSource::ManualAdmin, None);
    process_resolve_market(&mut ctx, 7, Outcome::Yes, 150).unwrap();
    let e = process_resolve_market(&mut ctx, 7, Outcome::No, 160).unwrap_err();
    assert_eq!(e, PredictError::AlreadyResolved);
    assert_eq!(ctx.market.resolved_outcome, Some(Outcome::Yes));
    assert_eq!(ctx.market.resolved_at, Some(150));
}

#[test]
fn locked_market_can_be_resolved() {
    let mut ctx = resolve_ctx(OracleSource::ManualAdmin, None);
    ctx.market.status = MarketStatus::Locked;
    assert!(process_resolve_market(&mut ctx, 7, Outcome::No, 250).is_ok());
}

#[test]
fn only_the_admin_resolves() {
    let mut ctx = resolve_ctx(OracleSource::ManualAdmin, None);
    ctx.admin = key(42);
    let e = process_resolve_market(&mut ctx, 7, Outcome::Yes, 150).unwrap_err();
    assert_eq!(e, PredictError::Unauthorized);
    assert_eq!(e.kind(), ErrorKind::Authorization);
    assert_eq!(ctx.market.status, MarketStatus::Active);
}

#[test]
fn upheld_dispute_flips_the_outcome_and_returns_the_market_to_resolved() {
    let mut open = OpenDispute {
        market: resolved_market(Outcome::Yes),
        market_key: key(8),
        dispute_record: blank_dispute(),
        dispute_record_bump: 77,
        platform_config: config(),
        disputer: key(2),
    };
    let receipt =
        process_open_dispute(&mut open, 7, String::from("wrong price"), 400).unwrap();
    assert_eq!(receipt.bond, 5_000);
    assert_eq!(receipt.event.bond, 5_000);
    assert_eq!(receipt.event.market_id, 7);
    assert!(receipt.event.disputer.same(&key(2)));
    assert_eq!(open.market.status, MarketStatus::Disputed);
    assert_eq!(open.market.resolved_outcome, Some(Outcome::Yes));
    assert_eq!(open.dispute_record.status, DisputeStatus::Open);
    assert_eq!(open.dispute_record.reason, "wrong price");
    assert_eq!(open.dispute_record.bond_amount, 5_000);
    assert_eq!(open.dispute_record.votes_for, 0);
    assert_eq!(open.dispute_record.votes_against, 0);
    assert_eq!(open.dispute_record.created_at, 400);
    assert_eq!(open.dispute_record.resolved_at, None);
    assert_eq!(open.dispute_record.bump, 77);
    assert!(open.dispute_record.market.same(&key(8)));
    assert!(open.dispute_record.disputer.same(&key(2)));

    let mut settle = SettleDispute {
        market: open.market.clone(),
        dispute_record: open.dispute_record.clone(),
        platform_config: config(),
        admin: key(1),
    };
    let event = process_settle_dispute(&mut settle, 7, Some(Outcome::No), 500).unwrap();
    assert_eq!(settle.market.resolved_outcome, Some(Outcome::No));
    assert_eq!(settle.market.status, MarketStatus::Resolved);
    assert_eq!(settle.dispute_record.status, DisputeStatus::Upheld);
    assert_eq!(settle.dispute_record.resolved_at, Some(500));
    assert!(event.upheld);
    assert_eq!(event.new_outcome, Some(Outcome::No));
    assert_eq!(settle.market.total_collateral, 1098);
}

#[test]
fn rejected_dispute_leaves_the_outcome() {
    let mut record = blank_dispute();
    record.status = DisputeStatus::VotingActive;
    record.resolved_at = None;
    let mut market = resolved_market(Outcome::Yes);
    market.status = MarketStatus::Disputed;
    let mut settle =
        SettleDispute { market, dispute_record: record, platform_config: config(), admin: key(1) };
    let event = process_settle_dispute(&mut settle, 7, None, 500).unwrap();
    assert_eq!(settle.market.resolved_outcome, Some(Outcome::Yes));
    assert_eq!(settle.market.status, MarketStatus::Resolved);
    assert_eq!(settle.dispute_record.status, DisputeStatus::Rejected);
    assert_eq!(settle.dispute_record.resolved_at, Some(500));
    assert!(!event.upheld);
    assert_eq!(event.new_outcome, Some(Outcome::Yes));
}

#[test]
fn dispute_needs_a_resolved_market() {
    let mut open = OpenDispute {
        market: market_of(OracleSource::ManualAdmin),
        market_key: key(8),
        dispute_record: blank_dispute(),
        dispute_record_bump: 77,
        platform_config: config(),
        disputer: key(2),
    };
    let e = process_open_dispute(&mut open, 7, String::from("x"), 400).unwrap_err();
    assert_eq!(e, PredictError::MarketNotResolved);
    assert_eq!(open.market.status, MarketStatus::Active);
    assert_eq!(open.dispute_record.status, DisputeStatus::Rejected);
    assert_eq!(open.dispute_record.votes_for, 9);
}

#[test]
fn settlement_needs_a_disputed_market_a_live_dispute_and_the_admin() {
    let mut record = blank_dispute();
    record.status = DisputeStatus::Open;
    let mut disputed = resolved_market(Outcome::Yes);
    disputed.status = MarketStatus::Disputed;

    let mut ctx = SettleDispute {
        market: resolved_market(Outcome::Yes),
        dispute_record: record.clone(),
        platform_config: config(),
        admin: key(1),
    };
    assert_eq!(
        process_settle_dispute(&mut ctx, 7, Some(Outcome::No), 500).unwrap_err(),
        PredictError::MarketNotActive
    );
    assert_eq!(ctx.market.resolved_outcome, Some(Outcome::Yes));

    let mut settled = record.clone();
    settled.status = DisputeStatus::Upheld;
    let mut ctx = SettleDispute {
        market: disputed.clone(),
        dispute_record: settled,
        platform_config: config(),
        admin: key(1),
    };
    assert_eq!(
        process_settle_dispute(&mut ctx, 7, Some(Outcome::No), 500).unwrap_err(),
        PredictError::AlreadyResolved
    );
    assert_eq!(ctx.market.status, MarketStatus::Disputed);

    let mut ctx = SettleDispute {
        market: disputed,
        dispute_record: record,
        platform_config: config(),
        admin: key(3),
    };
    assert_eq!(
        process_settle_dispute(&mut ctx, 7, Some(Outcome::No), 500).unwrap_err(),
        PredictError::Unauthorized
    );
    assert_eq!(ctx.dispute_record.status, DisputeStatus::Open);
}

#[test]
fn resumed_status_follows_resolution_then_the_clock() {
    let m = market_of(OracleSource::ManualAdmin);
    assert_eq!(recompute_status(&m, 99), MarketStatus::Pending);
    assert_eq!(recompute_status(&m, 100), MarketStatus::Active);
    assert_eq!(recompute_status(&m, 199), MarketStatus::Active);
    assert_eq!(recompute_status(&m, 200), MarketStatus::Locked);
    assert_eq!(recompute_status(&m, 300), MarketStatus::Locked);
    assert_eq!(recompute_status(&m, 301), MarketStatus::Locked);
    let r = resolved_market(Outcome::No);
    assert_eq!(recompute_status(&r, 0), MarketStatus::Resolved);
    assert_eq!(recompute_status(&r, 1000), MarketStatus::Resolved);
}

#[test]
fn pausing_and_resuming_a_market() {
    let mut ctx = ToggleMarketCtx {
        market: market_of(OracleSource::ManualAdmin),
        platform_config: config(),
        admin: key(1),
    };
    pause_market(&mut ctx, 7).unwrap();
    assert_eq!(ctx.market.status, MarketStatus::Paused);
    unpause_market(&mut ctx, 7, 150).unwrap();
    assert_eq!(ctx.market.status, MarketStatus::Active);
    unpause_market(&mut ctx, 7, 150).unwrap();
    assert_eq!(ctx.market.status, MarketStatus::Active);
    pause_market(&mut ctx, 7).unwrap();
    unpause_market(&mut ctx, 7, 250).unwrap();
    assert_eq!(ctx.market.status, MarketStatus::Locked);
    assert_eq!(ctx.market.total_collateral, 1098);
    assert_eq!(ctx.market.yes_reserve, 910);
}

#[test]
fn pausing_is_from_pending_active_or_locked_only() {
    for status in [MarketStatus::Pending, MarketStatus::Active, MarketStatus::Locked] {
        let mut market = market_of(OracleSource::ManualAdmin);
        market.status = status;
        let mut ctx = ToggleMarketCtx { market, platform_config: config(), admin: key(1) };
        pause_market(&mut ctx, 7).unwrap();
        assert_eq!(ctx.market.status, MarketStatus::Paused);
    }
    for status in [
        MarketStatus::Resolving,
        MarketStatus::Resolved,
        MarketStatus::Disputed,
        MarketStatus::Cancelled,
        MarketStatus::Paused,
    ] {
        let mut market = resolved_market(Outcome::Yes);
        market.status = status;
        let mut ctx = ToggleMarketCtx { market, platform_config: config(), admin: key(1) };
        pause_market(&mut ctx, 7).unwrap();
        assert_eq!(ctx.market.status, status);
        assert_eq!(ctx.market.resolved_outcome, Some(Outcome::Yes));
        assert_eq!(ctx.market.total_collateral, 1098);
    }
}

#[test]
fn resuming_touches_a_paused_market_only() {
    let mut disputed = resolved_market(Outcome::Yes);
    disputed.status = MarketStatus::Disputed;
    disputed.start_timestamp = 1000;
    disputed.lock_timestamp = 2000;
    disputed.end_timestamp = 3000;
    let mut ctx = ToggleMarketCtx { market: disputed, platform_config: config(), admin: key(1) };
    unpause_market(&mut ctx, 7, 5000).unwrap();
    assert_eq!(ctx.market.status, MarketStatus::Disputed);

    for status in [
        MarketStatus::Pending,
        MarketStatus::Active,
        MarketStatus::Locked,
        MarketStatus::Resolving,
        MarketStatus::Resolved,
        MarketStatus::Cancelled,
    ] {
        let mut market = market_of(OracleSource::ManualAdmin);
        market.status = status;
        let mut ctx = ToggleMarketCtx { market, platform_config: config(), admin: key(1) };
        unpause_market(&mut ctx, 7, 250).unwrap();
        assert_eq!(ctx.market.status, status);
    }

    let mut paused = resolved_market(Outcome::No);
    paused.status = MarketStatus::Paused;
    let mut ctx = ToggleMarketCtx { market: paused, platform_config: config(), admin: key(1) };
    unpause_market(&mut ctx, 7, 150).unwrap();
    assert_eq!(ctx.market.status, MarketStatus::Resolved);
}

#[test]
fn cancelled_market_is_not_revived_by_a_halt_and_a_resumption() {
    let mut market = market_of(OracleSource::ManualAdmin);
    market.status = MarketStatus::Cancelled;
    let mut ctx = ToggleMarketCtx { market, platform_config: config(), admin: key(1) };
    pause_market(&mut ctx, 7).unwrap();
    unpause_market(&mut ctx, 7, 150).unwrap();
    assert_eq!(ctx.market.status, MarketStatus::Cancelled);
}

#[test]
fn dispute_reason_is_limited_to_256_bytes() {
    let open = || OpenDispute {
        market: resolved_market(Outcome::Yes),
        market_key: key(8),
        dispute_record: blank_dispute(),
        dispute_record_bump: 77,
        platform_config: config(),
        disputer: key(2),
    };
    let mut ctx = open();
    let e = process_open_dispute(&mut ctx, 7, "r".repeat(257), 400).unwrap_err();
    assert_eq!(e, PredictError::ReasonTooLong);
    assert_eq!(e.kind(), ErrorKind::Policy);
    assert_eq!(ctx.market.status, MarketStatus::Resolved);
    assert_eq!(ctx.dispute_record.status, DisputeStatus::Rejected);
    assert_eq!(ctx.dispute_record.reason, "");
    assert_eq!(ctx.dispute_record.bond_amount, 0);

    let mut ctx = open();
    process_open_dispute(&mut ctx, 7, "r".repeat(256), 400).unwrap();
    assert_eq!(ctx.market.status, MarketStatus::Disputed);
    assert_eq!(ctx.dispute_record.reason.len(), 256);

    // the limit is on bytes as stored: 129 two-byte characters are 258 bytes
    let mut ctx = open();
    assert_eq!(
        process_open_dispute(&mut ctx, 7, "\u{e9}".repeat(129), 400).unwrap_err(),
        PredictError::ReasonTooLong
    );
    let mut ctx = open();
    assert!(process_open_dispute(&mut ctx, 7, "\u{e9}".repeat(128), 400).is_ok());

    // an unresolved market is refused for that before its reason is measured
    let mut ctx = open();
    ctx.market.status = MarketStatus::Active;
    assert_eq!(
        process_open_dispute(&mut ctx, 7, "r".repeat(257), 400).unwrap_err(),
        PredictError::MarketNotResolved
    );
}

#[test]
fn pausing_is_for_the_admin_only() {
    let mut ctx = ToggleMarketCtx {
        market: market_of(OracleSource::ManualAdmin),
        platform_config: config(),
        admin: key(2),
    };
    assert_eq!(pause_market(&mut ctx, 7).unwrap_err(), PredictError::Unauthorized);
    assert_eq!(ctx.market.status, MarketStatus::Active);
    ctx.market.status = MarketStatus::Paused;
    assert_eq!(unpause_market(&mut ctx, 7, 150).unwrap_err(), PredictError::Unauthorized);
    assert_eq!(ctx.market.status, MarketStatus::Paused);

    let mut platform = PlatformAdmin { platform_config: config(), admin: key(2) };
    assert_eq!(pause_platform(&mut platform).unwrap_err(), PredictError::Unauthorized);
    assert!(!platform.platform_config.paused);
    platform.platform_config.paused = true;
    assert_eq!(unpause_platform(&mut platform).unwrap_err(), PredictError::Unauthorized);
    assert!(platform.platform_config.paused);
}

#[test]
fn pausing_and_resuming_the_platform() {
    let mut platform = PlatformAdmin { platform_config: config(), admin: key(1) };
    pause_platform(&mut platform).unwrap();
    assert!(platform.platform_config.paused);
    unpause_platform(&mut platform).unwrap();
    assert!(!platform.platform_config.paused);
    assert_eq!(platform.platform_config.fee_bps, 200);
}
