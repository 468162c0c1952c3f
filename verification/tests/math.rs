use solana_predict::errors::{ErrorKind, PredictError};
use solana_predict::state::Address;
use solana_predict::utils::math::{calculate_amm_shares, capped_pro_rata, split_fee, swap};

#[test]
fn fee_is_rounded_up() {
    assert_eq!(split_fee(100, 200), Some((2, 98)));
    assert_eq!(split_fee(101, 200), Some((3, 98)));
    assert_eq!(split_fee(1, 200), Some((1, 0)));
    assert_eq!(split_fee(1, 1), Some((1, 0)));
    assert_eq!(split_fee(10_000, 1), Some((1, 9_999)));
    assert_eq!(split_fee(10_001, 1), Some((2, 9_999)));
    assert_eq!(split_fee(0, 1000), Some((0, 0)));
    assert_eq!(split_fee(100, 0), Some((0, 100)));
    assert_eq!(split_fee(100, 10_000), Some((100, 0)));
}

#[test]
fn fee_above_the_amount_is_refused() {
    assert_eq!(split_fee(100, 10_001), None);
    assert_eq!(split_fee(u64::MAX, u16::MAX), None);
    assert_eq!(
        split_fee(u64::MAX, 1000),
        Some((u64::MAX / 10 + 1, u64::MAX - (u64::MAX / 10 + 1)))
    );
}

#[test]
fn swap_follows_the_constant_product() {
    assert_eq!(swap(1000, 1000, 98), Some((910, 90)));
    assert_eq!(swap(1000, 1000, 0), Some((1000, 0)));
    assert_eq!(swap(0, 1000, 5), Some((0, 1000)));
    assert_eq!(swap(5, 0, 5), Some((0, 0)));
    assert_eq!(swap(0, 1000, 0), None);
    assert_eq!(swap(0, 0, 0), None);
    assert_eq!(swap(u64::MAX, u64::MAX, u64::MAX), Some((u64::MAX / 2, u64::MAX - u64::MAX / 2)));
}

#[test]
fn amm_shares_for_yes_and_no() {
    assert_eq!(calculate_amm_shares(98, 1000, 1000, true), Some(90));
    assert_eq!(calculate_amm_shares(98, 1000, 1000, false), Some(90));
    // yes pool 500, no pool 2000: k = 1_000_000
    assert_eq!(calculate_amm_shares(500, 500, 2000, true), Some(500 - 1_000_000 / 2500));
    assert_eq!(calculate_amm_shares(500, 500, 2000, false), Some(2000 - 1_000_000 / 1000));
}

#[test]
fn amm_shares_of_an_empty_pool_are_the_amount() {
    assert_eq!(calculate_amm_shares(77, 0, 0, true), Some(77));
    assert_eq!(calculate_amm_shares(0, 0, 0, false), Some(0));
}

#[test]
fn amm_shares_are_undefined_only_for_nothing_into_an_empty_side() {
    assert_eq!(calculate_amm_shares(0, 5, 0, true), None);
    assert_eq!(calculate_amm_shares(0, 0, 5, false), None);
    assert_eq!(calculate_amm_shares(0, 0, 5, true), Some(0));
    assert_eq!(calculate_amm_shares(1, 5, 0, true), Some(5));
    assert_eq!(calculate_amm_shares(u64::MAX, u64::MAX, u64::MAX, true), Some(u64::MAX - u64::MAX / 2));
}

#[test]
fn pro_rata_share_is_floored_and_capped() {
    assert_eq!(capped_pro_rata(10, 1000, 100, 5000), 100);
    assert_eq!(capped_pro_rata(1, 1000, 3, 5000), 333);
    assert_eq!(capped_pro_rata(10, 1000, 100, 99), 99);
    assert_eq!(capped_pro_rata(10, 1000, 0, 5000), 0);
    assert_eq!(capped_pro_rata(0, 1000, 100, 5000), 0);
    assert_eq!(capped_pro_rata(u64::MAX, u64::MAX, 1, u64::MAX), u64::MAX);
    assert_eq!(capped_pro_rata(u64::MAX, u64::MAX, u64::MAX as u128, u64::MAX), u64::MAX);
    assert_eq!(capped_pro_rata(50, 1000, 200, 1000), 250);
}

#[test]
fn every_error_has_its_family() {
    let policy = [
        PredictError::PlatformPaused,
        PredictError::MarketNotActive,
        PredictError::MarketNotResolved,
        PredictError::BettingClosed,
        PredictError::BelowMinBet,
        PredictError::AboveMaxBet,
        PredictError::InvalidTimestamps,
        PredictError::AlreadyResolved,
        PredictError::NoPosition,
        PredictError::AlreadyClaimed,
        PredictError::DisputeWindowExpired,
        PredictError::DisputeExists,
        PredictError::TitleTooLong,
        PredictError::DescriptionTooLong,
        PredictError::NotRecurring,
        PredictError::FeeExceedsMax,
        PredictError::InsufficientLiquidity,
        PredictError::OutstandingPositions,
        PredictError::MarketNotCloseable,
    ];
    for e in policy {
        assert_eq!(e.kind(), ErrorKind::Policy);
    }
    assert_eq!(PredictError::SlippageExceeded.kind(), ErrorKind::Slippage);
    for e in
        [PredictError::MathOverflow, PredictError::InsufficientShares, PredictError::InsufficientVault]
    {
        assert_eq!(e.kind(), ErrorKind::Arithmetic);
    }
    assert_eq!(PredictError::Unauthorized.kind(), ErrorKind::Authorization);
    for e in [
        PredictError::StaleOracle,
        PredictError::OracleStale,
        PredictError::OracleMismatch,
        PredictError::InvalidPythFeed,
        PredictError::RoundIncomplete,
    ] {
        assert_eq!(e.kind(), ErrorKind::Oracle);
    }
    assert_eq!(PredictError::ReasonTooLong.kind(), ErrorKind::Policy);
    for e in [
        PredictError::InvalidMint,
        PredictError::InvalidOutcome,
        PredictError::InvalidAccountData,
        PredictError::UninitializedAccount,
    ] {
        assert_eq!(e.kind(), ErrorKind::Integrity);
    }
}

#[test]
fn addresses_compare_by_their_bytes() {
    let mut bytes = [7u8; 32];
    let a = Address::new(bytes);
    assert!(a.same(&Address::new([7u8; 32])));
    bytes[31] = 8;
    assert!(!a.same(&Address::new(bytes)));
    bytes[31] = 7;
    bytes[0] = 6;
    assert!(!a.same(&Address::new(bytes)));
    assert_eq!(a.bytes, [7u8; 32]);
}

#[test]
fn errors_say_what_went_wrong() {
    assert_eq!(PredictError::PlatformPaused.message(), "Platform is paused");
    assert_eq!(PredictError::SlippageExceeded.message(), "Slippage exceeded");
    assert_eq!(PredictError::FeeExceedsMax.message(), "Fee exceeds maximum (10%)");
    assert_eq!(PredictError::OracleStale.message(), "Oracle price is stale");
    assert_eq!(PredictError::MathOverflow.message(), "Arithmetic overflow");
    assert_eq!(PredictError::AlreadyClaimed.message(), "Already claimed");
    assert_eq!(PredictError::ReasonTooLong.message(), "Dispute reason too long (max 256)");
    assert_eq!(PredictError::InvalidAccountData.message(), "Account data is not a token account");
    assert_eq!(PredictError::UninitializedAccount.message(), "Token account is not initialized");
}
