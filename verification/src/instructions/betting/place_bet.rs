//! Buying Yes or No exposure from a market's pool.

use vstd::prelude::*;
use crate::errors::{ErrorKind, PredictError};
use crate::events::BetPlaced;
use crate::state::address::Address;
use crate::state::market::{Market, MarketStatus, Outcome};
use crate::state::platform::PlatformConfig;
use crate::state::position::UserPosition;
use crate::state::token::{token_account_refusal, RawAccount, TokenAccountInfo};
use crate::utils::math::{
    fee_amount, lemma_fee_bounds, lemma_swap_keeps_product, split_fee, swap, swap_output,
};

verus! {

/// The records a bet touches. `user_share_account` is where the bought
/// shares are to be minted, given as stored, undecoded; `treasury` receives
/// the fee.
#[derive(Clone, Debug)]
pub struct PlaceBet {
    pub market: Market,
    pub market_key: Address,
    pub user_position: UserPosition,
    pub user_position_bump: u8,
    pub user_share_account: RawAccount,
    pub platform_config: PlatformConfig,
    pub treasury: TokenAccountInfo,
    pub user: Address,
    pub collateral_mint: Address,
}

/// What the caller is to move for an accepted bet: `net_amount` of collateral
/// from the user into the market's vault, `fee` from the user to the
/// treasury, and `shares` of the bought class minted to the user.
#[derive(Clone, Copy, Debug)]
pub struct BetReceipt {
    pub net_amount: u64,
    pub fee: u64,
    pub shares: u64,
    pub event: BetPlaced,
}

/// The fee charged on a bet of `amount` in `market`.
pub open spec fn bet_fee(market: Market, amount: u64) -> nat {
    fee_amount(amount as nat, market.fee_bps as nat)
}

/// What of a bet of `amount` enters the pool.
pub open spec fn bet_net(market: Market, amount: u64) -> nat {
    (amount - bet_fee(market, amount)) as nat
}

/// The reserve that absorbs the collateral of a bet on `outcome`: the one on
/// the other side.
pub open spec fn bet_pool_in(market: Market, outcome: Outcome) -> nat {
    match outcome {
        Outcome::Yes => market.no_reserve as nat,
        _ => market.yes_reserve as nat,
    }
}

/// The reserve that a bet on `outcome` buys from.
pub open spec fn bet_pool_out(market: Market, outcome: Outcome) -> nat {
    match outcome {
        Outcome::Yes => market.yes_reserve as nat,
        _ => market.no_reserve as nat,
    }
}

/// The shares a bet of `amount` on `outcome` buys.
pub open spec fn bet_shares(market: Market, outcome: Outcome, amount: u64) -> nat {
    swap_output(bet_pool_in(market, outcome), bet_pool_out(market, outcome), bet_net(market, amount))
}

/// The shares of `outcome` a position holds; `Invalid` reads as No.
pub open spec fn held_shares(position: UserPosition, outcome: Outcome) -> nat {
    match outcome {
        Outcome::Yes => position.yes_shares as nat,
        _ => position.no_shares as nat,
    }
}

/// The account the bought shares go to, as its data decodes.
pub open spec fn bet_share_account(ctx: PlaceBet) -> TokenAccountInfo {
    TokenAccountInfo::decoded(ctx.user_share_account.key, ctx.user_share_account.data@).unwrap()
}

/// Why a bet is refused, or `None` if it is accepted. The first condition
/// that holds, in this order, decides.
pub open spec fn place_bet_refusal(
    ctx: PlaceBet,
    outcome: Outcome,
    amount: u64,
    min_shares_out: u64,
    now: i64,
) -> Option<PredictError> {
    let m = ctx.market;
    let net = bet_net(m, amount);
    let shares = bet_shares(m, outcome, amount);
    if ctx.treasury.mint != ctx.collateral_mint {
        Some(PredictError::InvalidMint)
    } else if ctx.platform_config.paused {
        Some(PredictError::PlatformPaused)
    } else if m.status != MarketStatus::Active {
        Some(PredictError::MarketNotActive)
    } else if now >= m.lock_timestamp {
        Some(PredictError::BettingClosed)
    } else if amount < m.min_bet {
        Some(PredictError::BelowMinBet)
    } else if m.max_bet > 0 && amount > m.max_bet {
        Some(PredictError::AboveMaxBet)
    } else if outcome == Outcome::Invalid {
        Some(PredictError::InvalidOutcome)
    } else if token_account_refusal(ctx.user_share_account.data@).is_some() {
        token_account_refusal(ctx.user_share_account.data@)
    } else if bet_share_account(ctx).mint != (if outcome == Outcome::Yes {
        m.yes_mint
    } else {
        m.no_mint
    }) {
        Some(PredictError::InvalidMint)
    } else if bet_share_account(ctx).owner != ctx.user {
        Some(PredictError::Unauthorized)
    } else if bet_fee(m, amount) > amount {
        Some(PredictError::MathOverflow)
    } else if net == 0 {
        Some(PredictError::BelowMinBet)
    } else if shares == 0 {
        Some(PredictError::MathOverflow)
    } else if shares < min_shares_out {
        Some(PredictError::SlippageExceeded)
    } else if m.total_collateral + net > u64::MAX {
        Some(PredictError::MathOverflow)
    } else if bet_pool_in(m, outcome) + net > u64::MAX {
        Some(PredictError::MathOverflow)
    } else if held_shares(ctx.user_position, outcome) + shares > u64::MAX {
        Some(PredictError::MathOverflow)
    } else if ctx.user_position.total_deposited + net > u64::MAX {
        Some(PredictError::MathOverflow)
    } else {
        None
    }
}

/// The market after an accepted bet: the net amount joins the collateral and
/// the reserve opposite the bought side, and the bought side's reserve
/// shrinks by the shares issued.
pub open spec fn market_after_bet(m: Market, outcome: Outcome, amount: u64) -> Market {
    let net = bet_net(m, amount);
    let shares = bet_shares(m, outcome, amount);
    if outcome == Outcome::Yes {
        Market {
            total_collateral: (m.total_collateral + net) as u64,
            yes_reserve: (m.yes_reserve - shares) as u64,
            no_reserve: (m.no_reserve + net) as u64,
            ..m
        }
    } else {
        Market {
            total_collateral: (m.total_collateral + net) as u64,
            no_reserve: (m.no_reserve - shares) as u64,
            yes_reserve: (m.yes_reserve + net) as u64,
            ..m
        }
    }
}

/// The position after an accepted bet.
pub open spec fn position_after_bet(ctx: PlaceBet, outcome: Outcome, amount: u64, now: i64)
    -> UserPosition {
    let p = ctx.user_position;
    let net = bet_net(ctx.market, amount);
    let shares = bet_shares(ctx.market, outcome, amount);
    UserPosition {
        user: ctx.user,
        market: ctx.market_key,
        yes_shares: if outcome == Outcome::Yes {
            (p.yes_shares + shares) as u64
        } else {
            p.yes_shares
        },
        no_shares: if outcome == Outcome::Yes {
            p.no_shares
        } else {
            (p.no_shares + shares) as u64
        },
        total_deposited: (p.total_deposited + net) as u64,
        total_claimed: p.total_claimed,
        last_bet_timestamp: now,
        bump: ctx.user_position_bump,
    }
}

/// The records after an accepted bet.
pub open spec fn place_bet_commit(ctx: PlaceBet, outcome: Outcome, amount: u64, now: i64)
    -> PlaceBet {
    PlaceBet {
        market: market_after_bet(ctx.market, outcome, amount),
        user_position: position_after_bet(ctx, outcome, amount, now),
        ..ctx
    }
}

/// What an accepted bet asks the caller to move and to publish.
pub open spec fn place_bet_receipt(
    ctx: PlaceBet,
    market_id: u64,
    outcome: Outcome,
    amount: u64,
    now: i64,
) -> BetReceipt {
    let after = market_after_bet(ctx.market, outcome, amount);
    BetReceipt {
        net_amount: bet_net(ctx.market, amount) as u64,
        fee: bet_fee(ctx.market, amount) as u64,
        shares: bet_shares(ctx.market, outcome, amount) as u64,
        event: BetPlaced {
            market_id,
            user: ctx.user,
            outcome,
            amount,
            shares: bet_shares(ctx.market, outcome, amount) as u64,
            new_yes_total: after.yes_reserve,
            new_no_total: after.no_reserve,
            timestamp: now,
        },
    }
}

/// Takes a bet of `amount` on `outcome` at time `now`, or refuses it.
///
/// An accepted bet commits the new market and position and returns what is
/// to be moved. A refused bet changes nothing. The product of the reserves
/// after an accepted bet is at most the product before and short of it by
/// less than the reserve that grew; the market's collateral grows by exactly
/// the net amount.
pub fn process_place_bet(
    ctx: &mut PlaceBet,
    market_id: u64,
    outcome: Outcome,
    amount: u64,
    min_shares_out: u64,
    now: i64,
) -> (r: Result<BetReceipt, PredictError>)
    ensures
        match r {
            Ok(receipt) => {
                &&& place_bet_refusal(*old(ctx), outcome, amount, min_shares_out, now).is_none()
                &&& *final(ctx) == place_bet_commit(*old(ctx), outcome, amount, now)
                &&& receipt == place_bet_receipt(*old(ctx), market_id, outcome, amount, now)
                &&& final(ctx).market.total_collateral == old(ctx).market.total_collateral
                    + receipt.net_amount
                &&& receipt.net_amount + receipt.fee == amount
                &&& receipt.shares >= min_shares_out
                &&& receipt.shares > 0
                &&& final(ctx).market.k() <= old(ctx).market.k()
                &&& old(ctx).market.k() < final(ctx).market.k() + bet_pool_in(
                    old(ctx).market,
                    outcome,
                ) + receipt.net_amount
            },
            Err(e) => {
                &&& place_bet_refusal(*old(ctx), outcome, amount, min_shares_out, now) == Some(e)
                &&& *final(ctx) == *old(ctx)
            },
        },
{
    if ctx.treasury.mint != ctx.collateral_mint {
        return Err(PredictError::InvalidMint);
    }
    if ctx.platform_config.paused {
        return Err(PredictError::PlatformPaused);
    }
    if ctx.market.status != MarketStatus::Active {
        return Err(PredictError::MarketNotActive);
    }
    if now >= ctx.market.lock_timestamp {
        return Err(PredictError::BettingClosed);
    }
    if amount < ctx.market.min_bet {
        return Err(PredictError::BelowMinBet);
    }
    if ctx.market.max_bet > 0 && amount > ctx.market.max_bet {
        return Err(PredictError::AboveMaxBet);
    }
    let is_yes = match outcome {
        Outcome::Yes => true,
        Outcome::No => false,
        Outcome::Invalid => {
            return Err(PredictError::InvalidOutcome);
        },
    };
    let target_mint = if is_yes {
        ctx.market.yes_mint
    } else {
        ctx.market.no_mint
    };
    let share_account = match TokenAccountInfo::unpack(
        ctx.user_share_account.key,
        ctx.user_share_account.data.as_slice(),
    ) {
        Ok(account) => account,
        Err(e) => {
            return Err(e);
        },
    };
    if share_account.mint != target_mint {
        return Err(PredictError::InvalidMint);
    }
    if share_account.owner != ctx.user {
        return Err(PredictError::Unauthorized);
    }
    let (fee, net) = match split_fee(amount, ctx.market.fee_bps) {
        Some(parts) => parts,
        None => {
            return Err(PredictError::MathOverflow);
        },
    };
    if net == 0 {
        return Err(PredictError::BelowMinBet);
    }
    let (pool_in, pool_out) = if is_yes {
        (ctx.market.no_reserve, ctx.market.yes_reserve)
    } else {
        (ctx.market.yes_reserve, ctx.market.no_reserve)
    };
    let (left, shares) = match swap(pool_in, pool_out, net) {
        Some(parts) => parts,
        None => {
            return Err(PredictError::MathOverflow);
        },
    };
    if shares == 0 {
        return Err(PredictError::MathOverflow);
    }
    if shares < min_shares_out {
        return Err(PredictError::SlippageExceeded);
    }
    let total_collateral = match ctx.market.total_collateral.checked_add(net) {
        Some(v) => v,
        None => {
            return Err(PredictError::MathOverflow);
        },
    };
    let grown = match pool_in.checked_add(net) {
        Some(v) => v,
        None => {
            return Err(PredictError::MathOverflow);
        },
    };
    let held = if is_yes {
        ctx.user_position.yes_shares
    } else {
        ctx.user_position.no_shares
    };
    let held = match held.checked_add(shares) {
        Some(v) => v,
        None => {
            return Err(PredictError::MathOverflow);
        },
    };
    let total_deposited = match ctx.user_position.total_deposited.checked_add(net) {
        Some(v) => v,
        None => {
            return Err(PredictError::MathOverflow);
        },
    };
    proof {
        lemma_swap_keeps_product(pool_in as nat, pool_out as nat, net as nat);
    }
    ctx.market.total_collateral = total_collateral;
    if is_yes {
        ctx.market.yes_reserve = left;
        ctx.market.no_reserve = grown;
        ctx.user_position.yes_shares = held;
    } else {
        ctx.market.no_reserve = left;
        ctx.market.yes_reserve = grown;
        ctx.user_position.no_shares = held;
    }
    ctx.user_position.user = ctx.user;
    ctx.user_position.market = ctx.market_key;
    ctx.user_position.total_deposited = total_deposited;
    ctx.user_position.last_bet_timestamp = now;
    ctx.user_position.bump = ctx.user_position_bump;
    Ok(
        BetReceipt {
            net_amount: net,
            fee,
            shares,
            event: BetPlaced {
                market_id,
                user: ctx.user,
                outcome,
                amount,
                shares,
                new_yes_total: ctx.market.yes_reserve,
                new_no_total: ctx.market.no_reserve,
                timestamp: now,
            },
        },
    )
}

/// Whether a bet passes every test that comes before the market's bounds on
/// its size: the treasury holds the collateral, the platform runs, the
/// market is active and betting is still open.
pub open spec fn betting_open(ctx: PlaceBet, now: i64) -> bool {
    &&& ctx.treasury.mint == ctx.collateral_mint
    &&& !ctx.platform_config.paused
    &&& ctx.market.status == MarketStatus::Active
    &&& now < ctx.market.lock_timestamp
}

/// The bounds on a bet's size are matters of policy. While betting is open,
/// a bet below the market's minimum is refused as below the minimum; a bet
/// of the minimum or more is never refused on that ground unless its fee
/// leaves nothing to enter the pool; and a bet on Yes or No, into the
/// user's own token account of that class, whose fee leaves nothing is refused as
/// below the minimum too, not as an arithmetic fault. On a well-formed
/// market the fee never exceeds the bet.
pub proof fn lemma_bet_bounds_are_policy(
    ctx: PlaceBet,
    outcome: Outcome,
    amount: u64,
    min_shares_out: u64,
    now: i64,
)
    requires
        ctx.market.wf(),
        betting_open(ctx, now),
    ensures
        PredictError::BelowMinBet.kind_spec() == ErrorKind::Policy,
        PredictError::AboveMaxBet.kind_spec() == ErrorKind::Policy,
        bet_fee(ctx.market, amount) <= amount,
        amount < ctx.market.min_bet ==> place_bet_refusal(ctx, outcome, amount, min_shares_out, now)
            == Some(PredictError::BelowMinBet),
        amount >= ctx.market.min_bet && bet_net(ctx.market, amount) > 0 ==> place_bet_refusal(
            ctx,
            outcome,
            amount,
            min_shares_out,
            now,
        ) != Some(PredictError::BelowMinBet),
        amount >= ctx.market.min_bet && ctx.market.max_bet > 0 && amount > ctx.market.max_bet
            ==> place_bet_refusal(ctx, outcome, amount, min_shares_out, now) == Some(
            PredictError::AboveMaxBet,
        ),
        ({
            let target = if outcome == Outcome::Yes {
                ctx.market.yes_mint
            } else {
                ctx.market.no_mint
            };
            amount >= ctx.market.min_bet && (ctx.market.max_bet == 0 || amount
                <= ctx.market.max_bet) && outcome != Outcome::Invalid
                && token_account_refusal(ctx.user_share_account.data@).is_none()
                && bet_share_account(ctx).mint == target && bet_share_account(ctx).owner
                == ctx.user && bet_net(ctx.market, amount) == 0 ==> place_bet_refusal(
                ctx,
                outcome,
                amount,
                min_shares_out,
                now,
            ) == Some(PredictError::BelowMinBet)
        }),
{
    lemma_fee_bounds(amount as nat, ctx.market.fee_bps as nat);
}

} // verus!
