//! Selling shares back to a market's pool before betting closes.

use vstd::prelude::*;
use crate::errors::PredictError;
use crate::events::BetCancelled;
use crate::state::address::Address;
use crate::state::market::{Market, MarketStatus, Outcome};
use crate::state::position::UserPosition;
use crate::state::token::{token_account_refusal, MintInfo, RawAccount, TokenAccountInfo};
use crate::utils::math::{fee_amount, lemma_swap_keeps_product, split_fee, swap, swap_output};

verus! {

/// The records a cancellation touches. `user_share_account` is where the
/// shares are burned from, given as stored, undecoded; its class decides
/// which side is sold.
#[derive(Clone, Debug)]
pub struct CancelBet {
    pub market: Market,
    pub yes_mint: MintInfo,
    pub no_mint: MintInfo,
    pub user_position: UserPosition,
    pub user_share_account: RawAccount,
    pub treasury: TokenAccountInfo,
    pub user: Address,
    pub collateral_mint: Address,
}

/// What the caller is to move for an accepted cancellation: `shares_burned`
/// of the class of `outcome` burned from the user, `refund` of collateral
/// from the vault to the user and `fee` from the vault to the treasury.
/// `raw_refund` is the two together, what leaves the market's collateral.
#[derive(Clone, Copy, Debug)]
pub struct CancelReceipt {
    pub outcome: Outcome,
    pub shares_burned: u64,
    pub raw_refund: u64,
    pub refund: u64,
    pub fee: u64,
    pub event: BetCancelled,
}

/// The side a cancellation sells, read off the class of the account the
/// shares are burned from; `None` if its data is no token account or its
/// class is neither of the market's.
pub open spec fn cancel_side(ctx: CancelBet) -> Option<Outcome> {
    match TokenAccountInfo::decoded(ctx.user_share_account.key, ctx.user_share_account.data@) {
        None => None,
        Some(account) => if account.mint == ctx.market.yes_mint {
            Some(Outcome::Yes)
        } else if account.mint == ctx.market.no_mint {
            Some(Outcome::No)
        } else {
            None
        },
    }
}

/// The reserve that takes the returned shares.
pub open spec fn cancel_pool_in(ctx: CancelBet) -> nat {
    if cancel_side(ctx) == Some(Outcome::Yes) {
        ctx.market.yes_reserve as nat
    } else {
        ctx.market.no_reserve as nat
    }
}

/// The reserve that pays the refund.
pub open spec fn cancel_pool_out(ctx: CancelBet) -> nat {
    if cancel_side(ctx) == Some(Outcome::Yes) {
        ctx.market.no_reserve as nat
    } else {
        ctx.market.yes_reserve as nat
    }
}

/// The collateral that `shares_to_burn` are worth, before the exit fee.
pub open spec fn cancel_raw_refund(ctx: CancelBet, shares_to_burn: u64) -> nat {
    swap_output(cancel_pool_in(ctx), cancel_pool_out(ctx), shares_to_burn as nat)
}

/// The exit fee, at the market's rate, rounded up.
pub open spec fn cancel_fee(ctx: CancelBet, shares_to_burn: u64) -> nat {
    fee_amount(cancel_raw_refund(ctx, shares_to_burn), ctx.market.fee_bps as nat)
}

/// The shares the position holds on the side that is sold.
pub open spec fn cancel_held(ctx: CancelBet) -> nat {
    if cancel_side(ctx) == Some(Outcome::Yes) {
        ctx.user_position.yes_shares as nat
    } else {
        ctx.user_position.no_shares as nat
    }
}

/// Why a cancellation is refused, or `None` if it is accepted. The first
/// condition that holds, in this order, decides.
pub open spec fn cancel_bet_refusal(ctx: CancelBet, shares_to_burn: u64, now: i64) -> Option<
    PredictError,
> {
    let m = ctx.market;
    let raw = cancel_raw_refund(ctx, shares_to_burn);
    if ctx.yes_mint.key != m.yes_mint || ctx.no_mint.key != m.no_mint || ctx.treasury.mint
        != ctx.collateral_mint {
        Some(PredictError::InvalidMint)
    } else if m.status != MarketStatus::Active {
        Some(PredictError::MarketNotActive)
    } else if now >= m.lock_timestamp {
        Some(PredictError::BettingClosed)
    } else if token_account_refusal(ctx.user_share_account.data@).is_some() {
        token_account_refusal(ctx.user_share_account.data@)
    } else if cancel_side(ctx).is_none() {
        Some(PredictError::InvalidOutcome)
    } else if cancel_pool_in(ctx) + shares_to_burn == 0 || cancel_pool_in(ctx) + shares_to_burn
        > u64::MAX || raw == 0 || cancel_fee(ctx, shares_to_burn) > raw {
        Some(PredictError::MathOverflow)
    } else if raw > m.total_collateral {
        Some(PredictError::InsufficientVault)
    } else if shares_to_burn > cancel_held(ctx) {
        Some(PredictError::InsufficientShares)
    } else {
        None
    }
}

/// The records after an accepted cancellation: the shares rejoin their side
/// of the pool, the other side and the collateral give up the raw refund, and
/// the position loses the shares and, as far as it goes, the refund from what
/// it has deposited.
pub open spec fn cancel_bet_commit(ctx: CancelBet, shares_to_burn: u64) -> CancelBet {
    let m = ctx.market;
    let p = ctx.user_position;
    let raw = cancel_raw_refund(ctx, shares_to_burn);
    let refund = raw - cancel_fee(ctx, shares_to_burn);
    let yes = cancel_side(ctx) == Some(Outcome::Yes);
    CancelBet {
        market: Market {
            total_collateral: (m.total_collateral - raw) as u64,
            yes_reserve: if yes {
                (m.yes_reserve + shares_to_burn) as u64
            } else {
                (m.yes_reserve - raw) as u64
            },
            no_reserve: if yes {
                (m.no_reserve - raw) as u64
            } else {
                (m.no_reserve + shares_to_burn) as u64
            },
            ..m
        },
        user_position: UserPosition {
            yes_shares: if yes {
                (p.yes_shares - shares_to_burn) as u64
            } else {
                p.yes_shares
            },
            no_shares: if yes {
                p.no_shares
            } else {
                (p.no_shares - shares_to_burn) as u64
            },
            total_deposited: if p.total_deposited >= refund {
                (p.total_deposited - refund) as u64
            } else {
                0
            },
            ..p
        },
        ..ctx
    }
}

/// What an accepted cancellation asks the caller to move and to publish.
pub open spec fn cancel_bet_receipt(ctx: CancelBet, market_id: u64, shares_to_burn: u64)
    -> CancelReceipt {
    let raw = cancel_raw_refund(ctx, shares_to_burn);
    let fee = cancel_fee(ctx, shares_to_burn);
    CancelReceipt {
        outcome: cancel_side(ctx).unwrap(),
        shares_burned: shares_to_burn,
        raw_refund: raw as u64,
        refund: (raw - fee) as u64,
        fee: fee as u64,
        event: BetCancelled {
            market_id,
            user: ctx.user,
            shares_burned: shares_to_burn,
            refund_amount: (raw - fee) as u64,
        },
    }
}

/// Sells `shares_to_burn` back to the pool at time `now`, or refuses.
///
/// An accepted cancellation commits the new market and position and returns
/// what is to be moved. A refused one changes nothing. The product of the
/// reserves after an accepted cancellation is at most the product before and
/// short of it by less than the reserve that grew; the market's collateral
/// shrinks by exactly the raw refund, which the refund and the fee make up.
pub fn process_cancel_bet(ctx: &mut CancelBet, market_id: u64, shares_to_burn: u64, now: i64) -> (r:
    Result<CancelReceipt, PredictError>)
    ensures
        match r {
            Ok(receipt) => {
                &&& cancel_bet_refusal(*old(ctx), shares_to_burn, now).is_none()
                &&& *final(ctx) == cancel_bet_commit(*old(ctx), shares_to_burn)
                &&& receipt == cancel_bet_receipt(*old(ctx), market_id, shares_to_burn)
                &&& final(ctx).market.total_collateral + receipt.raw_refund == old(
                    ctx,
                ).market.total_collateral
                &&& receipt.refund + receipt.fee == receipt.raw_refund
                &&& receipt.raw_refund > 0
                &&& final(ctx).market.k() <= old(ctx).market.k()
                &&& old(ctx).market.k() < final(ctx).market.k() + cancel_pool_in(*old(ctx))
                    + shares_to_burn
            },
            Err(e) => {
                &&& cancel_bet_refusal(*old(ctx), shares_to_burn, now) == Some(e)
                &&& *final(ctx) == *old(ctx)
            },
        },
{
    if ctx.yes_mint.key != ctx.market.yes_mint {
        return Err(PredictError::InvalidMint);
    }
    if ctx.no_mint.key != ctx.market.no_mint {
        return Err(PredictError::InvalidMint);
    }
    if ctx.treasury.mint != ctx.collateral_mint {
        return Err(PredictError::InvalidMint);
    }
    if ctx.market.status != MarketStatus::Active {
        return Err(PredictError::MarketNotActive);
    }
    if now >= ctx.market.lock_timestamp {
        return Err(PredictError::BettingClosed);
    }
    let share_account = match TokenAccountInfo::unpack(
        ctx.user_share_account.key,
        ctx.user_share_account.data.as_slice(),
    ) {
        Ok(account) => account,
        Err(e) => {
            return Err(e);
        },
    };
    let is_yes = if share_account.mint == ctx.market.yes_mint {
        true
    } else if share_account.mint == ctx.market.no_mint {
        false
    } else {
        return Err(PredictError::InvalidOutcome);
    };
    let (pool_in, pool_out) = if is_yes {
        (ctx.market.yes_reserve, ctx.market.no_reserve)
    } else {
        (ctx.market.no_reserve, ctx.market.yes_reserve)
    };
    let (left, raw_refund) = match swap(pool_in, pool_out, shares_to_burn) {
        Some(parts) => parts,
        None => {
            return Err(PredictError::MathOverflow);
        },
    };
    let grown = match pool_in.checked_add(shares_to_burn) {
        Some(v) => v,
        None => {
            return Err(PredictError::MathOverflow);
        },
    };
    if raw_refund == 0 {
        return Err(PredictError::MathOverflow);
    }
    let (fee, refund) = match split_fee(raw_refund, ctx.market.fee_bps) {
        Some(parts) => parts,
        None => {
            return Err(PredictError::MathOverflow);
        },
    };
    let total_collateral = match ctx.market.total_collateral.checked_sub(raw_refund) {
        Some(v) => v,
        None => {
            return Err(PredictError::InsufficientVault);
        },
    };
    let held = if is_yes {
        ctx.user_position.yes_shares
    } else {
        ctx.user_position.no_shares
    };
    let held = match held.checked_sub(shares_to_burn) {
        Some(v) => v,
        None => {
            return Err(PredictError::InsufficientShares);
        },
    };
    let total_deposited = if ctx.user_position.total_deposited >= refund {
        ctx.user_position.total_deposited - refund
    } else {
        0
    };
    proof {
        lemma_swap_keeps_product(pool_in as nat, pool_out as nat, shares_to_burn as nat);
    }
    ctx.market.total_collateral = total_collateral;
    if is_yes {
        ctx.market.yes_reserve = grown;
        ctx.market.no_reserve = left;
        ctx.user_position.yes_shares = held;
    } else {
        ctx.market.no_reserve = grown;
        ctx.market.yes_reserve = left;
        ctx.user_position.no_shares = held;
    }
    ctx.user_position.total_deposited = total_deposited;
    Ok(
        CancelReceipt {
            outcome: if is_yes {
                Outcome::Yes
            } else {
                Outcome::No
            },
            shares_burned: shares_to_burn,
            raw_refund,
            refund,
            fee,
            event: BetCancelled {
                market_id,
                user: ctx.user,
                shares_burned: shares_to_burn,
                refund_amount: refund,
            },
        },
    )
}

} // verus!
