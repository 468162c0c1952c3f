//! Collecting a position's share of a resolved market's collateral.

use vstd::prelude::*;
use crate::errors::PredictError;
use crate::events::PayoutClaimed;
use crate::state::address::Address;
use crate::state::market::{Market, MarketStatus, Outcome};
use crate::state::position::UserPosition;
use crate::state::token::{token_account_refusal, MintInfo, RawAccount, TokenAccountInfo};
use crate::utils::math::{capped_pro_rata, min_nat, pro_rata};

verus! {

/// The records a claim touches. `user_share_account` holds the shares that
/// are redeemed, given as stored, undecoded; the two mints report the shares outstanding; `vault` holds
/// the market's collateral.
#[derive(Clone, Debug)]
pub struct ClaimPayout {
    pub market: Market,
    pub yes_mint: MintInfo,
    pub no_mint: MintInfo,
    pub vault: TokenAccountInfo,
    pub user_position: UserPosition,
    pub user_share_account: RawAccount,
    pub user: Address,
}

/// What the caller is to move for an accepted claim: `shares_burned` of the
/// class of `burn_class` burned from the user, and `payout` of collateral
/// from the vault to the user.
#[derive(Clone, Copy, Debug)]
pub struct ClaimReceipt {
    pub burn_class: Outcome,
    pub shares_burned: u64,
    pub payout: u64,
    pub event: PayoutClaimed,
}

/// The account the redeemed shares are held in, as its data decodes.
pub open spec fn claim_share_account(ctx: ClaimPayout) -> TokenAccountInfo {
    TokenAccountInfo::decoded(ctx.user_share_account.key, ctx.user_share_account.data@).unwrap()
}

/// Whether the redeemed shares are of a class the outcome pays: the winning
/// class, or either class if the outcome is `Invalid`.
pub open spec fn claim_class_pays(ctx: ClaimPayout, outcome: Outcome) -> bool {
    let mint = claim_share_account(ctx).mint;
    match outcome {
        Outcome::Yes => mint == ctx.market.yes_mint,
        Outcome::No => mint == ctx.market.no_mint,
        Outcome::Invalid => mint == ctx.market.yes_mint || mint == ctx.market.no_mint,
    }
}

/// The shares a claim is measured against: those outstanding of the winning
/// class, or of both classes together if the outcome is `Invalid`.
pub open spec fn winning_supply(ctx: ClaimPayout, outcome: Outcome) -> nat {
    match outcome {
        Outcome::Yes => ctx.yes_mint.supply as nat,
        Outcome::No => ctx.no_mint.supply as nat,
        Outcome::Invalid => (ctx.yes_mint.supply + ctx.no_mint.supply) as nat,
    }
}

/// The payout of a claim: the redeemed shares' part of the market's
/// collateral, rounded down, and never more than the vault holds.
pub open spec fn claim_amount(ctx: ClaimPayout, outcome: Outcome) -> nat {
    min_nat(
        pro_rata(
            claim_share_account(ctx).amount as nat,
            ctx.market.total_collateral as nat,
            winning_supply(ctx, outcome),
        ),
        ctx.vault.amount as nat,
    )
}

/// Why a claim is refused, or `None` if it is accepted. The first condition
/// that holds, in this order, decides.
pub open spec fn claim_payout_refusal(ctx: ClaimPayout) -> Option<PredictError> {
    let m = ctx.market;
    if ctx.yes_mint.key != m.yes_mint || ctx.no_mint.key != m.no_mint {
        Some(PredictError::InvalidMint)
    } else if m.status != MarketStatus::Resolved || m.resolved_outcome.is_none() {
        Some(PredictError::MarketNotResolved)
    } else if ctx.user_position.claimed() {
        Some(PredictError::AlreadyClaimed)
    } else if token_account_refusal(ctx.user_share_account.data@).is_some() {
        token_account_refusal(ctx.user_share_account.data@)
    } else if !claim_class_pays(ctx, m.resolved_outcome.unwrap()) {
        Some(PredictError::InvalidOutcome)
    } else if claim_share_account(ctx).amount == 0 {
        Some(PredictError::NoPosition)
    } else if claim_amount(ctx, m.resolved_outcome.unwrap()) == 0 {
        Some(PredictError::NoPosition)
    } else if claim_amount(ctx, m.resolved_outcome.unwrap()) > m.total_collateral {
        Some(PredictError::InsufficientVault)
    } else {
        None
    }
}

/// The records after an accepted claim: the payout leaves the market's
/// collateral and is recorded on the position. The reserves stay as they are.
pub open spec fn claim_payout_commit(ctx: ClaimPayout) -> ClaimPayout {
    let payout = claim_amount(ctx, ctx.market.resolved_outcome.unwrap());
    ClaimPayout {
        market: Market {
            total_collateral: (ctx.market.total_collateral - payout) as u64,
            ..ctx.market
        },
        user_position: UserPosition { total_claimed: payout as u64, ..ctx.user_position },
        ..ctx
    }
}

/// What an accepted claim asks the caller to move and to publish.
pub open spec fn claim_payout_receipt(ctx: ClaimPayout, market_id: u64) -> ClaimReceipt {
    let payout = claim_amount(ctx, ctx.market.resolved_outcome.unwrap());
    ClaimReceipt {
        burn_class: if claim_share_account(ctx).mint == ctx.market.yes_mint {
            Outcome::Yes
        } else {
            Outcome::No
        },
        shares_burned: claim_share_account(ctx).amount,
        payout: payout as u64,
        event: PayoutClaimed {
            market_id,
            user: ctx.user,
            amount: payout as u64,
            shares_burned: claim_share_account(ctx).amount,
        },
    }
}

/// Pays out a position on a resolved market, once, or refuses.
///
/// An accepted claim commits the new market and position and returns what is
/// to be moved. A refused one changes nothing. A position that has claimed is
/// refused whatever else holds of a resolved market.
pub fn process_claim_payout(ctx: &mut ClaimPayout, market_id: u64) -> (r: Result<
    ClaimReceipt,
    PredictError,
>)
    ensures
        match r {
            Ok(receipt) => {
                &&& claim_payout_refusal(*old(ctx)).is_none()
                &&& *final(ctx) == claim_payout_commit(*old(ctx))
                &&& receipt == claim_payout_receipt(*old(ctx), market_id)
                &&& receipt.payout > 0
                &&& receipt.payout <= old(ctx).vault.amount
                &&& final(ctx).market.total_collateral + receipt.payout == old(
                    ctx,
                ).market.total_collateral
                &&& final(ctx).user_position.total_claimed == receipt.payout
                &&& final(ctx).user_position.claimed()
            },
            Err(e) => {
                &&& claim_payout_refusal(*old(ctx)) == Some(e)
                &&& *final(ctx) == *old(ctx)
            },
        },
{
    if ctx.yes_mint.key != ctx.market.yes_mint {
        return Err(PredictError::InvalidMint);
    }
    if ctx.no_mint.key != ctx.market.no_mint {
        return Err(PredictError::InvalidMint);
    }
    if ctx.market.status != MarketStatus::Resolved {
        return Err(PredictError::MarketNotResolved);
    }
    let outcome = match ctx.market.resolved_outcome {
        Some(o) => o,
        None => {
            return Err(PredictError::MarketNotResolved);
        },
    };
    if ctx.user_position.total_claimed != 0 {
        return Err(PredictError::AlreadyClaimed);
    }
    let share_account = match TokenAccountInfo::unpack(
        ctx.user_share_account.key,
        ctx.user_share_account.data.as_slice(),
    ) {
        Ok(account) => account,
        Err(e) => {
            return Err(e);
        },
    };
    let holds_yes = share_account.mint == ctx.market.yes_mint;
    let holds_no = share_account.mint == ctx.market.no_mint;
    let pays = match outcome {
        Outcome::Yes => holds_yes,
        Outcome::No => holds_no,
        Outcome::Invalid => holds_yes || holds_no,
    };
    if !pays {
        return Err(PredictError::InvalidOutcome);
    }
    let shares = share_account.amount;
    if shares == 0 {
        return Err(PredictError::NoPosition);
    }
    let supply: u128 = match outcome {
        Outcome::Yes => ctx.yes_mint.supply as u128,
        Outcome::No => ctx.no_mint.supply as u128,
        Outcome::Invalid => ctx.yes_mint.supply as u128 + ctx.no_mint.supply as u128,
    };
    let payout = capped_pro_rata(shares, ctx.market.total_collateral, supply, ctx.vault.amount);
    if payout == 0 {
        return Err(PredictError::NoPosition);
    }
    let total_collateral = match ctx.market.total_collateral.checked_sub(payout) {
        Some(v) => v,
        None => {
            return Err(PredictError::InsufficientVault);
        },
    };
    ctx.market.total_collateral = total_collateral;
    ctx.user_position.total_claimed = payout;
    Ok(
        ClaimReceipt {
            burn_class: if holds_yes {
                Outcome::Yes
            } else {
                Outcome::No
            },
            shares_burned: shares,
            payout,
            event: PayoutClaimed { market_id, user: ctx.user, amount: payout, shares_burned: shares },
        },
    )
}

/// A position is paid at most once: after an accepted claim, any further
/// claim for that position on that market is refused as already claimed,
/// whatever the supplies, the vault and the share account then hold.
pub proof fn lemma_claim_is_once(first: ClaimPayout, second: ClaimPayout)
    requires
        claim_payout_refusal(first).is_none(),
        second.market == claim_payout_commit(first).market,
        second.user_position == claim_payout_commit(first).user_position,
        second.yes_mint.key == first.yes_mint.key,
        second.no_mint.key == first.no_mint.key,
    ensures
        claim_payout_refusal(second) == Some(PredictError::AlreadyClaimed),
{
}

} // verus!
