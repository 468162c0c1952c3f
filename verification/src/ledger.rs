//! What holds of a market over any run of accepted operations.
//!
//! A run is a sequence of steps, each an operation with the records and
//! inputs it was called on, where every step is accepted and starts from the
//! market the step before it left.

use vstd::prelude::*;
use crate::instructions::admin::pause::{market_after_pause, market_after_resume};
use crate::instructions::betting::cancel_bet::{
    cancel_bet_commit, cancel_bet_refusal, cancel_pool_in, cancel_pool_out, cancel_raw_refund,
    CancelBet,
};
use crate::instructions::betting::claim_payout::{
    claim_amount, claim_payout_commit, claim_payout_refusal, claim_share_account, winning_supply,
    ClaimPayout,
};
use crate::instructions::betting::place_bet::{
    bet_net, bet_pool_in, bet_pool_out, place_bet_commit, place_bet_refusal, PlaceBet,
};
use crate::instructions::dispute::open_dispute::{open_dispute_commit, open_dispute_refusal, OpenDispute};
use crate::instructions::dispute::settle_dispute::{
    settle_dispute_commit, settle_dispute_refusal, SettleDispute,
};
use crate::instructions::oracle::resolve_market::{
    resolve_market_commit, resolve_market_refusal, ResolveMarket,
};
use crate::state::market::{Market, MarketStatus, Outcome};
use crate::utils::math::{lemma_swap_keeps_product, pro_rata};

verus! {

/// One operation on a market, with what it was called on.
pub enum Step {
    Bet { ctx: PlaceBet, outcome: Outcome, amount: u64, min_shares_out: u64, now: i64 },
    Cancel { ctx: CancelBet, shares_to_burn: u64, now: i64 },
    Claim { ctx: ClaimPayout },
    Resolve { ctx: ResolveMarket, outcome: Outcome, now: i64 },
    Dispute { ctx: OpenDispute, reason: String, now: i64 },
    Settle { ctx: SettleDispute, result_outcome: Option<Outcome>, now: i64 },
    /// A halt asked for by the administrator.
    Pause { market: Market },
    /// A resumption asked for by the administrator.
    Resume { market: Market, now: i64 },
}

/// Whether the operation is accepted.
pub open spec fn accepted(step: Step) -> bool {
    match step {
        Step::Bet { ctx, outcome, amount, min_shares_out, now } => place_bet_refusal(
            ctx,
            outcome,
            amount,
            min_shares_out,
            now,
        ).is_none(),
        Step::Cancel { ctx, shares_to_burn, now } => cancel_bet_refusal(
            ctx,
            shares_to_burn,
            now,
        ).is_none(),
        Step::Claim { ctx } => claim_payout_refusal(ctx).is_none(),
        Step::Resolve { ctx, outcome, now } => resolve_market_refusal(ctx, now).is_none(),
        Step::Dispute { ctx, reason, now } => open_dispute_refusal(ctx, reason).is_none(),
        Step::Settle { ctx, result_outcome, now } => settle_dispute_refusal(ctx).is_none(),
        Step::Pause { market } => true,
        Step::Resume { market, now } => true,
    }
}

/// The market the operation starts from.
pub open spec fn market_before(step: Step) -> Market {
    match step {
        Step::Bet { ctx, outcome, amount, min_shares_out, now } => ctx.market,
        Step::Cancel { ctx, shares_to_burn, now } => ctx.market,
        Step::Claim { ctx } => ctx.market,
        Step::Resolve { ctx, outcome, now } => ctx.market,
        Step::Dispute { ctx, reason, now } => ctx.market,
        Step::Settle { ctx, result_outcome, now } => ctx.market,
        Step::Pause { market } => market,
        Step::Resume { market, now } => market,
    }
}

/// The market the operation, if accepted, leaves.
pub open spec fn market_after(step: Step) -> Market {
    match step {
        Step::Bet { ctx, outcome, amount, min_shares_out, now } => place_bet_commit(
            ctx,
            outcome,
            amount,
            now,
        ).market,
        Step::Cancel { ctx, shares_to_burn, now } => cancel_bet_commit(ctx, shares_to_burn).market,
        Step::Claim { ctx } => claim_payout_commit(ctx).market,
        Step::Resolve { ctx, outcome, now } => resolve_market_commit(ctx, outcome, now).market,
        Step::Dispute { ctx, reason, now } => open_dispute_commit(ctx, reason, now).market,
        Step::Settle { ctx, result_outcome, now } => settle_dispute_commit(
            ctx,
            result_outcome,
            now,
        ).market,
        Step::Pause { market } => market_after_pause(market),
        Step::Resume { market, now } => market_after_resume(market, now),
    }
}

/// The collateral the operation brings into the market: a bet's net amount.
pub open spec fn deposit_of(step: Step) -> nat {
    match step {
        Step::Bet { ctx, outcome, amount, min_shares_out, now } => bet_net(ctx.market, amount),
        _ => 0,
    }
}

/// The collateral the operation returns for cancelled shares, exit fee
/// included.
pub open spec fn refund_of(step: Step) -> nat {
    match step {
        Step::Cancel { ctx, shares_to_burn, now } => cancel_raw_refund(ctx, shares_to_burn),
        _ => 0,
    }
}

/// The collateral the operation pays out on a claim.
pub open spec fn payout_of(step: Step) -> nat {
    match step {
        Step::Claim { ctx } => claim_amount(ctx, ctx.market.resolved_outcome.unwrap()),
        _ => 0,
    }
}

/// The side of the pool that a trade adds to, after the trade; zero for an
/// operation that is no trade.
pub open spec fn grown_side(step: Step) -> nat {
    match step {
        Step::Bet { ctx, outcome, amount, min_shares_out, now } => bet_pool_in(ctx.market, outcome)
            + bet_net(ctx.market, amount),
        Step::Cancel { ctx, shares_to_burn, now } => cancel_pool_in(ctx) + shares_to_burn as nat,
        _ => 0,
    }
}

/// Whether `steps` is a run: every step accepted, each starting from the
/// market its predecessor left.
pub open spec fn is_run(steps: Seq<Step>) -> bool
    decreases steps.len(),
{
    if steps.len() == 0 {
        true
    } else {
        &&& is_run(steps.drop_last())
        &&& accepted(steps.last())
        &&& steps.len() >= 2 ==> market_before(steps.last()) == market_after(
            steps[steps.len() - 2],
        )
    }
}

/// All net deposits of a run.
pub open spec fn deposits(steps: Seq<Step>) -> nat
    decreases steps.len(),
{
    if steps.len() == 0 {
        0
    } else {
        deposits(steps.drop_last()) + deposit_of(steps.last())
    }
}

/// All refunds of a run.
pub open spec fn refunds(steps: Seq<Step>) -> nat
    decreases steps.len(),
{
    if steps.len() == 0 {
        0
    } else {
        refunds(steps.drop_last()) + refund_of(steps.last())
    }
}

/// All payouts of a run.
pub open spec fn payouts(steps: Seq<Step>) -> nat
    decreases steps.len(),
{
    if steps.len() == 0 {
        0
    } else {
        payouts(steps.drop_last()) + payout_of(steps.last())
    }
}

/// An accepted operation changes the market's collateral by exactly what it
/// takes in, returns and pays out.
pub proof fn lemma_step_moves_collateral(step: Step)
    requires
        accepted(step),
    ensures
        market_after(step).total_collateral == market_before(step).total_collateral + deposit_of(
            step,
        ) - refund_of(step) - payout_of(step),
{
}

/// An accepted trade keeps the product of the reserves up to the rounding of
/// one division: the product after is at most the product before and short
/// of it by less than the side that grew. Every other accepted operation
/// leaves both reserves as they are.
pub proof fn lemma_step_keeps_product(step: Step)
    requires
        accepted(step),
    ensures
        market_after(step).k() <= market_before(step).k(),
        (step is Bet || step is Cancel) ==> market_before(step).k() < market_after(step).k()
            + grown_side(step),
        !(step is Bet || step is Cancel) ==> market_after(step).yes_reserve == market_before(
            step,
        ).yes_reserve && market_after(step).no_reserve == market_before(step).no_reserve,
{
    match step {
        Step::Bet { ctx, outcome, amount, min_shares_out, now } => {
            lemma_swap_keeps_product(
                bet_pool_in(ctx.market, outcome),
                bet_pool_out(ctx.market, outcome),
                bet_net(ctx.market, amount),
            );
        },
        Step::Cancel { ctx, shares_to_burn, now } => {
            lemma_swap_keeps_product(
                cancel_pool_in(ctx),
                cancel_pool_out(ctx),
                shares_to_burn as nat,
            );
        },
        _ => {},
    }
}

/// Conservation: after any run, the market's collateral is what it was
/// before the run, plus all net deposits, minus all refunds, minus all
/// payouts. Being an unsigned number, it is never negative.
pub proof fn lemma_collateral_is_conserved(steps: Seq<Step>)
    requires
        steps.len() > 0,
        is_run(steps),
    ensures
        market_after(steps.last()).total_collateral == market_before(steps[0]).total_collateral
            + deposits(steps) - refunds(steps) - payouts(steps),
        market_after(steps.last()).total_collateral >= 0,
    decreases steps.len(),
{
    lemma_step_moves_collateral(steps.last());
    let init = steps.drop_last();
    if steps.len() == 1 {
        assert(init.len() == 0);
        assert(deposits(init) == 0 && refunds(init) == 0 && payouts(init) == 0);
    } else {
        assert(init.last() == steps[steps.len() - 2]);
        assert(init[0] == steps[0]);
        lemma_collateral_is_conserved(init);
    }
}

/// Over any run, the product of the reserves never grows.
pub proof fn lemma_product_never_grows(steps: Seq<Step>)
    requires
        steps.len() > 0,
        is_run(steps),
    ensures
        market_after(steps.last()).k() <= market_before(steps[0]).k(),
    decreases steps.len(),
{
    lemma_step_keeps_product(steps.last());
    let init = steps.drop_last();
    if steps.len() > 1 {
        assert(init.last() == steps[steps.len() - 2]);
        assert(init[0] == steps[0]);
        lemma_product_never_grows(init);
    }
}

/// Whether every step of `steps` is a claim.
pub open spec fn all_claims(steps: Seq<Step>) -> bool {
    forall|i: int| 0 <= i < steps.len() ==> (#[trigger] steps[i]) is Claim
}

/// A run of claims takes nothing in and refunds nothing.
pub proof fn lemma_claims_only_pay(steps: Seq<Step>)
    requires
        all_claims(steps),
    ensures
        deposits(steps) == 0,
        refunds(steps) == 0,
    decreases steps.len(),
{
    if steps.len() > 0 {
        assert(steps[steps.len() - 1] is Claim);
        lemma_claims_only_pay(steps.drop_last());
    }
}

/// In whatever order claims are made, all payouts of a run of claims
/// together are at most the collateral the market held before the first.
pub proof fn lemma_payouts_never_exceed_pool(steps: Seq<Step>)
    requires
        steps.len() > 0,
        is_run(steps),
        all_claims(steps),
    ensures
        payouts(steps) <= market_before(steps[0]).total_collateral,
{
    lemma_claims_only_pay(steps);
    lemma_collateral_is_conserved(steps);
}

/// Each claim is paid at the rate of the moment: the claimant's shares times
/// the collateral the market holds when the claim is made, divided by the
/// winning supply outstanding then, rounded down; or the whole vault, if the
/// vault holds less.
pub proof fn lemma_claim_is_paid_at_current_rate(ctx: ClaimPayout)
    requires
        claim_payout_refusal(ctx).is_none(),
    ensures
        ({
            let owed = pro_rata(
                claim_share_account(ctx).amount as nat,
                ctx.market.total_collateral as nat,
                winning_supply(ctx, ctx.market.resolved_outcome.unwrap()),
            );
            &&& owed <= ctx.vault.amount ==> payout_of(Step::Claim { ctx }) == owed
            &&& owed > ctx.vault.amount ==> payout_of(Step::Claim { ctx }) == ctx.vault.amount
        }),
{
}

/// An accepted operation leaves a well-formed market well formed.
pub proof fn lemma_step_keeps_market_wf(step: Step)
    requires
        accepted(step),
        market_before(step).wf(),
    ensures
        market_after(step).wf(),
{
}

/// The life of a market: bets, cancellations and claims leave its status as
/// it is, and are accepted only on an active market (bets, cancellations) or
/// a resolved one (claims); a resolution takes an active or locked market to
/// `Resolved`; a dispute takes a resolved market to `Disputed`; a settlement
/// takes a disputed market back to `Resolved`; a halt takes a pending,
/// active or locked market to `Paused` and changes no other; a resumption
/// changes a paused market only.
pub proof fn lemma_step_follows_lifecycle(step: Step)
    requires
        accepted(step),
    ensures
        (step is Bet || step is Cancel) ==> market_before(step).status == MarketStatus::Active
            && market_after(step).status == MarketStatus::Active,
        step is Claim ==> market_before(step).status == MarketStatus::Resolved && market_after(
            step,
        ).status == MarketStatus::Resolved,
        step is Resolve ==> (market_before(step).status == MarketStatus::Active || market_before(
            step,
        ).status == MarketStatus::Locked) && market_after(step).status == MarketStatus::Resolved
            && market_after(step).resolved_outcome.is_some(),
        step is Dispute ==> market_before(step).status == MarketStatus::Resolved && market_after(
            step,
        ).status == MarketStatus::Disputed,
        step is Settle ==> market_before(step).status == MarketStatus::Disputed && market_after(
            step,
        ).status == MarketStatus::Resolved,
        step is Pause ==> (market_after(step).status == MarketStatus::Paused <==> (
        market_before(step).status == MarketStatus::Pending || market_before(step).status
            == MarketStatus::Active || market_before(step).status == MarketStatus::Locked
            || market_before(step).status == MarketStatus::Paused)),
        step is Pause && market_after(step).status != MarketStatus::Paused ==> market_after(step)
            == market_before(step),
        step is Resume && market_before(step).status != MarketStatus::Paused ==> market_after(step)
            == market_before(step),
        step is Resume ==> market_after(step).status != MarketStatus::Paused,
{
}

/// A dispute is left only by settling it, and a cancelled market is never
/// revived: whatever accepted operation starts from a disputed market leaves
/// it disputed unless it is a settlement, and whatever starts from a
/// cancelled market leaves it cancelled.
pub proof fn lemma_only_settlement_ends_a_dispute(step: Step)
    requires
        accepted(step),
    ensures
        market_before(step).status == MarketStatus::Disputed && !(step is Settle) ==> market_after(
            step,
        ).status == MarketStatus::Disputed,
        market_before(step).status == MarketStatus::Cancelled ==> market_after(step).status
            == MarketStatus::Cancelled,
{
}

} // verus!
