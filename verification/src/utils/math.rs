//! Fees, the constant-product swap and the pro-rata share of a pool.
//!
//! Every product is formed in 128 bits, so no intermediate value wraps.

use vstd::prelude::*;

verus! {

/// The fee on `amount` at `fee_bps` basis points, rounded up.
pub open spec fn fee_amount(amount: nat, fee_bps: nat) -> nat {
    (amount * fee_bps + 9999) / 10000
}

/// What is left on the paying side of a pool once `amount_in` has been added
/// to the other side: the product of the two sides before the trade, divided
/// by the grown side, rounded down.
pub open spec fn pool_after(pool_in: nat, pool_out: nat, amount_in: nat) -> nat {
    (pool_in * pool_out) / (pool_in + amount_in)
}

/// What the paying side of a pool gives up for `amount_in` added to the other.
pub open spec fn swap_output(pool_in: nat, pool_out: nat, amount_in: nat) -> nat {
    (pool_out - pool_after(pool_in, pool_out, amount_in)) as nat
}

/// The part of `collateral` that falls to `shares` out of `supply`, rounded
/// down; nothing where there is no supply.
pub open spec fn pro_rata(shares: nat, collateral: nat, supply: nat) -> nat {
    if supply == 0 {
        0
    } else {
        (shares * collateral) / supply
    }
}

/// The smaller of two numbers.
pub open spec fn min_nat(a: nat, b: nat) -> nat {
    if a <= b {
        a
    } else {
        b
    }
}

/// A product of two 64-bit numbers fits in 128 bits with room to spare.
pub proof fn lemma_product_fits(a: nat, b: nat)
    requires
        a <= u64::MAX,
        b <= u64::MAX,
    ensures
        a * b <= u64::MAX * u64::MAX,
        a * b + u64::MAX <= u128::MAX,
{
    assert(a * b <= u64::MAX * u64::MAX) by (nonlinear_arith)
        requires
            a <= u64::MAX,
            b <= u64::MAX,
    ;
    assert(u64::MAX * u64::MAX + u64::MAX <= u128::MAX) by (nonlinear_arith);
}

/// The fee is the least whole number of units that covers
/// `amount * fee_bps / 10000`.
pub proof fn lemma_fee_is_ceiling(amount: nat, fee_bps: nat)
    ensures
        fee_amount(amount, fee_bps) * 10000 >= amount * fee_bps,
        fee_amount(amount, fee_bps) * 10000 < amount * fee_bps + 10000,
{
    let n = amount * fee_bps + 9999;
    assert(n == 10000 * (n / 10000) + n % 10000 && 0 <= n % 10000 < 10000) by (nonlinear_arith)
        requires
            n >= 0,
    ;
}

/// At no more than a whole, the fee never exceeds the amount; a fee of zero
/// basis points is zero; and any positive rate on a positive amount costs at
/// least one unit.
pub proof fn lemma_fee_bounds(amount: nat, fee_bps: nat)
    ensures
        fee_bps <= 10000 ==> fee_amount(amount, fee_bps) <= amount,
        fee_bps == 0 ==> fee_amount(amount, fee_bps) == 0,
        amount > 0 && fee_bps > 0 ==> fee_amount(amount, fee_bps) >= 1,
{
    lemma_fee_is_ceiling(amount, fee_bps);
    if fee_bps <= 10000 {
        assert(amount * fee_bps <= amount * 10000) by (nonlinear_arith)
            requires
                fee_bps <= 10000,
        ;
    }
    if fee_bps == 0 {
        assert(amount * fee_bps == 0) by (nonlinear_arith)
            requires
                fee_bps == 0,
        ;
    }
    if amount > 0 && fee_bps > 0 {
        assert(amount * fee_bps >= 1) by (nonlinear_arith)
            requires
                amount > 0,
                fee_bps > 0,
        ;
    }
}

/// A trade keeps the product of the two sides, up to the rounding of one
/// division: the product after the trade is at most the product before, and
/// falls short of it by less than the side that grew. Both products are
/// given in either order of their factors.
pub proof fn lemma_swap_keeps_product(pool_in: nat, pool_out: nat, amount_in: nat)
    requires
        pool_in + amount_in > 0,
    ensures
        (pool_in + amount_in) * pool_after(pool_in, pool_out, amount_in) <= pool_in * pool_out,
        pool_in * pool_out < (pool_in + amount_in) * pool_after(pool_in, pool_out, amount_in) + (
        pool_in + amount_in),
        pool_after(pool_in, pool_out, amount_in) <= pool_out,
        amount_in == 0 && pool_in > 0 ==> pool_after(pool_in, pool_out, amount_in) == pool_out,
        pool_out * pool_in == pool_in * pool_out,
        pool_after(pool_in, pool_out, amount_in) * (pool_in + amount_in) == (pool_in + amount_in)
            * pool_after(pool_in, pool_out, amount_in),
{
    let k = pool_in * pool_out;
    let d = pool_in + amount_in;
    let q = k / d;
    assert(pool_out * pool_in == pool_in * pool_out) by (nonlinear_arith);
    assert(q * d == d * q) by (nonlinear_arith);
    assert(k == d * q + k % d && 0 <= k % d < d) by (nonlinear_arith)
        requires
            d > 0,
            k >= 0,
            q == k / d,
    ;
    assert(q <= pool_out) by (nonlinear_arith)
        requires
            d * q <= pool_in * pool_out,
            d >= pool_in,
            d > 0,
            q >= 0,
            pool_out >= 0,
            pool_in >= 0,
    ;
    if amount_in == 0 && pool_in > 0 {
        assert(q == pool_out) by (nonlinear_arith)
            requires
                d == pool_in,
                d > 0,
                d * q <= d * pool_out,
                d * pool_out < d * q + d,
                q <= pool_out,
        ;
    }
}

/// A holder of no more than the whole supply is owed no more than the whole
/// pool.
pub proof fn lemma_pro_rata_bounded(shares: nat, collateral: nat, supply: nat)
    requires
        shares <= supply,
    ensures
        pro_rata(shares, collateral, supply) <= collateral,
{
    if supply > 0 {
        let n = shares * collateral;
        let q = n / supply;
        assert(q <= collateral) by (nonlinear_arith)
            requires
                supply > 0,
                shares <= supply,
                n == shares * collateral,
                q == n / supply,
                collateral >= 0,
                shares >= 0,
        ;
    }
}

/// Splits `amount` into the fee at `fee_bps` basis points, rounded up, and
/// what is left of it. `None` exactly when the fee would exceed the amount.
pub fn split_fee(amount: u64, fee_bps: u16) -> (r: Option<(u64, u64)>)
    ensures
        r.is_some() <==> fee_amount(amount as nat, fee_bps as nat) <= amount,
        r matches Some((fee, net)) ==> fee == fee_amount(amount as nat, fee_bps as nat) && net
            == amount - fee,
{
    proof {
        lemma_product_fits(amount as nat, fee_bps as nat);
    }
    let wide: u128 = (amount as u128) * (fee_bps as u128);
    let fee: u128 = (wide + 9999) / 10000;
    if fee > amount as u128 {
        None
    } else {
        let fee: u64 = fee as u64;
        Some((fee, amount - fee))
    }
}

/// Trades `amount_in` into one side of a pool. Returns what is left on the
/// other side and what that side gave up. `None` exactly when the side that
/// grows would still be empty.
pub fn swap(pool_in: u64, pool_out: u64, amount_in: u64) -> (r: Option<(u64, u64)>)
    ensures
        r.is_some() <==> pool_in + amount_in > 0,
        r matches Some((left, out)) ==> left == pool_after(
            pool_in as nat,
            pool_out as nat,
            amount_in as nat,
        ) && out == swap_output(pool_in as nat, pool_out as nat, amount_in as nat) && left + out
            == pool_out,
{
    proof {
        lemma_product_fits(pool_in as nat, pool_out as nat);
    }
    let k: u128 = (pool_in as u128) * (pool_out as u128);
    let grown: u128 = pool_in as u128 + amount_in as u128;
    if grown == 0 {
        return None;
    }
    proof {
        lemma_swap_keeps_product(pool_in as nat, pool_out as nat, amount_in as nat);
    }
    let left: u128 = k / grown;
    let left: u64 = left as u64;
    Some((left, pool_out - left))
}

/// The shares a bet of `amount` buys from a pool with the given reserves, on
/// the Yes side if `is_yes` and on the No side otherwise.
///
/// A pool with both reserves empty is being seeded and returns `amount`
/// itself. Otherwise the amount joins the opposite reserve and the result is
/// what the bought reserve gives up. `None` exactly when the opposite reserve
/// is empty and the amount is zero.
pub fn calculate_amm_shares(amount: u64, yes_reserves: u64, no_reserves: u64, is_yes: bool) -> (r:
    Option<u64>)
    ensures
        r == amm_shares(amount, yes_reserves, no_reserves, is_yes),
{
    if yes_reserves == 0 && no_reserves == 0 {
        return Some(amount);
    }
    let (pool_in, pool_out) = if is_yes {
        (no_reserves, yes_reserves)
    } else {
        (yes_reserves, no_reserves)
    };
    match swap(pool_in, pool_out, amount) {
        Some((_, out)) => Some(out),
        None => None,
    }
}

/// What `calculate_amm_shares` returns.
pub open spec fn amm_shares(amount: u64, yes_reserves: u64, no_reserves: u64, is_yes: bool)
    -> Option<u64> {
    let pool_in = if is_yes {
        no_reserves
    } else {
        yes_reserves
    };
    let pool_out = if is_yes {
        yes_reserves
    } else {
        no_reserves
    };
    if yes_reserves == 0 && no_reserves == 0 {
        Some(amount)
    } else if pool_in + amount == 0 {
        None
    } else {
        Some(swap_output(pool_in as nat, pool_out as nat, amount as nat) as u64)
    }
}

/// The part of `collateral` that falls to `shares` out of `supply`, rounded
/// down and never more than `cap`. The supply is taken in 128 bits so that
/// the sum of two classes can be passed whole.
pub fn capped_pro_rata(shares: u64, collateral: u64, supply: u128, cap: u64) -> (r: u64)
    ensures
        r == min_nat(pro_rata(shares as nat, collateral as nat, supply as nat), cap as nat),
{
    if supply == 0 {
        return 0;
    }
    proof {
        lemma_product_fits(shares as nat, collateral as nat);
    }
    let owed: u128 = (shares as u128) * (collateral as u128) / supply;
    if owed > cap as u128 {
        cap
    } else {
        owed as u64
    }
}

} // verus!
