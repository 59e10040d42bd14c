//! Payout calculator: pro-rata pari-mutuel rewards. The fee is skimmed
//! from the losing pool only; a winner gets their principal back plus a
//! share of the net losing pool proportional to their share of the winning
//! pool. All intermediate products are taken in 128 bits, and a result
//! that does not fit the native 64-bit balance width is an error, never a
//! silent truncation.

use vstd::prelude::*;

use vstd::arithmetic::div_mod::lemma_div_of0;
use vstd::arithmetic::div_mod::lemma_div_pos_is_pos;
use vstd::arithmetic::div_mod::lemma_fundamental_div_mod;
use vstd::arithmetic::div_mod::lemma_mod_pos_bound;
use vstd::arithmetic::div_mod::lemma_multiply_divide_le;
use vstd::arithmetic::mul::lemma_mul_inequality;
use vstd::arithmetic::mul::lemma_mul_is_commutative;
use vstd::arithmetic::mul::lemma_mul_is_distributive_add_other_way;
use vstd::arithmetic::mul::lemma_mul_nonnegative;
use vstd::arithmetic::mul::lemma_mul_upper_bound;

use crate::errors::SoliseumError;

verus! {

/// The share of the losing pool left after the fee, in basis points. A fee
/// above the denominator leaves nothing: the subtraction saturates at zero
/// rather than wrapping.
pub open spec fn net_bps(fee_bps: u16) -> int {
    if fee_bps <= 10_000 {
        10_000 - fee_bps
    } else {
        0
    }
}

/// The losing pool net of the fee: `loser_pool * (10000 - fee_bps) / 10000`,
/// truncated.
pub open spec fn spec_net_loser_pool(loser_pool: u64, fee_bps: u16) -> int {
    loser_pool * net_bps(fee_bps) / 10_000
}

/// The exact payout owed to one winning stake: principal plus the truncated
/// pro-rata share of the net losing pool.
pub open spec fn spec_payout(stake_amount: u64, winner_pool: u64, loser_pool: u64, fee_bps: u16) -> int
    recommends
        winner_pool > 0,
{
    stake_amount + stake_amount * spec_net_loser_pool(loser_pool, fee_bps) / (winner_pool as int)
}

/// The net losing pool is between zero and the losing pool itself.
pub proof fn lemma_net_loser_pool_bounds(loser_pool: u64, fee_bps: u16)
    ensures
        0 <= spec_net_loser_pool(loser_pool, fee_bps) <= loser_pool,
{
    let nb = net_bps(fee_bps);
    lemma_mul_nonnegative(loser_pool as int, nb);
    lemma_div_pos_is_pos(loser_pool * nb, 10_000);
    lemma_mul_inequality(nb, 10_000, loser_pool as int);
    lemma_mul_is_commutative(loser_pool as int, nb);
    lemma_multiply_divide_le(loser_pool * nb, 10_000, loser_pool as int);
}

/// Compute the total payout for one stake, or fail: on an empty winning
/// pool (an invariant violation that must surface as an error, not a
/// division by zero), and on a result that does not fit 64 bits.
pub fn payout(stake_amount: u64, winner_pool: u64, loser_pool: u64, fee_bps: u16) -> (r: Result<
    u64,
    SoliseumError,
>)
    ensures
        winner_pool == 0 ==> r == Err::<u64, SoliseumError>(SoliseumError::MathOverflow),
        winner_pool > 0 ==> (if spec_payout(stake_amount, winner_pool, loser_pool, fee_bps)
            <= u64::MAX {
            r == Ok::<u64, SoliseumError>(
                spec_payout(stake_amount, winner_pool, loser_pool, fee_bps) as u64,
            )
        } else {
            r == Err::<u64, SoliseumError>(SoliseumError::MathOverflow)
        }),
{
    if winner_pool == 0 {
        return Err(SoliseumError::MathOverflow);
    }
    let net_factor: u64 = if fee_bps as u64 > crate::BPS_DENOMINATOR {
        0
    } else {
        crate::BPS_DENOMINATOR - fee_bps as u64
    };
    proof {
        lemma_mul_upper_bound(loser_pool as int, u64::MAX as int, net_factor as int, 10_000);
        lemma_net_loser_pool_bounds(loser_pool, fee_bps);
    }
    let net_loser_pool: u128 = (loser_pool as u128) * (net_factor as u128) / (
    crate::BPS_DENOMINATOR as u128);
    assert(net_loser_pool == spec_net_loser_pool(loser_pool, fee_bps));
    proof {
        lemma_mul_upper_bound(
            stake_amount as int,
            u64::MAX as int,
            net_loser_pool as int,
            u64::MAX as int,
        );
        lemma_mul_nonnegative(stake_amount as int, net_loser_pool as int);
        lemma_mul_inequality(1, winner_pool as int, stake_amount * net_loser_pool);
        lemma_multiply_divide_le(
            stake_amount * net_loser_pool,
            winner_pool as int,
            stake_amount * net_loser_pool,
        );
    }
    let reward: u128 = (stake_amount as u128) * net_loser_pool / (winner_pool as u128);
    let total: u128 = (stake_amount as u128) + reward;
    assert(total == spec_payout(stake_amount, winner_pool, loser_pool, fee_bps));
    if total > u64::MAX as u128 {
        Err(SoliseumError::MathOverflow)
    } else {
        Ok(total as u64)
    }
}

/// The total staked over a sequence of winning stakes.
pub open spec fn sum_amounts(stakes: Seq<u64>) -> int
    decreases stakes.len(),
{
    if stakes.len() == 0 {
        0
    } else {
        stakes[0] + sum_amounts(stakes.drop_first())
    }
}

/// The total paid out over a sequence of winning stakes.
pub open spec fn sum_payouts(stakes: Seq<u64>, winner_pool: u64, loser_pool: u64, fee_bps: u16) -> int
    decreases stakes.len(),
{
    if stakes.len() == 0 {
        0
    } else {
        spec_payout(stakes[0], winner_pool, loser_pool, fee_bps) + sum_payouts(
            stakes.drop_first(),
            winner_pool,
            loser_pool,
            fee_bps,
        )
    }
}

proof fn lemma_sum_amounts_nonneg(stakes: Seq<u64>)
    ensures
        sum_amounts(stakes) >= 0,
    decreases stakes.len(),
{
    if stakes.len() > 0 {
        lemma_sum_amounts_nonneg(stakes.drop_first());
    }
}

/// Truncating division is superadditive: the floors of two shares never
/// exceed the floor of their sum.
proof fn lemma_div_superadditive(a: int, b: int, d: int)
    requires
        0 <= a,
        0 <= b,
        0 < d,
    ensures
        a / d + b / d <= (a + b) / d,
{
    lemma_fundamental_div_mod(a, d);
    lemma_fundamental_div_mod(b, d);
    lemma_fundamental_div_mod(a + b, d);
    lemma_mod_pos_bound(a, d);
    lemma_mod_pos_bound(b, d);
    lemma_mod_pos_bound(a + b, d);
    let qa = a / d;
    let ra = a % d;
    let qb = b / d;
    let rb = b % d;
    let qs = (a + b) / d;
    let rs = (a + b) % d;
    assert(qa + qb <= qs) by (nonlinear_arith)
        requires
            a == d * qa + ra,
            b == d * qb + rb,
            a + b == d * qs + rs,
            0 <= ra < d,
            0 <= rb < d,
            0 <= rs < d,
            0 < d,
    ;
}

/// The payouts over a sequence of stakes never exceed the amounts staked
/// plus the pooled pro-rata share of their sum.
proof fn lemma_sum_payouts_bound(stakes: Seq<u64>, winner_pool: u64, loser_pool: u64, fee_bps: u16)
    requires
        winner_pool > 0,
    ensures
        sum_payouts(stakes, winner_pool, loser_pool, fee_bps) <= sum_amounts(stakes) + (
        sum_amounts(stakes) * spec_net_loser_pool(loser_pool, fee_bps)) / (winner_pool as int),
    decreases stakes.len(),
{
    let w = winner_pool as int;
    let np = spec_net_loser_pool(loser_pool, fee_bps);
    lemma_net_loser_pool_bounds(loser_pool, fee_bps);
    if stakes.len() == 0 {
        lemma_div_of0(w);
    } else {
        let s0 = stakes[0] as int;
        let rest = stakes.drop_first();
        let ar = sum_amounts(rest);
        lemma_sum_payouts_bound(rest, winner_pool, loser_pool, fee_bps);
        lemma_sum_amounts_nonneg(rest);
        lemma_mul_nonnegative(s0, np);
        lemma_mul_nonnegative(ar, np);
        lemma_div_superadditive(s0 * np, ar * np, w);
        lemma_mul_is_distributive_add_other_way(np, s0, ar);
        assert((s0 + ar) * np == s0 * np + ar * np);
    }
}

/// Law (conservation): for any settled arena, the payouts over all winning
/// stakes never exceed the winning pool plus the net losing pool, as long
/// as the amounts staked on the winning side are covered by the winning
/// pool. Rounding truncation only ever under-pays the pool, never
/// over-pays it.
pub proof fn lemma_payout_conservation(
    stakes: Seq<u64>,
    winner_pool: u64,
    loser_pool: u64,
    fee_bps: u16,
)
    requires
        winner_pool > 0,
        sum_amounts(stakes) <= winner_pool,
    ensures
        sum_payouts(stakes, winner_pool, loser_pool, fee_bps) <= winner_pool
            + spec_net_loser_pool(loser_pool, fee_bps),
{
    let w = winner_pool as int;
    let np = spec_net_loser_pool(loser_pool, fee_bps);
    let a = sum_amounts(stakes);
    lemma_sum_payouts_bound(stakes, winner_pool, loser_pool, fee_bps);
    lemma_sum_amounts_nonneg(stakes);
    lemma_net_loser_pool_bounds(loser_pool, fee_bps);
    lemma_mul_inequality(a, w, np);
    lemma_mul_is_commutative(w, np);
    lemma_multiply_divide_le(a * np, w, np);
}

} // verus!
