use vstd::prelude::*;

use crate::constraints::SwapConstraints;
use crate::curve::{lemma_new_destination_le, swap_spec, trading_tokens_spec, SwapCurve, TradeDirection};
use crate::error::SwapError;
use crate::fees::{fee_result, lemma_fee_le_amount, Fees};
use crate::math::{ceil_div, lemma_ceil_le, RoundDirection};
use crate::processor::{initialize_account_checks, initialize_checks, swap_checks, swap_outcome, direction_of, InitializeAccounts, SwapAccounts};
use crate::stable::{close, compute_d_spec, d_iterate, d_step, y_iterate, y_step, MAX_ITERATIONS};
use crate::state::SwapPool;

verus! {

/// On a constant-product pool with a valid fee schedule, a successful trade never
/// lowers `reserve_a * reserve_b`: the fees only raise it or hold it.
pub proof fn lemma_swap_keeps_product(fees: Fees, amount: u64, src: u64, dst: u64, dir: TradeDirection)
    requires
        fees.valid(),
    ensures
        swap_spec(SwapCurve::ConstantProduct, fees, amount, src, dst, dir) matches Ok(res)
            ==> res.new_swap_source_amount * res.new_swap_destination_amount >= src * dst,
{
    if let Ok(res) = swap_spec(SwapCurve::ConstantProduct, fees, amount, src, dst, dir) {
        let tf = fee_result(amount, fees.trade_fee_numerator, fees.trade_fee_denominator, RoundDirection::Ceiling)->Ok_0;
        let of = fee_result(amount, fees.owner_trade_fee_numerator, fees.owner_trade_fee_denominator, RoundDirection::Ceiling)->Ok_0;
        lemma_fee_le_amount(amount, fees.trade_fee_numerator, fees.trade_fee_denominator, RoundDirection::Ceiling);
        lemma_fee_le_amount(amount, fees.owner_trade_fee_numerator, fees.owner_trade_fee_denominator, RoundDirection::Ceiling);
        let after = amount - tf - of;
        let new_src = src + after;
        lemma_new_destination_le(src as int, dst as int, new_src);
        let new_dst = ceil_div(src * dst, new_src);
        assert(res.new_swap_destination_amount == new_dst);
        assert(res.new_swap_source_amount >= new_src);
        assert(res.new_swap_source_amount * new_dst >= src * dst) by (nonlinear_arith)
            requires
                res.new_swap_source_amount >= new_src,
                new_dst >= 0,
                new_dst * new_src >= src * dst,
        ;
    }
}

/// One side of the round trip: `floor(p * (a + ceil(p * a / s)) / (s + p))`
/// is at most `ceil(p * a / s)`, and at least one when `p * a >= s`.
proof fn lemma_round_trip_side(p: int, s: int, a: int)
    requires
        p >= 0,
        s > 0,
        a >= 0,
    ensures
        0 <= p * (a + ceil_div(p * a, s)) / (s + p) <= ceil_div(p * a, s),
        p * a >= s ==> p * (a + ceil_div(p * a, s)) / (s + p) >= 1,
{
    let n = p * a;
    assert(n >= 0) by (nonlinear_arith)
        requires
            n == p * a,
            p >= 0,
            a >= 0,
    ;
    lemma_ceil_le(n, s);
    let t = ceil_div(n, s);
    assert(p * (a + t) <= t * (s + p)) by (nonlinear_arith)
        requires
            t * s >= n,
            n == p * a,
    ;
    assert(p * (a + t) >= 0) by (nonlinear_arith)
        requires
            p >= 0,
            a >= 0,
            t >= 0,
    ;
    vstd::arithmetic::div_mod::lemma_div_is_ordered(p * (a + t), t * (s + p), s + p);
    vstd::arithmetic::div_mod::lemma_div_by_multiple(t, s + p);
    vstd::arithmetic::div_mod::lemma_div_pos_is_pos(p * (a + t), s + p);
    if n >= s {
        vstd::arithmetic::div_mod::lemma_div_by_multiple(1, s);
        vstd::arithmetic::div_mod::lemma_div_is_ordered(s, n, s);
        assert(t >= 1);
        assert(p * (a + t) >= s + p) by (nonlinear_arith)
            requires
                n == p * a,
                n >= s,
                t >= 1,
                p >= 0,
        ;
        vstd::arithmetic::div_mod::lemma_div_is_ordered(s + p, p * (a + t), s + p);
        vstd::arithmetic::div_mod::lemma_div_by_multiple(1, s + p);
    }
}

/// Depositing for `pool_tokens` (amounts rounded up) and at once withdrawing the
/// same pool tokens (amounts rounded down) gives back no more than was paid in;
/// and where the share of each reserve is worth at least one whole token, the
/// withdrawal succeeds, so it cannot fail with `ZeroTradingTokens`.
pub proof fn lemma_deposit_withdraw_round_trip(pool_tokens: u64, supply: u64, token_a: u64, token_b: u64)
    requires
        trading_tokens_spec(pool_tokens, supply, token_a, token_b, RoundDirection::Ceiling) is Ok,
        supply + pool_tokens <= u64::MAX,
        token_a + trading_tokens_spec(pool_tokens, supply, token_a, token_b, RoundDirection::Ceiling)->Ok_0.token_a_amount <= u64::MAX,
        token_b + trading_tokens_spec(pool_tokens, supply, token_a, token_b, RoundDirection::Ceiling)->Ok_0.token_b_amount <= u64::MAX,
    ensures
        ({
            let paid = trading_tokens_spec(pool_tokens, supply, token_a, token_b, RoundDirection::Ceiling)->Ok_0;
            let back = trading_tokens_spec(
                pool_tokens,
                (supply + pool_tokens) as u64,
                (token_a + paid.token_a_amount) as u64,
                (token_b + paid.token_b_amount) as u64,
                RoundDirection::Floor,
            );
            &&& back matches Ok(w) ==> w.token_a_amount <= paid.token_a_amount && w.token_b_amount <= paid.token_b_amount
            &&& pool_tokens * token_a >= supply && pool_tokens * token_b >= supply ==> back is Ok
        }),
{
    lemma_round_trip_side(pool_tokens as int, supply as int, token_a as int);
    lemma_round_trip_side(pool_tokens as int, supply as int, token_b as int);
}

/// A fee schedule with some rate above one is refused at pool creation with
/// `InvalidFee`, once the accounts, the mint and the curve have passed.
pub proof fn lemma_initialize_rejects_excess_fee(current: SwapPool, derived: Option<Seq<u8>>, acc: InitializeAccounts, fees: Fees, curve: SwapCurve, constraints: Option<SwapConstraints>)
    requires
        initialize_account_checks(current, derived, acc) is Ok,
        acc.pool_mint.freeze_authority is None,
        curve.valid(),
        fees.trade_fee_numerator > fees.trade_fee_denominator
            || fees.owner_trade_fee_numerator > fees.owner_trade_fee_denominator
            || fees.owner_withdraw_fee_numerator > fees.owner_withdraw_fee_denominator
            || fees.host_fee_numerator > fees.host_fee_denominator,
    ensures
        initialize_checks(current, derived, acc, fees, curve, constraints) == Err::<(), SwapError>(SwapError::InvalidFee),
{
}

/// A pool mint with tokens already in circulation is refused at pool creation with
/// `InvalidSupply`, once the accounts and parameters have passed.
pub proof fn lemma_initialize_rejects_minted_supply(current: SwapPool, derived: Option<Seq<u8>>, acc: InitializeAccounts, fees: Fees, curve: SwapCurve, constraints: Option<SwapConstraints>)
    requires
        initialize_account_checks(current, derived, acc) is Ok,
        acc.pool_mint.freeze_authority is None,
        curve.valid(),
        fees.valid(),
        acc.pool_mint.supply != 0,
    ensures
        initialize_checks(current, derived, acc, fees, curve, constraints) == Err::<(), SwapError>(SwapError::InvalidSupply),
{
}

/// A pool mint with a freeze authority is refused at pool creation with
/// `InvalidFreezeAuthority`, once the accounts have passed.
pub proof fn lemma_initialize_rejects_freeze_authority(current: SwapPool, derived: Option<Seq<u8>>, acc: InitializeAccounts, fees: Fees, curve: SwapCurve, constraints: Option<SwapConstraints>)
    requires
        initialize_account_checks(current, derived, acc) is Ok,
        acc.pool_mint.freeze_authority is Some,
    ensures
        initialize_checks(current, derived, acc, fees, curve, constraints) == Err::<(), SwapError>(SwapError::InvalidFreezeAuthority),
{
}

/// A trade whose computed payout is below the caller's minimum fails with
/// `ExceededSlippage`, and so has no effect on the reserves.
pub proof fn lemma_swap_slippage(pool: SwapPool, derived: Option<Seq<u8>>, acc: SwapAccounts, amount_in: u64, minimum_amount_out: u64)
    requires
        swap_checks(pool, derived, acc, amount_in) is Ok,
        crate::curve::swap_spec(
            pool.swap_curve,
            pool.fees,
            amount_in,
            acc.swap_source.amount,
            acc.swap_destination.amount,
            direction_of(pool, acc.swap_source.address),
        ) matches Ok(res) && minimum_amount_out > res.destination_amount_swapped,
    ensures
        swap_outcome(pool, derived, acc, amount_in, minimum_amount_out) == Err::<crate::processor::SwapEffects, SwapError>(SwapError::ExceededSlippage),
{
}

/// The Newton solve for `D` ends within `fuel` steps, and what it returns is a
/// converged estimate: one step from the estimate before it, and at most one apart.
pub proof fn lemma_d_iterate_converges(ann: int, x: int, y: int, d: int, fuel: nat)
    ensures
        d_iterate(ann, x, y, d, fuel) matches Some(v) ==> exists|w: int| #[trigger] d_step(ann, x, y, w) == Some(v) && close(v, w),
    decreases fuel,
{
    if fuel > 0 {
        if let Some(next) = d_step(ann, x, y, d) {
            if !close(next, d) {
                lemma_d_iterate_converges(ann, x, y, next, (fuel - 1) as nat);
            }
        }
    }
}

/// The Newton solve for the destination reserve ends within `fuel` steps, and what
/// it returns is a converged estimate.
pub proof fn lemma_y_iterate_converges(c: int, b: int, d: int, y: int, fuel: nat)
    ensures
        y_iterate(c, b, d, y, fuel) matches Some(v) ==> exists|w: int| #[trigger] y_step(c, b, d, w) == Some(v) && close(v, w),
    decreases fuel,
{
    if fuel > 0 {
        if let Some(next) = y_step(c, b, d, y) {
            if !close(next, y) {
                lemma_y_iterate_converges(c, b, d, next, (fuel - 1) as nat);
            }
        }
    }
}

/// For every accepted amplification coefficient, the stable invariant is found
/// within `MAX_ITERATIONS` Newton steps, converged, or the solve fails.
pub proof fn lemma_stable_solve_bounded(amp: u64, x: u64, y: u64)
    requires
        0 < amp <= crate::curve::MAX_AMP,
    ensures
        compute_d_spec(4 * amp, x as int, y as int) matches Some(v) ==> (x + y == 0 && v == 0) || exists|w: int|
            #[trigger] d_step(4 * amp, x as int, y as int, w) == Some(v) && close(v, w),
{
    lemma_d_iterate_converges(4 * amp, x as int, y as int, x + y, MAX_ITERATIONS as nat);
}

} // verus!
