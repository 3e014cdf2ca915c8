use vstd::prelude::*;

use crate::error::SwapError;
use crate::fees::{calculate_fee, fee_result, Fees};
use crate::math::{
    ceil_div, checked_div_round, div_round, isqrt, lemma_ceil_le, lemma_ceil_mul_le, lemma_isqrt_bounds,
    lemma_mul_u64_fits, sqrt, RoundDirection,
};

verus! {

/// Which reserve a trade pays into.
#[derive(Clone, Copy, Debug, Eq, PartialEq, Structural)]
pub enum TradeDirection {
    /// Token A in, token B out.
    AtoB,
    /// Token B in, token A out.
    BtoA,
}

/// The pricing curve of a pool with its parameters.
#[derive(Clone, Copy, Debug, Eq, PartialEq, Structural)]
pub enum SwapCurve {
    /// `reserve_a * reserve_b` is held constant.
    ConstantProduct,
    /// One token B is always worth `token_b_price` tokens A.
    ConstantPrice { token_b_price: u64 },
    /// A constant product where reserve B counts `token_b_offset` more than it holds.
    Offset { token_b_offset: u64 },
    /// A stable-swap invariant flattened by the amplification coefficient `amp`.
    Stable { amp: u64 },
}

/// Largest amplification coefficient a stable curve accepts.
pub const MAX_AMP: u64 = 1_000_000;

/// What the destination side pays out for `amount` on a constant-product curve with
/// the given reserves; the division is rounded up so that the payout is rounded down.
pub open spec fn constant_product_output(amount: int, src: int, dst: int) -> Result<int, SwapError> {
    if src + amount == 0 || src * dst > u128::MAX {
        Err(SwapError::CalculationFailure)
    } else {
        Ok(dst - ceil_div(src * dst, src + amount))
    }
}

/// What `swap_without_fees` computes: the destination amount for `amount` of the
/// source token, before it is checked against the destination reserve.
pub open spec fn swap_output(curve: SwapCurve, amount: u64, src: u64, dst: u64, dir: TradeDirection) -> Result<int, SwapError> {
    match curve {
        SwapCurve::ConstantProduct => constant_product_output(amount as int, src as int, dst as int),
        SwapCurve::ConstantPrice { token_b_price } => {
            if token_b_price == 0 {
                Err(SwapError::CalculationFailure)
            } else {
                match dir {
                    TradeDirection::AtoB => Ok(amount as int / token_b_price as int),
                    TradeDirection::BtoA => Ok(amount * token_b_price),
                }
            }
        },
        SwapCurve::Offset { token_b_offset } => match dir {
            TradeDirection::AtoB => constant_product_output(amount as int, src as int, dst + token_b_offset),
            TradeDirection::BtoA => constant_product_output(amount as int, src + token_b_offset, dst as int),
        },
        SwapCurve::Stable { amp } => crate::stable::stable_output(amp as int, amount as int, src as int, dst as int),
    }
}

/// Constant-product payout on 128-bit reserves.
fn constant_product_swap(amount: u128, src: u128, dst: u128) -> (r: Result<u128, SwapError>)
    requires
        src + amount <= u128::MAX,
    ensures
        r matches Ok(v) ==> constant_product_output(amount as int, src as int, dst as int) == Ok::<int, SwapError>(v as int),
        r matches Err(e) ==> constant_product_output(amount as int, src as int, dst as int) == Err::<int, SwapError>(e),
{
    let new_src = src + amount;
    if new_src == 0 {
        return Err(SwapError::CalculationFailure);
    }
    let product = match src.checked_mul(dst) {
        Some(k) => k,
        None => return Err(SwapError::CalculationFailure),
    };
    let new_dst = match checked_div_round(product, new_src, RoundDirection::Ceiling) {
        Some(q) => q,
        None => return Err(SwapError::CalculationFailure),
    };
    proof {
        lemma_new_destination_le(src as int, dst as int, new_src as int);
    }
    Ok(dst - new_dst)
}

/// The destination reserve left after a constant-product trade never exceeds the
/// reserve before it, and with it the invariant does not shrink.
pub proof fn lemma_new_destination_le(src: int, dst: int, new_src: int)
    requires
        0 <= src <= new_src,
        new_src > 0,
        dst >= 0,
    ensures
        0 <= ceil_div(src * dst, new_src) <= dst,
        ceil_div(src * dst, new_src) * new_src >= src * dst,
{
    let k = src * dst;
    assert(0 <= k <= new_src * dst) by (nonlinear_arith)
        requires
            k == src * dst,
            0 <= src <= new_src,
            dst >= 0,
    ;
    lemma_ceil_le(k, new_src);
    vstd::arithmetic::div_mod::lemma_div_is_ordered(k, new_src * dst, new_src);
    vstd::arithmetic::div_mod::lemma_div_multiples_vanish(dst, new_src);
    if k % new_src != 0 && k / new_src == dst {
        vstd::arithmetic::div_mod::lemma_fundamental_div_mod(k, new_src);
        assert(false) by (nonlinear_arith)
            requires
                k == new_src * (k / new_src) + k % new_src,
                k % new_src > 0,
                k / new_src == dst,
                k <= new_src * dst,
        ;
    }
}

/// The outcome of a trade with its fees.
#[derive(Clone, Copy, Debug, Eq, PartialEq, Structural)]
pub struct SwapResult {
    /// Source reserve after the trade; both fees stay in it.
    pub new_swap_source_amount: u64,
    /// Destination reserve after the trade.
    pub new_swap_destination_amount: u64,
    /// Source tokens that enter the pool's reserve.
    pub source_amount_swapped: u64,
    /// Destination tokens paid to the trader.
    pub destination_amount_swapped: u64,
    /// Fee kept in the reserve.
    pub trade_fee: u64,
    /// Fee owed to the owner, paid out in pool tokens.
    pub owner_fee: u64,
}

/// What a trade of `amount` yields, as `swap` computes it.
pub open spec fn swap_spec(curve: SwapCurve, fees: Fees, amount: u64, src: u64, dst: u64, dir: TradeDirection) -> Result<SwapResult, SwapError> {
    let tf = fee_result(amount, fees.trade_fee_numerator, fees.trade_fee_denominator, RoundDirection::Ceiling);
    let of = fee_result(amount, fees.owner_trade_fee_numerator, fees.owner_trade_fee_denominator, RoundDirection::Ceiling);
    match (tf, of) {
        (Err(e), _) => Err(e),
        (Ok(_), Err(e)) => Err(e),
        (Ok(trade_fee), Ok(owner_fee)) => {
            if trade_fee + owner_fee > amount {
                Err(SwapError::CalculationFailure)
            } else {
                let after_fees = (amount - trade_fee - owner_fee) as u64;
                match swap_output(curve, after_fees, src, dst, dir) {
                    Err(e) => Err(e),
                    Ok(out) => {
                        if out == 0 {
                            Err(SwapError::ZeroTradingTokens)
                        } else if out > dst || src + amount > u64::MAX {
                            Err(SwapError::CalculationFailure)
                        } else {
                            Ok(SwapResult {
                                new_swap_source_amount: (src + amount) as u64,
                                new_swap_destination_amount: (dst - out) as u64,
                                source_amount_swapped: amount,
                                destination_amount_swapped: out as u64,
                                trade_fee,
                                owner_fee,
                            })
                        }
                    },
                }
            }
        },
    }
}

impl SwapCurve {
    /// Checks the curve's parameters: a positive price, or an amplification
    /// coefficient in `1..=MAX_AMP`; `InvalidCurve` otherwise.
    pub fn validate(&self) -> (r: Result<(), SwapError>)
        ensures
            r is Ok <==> self.valid(),
            r is Err ==> r == Err::<(), SwapError>(SwapError::InvalidCurve),
    {
        match self {
            SwapCurve::ConstantProduct => Ok(()),
            SwapCurve::ConstantPrice { token_b_price } => {
                if *token_b_price == 0 {
                    Err(SwapError::InvalidCurve)
                } else {
                    Ok(())
                }
            },
            SwapCurve::Offset { token_b_offset } => {
                if *token_b_offset == 0 {
                    Err(SwapError::InvalidCurve)
                } else {
                    Ok(())
                }
            },
            SwapCurve::Stable { amp } => {
                if *amp == 0 || *amp > MAX_AMP {
                    Err(SwapError::InvalidCurve)
                } else {
                    Ok(())
                }
            },
        }
    }

    /// The curve's parameters are within their accepted ranges.
    pub open spec fn valid(&self) -> bool {
        match *self {
            SwapCurve::ConstantProduct => true,
            SwapCurve::ConstantPrice { token_b_price } => token_b_price > 0,
            SwapCurve::Offset { token_b_offset } => token_b_offset > 0,
            SwapCurve::Stable { amp } => 0 < amp <= MAX_AMP,
        }
    }

    /// Whether the initial reserves suit the curve: both nonzero, except that an
    /// offset curve may start with no token B.
    pub open spec fn supply_valid(&self, token_a_amount: u64, token_b_amount: u64) -> bool {
        match *self {
            SwapCurve::Offset { .. } => token_a_amount > 0,
            _ => token_a_amount > 0 && token_b_amount > 0,
        }
    }

    /// Checks the initial reserves; `EmptySupply` when `supply_valid` fails.
    pub fn validate_supply(&self, token_a_amount: u64, token_b_amount: u64) -> (r: Result<(), SwapError>)
        ensures
            r is Ok <==> self.supply_valid(token_a_amount, token_b_amount),
            r is Err ==> r == Err::<(), SwapError>(SwapError::EmptySupply),
    {
        let ok = match self {
            SwapCurve::Offset { .. } => token_a_amount > 0,
            _ => token_a_amount > 0 && token_b_amount > 0,
        };
        if ok {
            Ok(())
        } else {
            Err(SwapError::EmptySupply)
        }
    }

    /// Whether pool tokens can be minted for deposits: every curve but the offset one.
    pub open spec fn allows_deposits_spec(&self) -> bool {
        !(*self is Offset)
    }

    /// Whether pool tokens can be minted for deposits.
    pub fn allows_deposits(&self) -> (r: bool)
        ensures
            r == self.allows_deposits_spec(),
    {
        match self {
            SwapCurve::Offset { .. } => false,
            _ => true,
        }
    }

    /// The destination amount for `source_amount`, fees already taken out.
    pub fn swap_without_fees(&self, source_amount: u64, swap_source_amount: u64, swap_destination_amount: u64, trade_direction: TradeDirection) -> (r: Result<u128, SwapError>)
        ensures
            r matches Ok(v) ==> swap_output(*self, source_amount, swap_source_amount, swap_destination_amount, trade_direction) == Ok::<int, SwapError>(v as int),
            r matches Err(e) ==> swap_output(*self, source_amount, swap_source_amount, swap_destination_amount, trade_direction) == Err::<int, SwapError>(e),
    {
        match self {
            SwapCurve::ConstantProduct => constant_product_swap(source_amount as u128, swap_source_amount as u128, swap_destination_amount as u128),
            SwapCurve::ConstantPrice { token_b_price } => {
                if *token_b_price == 0 {
                    return Err(SwapError::CalculationFailure);
                }
                match trade_direction {
                    TradeDirection::AtoB => Ok((source_amount / *token_b_price) as u128),
                    TradeDirection::BtoA => {
                        proof {
                            lemma_mul_u64_fits(source_amount, *token_b_price);
                        }
                        Ok((source_amount as u128) * (*token_b_price as u128))
                    },
                }
            },
            SwapCurve::Offset { token_b_offset } => match trade_direction {
                TradeDirection::AtoB => constant_product_swap(source_amount as u128, swap_source_amount as u128, swap_destination_amount as u128 + *token_b_offset as u128),
                TradeDirection::BtoA => constant_product_swap(source_amount as u128, swap_source_amount as u128 + *token_b_offset as u128, swap_destination_amount as u128),
            },
            SwapCurve::Stable { amp } => crate::stable::stable_swap(*amp, source_amount, swap_source_amount, swap_destination_amount),
        }
    }

    /// A trade of `source_amount`: the trading and owner fees are taken from the
    /// source amount, rounded up, and the rest is priced by the curve, rounded down.
    /// Fails with `ZeroTradingTokens` when nothing would be paid out.
    pub fn swap(&self, source_amount: u64, swap_source_amount: u64, swap_destination_amount: u64, trade_direction: TradeDirection, fees: &Fees) -> (r: Result<SwapResult, SwapError>)
        ensures
            r == swap_spec(*self, *fees, source_amount, swap_source_amount, swap_destination_amount, trade_direction),
    {
        let trade_fee = fees.trading_fee(source_amount)?;
        let owner_fee = fees.owner_trading_fee(source_amount)?;
        if trade_fee as u128 + owner_fee as u128 > source_amount as u128 {
            return Err(SwapError::CalculationFailure);
        }
        let after_fees = source_amount - trade_fee - owner_fee;
        let out = self.swap_without_fees(after_fees, swap_source_amount, swap_destination_amount, trade_direction)?;
        if out == 0 {
            return Err(SwapError::ZeroTradingTokens);
        }
        if out > swap_destination_amount as u128
            || swap_source_amount as u128 + source_amount as u128 > u64::MAX as u128
        {
            return Err(SwapError::CalculationFailure);
        }
        Ok(SwapResult {
            new_swap_source_amount: swap_source_amount + source_amount,
            new_swap_destination_amount: swap_destination_amount - out as u64,
            source_amount_swapped: source_amount,
            destination_amount_swapped: out as u64,
            trade_fee,
            owner_fee,
        })
    }
}

/// Both trading tokens that a number of pool tokens stands for.
#[derive(Clone, Copy, Debug, Eq, PartialEq, Structural)]
pub struct TradingTokenResult {
    /// Amount of token A.
    pub token_a_amount: u64,
    /// Amount of token B.
    pub token_b_amount: u64,
}

/// The share `pool_tokens / supply` of each reserve, rounded in the given direction.
pub open spec fn trading_tokens_spec(pool_tokens: u64, supply: u64, token_a: u64, token_b: u64, round: RoundDirection) -> Result<TradingTokenResult, SwapError> {
    if supply == 0 {
        Err(SwapError::CalculationFailure)
    } else {
        let ta = div_round(pool_tokens * token_a, supply as int, round);
        let tb = div_round(pool_tokens * token_b, supply as int, round);
        if ta > u64::MAX || tb > u64::MAX {
            Err(SwapError::ConversionFailure)
        } else if pool_tokens > 0 && (ta == 0 || tb == 0) {
            Err(SwapError::ZeroTradingTokens)
        } else {
            Ok(TradingTokenResult { token_a_amount: ta as u64, token_b_amount: tb as u64 })
        }
    }
}

/// The source amount that counts for a single-sided deposit or withdrawal: on any
/// curve but the constant product, the trading fee on half the amount is the
/// penalty for skipping the swap that a balanced deposit would need.
pub open spec fn single_side_penalty(curve: SwapCurve, fees: Fees, amount: u64) -> Result<u64, SwapError> {
    if curve is ConstantProduct {
        Ok(0)
    } else {
        fee_result((amount / 2) as u64, fees.trade_fee_numerator, fees.trade_fee_denominator, RoundDirection::Ceiling)
    }
}

/// Pool tokens minted for depositing `source_amount` into a reserve of `reserve`
/// tokens: `supply * (sqrt(reserve * (reserve + amount)) - reserve) / reserve`,
/// rounded down, where `amount` is the deposit less its penalty.
pub open spec fn single_deposit_spec(curve: SwapCurve, fees: Fees, source_amount: u64, reserve: u64, supply: u64) -> Result<u64, SwapError> {
    if !curve.allows_deposits_spec() {
        Err(SwapError::UnsupportedCurveOperation)
    } else {
        match single_side_penalty(curve, fees, source_amount) {
            Err(e) => Err(e),
            Ok(p) => {
                let amount = source_amount - p;
                if p > source_amount || reserve == 0 || reserve * (reserve + amount) > u128::MAX {
                    Err(SwapError::CalculationFailure)
                } else {
                    let t = supply * (isqrt(reserve * (reserve + amount)) - reserve) / (reserve as int);
                    if t > u64::MAX {
                        Err(SwapError::ConversionFailure)
                    } else if t == 0 {
                        Err(SwapError::ZeroTradingTokens)
                    } else {
                        Ok(t as u64)
                    }
                }
            },
        }
    }
}

/// Pool tokens burned for taking `destination_amount` out of a reserve of `reserve`
/// tokens: `supply * (reserve - sqrt(reserve * (reserve - amount))) / reserve`,
/// rounded up, where `amount` is the withdrawal plus its penalty.
pub open spec fn single_withdraw_spec(curve: SwapCurve, fees: Fees, destination_amount: u64, reserve: u64, supply: u64) -> Result<u64, SwapError> {
    match single_side_penalty(curve, fees, destination_amount) {
        Err(e) => Err(e),
        Ok(p) => {
            let amount = destination_amount + p;
            if reserve == 0 || amount > reserve {
                Err(SwapError::CalculationFailure)
            } else {
                let t = ceil_div(supply * (reserve - isqrt(reserve * (reserve - amount))), reserve as int);
                if t == 0 {
                    Err(SwapError::ZeroTradingTokens)
                } else {
                    Ok(t as u64)
                }
            }
        },
    }
}

impl SwapCurve {
    /// The share of both reserves that `pool_tokens` out of `pool_token_supply`
    /// stands for. Fails with `ZeroTradingTokens` when a nonzero share comes to
    /// nothing on either side.
    pub fn pool_tokens_to_trading_tokens(&self, pool_tokens: u64, pool_token_supply: u64, swap_token_a_amount: u64, swap_token_b_amount: u64, round_direction: RoundDirection) -> (r: Result<TradingTokenResult, SwapError>)
        ensures
            r == trading_tokens_spec(pool_tokens, pool_token_supply, swap_token_a_amount, swap_token_b_amount, round_direction),
    {
        proof {
            lemma_mul_u64_fits(pool_tokens, swap_token_a_amount);
            lemma_mul_u64_fits(pool_tokens, swap_token_b_amount);
        }
        let pa = (pool_tokens as u128) * (swap_token_a_amount as u128);
        let pb = (pool_tokens as u128) * (swap_token_b_amount as u128);
        let ta = match checked_div_round(pa, pool_token_supply as u128, round_direction) {
            Some(v) => v,
            None => return Err(SwapError::CalculationFailure),
        };
        let tb = match checked_div_round(pb, pool_token_supply as u128, round_direction) {
            Some(v) => v,
            None => return Err(SwapError::CalculationFailure),
        };
        if ta > u64::MAX as u128 || tb > u64::MAX as u128 {
            return Err(SwapError::ConversionFailure);
        }
        if pool_tokens > 0 && (ta == 0 || tb == 0) {
            return Err(SwapError::ZeroTradingTokens);
        }
        Ok(TradingTokenResult { token_a_amount: ta as u64, token_b_amount: tb as u64 })
    }

    fn single_side_penalty(&self, fees: &Fees, amount: u64) -> (r: Result<u64, SwapError>)
        ensures
            r == single_side_penalty(*self, *fees, amount),
    {
        match self {
            SwapCurve::ConstantProduct => Ok(0),
            _ => calculate_fee(amount / 2, fees.trade_fee_numerator, fees.trade_fee_denominator, RoundDirection::Ceiling),
        }
    }

    /// Pool tokens minted for a deposit of `source_amount` into one reserve only.
    pub fn deposit_single_token_type(&self, source_amount: u64, swap_source_amount: u64, pool_supply: u64, fees: &Fees) -> (r: Result<u64, SwapError>)
        ensures
            r == single_deposit_spec(*self, *fees, source_amount, swap_source_amount, pool_supply),
    {
        if !self.allows_deposits() {
            return Err(SwapError::UnsupportedCurveOperation);
        }
        let p = self.single_side_penalty(fees, source_amount)?;
        if p > source_amount || swap_source_amount == 0 {
            return Err(SwapError::CalculationFailure);
        }
        let amount = source_amount - p;
        let reserve = swap_source_amount as u128;
        let n = match reserve.checked_mul(reserve + amount as u128) {
            Some(n) => n,
            None => return Err(SwapError::CalculationFailure),
        };
        let root = sqrt(n);
        proof {
            assert(reserve * reserve <= n) by (nonlinear_arith)
                requires
                    n == reserve * (reserve + amount),
                    amount >= 0,
                    reserve >= 0,
            ;
            lemma_isqrt_bounds(n as int, reserve as int);
            lemma_mul_u64_fits(pool_supply, (root - swap_source_amount) as u64);
        }
        let growth = (root - swap_source_amount) as u128;
        let t = (pool_supply as u128) * growth / reserve;
        if t > u64::MAX as u128 {
            return Err(SwapError::ConversionFailure);
        }
        if t == 0 {
            return Err(SwapError::ZeroTradingTokens);
        }
        Ok(t as u64)
    }

    /// Pool tokens burned for a withdrawal of exactly `destination_amount` from one
    /// reserve only, before the owner's withdrawal fee.
    pub fn withdraw_single_token_type_exact_out(&self, destination_amount: u64, swap_destination_amount: u64, pool_supply: u64, fees: &Fees) -> (r: Result<u64, SwapError>)
        ensures
            r == single_withdraw_spec(*self, *fees, destination_amount, swap_destination_amount, pool_supply),
            r matches Ok(t) ==> t <= pool_supply,
    {
        let p = self.single_side_penalty(fees, destination_amount)?;
        let reserve = swap_destination_amount;
        if reserve == 0 || destination_amount as u128 + p as u128 > reserve as u128 {
            return Err(SwapError::CalculationFailure);
        }
        let amount = destination_amount + p;
        proof {
            lemma_mul_u64_fits(reserve, (reserve - amount) as u64);
        }
        let n = (reserve as u128) * ((reserve - amount) as u128);
        let root = sqrt(n);
        proof {
            assert(n < (reserve + 1) * (reserve + 1)) by (nonlinear_arith)
                requires
                    n == reserve * (reserve - amount),
                    0 <= amount <= reserve,
            ;
            lemma_isqrt_bounds(n as int, reserve as int);
            lemma_mul_u64_fits(pool_supply, (reserve - root) as u64);
            lemma_ceil_mul_le(pool_supply as int, (reserve - root) as int, reserve as int);
        }
        let shrink = (reserve - root) as u128;
        let t = match checked_div_round((pool_supply as u128) * shrink, reserve as u128, RoundDirection::Ceiling) {
            Some(t) => t,
            None => return Err(SwapError::CalculationFailure),
        };
        if t == 0 {
            return Err(SwapError::ZeroTradingTokens);
        }
        Ok(t as u64)
    }
}

} // verus!
