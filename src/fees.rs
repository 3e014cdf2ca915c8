use vstd::prelude::*;

use crate::error::SwapError;
use crate::math::{checked_div_round, div_round, lemma_ceil_mul_le, lemma_mul_u64_fits, RoundDirection};

verus! {

/// A rate is usable when its denominator is nonzero and it is at most one.
pub open spec fn rate_valid(numerator: u64, denominator: u64) -> bool {
    denominator > 0 && numerator <= denominator
}

/// `amount * numerator / denominator`, rounded in the given direction.
pub open spec fn fee_of(amount: u64, numerator: u64, denominator: u64, round: RoundDirection) -> int {
    div_round(amount * numerator, denominator as int, round)
}

/// The outcome of charging a rate on an amount: the fee, or `FeeCalculationFailure`
/// when the denominator is zero or the fee does not fit in 64 bits.
pub open spec fn fee_result(amount: u64, numerator: u64, denominator: u64, round: RoundDirection) -> Result<u64, SwapError> {
    if denominator == 0 || fee_of(amount, numerator, denominator, round) > u64::MAX {
        Err(SwapError::FeeCalculationFailure)
    } else {
        Ok(fee_of(amount, numerator, denominator, round) as u64)
    }
}

/// Computes `amount * numerator / denominator` rounded in the given direction.
pub fn calculate_fee(amount: u64, numerator: u64, denominator: u64, round: RoundDirection) -> (r: Result<u64, SwapError>)
    ensures
        r == fee_result(amount, numerator, denominator, round),
        r matches Ok(f) ==> numerator <= denominator ==> f <= amount,
{
    proof {
        lemma_mul_u64_fits(amount, numerator);
    }
    let product: u128 = (amount as u128) * (numerator as u128);
    match checked_div_round(product, denominator as u128, round) {
        None => Err(SwapError::FeeCalculationFailure),
        Some(q) => {
            if q > u64::MAX as u128 {
                Err(SwapError::FeeCalculationFailure)
            } else {
                proof {
                    if numerator <= denominator {
                        lemma_fee_le_amount(amount, numerator, denominator, round);
                    }
                }
                Ok(q as u64)
            }
        },
    }
}

/// A rate of at most one never charges more than the amount.
pub proof fn lemma_fee_le_amount(amount: u64, numerator: u64, denominator: u64, round: RoundDirection)
    requires
        rate_valid(numerator, denominator),
    ensures
        0 <= fee_of(amount, numerator, denominator, round) <= amount,
{
    lemma_ceil_mul_le(amount as int, numerator as int, denominator as int);
}

/// The fee schedule of a pool: each fee is the rate `numerator / denominator`.
#[derive(Clone, Copy, Debug, Eq, PartialEq, Structural)]
pub struct Fees {
    /// Share of a trade kept by the pool, numerator.
    pub trade_fee_numerator: u64,
    /// Share of a trade kept by the pool, denominator.
    pub trade_fee_denominator: u64,
    /// Share of a trade sent to the owner's fee account, numerator.
    pub owner_trade_fee_numerator: u64,
    /// Share of a trade sent to the owner's fee account, denominator.
    pub owner_trade_fee_denominator: u64,
    /// Share of a withdrawal sent to the owner's fee account, numerator.
    pub owner_withdraw_fee_numerator: u64,
    /// Share of a withdrawal sent to the owner's fee account, denominator.
    pub owner_withdraw_fee_denominator: u64,
    /// Share of the owner trading fee passed on to a host, numerator.
    pub host_fee_numerator: u64,
    /// Share of the owner trading fee passed on to a host, denominator.
    pub host_fee_denominator: u64,
}

impl Fees {
    /// Every rate of the schedule is valid.
    pub open spec fn valid(&self) -> bool {
        &&& rate_valid(self.trade_fee_numerator, self.trade_fee_denominator)
        &&& rate_valid(self.owner_trade_fee_numerator, self.owner_trade_fee_denominator)
        &&& rate_valid(self.owner_withdraw_fee_numerator, self.owner_withdraw_fee_denominator)
        &&& rate_valid(self.host_fee_numerator, self.host_fee_denominator)
    }

    /// Checks every rate: `InvalidFee` when a denominator is zero or a numerator
    /// exceeds its denominator.
    pub fn validate(&self) -> (r: Result<(), SwapError>)
        ensures
            r is Ok <==> self.valid(),
            r is Err ==> r == Err::<(), SwapError>(SwapError::InvalidFee),
    {
        if validate_fraction(self.trade_fee_numerator, self.trade_fee_denominator)
            && validate_fraction(self.owner_trade_fee_numerator, self.owner_trade_fee_denominator)
            && validate_fraction(self.owner_withdraw_fee_numerator, self.owner_withdraw_fee_denominator)
            && validate_fraction(self.host_fee_numerator, self.host_fee_denominator)
        {
            Ok(())
        } else {
            Err(SwapError::InvalidFee)
        }
    }

    /// The fee kept in the pool on a trade of `amount`, rounded up.
    pub fn trading_fee(&self, amount: u64) -> (r: Result<u64, SwapError>)
        ensures
            r == fee_result(amount, self.trade_fee_numerator, self.trade_fee_denominator, RoundDirection::Ceiling),
            r matches Ok(f) ==> self.valid() ==> f <= amount,
    {
        calculate_fee(amount, self.trade_fee_numerator, self.trade_fee_denominator, RoundDirection::Ceiling)
    }

    /// The fee sent to the owner on a trade of `amount`, rounded up.
    pub fn owner_trading_fee(&self, amount: u64) -> (r: Result<u64, SwapError>)
        ensures
            r == fee_result(amount, self.owner_trade_fee_numerator, self.owner_trade_fee_denominator, RoundDirection::Ceiling),
            r matches Ok(f) ==> self.valid() ==> f <= amount,
    {
        calculate_fee(amount, self.owner_trade_fee_numerator, self.owner_trade_fee_denominator, RoundDirection::Ceiling)
    }

    /// The fee sent to the owner on a withdrawal of `amount` pool tokens, rounded up.
    pub fn owner_withdraw_fee(&self, amount: u64) -> (r: Result<u64, SwapError>)
        ensures
            r == fee_result(amount, self.owner_withdraw_fee_numerator, self.owner_withdraw_fee_denominator, RoundDirection::Ceiling),
            r matches Ok(f) ==> self.valid() ==> f <= amount,
    {
        calculate_fee(amount, self.owner_withdraw_fee_numerator, self.owner_withdraw_fee_denominator, RoundDirection::Ceiling)
    }

    /// The part of an owner fee passed on to a host, rounded down, so that it
    /// never exceeds the owner fee.
    pub fn host_fee(&self, owner_fee: u64) -> (r: Result<u64, SwapError>)
        ensures
            r == fee_result(owner_fee, self.host_fee_numerator, self.host_fee_denominator, RoundDirection::Floor),
            r matches Ok(f) ==> self.valid() ==> f <= owner_fee,
    {
        calculate_fee(owner_fee, self.host_fee_numerator, self.host_fee_denominator, RoundDirection::Floor)
    }
}

/// Whether `numerator / denominator` is a valid rate.
pub fn validate_fraction(numerator: u64, denominator: u64) -> (r: bool)
    ensures
        r == rate_valid(numerator, denominator),
{
    denominator != 0 && numerator <= denominator
}

} // verus!
