use token_swap::curve::{SwapCurve, TradeDirection};
use token_swap::error::SwapError;
use token_swap::fees::{calculate_fee, validate_fraction, Fees};
use token_swap::math::{checked_div_round, sqrt, RoundDirection};
use token_swap::stable::{compute_d, compute_new_destination};

fn fees_with_trade(num: u64, den: u64) -> Fees {
    Fees {
        trade_fee_numerator: num,
        trade_fee_denominator: den,
        owner_trade_fee_numerator: 0,
        owner_trade_fee_denominator: 1,
        owner_withdraw_fee_numerator: 0,
        owner_withdraw_fee_denominator: 1,
        host_fee_numerator: 0,
        host_fee_denominator: 1,
    }
}

#[test]
fn constant_product_swap_of_100_yields_90() {
    let curve = SwapCurve::ConstantProduct;
    assert_eq!(curve.swap_without_fees(100, 1000, 1000, TradeDirection::AtoB), Ok(90));
    let res = curve.swap(100, 1000, 1000, TradeDirection::AtoB, &fees_with_trade(0, 1)).unwrap();
    assert_eq!(res.destination_amount_swapped, 90);
    assert_eq!(res.new_swap_source_amount, 1100);
    assert_eq!(res.new_swap_destination_amount, 910);
    assert_eq!(res.trade_fee, 0);
}

#[test]
fn trade_fee_taken_before_pricing() {
    let fees = fees_with_trade(3, 1000);
    assert_eq!(fees.trading_fee(1000), Ok(3));
    let curve = SwapCurve::ConstantProduct;
    for _ in 0..3 {
        let res = curve.swap(1000, 1_000_000, 1_000_000, TradeDirection::AtoB, &fees).unwrap();
        assert_eq!(res.trade_fee, 3);
        assert_eq!(res.destination_amount_swapped, 996);
        assert_eq!(curve.swap_without_fees(997, 1_000_000, 1_000_000, TradeDirection::AtoB), Ok(996));
    }
}

#[test]
fn constant_product_never_lowers_product() {
    let curve = SwapCurve::ConstantProduct;
    let fees = Fees {
        trade_fee_numerator: 25,
        trade_fee_denominator: 10000,
        owner_trade_fee_numerator: 5,
        owner_trade_fee_denominator: 10000,
        owner_withdraw_fee_numerator: 0,
        owner_withdraw_fee_denominator: 1,
        host_fee_numerator: 20,
        host_fee_denominator: 100,
    };
    for (amount, src, dst) in [(1u64, 7u64, 13u64), (100, 1000, 1000), (12345, 99999, 3), (50, 1, 1_000_000)] {
        if let Ok(res) = curve.swap(amount, src, dst, TradeDirection::BtoA, &fees) {
            let before = src as u128 * dst as u128;
            let after = res.new_swap_source_amount as u128 * res.new_swap_destination_amount as u128;
            assert!(after >= before);
        }
    }
}

#[test]
fn swap_with_nothing_out_fails() {
    let curve = SwapCurve::ConstantProduct;
    assert_eq!(
        curve.swap(1, 1000, 1000, TradeDirection::AtoB, &fees_with_trade(0, 1)),
        Err(SwapError::ZeroTradingTokens)
    );
}

#[test]
fn constant_price_swaps() {
    let curve = SwapCurve::ConstantPrice { token_b_price: 4 };
    assert_eq!(curve.swap_without_fees(10, 100, 100, TradeDirection::AtoB), Ok(2));
    assert_eq!(curve.swap_without_fees(10, 100, 100, TradeDirection::BtoA), Ok(40));
    assert_eq!(
        curve.swap(30, 100, 100, TradeDirection::BtoA, &fees_with_trade(0, 1)),
        Err(SwapError::CalculationFailure)
    );
}

#[test]
fn offset_swaps() {
    let curve = SwapCurve::Offset { token_b_offset: 1000 };
    assert_eq!(curve.swap_without_fees(100, 0, 1000, TradeDirection::BtoA), Ok(90));
    assert_eq!(
        curve.swap(100, 1000, 0, TradeDirection::AtoB, &fees_with_trade(0, 1)),
        Err(SwapError::CalculationFailure)
    );
    assert!(!curve.allows_deposits());
    assert_eq!(curve.validate_supply(10, 0), Ok(()));
    assert_eq!(SwapCurve::ConstantProduct.validate_supply(10, 0), Err(SwapError::EmptySupply));
}

#[test]
fn stable_swap_solves() {
    let curve = SwapCurve::Stable { amp: 100 };
    assert_eq!(compute_d(400, 1000, 1000), Some(2000));
    assert_eq!(compute_new_destination(400, 1100, 2000), Some(900));
    assert_eq!(curve.swap_without_fees(100, 1000, 1000, TradeDirection::AtoB), Ok(100));
    assert_eq!(curve.swap_without_fees(100_000, 1_000_000, 1_000_000, TradeDirection::AtoB), Ok(99_950));
    assert_eq!(compute_d(400, 0, 0), Some(0));
    assert_eq!(compute_d(400, 0, 10), None);
}

#[test]
fn curve_validation() {
    assert_eq!(SwapCurve::ConstantProduct.validate(), Ok(()));
    assert_eq!(SwapCurve::ConstantPrice { token_b_price: 0 }.validate(), Err(SwapError::InvalidCurve));
    assert_eq!(SwapCurve::Offset { token_b_offset: 0 }.validate(), Err(SwapError::InvalidCurve));
    assert_eq!(SwapCurve::Stable { amp: 0 }.validate(), Err(SwapError::InvalidCurve));
    assert_eq!(SwapCurve::Stable { amp: 1_000_001 }.validate(), Err(SwapError::InvalidCurve));
    assert_eq!(SwapCurve::Stable { amp: 1_000_000 }.validate(), Ok(()));
}

#[test]
fn deposit_then_withdraw_returns_no_more() {
    let curve = SwapCurve::ConstantProduct;
    let paid = curve.pool_tokens_to_trading_tokens(10, 1000, 1001, 2003, RoundDirection::Ceiling).unwrap();
    assert_eq!((paid.token_a_amount, paid.token_b_amount), (11, 21));
    let back = curve
        .pool_tokens_to_trading_tokens(10, 1010, 1001 + 11, 2003 + 21, RoundDirection::Floor)
        .unwrap();
    assert_eq!((back.token_a_amount, back.token_b_amount), (10, 20));
    assert!(back.token_a_amount <= paid.token_a_amount && back.token_b_amount <= paid.token_b_amount);
}

#[test]
fn pool_tokens_to_trading_tokens_errors() {
    let curve = SwapCurve::ConstantProduct;
    assert_eq!(
        curve.pool_tokens_to_trading_tokens(1, 1000, 10, 10, RoundDirection::Floor),
        Err(SwapError::ZeroTradingTokens)
    );
    assert_eq!(
        curve.pool_tokens_to_trading_tokens(1, 0, 10, 10, RoundDirection::Floor),
        Err(SwapError::CalculationFailure)
    );
    assert_eq!(
        curve.pool_tokens_to_trading_tokens(u64::MAX, 1, 2, 2, RoundDirection::Floor),
        Err(SwapError::ConversionFailure)
    );
}

#[test]
fn single_sided_deposit_and_withdraw() {
    let curve = SwapCurve::ConstantProduct;
    let fees = fees_with_trade(0, 1);
    assert_eq!(curve.deposit_single_token_type(21, 1000, 1000, &fees), Ok(10));
    assert_eq!(curve.withdraw_single_token_type_exact_out(19, 1000, 1000, &fees), Ok(10));
    assert_eq!(curve.withdraw_single_token_type_exact_out(1001, 1000, 1000, &fees), Err(SwapError::CalculationFailure));
    assert_eq!(
        SwapCurve::Offset { token_b_offset: 5 }.deposit_single_token_type(21, 1000, 1000, &fees),
        Err(SwapError::UnsupportedCurveOperation)
    );
    // a penalty of the trading fee on half the amount on other curves
    let price = SwapCurve::ConstantPrice { token_b_price: 1 };
    assert_eq!(price.deposit_single_token_type(22, 1000, 1000, &fees_with_trade(1, 11)), Ok(10));
}

#[test]
fn fee_rounding_and_validation() {
    assert_eq!(calculate_fee(1000, 3, 1000, RoundDirection::Ceiling), Ok(3));
    assert_eq!(calculate_fee(1001, 3, 1000, RoundDirection::Ceiling), Ok(4));
    assert_eq!(calculate_fee(1001, 3, 1000, RoundDirection::Floor), Ok(3));
    assert_eq!(calculate_fee(5, 1, 0, RoundDirection::Floor), Err(SwapError::FeeCalculationFailure));
    assert_eq!(calculate_fee(u64::MAX, 3, 1, RoundDirection::Floor), Err(SwapError::FeeCalculationFailure));
    assert!(validate_fraction(0, 1));
    assert!(!validate_fraction(0, 0));
    assert!(!validate_fraction(2, 1));
    assert_eq!(fees_with_trade(2, 1).validate(), Err(SwapError::InvalidFee));
    assert_eq!(fees_with_trade(1, 1).validate(), Ok(()));
    let f = Fees { host_fee_numerator: 1, host_fee_denominator: 3, ..fees_with_trade(0, 1) };
    assert_eq!(f.host_fee(10), Ok(3));
}

#[test]
fn math_helpers() {
    assert_eq!(sqrt(0), 0);
    assert_eq!(sqrt(15), 3);
    assert_eq!(sqrt(16), 4);
    assert_eq!(sqrt(u128::MAX), u64::MAX);
    assert_eq!(checked_div_round(7, 2, RoundDirection::Ceiling), Some(4));
    assert_eq!(checked_div_round(7, 2, RoundDirection::Floor), Some(3));
    assert_eq!(checked_div_round(7, 0, RoundDirection::Floor), None);
}
