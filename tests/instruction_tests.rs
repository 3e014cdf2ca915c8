use token_swap::curve::SwapCurve;
use token_swap::error::SwapError;
use token_swap::instruction::{read_u64, SwapInstruction};

fn words(tag: u8, ws: &[u64]) -> Vec<u8> {
    let mut v = vec![tag];
    for w in ws {
        v.extend_from_slice(&w.to_le_bytes());
    }
    v
}

#[test]
fn reads_little_endian_words() {
    let b = [1u8, 2, 3, 4, 5, 6, 7, 8, 9];
    assert_eq!(read_u64(&b, 0), Some(0x0807060504030201));
    assert_eq!(read_u64(&b, 1), Some(0x0908070605040302));
    assert_eq!(read_u64(&b, 2), None);
    assert_eq!(read_u64(&[0xff; 8], 0), Some(u64::MAX));
}

#[test]
fn unpacks_swap_and_liquidity() {
    assert_eq!(
        SwapInstruction::unpack(&words(1, &[100, 90])),
        Ok(SwapInstruction::Swap { amount_in: 100, minimum_amount_out: 90 })
    );
    assert_eq!(
        SwapInstruction::unpack(&words(2, &[10, 11, 12])),
        Ok(SwapInstruction::DepositAllTokenTypes {
            pool_token_amount: 10,
            maximum_token_a_amount: 11,
            maximum_token_b_amount: 12
        })
    );
    assert_eq!(
        SwapInstruction::unpack(&words(3, &[10, 1, 2])),
        Ok(SwapInstruction::WithdrawAllTokenTypes {
            pool_token_amount: 10,
            minimum_token_a_amount: 1,
            minimum_token_b_amount: 2
        })
    );
    assert_eq!(
        SwapInstruction::unpack(&words(4, &[5, 6])),
        Ok(SwapInstruction::DepositSingleTokenTypeExactAmountIn { source_token_amount: 5, minimum_pool_token_amount: 6 })
    );
    assert_eq!(
        SwapInstruction::unpack(&words(5, &[5, 6])),
        Ok(SwapInstruction::WithdrawSingleTokenTypeExactAmountOut {
            destination_token_amount: 5,
            maximum_pool_token_amount: 6
        })
    );
}

#[test]
fn unpacks_initialize() {
    let mut v = words(0, &[1, 2, 3, 4, 5, 6, 7, 8]);
    v.push(2);
    v.extend_from_slice(&100u64.to_le_bytes());
    v.extend_from_slice(&[0u8; 24]);
    match SwapInstruction::unpack(&v) {
        Ok(SwapInstruction::Initialize { fees, swap_curve }) => {
            assert_eq!(fees.trade_fee_numerator, 1);
            assert_eq!(fees.host_fee_denominator, 8);
            assert_eq!(swap_curve, SwapCurve::Stable { amp: 100 });
        },
        other => panic!("unexpected {:?}", other),
    }
    v[65] = 9;
    assert_eq!(SwapInstruction::unpack(&v), Err(SwapError::UnsupportedCurveType));
}

#[test]
fn rejects_malformed_instructions() {
    assert_eq!(SwapInstruction::unpack(&[]), Err(SwapError::InvalidInstruction));
    assert_eq!(SwapInstruction::unpack(&[6]), Err(SwapError::InvalidInstruction));
    assert_eq!(SwapInstruction::unpack(&words(1, &[1])), Err(SwapError::InvalidInstruction));
    let mut long = words(1, &[1, 2]);
    long.push(0);
    assert_eq!(SwapInstruction::unpack(&long), Err(SwapError::InvalidInstruction));
}
