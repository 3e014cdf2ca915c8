use token_swap::error::{SwapError, ERROR_COUNT};

#[test]
fn error_codes_round_trip() {
    for code in 0..ERROR_COUNT {
        let e = SwapError::from_code(code).unwrap();
        assert_eq!(e.code(), code);
    }
    assert_eq!(SwapError::from_code(ERROR_COUNT), None);
    assert_eq!(SwapError::AlreadyInUse.code(), 0);
    assert_eq!(SwapError::UnsupportedCurveOperation.code(), 28);
    assert_eq!(SwapError::ExceededSlippage.code(), 17);
}
