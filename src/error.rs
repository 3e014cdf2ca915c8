use vstd::prelude::*;

verus! {

/// Number of distinct error kinds; their codes are `0..ERROR_COUNT`.
pub const ERROR_COUNT: u32 = 29;

/// Errors that a swap pool operation may return.
#[derive(Clone, Copy, Debug, Eq, PartialEq, Structural)]
pub enum SwapError {
    /// The account cannot be initialized because it is already being used.
    AlreadyInUse,
    /// The program address provided doesn't match the value generated by the program.
    InvalidProgramAddress,
    /// The owner of the input isn't set to the program address generated by the program.
    InvalidOwner,
    /// The owner of the pool token output is set to the program address generated by the program.
    InvalidOutputOwner,
    /// The deserialization of the account returned something besides a mint.
    ExpectedMint,
    /// The account cannot be updated because it is not being used.
    NotBeInitialized,
    /// The deserialization of the account returned something besides a token account.
    ExpectedAccount,
    /// The input token account is empty.
    EmptySupply,
    /// The pool token mint has a non-zero supply.
    InvalidSupply,
    /// The provided token account has a delegate.
    InvalidDelegate,
    /// The input token is invalid for swap.
    InvalidInput,
    /// Address of the provided swap token account is incorrect.
    IncorrectSwapAccount,
    /// Address of the provided pool token mint is incorrect.
    IncorrectPoolMint,
    /// The output token is invalid for swap.
    InvalidOutput,
    /// General calculation failure due to overflow or underflow.
    CalculationFailure,
    /// Invalid instruction number passed in.
    InvalidInstruction,
    /// Swap input token accounts have the same mint.
    RepeatedMint,
    /// Swap instruction exceeds desired slippage limit.
    ExceededSlippage,
    /// The provided token account has a close authority.
    InvalidCloseAuthority,
    /// The pool token mint has a freeze authority.
    InvalidFreezeAuthority,
    /// The pool fee token account is incorrect.
    IncorrectFeeAccount,
    /// Given pool token amount results in zero trading tokens.
    ZeroTradingTokens,
    /// The fee calculation failed due to overflow, underflow, or unexpected 0.
    FeeCalculationFailure,
    /// Conversion to u64 failed with an overflow or underflow.
    ConversionFailure,
    /// The provided fee does not match the program owner's constraints.
    InvalidFee,
    /// The provided token program does not match the token program expected by the swap.
    IncorrectTokenProgramId,
    /// The provided curve type is not supported by the program owner.
    UnsupportedCurveType,
    /// The provided curve parameters are invalid.
    InvalidCurve,
    /// The operation cannot be performed on the given curve.
    UnsupportedCurveOperation,
}

/// The stable numeric code of an error, as surfaced to callers.
pub open spec fn error_code(e: SwapError) -> u32 {
    match e {
        SwapError::AlreadyInUse => 0,
        SwapError::InvalidProgramAddress => 1,
        SwapError::InvalidOwner => 2,
        SwapError::InvalidOutputOwner => 3,
        SwapError::ExpectedMint => 4,
        SwapError::NotBeInitialized => 5,
        SwapError::ExpectedAccount => 6,
        SwapError::EmptySupply => 7,
        SwapError::InvalidSupply => 8,
        SwapError::InvalidDelegate => 9,
        SwapError::InvalidInput => 10,
        SwapError::IncorrectSwapAccount => 11,
        SwapError::IncorrectPoolMint => 12,
        SwapError::InvalidOutput => 13,
        SwapError::CalculationFailure => 14,
        SwapError::InvalidInstruction => 15,
        SwapError::RepeatedMint => 16,
        SwapError::ExceededSlippage => 17,
        SwapError::InvalidCloseAuthority => 18,
        SwapError::InvalidFreezeAuthority => 19,
        SwapError::IncorrectFeeAccount => 20,
        SwapError::ZeroTradingTokens => 21,
        SwapError::FeeCalculationFailure => 22,
        SwapError::ConversionFailure => 23,
        SwapError::InvalidFee => 24,
        SwapError::IncorrectTokenProgramId => 25,
        SwapError::UnsupportedCurveType => 26,
        SwapError::InvalidCurve => 27,
        SwapError::UnsupportedCurveOperation => 28,
    }
}

impl SwapError {
    /// The stable numeric code of this error.
    pub fn code(&self) -> (r: u32)
        ensures
            r == error_code(*self),
            r < ERROR_COUNT,
    {
        match self {
            SwapError::AlreadyInUse => 0,
            SwapError::InvalidProgramAddress => 1,
            SwapError::InvalidOwner => 2,
            SwapError::InvalidOutputOwner => 3,
            SwapError::ExpectedMint => 4,
            SwapError::NotBeInitialized => 5,
            SwapError::ExpectedAccount => 6,
            SwapError::EmptySupply => 7,
            SwapError::InvalidSupply => 8,
            SwapError::InvalidDelegate => 9,
            SwapError::InvalidInput => 10,
            SwapError::IncorrectSwapAccount => 11,
            SwapError::IncorrectPoolMint => 12,
            SwapError::InvalidOutput => 13,
            SwapError::CalculationFailure => 14,
            SwapError::InvalidInstruction => 15,
            SwapError::RepeatedMint => 16,
            SwapError::ExceededSlippage => 17,
            SwapError::InvalidCloseAuthority => 18,
            SwapError::InvalidFreezeAuthority => 19,
            SwapError::IncorrectFeeAccount => 20,
            SwapError::ZeroTradingTokens => 21,
            SwapError::FeeCalculationFailure => 22,
            SwapError::ConversionFailure => 23,
            SwapError::InvalidFee => 24,
            SwapError::IncorrectTokenProgramId => 25,
            SwapError::UnsupportedCurveType => 26,
            SwapError::InvalidCurve => 27,
            SwapError::UnsupportedCurveOperation => 28,
        }
    }

    /// The error whose code is `code`, if any.
    pub fn from_code(code: u32) -> (r: Option<SwapError>)
        ensures
            code < ERROR_COUNT <==> r is Some,
            r matches Some(e) ==> error_code(e) == code,
    {
        match code {
            0 => Some(SwapError::AlreadyInUse),
            1 => Some(SwapError::InvalidProgramAddress),
            2 => Some(SwapError::InvalidOwner),
            3 => Some(SwapError::InvalidOutputOwner),
            4 => Some(SwapError::ExpectedMint),
            5 => Some(SwapError::NotBeInitialized),
            6 => Some(SwapError::ExpectedAccount),
            7 => Some(SwapError::EmptySupply),
            8 => Some(SwapError::InvalidSupply),
            9 => Some(SwapError::InvalidDelegate),
            10 => Some(SwapError::InvalidInput),
            11 => Some(SwapError::IncorrectSwapAccount),
            12 => Some(SwapError::IncorrectPoolMint),
            13 => Some(SwapError::InvalidOutput),
            14 => Some(SwapError::CalculationFailure),
            15 => Some(SwapError::InvalidInstruction),
            16 => Some(SwapError::RepeatedMint),
            17 => Some(SwapError::ExceededSlippage),
            18 => Some(SwapError::InvalidCloseAuthority),
            19 => Some(SwapError::InvalidFreezeAuthority),
            20 => Some(SwapError::IncorrectFeeAccount),
            21 => Some(SwapError::ZeroTradingTokens),
            22 => Some(SwapError::FeeCalculationFailure),
            23 => Some(SwapError::ConversionFailure),
            24 => Some(SwapError::InvalidFee),
            25 => Some(SwapError::IncorrectTokenProgramId),
            26 => Some(SwapError::UnsupportedCurveType),
            27 => Some(SwapError::InvalidCurve),
            28 => Some(SwapError::UnsupportedCurveOperation),
            _ => None,
        }
    }

}

/// Decoding the code of an error gives back that error.
pub proof fn lemma_code_round_trip(e: SwapError)
    ensures
        error_code(e) < ERROR_COUNT,
        forall|f: SwapError| error_code(f) == error_code(e) ==> f == e,
{
}

} // verus!
