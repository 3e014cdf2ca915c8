use vstd::prelude::*;

use crate::curve::SwapCurve;
use crate::error::SwapError;
use crate::fees::Fees;

verus! {

/// The value of bytes read least significant first.
pub open spec fn le_value(s: Seq<u8>) -> nat
    decreases s.len(),
{
    if s.len() == 0 {
        0
    } else {
        s[0] as nat + 256 * le_value(s.drop_first())
    }
}

/// `256` to the power `n`.
pub open spec fn pow256(n: nat) -> nat
    decreases n,
{
    if n == 0 {
        1
    } else {
        256 * pow256((n - 1) as nat)
    }
}

/// `n` little-endian bytes hold less than `256^n`.
pub proof fn lemma_le_value_bound(s: Seq<u8>)
    ensures
        le_value(s) < pow256(s.len()),
    decreases s.len(),
{
    if s.len() > 0 {
        lemma_le_value_bound(s.drop_first());
        let r = le_value(s.drop_first());
        let p = pow256((s.len() - 1) as nat);
        assert(s[0] as nat + 256 * r < 256 * p) by (nonlinear_arith)
            requires
                r < p,
                s[0] < 256,
        ;
    }
}

/// Reads the little-endian `u64` at `offset`, if the input holds eight bytes there.
pub fn read_u64(input: &[u8], offset: usize) -> (r: Option<u64>)
    ensures
        r is Some <==> offset + 8 <= input@.len(),
        r matches Some(v) ==> v == le_value(input@.subrange(offset as int, offset + 8)),
{
    if offset > input.len() || input.len() - offset < 8 {
        return None;
    }
    let mut v: u64 = 0;
    let mut i: usize = 8;
    proof {
        reveal_with_fuel(pow256, 9);
        assert(input@.subrange(offset + 8, offset + 8) =~= Seq::<u8>::empty());
    }
    while i > 0
        invariant
            i <= 8,
            offset + 8 <= input@.len(),
            offset + 8 <= input.len(),
            v == le_value(input@.subrange(offset + i, offset + 8)),
            pow256(8) == 0x1_0000_0000_0000_0000,
            pow256(7) == 0x100_0000_0000_0000,
        decreases i,
    {
        let b = input[offset + i - 1];
        proof {
            let s = input@.subrange(offset + i - 1, offset + 8);
            assert(s.drop_first() =~= input@.subrange(offset + i, offset + 8));
            lemma_le_value_bound(input@.subrange(offset + i, offset + 8));
            lemma_pow256_mono((8 - i) as nat, 7);
            assert(v * 256 + b < 0x1_0000_0000_0000_0000) by (nonlinear_arith)
                requires
                    v < pow256((8 - i) as nat),
                    pow256((8 - i) as nat) <= 0x100_0000_0000_0000,
                    b < 256,
            ;
        }
        v = v * 256 + b as u64;
        i = i - 1;
    }
    Some(v)
}

/// Powers of 256 grow with the exponent.
pub proof fn lemma_pow256_mono(a: nat, b: nat)
    requires
        a <= b,
    ensures
        pow256(a) <= pow256(b),
    decreases b,
{
    if a < b {
        lemma_pow256_mono(a, (b - 1) as nat);
    }
}

/// An instruction to the pool, decoded.
#[derive(Clone, Copy, Debug, Eq, PartialEq, Structural)]
pub enum SwapInstruction {
    /// Creates a pool with the given fees and curve.
    Initialize { fees: Fees, swap_curve: SwapCurve },
    /// Trades `amount_in` for at least `minimum_amount_out`.
    Swap { amount_in: u64, minimum_amount_out: u64 },
    /// Deposits both tokens for `pool_token_amount` pool tokens.
    DepositAllTokenTypes { pool_token_amount: u64, maximum_token_a_amount: u64, maximum_token_b_amount: u64 },
    /// Withdraws both tokens for `pool_token_amount` pool tokens.
    WithdrawAllTokenTypes { pool_token_amount: u64, minimum_token_a_amount: u64, minimum_token_b_amount: u64 },
    /// Deposits one token only.
    DepositSingleTokenTypeExactAmountIn { source_token_amount: u64, minimum_pool_token_amount: u64 },
    /// Withdraws one token only.
    WithdrawSingleTokenTypeExactAmountOut { destination_token_amount: u64, maximum_pool_token_amount: u64 },
}

/// Bytes an initialization carries after its tag: eight fee words, the curve
/// type and 32 bytes of curve parameters.
pub const INITIALIZE_LEN: usize = 97;

/// The `k`-th little-endian word after the tag byte.
pub open spec fn word(s: Seq<u8>, k: int) -> u64 {
    le_value(s.subrange(1 + 8 * k, 9 + 8 * k)) as u64
}

/// The curve that type byte `t` and the parameter word starting at byte 66 name.
pub open spec fn curve_of(s: Seq<u8>) -> Result<SwapCurve, SwapError> {
    let t = s[65];
    let param = le_value(s.subrange(66, 74)) as u64;
    if t == 0 {
        Ok(SwapCurve::ConstantProduct)
    } else if t == 1 {
        Ok(SwapCurve::ConstantPrice { token_b_price: param })
    } else if t == 2 {
        Ok(SwapCurve::Stable { amp: param })
    } else if t == 3 {
        Ok(SwapCurve::Offset { token_b_offset: param })
    } else {
        Err(SwapError::UnsupportedCurveType)
    }
}

/// The instruction that `s` encodes: a tag byte, then its fields as little-endian
/// words, with no byte more or less.
pub open spec fn unpack_spec(s: Seq<u8>) -> Result<SwapInstruction, SwapError> {
    if s.len() == 0 {
        Err(SwapError::InvalidInstruction)
    } else if s[0] == 0 {
        if s.len() != 1 + INITIALIZE_LEN {
            Err(SwapError::InvalidInstruction)
        } else {
            match curve_of(s) {
                Err(e) => Err(e),
                Ok(swap_curve) => Ok(SwapInstruction::Initialize {
                    fees: Fees {
                        trade_fee_numerator: word(s, 0),
                        trade_fee_denominator: word(s, 1),
                        owner_trade_fee_numerator: word(s, 2),
                        owner_trade_fee_denominator: word(s, 3),
                        owner_withdraw_fee_numerator: word(s, 4),
                        owner_withdraw_fee_denominator: word(s, 5),
                        host_fee_numerator: word(s, 6),
                        host_fee_denominator: word(s, 7),
                    },
                    swap_curve,
                }),
            }
        }
    } else if s[0] == 1 || s[0] == 4 || s[0] == 5 {
        if s.len() != 17 {
            Err(SwapError::InvalidInstruction)
        } else if s[0] == 1 {
            Ok(SwapInstruction::Swap { amount_in: word(s, 0), minimum_amount_out: word(s, 1) })
        } else if s[0] == 4 {
            Ok(SwapInstruction::DepositSingleTokenTypeExactAmountIn {
                source_token_amount: word(s, 0),
                minimum_pool_token_amount: word(s, 1),
            })
        } else {
            Ok(SwapInstruction::WithdrawSingleTokenTypeExactAmountOut {
                destination_token_amount: word(s, 0),
                maximum_pool_token_amount: word(s, 1),
            })
        }
    } else if s[0] == 2 || s[0] == 3 {
        if s.len() != 25 {
            Err(SwapError::InvalidInstruction)
        } else if s[0] == 2 {
            Ok(SwapInstruction::DepositAllTokenTypes {
                pool_token_amount: word(s, 0),
                maximum_token_a_amount: word(s, 1),
                maximum_token_b_amount: word(s, 2),
            })
        } else {
            Ok(SwapInstruction::WithdrawAllTokenTypes {
                pool_token_amount: word(s, 0),
                minimum_token_a_amount: word(s, 1),
                minimum_token_b_amount: word(s, 2),
            })
        }
    } else {
        Err(SwapError::InvalidInstruction)
    }
}

fn word_exec(input: &[u8], k: usize) -> (r: u64)
    requires
        9 + 8 * k <= input@.len(),
    ensures
        r == word(input@, k as int),
{
    assert(input@.len() == input.len());
    match read_u64(input, 1 + 8 * k) {
        Some(v) => v,
        None => 0,
    }
}

impl SwapInstruction {
    /// Decodes an instruction; `InvalidInstruction` for an unknown tag or a wrong
    /// length, `UnsupportedCurveType` for an unknown curve type.
    pub fn unpack(input: &[u8]) -> (r: Result<SwapInstruction, SwapError>)
        ensures
            r == unpack_spec(input@),
    {
        if input.len() == 0 {
            return Err(SwapError::InvalidInstruction);
        }
        let tag = input[0];
        if tag == 0 {
            if input.len() != 1 + INITIALIZE_LEN {
                return Err(SwapError::InvalidInstruction);
            }
            let param = match read_u64(input, 66) {
                Some(v) => v,
                None => 0,
            };
            let t = input[65];
            let swap_curve = if t == 0 {
                SwapCurve::ConstantProduct
            } else if t == 1 {
                SwapCurve::ConstantPrice { token_b_price: param }
            } else if t == 2 {
                SwapCurve::Stable { amp: param }
            } else if t == 3 {
                SwapCurve::Offset { token_b_offset: param }
            } else {
                return Err(SwapError::UnsupportedCurveType);
            };
            let fees = Fees {
                trade_fee_numerator: word_exec(input, 0),
                trade_fee_denominator: word_exec(input, 1),
                owner_trade_fee_numerator: word_exec(input, 2),
                owner_trade_fee_denominator: word_exec(input, 3),
                owner_withdraw_fee_numerator: word_exec(input, 4),
                owner_withdraw_fee_denominator: word_exec(input, 5),
                host_fee_numerator: word_exec(input, 6),
                host_fee_denominator: word_exec(input, 7),
            };
            Ok(SwapInstruction::Initialize { fees, swap_curve })
        } else if tag == 1 || tag == 4 || tag == 5 {
            if input.len() != 17 {
                return Err(SwapError::InvalidInstruction);
            }
            let a = word_exec(input, 0);
            let b = word_exec(input, 1);
            if tag == 1 {
                Ok(SwapInstruction::Swap { amount_in: a, minimum_amount_out: b })
            } else if tag == 4 {
                Ok(SwapInstruction::DepositSingleTokenTypeExactAmountIn { source_token_amount: a, minimum_pool_token_amount: b })
            } else {
                Ok(SwapInstruction::WithdrawSingleTokenTypeExactAmountOut { destination_token_amount: a, maximum_pool_token_amount: b })
            }
        } else if tag == 2 || tag == 3 {
            if input.len() != 25 {
                return Err(SwapError::InvalidInstruction);
            }
            let a = word_exec(input, 0);
            let b = word_exec(input, 1);
            let c = word_exec(input, 2);
            if tag == 2 {
                Ok(SwapInstruction::DepositAllTokenTypes { pool_token_amount: a, maximum_token_a_amount: b, maximum_token_b_amount: c })
            } else {
                Ok(SwapInstruction::WithdrawAllTokenTypes { pool_token_amount: a, minimum_token_a_amount: b, minimum_token_b_amount: c })
            }
        } else {
            Err(SwapError::InvalidInstruction)
        }
    }
}

} // verus!
