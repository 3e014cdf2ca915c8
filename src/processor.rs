use vstd::prelude::*;

use crate::authority::{create_program_address, program_address};
use crate::constraints::{constraints_result, validate_constraints, SwapConstraints};
use crate::curve::{SwapCurve, TradeDirection};
use crate::error::SwapError;
use crate::fees::Fees;
use crate::state::{is_set, same_address, Address, Mint, SwapPool, TokenAccount};

verus! {

/// Pool tokens minted to the depositor when a pool is created.
pub const INITIAL_SWAP_POOL_AMOUNT: u64 = 1_000_000_000;

/// The bytes of an optional address.
pub open spec fn opt_view(o: Option<Address>) -> Option<Seq<u8>> {
    match o {
        Some(k) => Some(k@),
        None => None,
    }
}

/// `derived` is the authority that the program derives, and it is `authority`.
pub open spec fn authority_matches(derived: Option<Seq<u8>>, authority: Address) -> bool {
    derived == Some(authority@)
}

/// `o` is set to `a`.
pub open spec fn holds(o: Option<Address>, a: Address) -> bool {
    o matches Some(k) && k@ == a@
}

/// Checks that the supplied authority is the derived one; `InvalidProgramAddress`
/// otherwise, also when no authority could be derived.
pub fn check_authority(derived: &Option<Address>, authority: &Address) -> (r: Result<(), SwapError>)
    ensures
        r is Ok <==> authority_matches(opt_view(*derived), *authority),
        r is Err ==> r == Err::<(), SwapError>(SwapError::InvalidProgramAddress),
{
    match derived {
        Some(k) => {
            if same_address(k, authority) {
                Ok(())
            } else {
                Err(SwapError::InvalidProgramAddress)
            }
        },
        None => Err(SwapError::InvalidProgramAddress),
    }
}

fn holds_exec(o: &Option<Address>, a: &Address) -> (r: bool)
    ensures
        r == holds(*o, *a),
{
    match o {
        Some(k) => same_address(k, a),
        None => false,
    }
}

/// The accounts that pool creation reads.
#[derive(Clone, Copy, Debug)]
pub struct InitializeAccounts {
    /// Address of the pool record.
    pub swap: Address,
    /// The authority the caller claims for the pool.
    pub authority: Address,
    /// Reserve of token A.
    pub token_a: TokenAccount,
    /// Reserve of token B.
    pub token_b: TokenAccount,
    /// Mint of the pool token.
    pub pool_mint: Mint,
    /// Account for the owner's fees.
    pub fee_account: TokenAccount,
    /// Account that receives the initial pool tokens.
    pub destination: TokenAccount,
    /// The token program the caller supplies.
    pub token_program_id: Address,
}

/// The checks of pool creation on the supplied accounts, in the order they are made.
pub open spec fn initialize_account_checks(current: SwapPool, derived: Option<Seq<u8>>, acc: InitializeAccounts) -> Result<(), SwapError> {
    let p = acc.token_program_id@;
    if current.is_initialized {
        Err(SwapError::AlreadyInUse)
    } else if acc.token_a.program@ != p || acc.token_b.program@ != p || acc.pool_mint.program@ != p
        || acc.fee_account.program@ != p || acc.destination.program@ != p {
        Err(SwapError::IncorrectTokenProgramId)
    } else if !authority_matches(derived, acc.authority) {
        Err(SwapError::InvalidProgramAddress)
    } else if acc.token_a.owner@ != acc.authority@ || acc.token_b.owner@ != acc.authority@
        || !holds(acc.pool_mint.mint_authority, acc.authority) {
        Err(SwapError::InvalidOwner)
    } else if acc.fee_account.owner@ == acc.authority@ || acc.destination.owner@ == acc.authority@ {
        Err(SwapError::InvalidOutputOwner)
    } else if acc.token_a.mint@ == acc.token_b.mint@ || acc.token_a.address@ == acc.token_b.address@ {
        Err(SwapError::RepeatedMint)
    } else if acc.fee_account.mint@ != acc.pool_mint.address@ || acc.destination.mint@ != acc.pool_mint.address@ {
        Err(SwapError::IncorrectPoolMint)
    } else if acc.token_a.delegate is Some || acc.token_b.delegate is Some {
        Err(SwapError::InvalidDelegate)
    } else if acc.token_a.close_authority is Some || acc.token_b.close_authority is Some {
        Err(SwapError::InvalidCloseAuthority)
    } else {
        Ok(())
    }
}

/// All checks of pool creation, in the order they are made: the accounts, the pool
/// mint's freeze authority, the curve, the fees, the supplies, then the deployment's
/// constraints if it has any.
pub open spec fn initialize_checks(current: SwapPool, derived: Option<Seq<u8>>, acc: InitializeAccounts, fees: Fees, curve: SwapCurve, constraints: Option<SwapConstraints>) -> Result<(), SwapError> {
    match initialize_account_checks(current, derived, acc) {
        Err(e) => Err(e),
        Ok(_) => if acc.pool_mint.freeze_authority is Some {
            Err(SwapError::InvalidFreezeAuthority)
        } else if !curve.valid() {
            Err(SwapError::InvalidCurve)
        } else if !fees.valid() {
            Err(SwapError::InvalidFee)
        } else if acc.pool_mint.supply != 0 {
            Err(SwapError::InvalidSupply)
        } else if !curve.supply_valid(acc.token_a.amount, acc.token_b.amount) {
            Err(SwapError::EmptySupply)
        } else {
            constraints_result(constraints, fees, curve)
        },
    }
}

/// The record written by pool creation.
pub open spec fn initialized_pool(acc: InitializeAccounts, bump_seed: u8, fees: Fees, curve: SwapCurve) -> SwapPool {
    SwapPool {
        is_initialized: true,
        bump_seed,
        token_program_id: acc.token_program_id,
        token_a: acc.token_a.address,
        token_b: acc.token_b.address,
        pool_mint: acc.pool_mint.address,
        token_a_mint: acc.token_a.mint,
        token_b_mint: acc.token_b.mint,
        pool_fee_account: acc.fee_account.address,
        fees,
        swap_curve: curve,
    }
}

/// What pool creation produces.
#[derive(Clone, Copy, Debug)]
pub struct InitializeOutcome {
    /// The record to store.
    pub pool: SwapPool,
    /// Pool tokens to mint to the destination account.
    pub pool_tokens_minted: u64,
}

/// Creates a pool from the supplied accounts, given the authority that the program
/// derives from the pool's address and `bump_seed`.
pub fn process_initialize(current: &SwapPool, derived_authority: &Option<Address>, accounts: &InitializeAccounts, bump_seed: u8, fees: Fees, swap_curve: SwapCurve, constraints: &Option<SwapConstraints>) -> (r: Result<InitializeOutcome, SwapError>)
    ensures
        r is Ok <==> initialize_checks(*current, opt_view(*derived_authority), *accounts, fees, swap_curve, *constraints) is Ok,
        r matches Err(e) ==> initialize_checks(*current, opt_view(*derived_authority), *accounts, fees, swap_curve, *constraints) == Err::<(), SwapError>(e),
        r matches Ok(o) ==> o.pool == initialized_pool(*accounts, bump_seed, fees, swap_curve)
            && o.pool_tokens_minted == INITIAL_SWAP_POOL_AMOUNT && o.pool.well_formed(),
{
    let acc = accounts;
    let p = &acc.token_program_id;
    if current.is_initialized {
        return Err(SwapError::AlreadyInUse);
    }
    if !same_address(&acc.token_a.program, p) || !same_address(&acc.token_b.program, p)
        || !same_address(&acc.pool_mint.program, p) || !same_address(&acc.fee_account.program, p)
        || !same_address(&acc.destination.program, p)
    {
        return Err(SwapError::IncorrectTokenProgramId);
    }
    check_authority(derived_authority, &acc.authority)?;
    if !same_address(&acc.token_a.owner, &acc.authority) || !same_address(&acc.token_b.owner, &acc.authority)
        || !holds_exec(&acc.pool_mint.mint_authority, &acc.authority)
    {
        return Err(SwapError::InvalidOwner);
    }
    if same_address(&acc.fee_account.owner, &acc.authority) || same_address(&acc.destination.owner, &acc.authority) {
        return Err(SwapError::InvalidOutputOwner);
    }
    if same_address(&acc.token_a.mint, &acc.token_b.mint) || same_address(&acc.token_a.address, &acc.token_b.address) {
        return Err(SwapError::RepeatedMint);
    }
    if !same_address(&acc.fee_account.mint, &acc.pool_mint.address)
        || !same_address(&acc.destination.mint, &acc.pool_mint.address)
    {
        return Err(SwapError::IncorrectPoolMint);
    }
    if is_set(&acc.token_a.delegate) || is_set(&acc.token_b.delegate) {
        return Err(SwapError::InvalidDelegate);
    }
    if is_set(&acc.token_a.close_authority) || is_set(&acc.token_b.close_authority) {
        return Err(SwapError::InvalidCloseAuthority);
    }
    if is_set(&acc.pool_mint.freeze_authority) {
        return Err(SwapError::InvalidFreezeAuthority);
    }
    swap_curve.validate()?;
    fees.validate()?;
    if acc.pool_mint.supply != 0 {
        return Err(SwapError::InvalidSupply);
    }
    swap_curve.validate_supply(acc.token_a.amount, acc.token_b.amount)?;
    validate_constraints(constraints, &fees, &swap_curve)?;
    let pool = SwapPool {
        is_initialized: true,
        bump_seed,
        token_program_id: acc.token_program_id,
        token_a: acc.token_a.address,
        token_b: acc.token_b.address,
        pool_mint: acc.pool_mint.address,
        token_a_mint: acc.token_a.mint,
        token_b_mint: acc.token_b.mint,
        pool_fee_account: acc.fee_account.address,
        fees,
        swap_curve,
    };
    Ok(InitializeOutcome { pool, pool_tokens_minted: INITIAL_SWAP_POOL_AMOUNT })
}

/// The accounts that a trade reads.
#[derive(Clone, Copy, Debug)]
pub struct SwapAccounts {
    /// The authority the caller claims for the pool.
    pub authority: Address,
    /// The trader's account that pays the source tokens.
    pub source: TokenAccount,
    /// The pool's reserve that receives them.
    pub swap_source: TokenAccount,
    /// The pool's reserve that pays out.
    pub swap_destination: TokenAccount,
    /// The trader's account that receives the payout.
    pub destination: TokenAccount,
    /// Mint of the pool token.
    pub pool_mint: Mint,
    /// Account for the owner's fees.
    pub pool_fee_account: TokenAccount,
    /// An account of a host that takes a share of the owner's fee, if any.
    pub host_fee_account: Option<TokenAccount>,
    /// The token program the caller supplies.
    pub token_program_id: Address,
}

/// Whether the two reserves named for a trade are the pool's, in either order.
pub open spec fn reserves_match(pool: SwapPool, a: Address, b: Address) -> bool {
    (a@ == pool.token_a@ && b@ == pool.token_b@) || (a@ == pool.token_b@ && b@ == pool.token_a@)
}

/// The checks of a trade before any amount is computed, in the order they are made.
pub open spec fn swap_checks(pool: SwapPool, derived: Option<Seq<u8>>, acc: SwapAccounts, amount_in: u64) -> Result<(), SwapError> {
    let p = pool.token_program_id@;
    if !pool.is_initialized {
        Err(SwapError::NotBeInitialized)
    } else if acc.token_program_id@ != p || acc.source.program@ != p || acc.swap_source.program@ != p
        || acc.swap_destination.program@ != p || acc.destination.program@ != p || acc.pool_mint.program@ != p
        || acc.pool_fee_account.program@ != p || (acc.host_fee_account matches Some(h) && h.program@ != p) {
        Err(SwapError::IncorrectTokenProgramId)
    } else if !authority_matches(derived, acc.authority) {
        Err(SwapError::InvalidProgramAddress)
    } else if !reserves_match(pool, acc.swap_source.address, acc.swap_destination.address) {
        Err(SwapError::IncorrectSwapAccount)
    } else if acc.source.address@ == acc.swap_source.address@ || acc.destination.address@ == acc.swap_destination.address@ {
        Err(SwapError::InvalidInput)
    } else if acc.source.mint@ == acc.destination.mint@ {
        Err(SwapError::RepeatedMint)
    } else if acc.pool_mint.address@ != pool.pool_mint@ || (acc.host_fee_account matches Some(h) && h.mint@ != pool.pool_mint@) {
        Err(SwapError::IncorrectPoolMint)
    } else if acc.pool_fee_account.address@ != pool.pool_fee_account@ {
        Err(SwapError::IncorrectFeeAccount)
    } else if amount_in > acc.source.amount {
        Err(SwapError::InvalidInput)
    } else {
        Ok(())
    }
}

/// The effects of a trade: what moves and what is minted.
#[derive(Clone, Copy, Debug, Eq, PartialEq, Structural)]
pub struct SwapEffects {
    /// Source tokens moved from the trader into the source reserve.
    pub amount_in: u64,
    /// Destination tokens moved from the destination reserve to the trader.
    pub amount_out: u64,
    /// Part of the source tokens kept by the pool as trading fee.
    pub trade_fee: u64,
    /// Part of the source tokens owed to the owner.
    pub owner_fee: u64,
    /// Pool tokens minted to the owner's fee account.
    pub pool_tokens_to_fee_account: u64,
    /// Pool tokens minted to the host's account.
    pub pool_tokens_to_host: u64,
    /// Source reserve after the trade.
    pub new_swap_source_amount: u64,
    /// Destination reserve after the trade.
    pub new_swap_destination_amount: u64,
}

/// The direction of a trade whose source reserve is `swap_source`.
pub open spec fn direction_of(pool: SwapPool, swap_source: Address) -> TradeDirection {
    if swap_source@ == pool.token_a@ {
        TradeDirection::AtoB
    } else {
        TradeDirection::BtoA
    }
}

/// Pool tokens that stand for an owner fee: what a single-sided deposit of the fee
/// into the source reserve would mint, or none where that deposit fails.
pub open spec fn owner_fee_pool_tokens(curve: SwapCurve, fees: Fees, owner_fee: u64, reserve: u64, supply: u64) -> u64 {
    if owner_fee == 0 {
        0
    } else {
        match crate::curve::single_deposit_spec(curve, fees, owner_fee, reserve, supply) {
            Ok(t) => t,
            Err(_) => 0,
        }
    }
}

/// What a trade of `amount_in` with at least `minimum_amount_out` paid out does.
pub open spec fn swap_outcome(pool: SwapPool, derived: Option<Seq<u8>>, acc: SwapAccounts, amount_in: u64, minimum_amount_out: u64) -> Result<SwapEffects, SwapError> {
    match swap_checks(pool, derived, acc, amount_in) {
        Err(e) => Err(e),
        Ok(_) => match crate::curve::swap_spec(
            pool.swap_curve,
            pool.fees,
            amount_in,
            acc.swap_source.amount,
            acc.swap_destination.amount,
            direction_of(pool, acc.swap_source.address),
        ) {
            Err(e) => Err(e),
            Ok(res) => {
                if res.destination_amount_swapped < minimum_amount_out {
                    Err(SwapError::ExceededSlippage)
                } else {
                    let fee_tokens = owner_fee_pool_tokens(
                        pool.swap_curve,
                        pool.fees,
                        res.owner_fee,
                        (res.new_swap_source_amount - res.owner_fee) as u64,
                        acc.pool_mint.supply,
                    );
                    let host = if acc.host_fee_account is Some {
                        crate::fees::fee_result(fee_tokens, pool.fees.host_fee_numerator, pool.fees.host_fee_denominator, crate::math::RoundDirection::Floor)
                    } else {
                        Ok(0u64)
                    };
                    match host {
                        Err(e) => Err(e),
                        Ok(h) => if h > fee_tokens {
                            Err(SwapError::FeeCalculationFailure)
                        } else if acc.pool_mint.supply + fee_tokens > u64::MAX {
                            Err(SwapError::CalculationFailure)
                        } else {
                            Ok(SwapEffects {
                                amount_in,
                                amount_out: res.destination_amount_swapped,
                                trade_fee: res.trade_fee,
                                owner_fee: res.owner_fee,
                                pool_tokens_to_fee_account: (fee_tokens - h) as u64,
                                pool_tokens_to_host: h,
                                new_swap_source_amount: res.new_swap_source_amount,
                                new_swap_destination_amount: res.new_swap_destination_amount,
                            })
                        },
                    }
                }
            },
        },
    }
}

fn check_swap_accounts(pool: &SwapPool, derived_authority: &Option<Address>, acc: &SwapAccounts, amount_in: u64) -> (r: Result<(), SwapError>)
    ensures
        r == swap_checks(*pool, opt_view(*derived_authority), *acc, amount_in),
{
    let p = &pool.token_program_id;
    if !pool.is_initialized {
        return Err(SwapError::NotBeInitialized);
    }
    let host_program_ok = match &acc.host_fee_account {
        Some(h) => same_address(&h.program, p),
        None => true,
    };
    if !same_address(&acc.token_program_id, p) || !same_address(&acc.source.program, p)
        || !same_address(&acc.swap_source.program, p) || !same_address(&acc.swap_destination.program, p)
        || !same_address(&acc.destination.program, p) || !same_address(&acc.pool_mint.program, p)
        || !same_address(&acc.pool_fee_account.program, p) || !host_program_ok
    {
        return Err(SwapError::IncorrectTokenProgramId);
    }
    check_authority(derived_authority, &acc.authority)?;
    let forward = same_address(&acc.swap_source.address, &pool.token_a) && same_address(&acc.swap_destination.address, &pool.token_b);
    let backward = same_address(&acc.swap_source.address, &pool.token_b) && same_address(&acc.swap_destination.address, &pool.token_a);
    if !forward && !backward {
        return Err(SwapError::IncorrectSwapAccount);
    }
    if same_address(&acc.source.address, &acc.swap_source.address)
        || same_address(&acc.destination.address, &acc.swap_destination.address)
    {
        return Err(SwapError::InvalidInput);
    }
    if same_address(&acc.source.mint, &acc.destination.mint) {
        return Err(SwapError::RepeatedMint);
    }
    let host_mint_ok = match &acc.host_fee_account {
        Some(h) => same_address(&h.mint, &pool.pool_mint),
        None => true,
    };
    if !same_address(&acc.pool_mint.address, &pool.pool_mint) || !host_mint_ok {
        return Err(SwapError::IncorrectPoolMint);
    }
    if !same_address(&acc.pool_fee_account.address, &pool.pool_fee_account) {
        return Err(SwapError::IncorrectFeeAccount);
    }
    if amount_in > acc.source.amount {
        return Err(SwapError::InvalidInput);
    }
    Ok(())
}

/// Trades `amount_in` source tokens for destination tokens. Fails with
/// `ExceededSlippage` when fewer than `minimum_amount_out` would be paid out; no
/// effect comes of a failed trade.
pub fn process_swap(pool: &SwapPool, derived_authority: &Option<Address>, accounts: &SwapAccounts, amount_in: u64, minimum_amount_out: u64) -> (r: Result<SwapEffects, SwapError>)
    ensures
        r == swap_outcome(*pool, opt_view(*derived_authority), *accounts, amount_in, minimum_amount_out),
{
    let acc = accounts;
    check_swap_accounts(pool, derived_authority, acc, amount_in)?;
    let direction = if same_address(&acc.swap_source.address, &pool.token_a) {
        TradeDirection::AtoB
    } else {
        TradeDirection::BtoA
    };
    let res = pool.swap_curve.swap(amount_in, acc.swap_source.amount, acc.swap_destination.amount, direction, &pool.fees)?;
    if res.destination_amount_swapped < minimum_amount_out {
        return Err(SwapError::ExceededSlippage);
    }
    let fee_tokens = if res.owner_fee == 0 {
        0
    } else {
        match pool.swap_curve.deposit_single_token_type(
            res.owner_fee,
            res.new_swap_source_amount - res.owner_fee,
            acc.pool_mint.supply,
            &pool.fees,
        ) {
            Ok(t) => t,
            Err(_) => 0,
        }
    };
    let host = match &acc.host_fee_account {
        Some(_) => pool.fees.host_fee(fee_tokens)?,
        None => 0,
    };
    if host > fee_tokens {
        return Err(SwapError::FeeCalculationFailure);
    }
    if acc.pool_mint.supply as u128 + fee_tokens as u128 > u64::MAX as u128 {
        return Err(SwapError::CalculationFailure);
    }
    Ok(SwapEffects {
        amount_in,
        amount_out: res.destination_amount_swapped,
        trade_fee: res.trade_fee,
        owner_fee: res.owner_fee,
        pool_tokens_to_fee_account: fee_tokens - host,
        pool_tokens_to_host: host,
        new_swap_source_amount: res.new_swap_source_amount,
        new_swap_destination_amount: res.new_swap_destination_amount,
    })
}

/// The accounts that a deposit or withdrawal reads: the pool's side of it.
#[derive(Clone, Copy, Debug)]
pub struct PoolAccounts {
    /// The authority the caller claims for the pool.
    pub authority: Address,
    /// Reserve of token A.
    pub swap_token_a: TokenAccount,
    /// Reserve of token B.
    pub swap_token_b: TokenAccount,
    /// Mint of the pool token.
    pub pool_mint: Mint,
    /// Account for the owner's fees.
    pub pool_fee_account: TokenAccount,
    /// The token program the caller supplies.
    pub token_program_id: Address,
}

/// The checks of the pool's side of a deposit or withdrawal, in order.
pub open spec fn pool_checks(pool: SwapPool, derived: Option<Seq<u8>>, acc: PoolAccounts) -> Result<(), SwapError> {
    let p = pool.token_program_id@;
    if !pool.is_initialized {
        Err(SwapError::NotBeInitialized)
    } else if acc.token_program_id@ != p || acc.swap_token_a.program@ != p || acc.swap_token_b.program@ != p
        || acc.pool_mint.program@ != p || acc.pool_fee_account.program@ != p {
        Err(SwapError::IncorrectTokenProgramId)
    } else if !authority_matches(derived, acc.authority) {
        Err(SwapError::InvalidProgramAddress)
    } else if acc.swap_token_a.address@ != pool.token_a@ || acc.swap_token_b.address@ != pool.token_b@ {
        Err(SwapError::IncorrectSwapAccount)
    } else if acc.pool_mint.address@ != pool.pool_mint@ {
        Err(SwapError::IncorrectPoolMint)
    } else if acc.pool_fee_account.address@ != pool.pool_fee_account@ {
        Err(SwapError::IncorrectFeeAccount)
    } else {
        Ok(())
    }
}

fn check_pool_accounts(pool: &SwapPool, derived_authority: &Option<Address>, acc: &PoolAccounts) -> (r: Result<(), SwapError>)
    ensures
        r == pool_checks(*pool, opt_view(*derived_authority), *acc),
{
    let p = &pool.token_program_id;
    if !pool.is_initialized {
        return Err(SwapError::NotBeInitialized);
    }
    if !same_address(&acc.token_program_id, p) || !same_address(&acc.swap_token_a.program, p)
        || !same_address(&acc.swap_token_b.program, p) || !same_address(&acc.pool_mint.program, p)
        || !same_address(&acc.pool_fee_account.program, p)
    {
        return Err(SwapError::IncorrectTokenProgramId);
    }
    check_authority(derived_authority, &acc.authority)?;
    if !same_address(&acc.swap_token_a.address, &pool.token_a) || !same_address(&acc.swap_token_b.address, &pool.token_b) {
        return Err(SwapError::IncorrectSwapAccount);
    }
    if !same_address(&acc.pool_mint.address, &pool.pool_mint) {
        return Err(SwapError::IncorrectPoolMint);
    }
    if !same_address(&acc.pool_fee_account.address, &pool.pool_fee_account) {
        return Err(SwapError::IncorrectFeeAccount);
    }
    Ok(())
}

/// The effects of a deposit or withdrawal of both tokens.
#[derive(Clone, Copy, Debug, Eq, PartialEq, Structural)]
pub struct LiquidityEffects {
    /// Token A moved into (deposit) or out of (withdrawal) its reserve.
    pub token_a_amount: u64,
    /// Token B moved into or out of its reserve.
    pub token_b_amount: u64,
    /// Pool tokens minted (deposit) or burned (withdrawal).
    pub pool_token_amount: u64,
    /// Pool tokens moved to the owner's fee account.
    pub owner_fee: u64,
}

/// What a balanced deposit for `pool_token_amount` pool tokens does: both amounts
/// are rounded up, in the pool's favour.
pub open spec fn deposit_all_outcome(pool: SwapPool, derived: Option<Seq<u8>>, acc: PoolAccounts, pool_token_amount: u64, maximum_token_a_amount: u64, maximum_token_b_amount: u64) -> Result<LiquidityEffects, SwapError> {
    match pool_checks(pool, derived, acc) {
        Err(e) => Err(e),
        Ok(_) => if !pool.swap_curve.allows_deposits_spec() {
            Err(SwapError::UnsupportedCurveOperation)
        } else {
            match crate::curve::trading_tokens_spec(
                pool_token_amount,
                acc.pool_mint.supply,
                acc.swap_token_a.amount,
                acc.swap_token_b.amount,
                crate::math::RoundDirection::Ceiling,
            ) {
                Err(e) => Err(e),
                Ok(t) => if t.token_a_amount > maximum_token_a_amount || t.token_b_amount > maximum_token_b_amount {
                    Err(SwapError::ExceededSlippage)
                } else if t.token_a_amount == 0 || t.token_b_amount == 0 {
                    Err(SwapError::ZeroTradingTokens)
                } else if acc.pool_mint.supply + pool_token_amount > u64::MAX
                    || acc.swap_token_a.amount + t.token_a_amount > u64::MAX
                    || acc.swap_token_b.amount + t.token_b_amount > u64::MAX {
                    Err(SwapError::CalculationFailure)
                } else {
                    Ok(LiquidityEffects {
                        token_a_amount: t.token_a_amount,
                        token_b_amount: t.token_b_amount,
                        pool_token_amount,
                        owner_fee: 0,
                    })
                }
            }
        },
    }
}

/// Deposits both tokens for `pool_token_amount` new pool tokens, paying at most the
/// given maximums (`ExceededSlippage` otherwise).
pub fn process_deposit_all_token_types(pool: &SwapPool, derived_authority: &Option<Address>, accounts: &PoolAccounts, pool_token_amount: u64, maximum_token_a_amount: u64, maximum_token_b_amount: u64) -> (r: Result<LiquidityEffects, SwapError>)
    ensures
        r == deposit_all_outcome(*pool, opt_view(*derived_authority), *accounts, pool_token_amount, maximum_token_a_amount, maximum_token_b_amount),
{
    let acc = accounts;
    check_pool_accounts(pool, derived_authority, acc)?;
    if !pool.swap_curve.allows_deposits() {
        return Err(SwapError::UnsupportedCurveOperation);
    }
    let t = pool.swap_curve.pool_tokens_to_trading_tokens(
        pool_token_amount,
        acc.pool_mint.supply,
        acc.swap_token_a.amount,
        acc.swap_token_b.amount,
        crate::math::RoundDirection::Ceiling,
    )?;
    if t.token_a_amount > maximum_token_a_amount || t.token_b_amount > maximum_token_b_amount {
        return Err(SwapError::ExceededSlippage);
    }
    if t.token_a_amount == 0 || t.token_b_amount == 0 {
        return Err(SwapError::ZeroTradingTokens);
    }
    if acc.pool_mint.supply as u128 + pool_token_amount as u128 > u64::MAX as u128
        || acc.swap_token_a.amount as u128 + t.token_a_amount as u128 > u64::MAX as u128
        || acc.swap_token_b.amount as u128 + t.token_b_amount as u128 > u64::MAX as u128
    {
        return Err(SwapError::CalculationFailure);
    }
    Ok(LiquidityEffects {
        token_a_amount: t.token_a_amount,
        token_b_amount: t.token_b_amount,
        pool_token_amount,
        owner_fee: 0,
    })
}

/// The owner's withdrawal fee on `pool_token_amount`, waived when the owner's own
/// fee account withdraws.
pub open spec fn withdraw_fee_spec(pool: SwapPool, acc: PoolAccounts, source: Address, pool_token_amount: u64) -> Result<u64, SwapError> {
    if source@ == acc.pool_fee_account.address@ {
        Ok(0)
    } else {
        crate::fees::fee_result(
            pool_token_amount,
            pool.fees.owner_withdraw_fee_numerator,
            pool.fees.owner_withdraw_fee_denominator,
            crate::math::RoundDirection::Ceiling,
        )
    }
}

/// What a balanced withdrawal of `pool_token_amount` pool tokens does: the owner's
/// fee is taken in pool tokens first, and both amounts are rounded down.
pub open spec fn withdraw_all_outcome(pool: SwapPool, derived: Option<Seq<u8>>, acc: PoolAccounts, source: TokenAccount, pool_token_amount: u64, minimum_token_a_amount: u64, minimum_token_b_amount: u64) -> Result<LiquidityEffects, SwapError> {
    match pool_checks(pool, derived, acc) {
        Err(e) => Err(e),
        Ok(_) => if source.program@ != pool.token_program_id@ {
            Err(SwapError::IncorrectTokenProgramId)
        } else if source.mint@ != pool.pool_mint@ {
            Err(SwapError::IncorrectPoolMint)
        } else if pool_token_amount > source.amount || pool_token_amount > acc.pool_mint.supply {
            Err(SwapError::InvalidInput)
        } else {
            match withdraw_fee_spec(pool, acc, source.address, pool_token_amount) {
                Err(e) => Err(e),
                Ok(fee) => if fee > pool_token_amount {
                    Err(SwapError::FeeCalculationFailure)
                } else {
                    let burned = (pool_token_amount - fee) as u64;
                    match crate::curve::trading_tokens_spec(
                        burned,
                        acc.pool_mint.supply,
                        acc.swap_token_a.amount,
                        acc.swap_token_b.amount,
                        crate::math::RoundDirection::Floor,
                    ) {
                        Err(e) => Err(e),
                        Ok(t) => if t.token_a_amount == 0 || t.token_b_amount == 0 {
                            Err(SwapError::ZeroTradingTokens)
                        } else if t.token_a_amount < minimum_token_a_amount || t.token_b_amount < minimum_token_b_amount {
                            Err(SwapError::ExceededSlippage)
                        } else {
                            Ok(LiquidityEffects {
                                token_a_amount: t.token_a_amount,
                                token_b_amount: t.token_b_amount,
                                pool_token_amount: burned,
                                owner_fee: fee,
                            })
                        },
                    }
                },
            }
        },
    }
}

/// Withdraws both tokens for `pool_token_amount` pool tokens taken from `source`,
/// receiving at least the given minimums (`ExceededSlippage` otherwise).
pub fn process_withdraw_all_token_types(pool: &SwapPool, derived_authority: &Option<Address>, accounts: &PoolAccounts, source: &TokenAccount, pool_token_amount: u64, minimum_token_a_amount: u64, minimum_token_b_amount: u64) -> (r: Result<LiquidityEffects, SwapError>)
    ensures
        r == withdraw_all_outcome(*pool, opt_view(*derived_authority), *accounts, *source, pool_token_amount, minimum_token_a_amount, minimum_token_b_amount),
        r matches Ok(e) ==> e.token_a_amount <= accounts.swap_token_a.amount && e.token_b_amount <= accounts.swap_token_b.amount,
{
    let acc = accounts;
    check_pool_accounts(pool, derived_authority, acc)?;
    if !same_address(&source.program, &pool.token_program_id) {
        return Err(SwapError::IncorrectTokenProgramId);
    }
    if !same_address(&source.mint, &pool.pool_mint) {
        return Err(SwapError::IncorrectPoolMint);
    }
    if pool_token_amount > source.amount || pool_token_amount > acc.pool_mint.supply {
        return Err(SwapError::InvalidInput);
    }
    let fee = if same_address(&source.address, &acc.pool_fee_account.address) {
        0
    } else {
        pool.fees.owner_withdraw_fee(pool_token_amount)?
    };
    if fee > pool_token_amount {
        return Err(SwapError::FeeCalculationFailure);
    }
    let burned = pool_token_amount - fee;
    let t = pool.swap_curve.pool_tokens_to_trading_tokens(
        burned,
        acc.pool_mint.supply,
        acc.swap_token_a.amount,
        acc.swap_token_b.amount,
        crate::math::RoundDirection::Floor,
    )?;
    proof {
        crate::math::lemma_ceil_mul_le(acc.swap_token_a.amount as int, burned as int, acc.pool_mint.supply as int);
        crate::math::lemma_ceil_mul_le(acc.swap_token_b.amount as int, burned as int, acc.pool_mint.supply as int);
        assert(acc.swap_token_a.amount * burned == burned * acc.swap_token_a.amount) by (nonlinear_arith);
        assert(acc.swap_token_b.amount * burned == burned * acc.swap_token_b.amount) by (nonlinear_arith);
    }
    if t.token_a_amount == 0 || t.token_b_amount == 0 {
        return Err(SwapError::ZeroTradingTokens);
    }
    if t.token_a_amount < minimum_token_a_amount || t.token_b_amount < minimum_token_b_amount {
        return Err(SwapError::ExceededSlippage);
    }
    Ok(LiquidityEffects {
        token_a_amount: t.token_a_amount,
        token_b_amount: t.token_b_amount,
        pool_token_amount: burned,
        owner_fee: fee,
    })
}

/// The reserve that an account of mint `mint` trades against: `Some(true)` for
/// token A, `Some(false)` for token B, `None` for a foreign mint.
pub open spec fn side_of(pool: SwapPool, mint: Address) -> Option<bool> {
    if mint@ == pool.token_a_mint@ {
        Some(true)
    } else if mint@ == pool.token_b_mint@ {
        Some(false)
    } else {
        None
    }
}

fn side_of_exec(pool: &SwapPool, mint: &Address) -> (r: Option<bool>)
    ensures
        r == side_of(*pool, *mint),
{
    if same_address(mint, &pool.token_a_mint) {
        Some(true)
    } else if same_address(mint, &pool.token_b_mint) {
        Some(false)
    } else {
        None
    }
}

/// What depositing `source_token_amount` of one token only does.
pub open spec fn deposit_single_outcome(pool: SwapPool, derived: Option<Seq<u8>>, acc: PoolAccounts, source: TokenAccount, source_token_amount: u64, minimum_pool_token_amount: u64) -> Result<LiquidityEffects, SwapError> {
    match pool_checks(pool, derived, acc) {
        Err(e) => Err(e),
        Ok(_) => if source.program@ != pool.token_program_id@ {
            Err(SwapError::IncorrectTokenProgramId)
        } else {
            match side_of(pool, source.mint) {
                None => Err(SwapError::InvalidInput),
                Some(is_a) => {
                    let reserve = if is_a { acc.swap_token_a.amount } else { acc.swap_token_b.amount };
                    if source_token_amount > source.amount {
                        Err(SwapError::InvalidInput)
                    } else {
                        match crate::curve::single_deposit_spec(pool.swap_curve, pool.fees, source_token_amount, reserve, acc.pool_mint.supply) {
                            Err(e) => Err(e),
                            Ok(t) => if t < minimum_pool_token_amount {
                                Err(SwapError::ExceededSlippage)
                            } else if acc.pool_mint.supply + t > u64::MAX || reserve + source_token_amount > u64::MAX {
                                Err(SwapError::CalculationFailure)
                            } else {
                                Ok(LiquidityEffects {
                                    token_a_amount: if is_a { source_token_amount } else { 0 },
                                    token_b_amount: if is_a { 0 } else { source_token_amount },
                                    pool_token_amount: t,
                                    owner_fee: 0,
                                })
                            },
                        }
                    }
                },
            }
        },
    }
}

/// Deposits `source_token_amount` of the token that `source` holds, for at least
/// `minimum_pool_token_amount` new pool tokens (`ExceededSlippage` otherwise).
pub fn process_deposit_single_token_type_exact_amount_in(pool: &SwapPool, derived_authority: &Option<Address>, accounts: &PoolAccounts, source: &TokenAccount, source_token_amount: u64, minimum_pool_token_amount: u64) -> (r: Result<LiquidityEffects, SwapError>)
    ensures
        r == deposit_single_outcome(*pool, opt_view(*derived_authority), *accounts, *source, source_token_amount, minimum_pool_token_amount),
{
    let acc = accounts;
    check_pool_accounts(pool, derived_authority, acc)?;
    if !same_address(&source.program, &pool.token_program_id) {
        return Err(SwapError::IncorrectTokenProgramId);
    }
    let is_a = match side_of_exec(pool, &source.mint) {
        Some(b) => b,
        None => return Err(SwapError::InvalidInput),
    };
    let reserve = if is_a { acc.swap_token_a.amount } else { acc.swap_token_b.amount };
    if source_token_amount > source.amount {
        return Err(SwapError::InvalidInput);
    }
    let t = pool.swap_curve.deposit_single_token_type(source_token_amount, reserve, acc.pool_mint.supply, &pool.fees)?;
    if t < minimum_pool_token_amount {
        return Err(SwapError::ExceededSlippage);
    }
    if acc.pool_mint.supply as u128 + t as u128 > u64::MAX as u128
        || reserve as u128 + source_token_amount as u128 > u64::MAX as u128
    {
        return Err(SwapError::CalculationFailure);
    }
    Ok(LiquidityEffects {
        token_a_amount: if is_a { source_token_amount } else { 0 },
        token_b_amount: if is_a { 0 } else { source_token_amount },
        pool_token_amount: t,
        owner_fee: 0,
    })
}

/// What withdrawing exactly `destination_token_amount` of one token only does.
pub open spec fn withdraw_single_outcome(pool: SwapPool, derived: Option<Seq<u8>>, acc: PoolAccounts, source: TokenAccount, destination: TokenAccount, destination_token_amount: u64, maximum_pool_token_amount: u64) -> Result<LiquidityEffects, SwapError> {
    match pool_checks(pool, derived, acc) {
        Err(e) => Err(e),
        Ok(_) => if source.program@ != pool.token_program_id@ || destination.program@ != pool.token_program_id@ {
            Err(SwapError::IncorrectTokenProgramId)
        } else if source.mint@ != pool.pool_mint@ {
            Err(SwapError::IncorrectPoolMint)
        } else {
            match side_of(pool, destination.mint) {
                None => Err(SwapError::InvalidOutput),
                Some(is_a) => {
                    let reserve = if is_a { acc.swap_token_a.amount } else { acc.swap_token_b.amount };
                    match crate::curve::single_withdraw_spec(pool.swap_curve, pool.fees, destination_token_amount, reserve, acc.pool_mint.supply) {
                        Err(e) => Err(e),
                        Ok(burn) => match withdraw_fee_spec(pool, acc, source.address, burn) {
                            Err(e) => Err(e),
                            Ok(fee) => if burn + fee > maximum_pool_token_amount {
                                Err(SwapError::ExceededSlippage)
                            } else if burn + fee > source.amount {
                                Err(SwapError::InvalidInput)
                            } else {
                                Ok(LiquidityEffects {
                                    token_a_amount: if is_a { destination_token_amount } else { 0 },
                                    token_b_amount: if is_a { 0 } else { destination_token_amount },
                                    pool_token_amount: burn,
                                    owner_fee: fee,
                                })
                            },
                        },
                    }
                },
            }
        },
    }
}

/// Withdraws exactly `destination_token_amount` of the token that `destination`
/// holds, burning at most `maximum_pool_token_amount` pool tokens with the owner's
/// fee (`ExceededSlippage` otherwise).
pub fn process_withdraw_single_token_type_exact_amount_out(pool: &SwapPool, derived_authority: &Option<Address>, accounts: &PoolAccounts, source: &TokenAccount, destination: &TokenAccount, destination_token_amount: u64, maximum_pool_token_amount: u64) -> (r: Result<LiquidityEffects, SwapError>)
    ensures
        r == withdraw_single_outcome(*pool, opt_view(*derived_authority), *accounts, *source, *destination, destination_token_amount, maximum_pool_token_amount),
{
    let acc = accounts;
    check_pool_accounts(pool, derived_authority, acc)?;
    if !same_address(&source.program, &pool.token_program_id) || !same_address(&destination.program, &pool.token_program_id) {
        return Err(SwapError::IncorrectTokenProgramId);
    }
    if !same_address(&source.mint, &pool.pool_mint) {
        return Err(SwapError::IncorrectPoolMint);
    }
    let is_a = match side_of_exec(pool, &destination.mint) {
        Some(b) => b,
        None => return Err(SwapError::InvalidOutput),
    };
    let reserve = if is_a { acc.swap_token_a.amount } else { acc.swap_token_b.amount };
    let burn = pool.swap_curve.withdraw_single_token_type_exact_out(destination_token_amount, reserve, acc.pool_mint.supply, &pool.fees)?;
    let fee = if same_address(&source.address, &acc.pool_fee_account.address) {
        0
    } else {
        pool.fees.owner_withdraw_fee(burn)?
    };
    if burn as u128 + fee as u128 > maximum_pool_token_amount as u128 {
        return Err(SwapError::ExceededSlippage);
    }
    if burn as u128 + fee as u128 > source.amount as u128 {
        return Err(SwapError::InvalidInput);
    }
    Ok(LiquidityEffects {
        token_a_amount: if is_a { destination_token_amount } else { 0 },
        token_b_amount: if is_a { 0 } else { destination_token_amount },
        pool_token_amount: burn,
        owner_fee: fee,
    })
}

/// The authority of the pool at `swap` with `bump_seed`, as the program derives it.
pub fn derive_authority(swap_address: &Address, bump_seed: u8, program_id: &Address) -> (r: Option<Address>)
    ensures
        opt_view(r) == program_address(swap_address@, bump_seed, program_id@),
{
    create_program_address(swap_address, bump_seed, program_id)
}

/// Creates the pool at `accounts.swap` under `program_id`.
pub fn initialize(current: &SwapPool, program_id: &Address, accounts: &InitializeAccounts, bump_seed: u8, fees: Fees, swap_curve: SwapCurve, constraints: &Option<SwapConstraints>) -> (r: Result<InitializeOutcome, SwapError>)
    ensures
        ({
            let derived = program_address(accounts.swap@, bump_seed, program_id@);
            &&& r is Ok <==> initialize_checks(*current, derived, *accounts, fees, swap_curve, *constraints) is Ok
            &&& r matches Err(e) ==> initialize_checks(*current, derived, *accounts, fees, swap_curve, *constraints) == Err::<(), SwapError>(e)
            &&& r matches Ok(o) ==> o.pool == initialized_pool(*accounts, bump_seed, fees, swap_curve)
                && o.pool_tokens_minted == INITIAL_SWAP_POOL_AMOUNT
        }),
{
    let derived = derive_authority(&accounts.swap, bump_seed, program_id);
    process_initialize(current, &derived, accounts, bump_seed, fees, swap_curve, constraints)
}

/// Trades on the pool at `swap` under `program_id`.
pub fn swap(pool: &SwapPool, swap_address: &Address, program_id: &Address, accounts: &SwapAccounts, amount_in: u64, minimum_amount_out: u64) -> (r: Result<SwapEffects, SwapError>)
    ensures
        r == swap_outcome(*pool, program_address(swap_address@, pool.bump_seed, program_id@), *accounts, amount_in, minimum_amount_out),
{
    let derived = derive_authority(swap_address, pool.bump_seed, program_id);
    process_swap(pool, &derived, accounts, amount_in, minimum_amount_out)
}

/// Balanced deposit into the pool at `swap` under `program_id`.
pub fn deposit_all_token_types(pool: &SwapPool, swap_address: &Address, program_id: &Address, accounts: &PoolAccounts, pool_token_amount: u64, maximum_token_a_amount: u64, maximum_token_b_amount: u64) -> (r: Result<LiquidityEffects, SwapError>)
    ensures
        r == deposit_all_outcome(*pool, program_address(swap_address@, pool.bump_seed, program_id@), *accounts, pool_token_amount, maximum_token_a_amount, maximum_token_b_amount),
{
    let derived = derive_authority(swap_address, pool.bump_seed, program_id);
    process_deposit_all_token_types(pool, &derived, accounts, pool_token_amount, maximum_token_a_amount, maximum_token_b_amount)
}

/// Balanced withdrawal from the pool at `swap` under `program_id`.
pub fn withdraw_all_token_types(pool: &SwapPool, swap_address: &Address, program_id: &Address, accounts: &PoolAccounts, source: &TokenAccount, pool_token_amount: u64, minimum_token_a_amount: u64, minimum_token_b_amount: u64) -> (r: Result<LiquidityEffects, SwapError>)
    ensures
        r == withdraw_all_outcome(*pool, program_address(swap_address@, pool.bump_seed, program_id@), *accounts, *source, pool_token_amount, minimum_token_a_amount, minimum_token_b_amount),
{
    let derived = derive_authority(swap_address, pool.bump_seed, program_id);
    process_withdraw_all_token_types(pool, &derived, accounts, source, pool_token_amount, minimum_token_a_amount, minimum_token_b_amount)
}

/// Single-sided deposit into the pool at `swap` under `program_id`.
pub fn deposit_single_token_type_exact_amount_in(pool: &SwapPool, swap_address: &Address, program_id: &Address, accounts: &PoolAccounts, source: &TokenAccount, source_token_amount: u64, minimum_pool_token_amount: u64) -> (r: Result<LiquidityEffects, SwapError>)
    ensures
        r == deposit_single_outcome(*pool, program_address(swap_address@, pool.bump_seed, program_id@), *accounts, *source, source_token_amount, minimum_pool_token_amount),
{
    let derived = derive_authority(swap_address, pool.bump_seed, program_id);
    process_deposit_single_token_type_exact_amount_in(pool, &derived, accounts, source, source_token_amount, minimum_pool_token_amount)
}

/// Single-sided withdrawal from the pool at `swap` under `program_id`.
pub fn withdraw_single_token_type_exact_amount_out(pool: &SwapPool, swap_address: &Address, program_id: &Address, accounts: &PoolAccounts, source: &TokenAccount, destination: &TokenAccount, destination_token_amount: u64, maximum_pool_token_amount: u64) -> (r: Result<LiquidityEffects, SwapError>)
    ensures
        r == withdraw_single_outcome(*pool, program_address(swap_address@, pool.bump_seed, program_id@), *accounts, *source, *destination, destination_token_amount, maximum_pool_token_amount),
{
    let derived = derive_authority(swap_address, pool.bump_seed, program_id);
    process_withdraw_single_token_type_exact_amount_out(pool, &derived, accounts, source, destination, destination_token_amount, maximum_pool_token_amount)
}

} // verus!
