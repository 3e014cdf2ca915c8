use solana_program::pubkey::Pubkey;
use token_swap::constraints::SwapConstraints;
use token_swap::curve::SwapCurve;
use token_swap::error::SwapError;
use token_swap::fees::Fees;
use token_swap::processor::{
    deposit_all_token_types, deposit_single_token_type_exact_amount_in, derive_authority, initialize,
    swap, withdraw_all_token_types, withdraw_single_token_type_exact_amount_out, InitializeAccounts,
    PoolAccounts, SwapAccounts, INITIAL_SWAP_POOL_AMOUNT,
};
use token_swap::state::{same_address, Address, Mint, SwapPool, TokenAccount};

const PROGRAM: Address = [7; 32];
const TOKEN_PROGRAM: Address = [9; 32];
const SWAP: Address = [1; 32];
const MINT_A: Address = [20; 32];
const MINT_B: Address = [21; 32];
const POOL_MINT: Address = [22; 32];
const USER: Address = [30; 32];

fn zero_fees() -> Fees {
    Fees {
        trade_fee_numerator: 0,
        trade_fee_denominator: 1,
        owner_trade_fee_numerator: 0,
        owner_trade_fee_denominator: 1,
        owner_withdraw_fee_numerator: 0,
        owner_withdraw_fee_denominator: 1,
        host_fee_numerator: 0,
        host_fee_denominator: 1,
    }
}

fn bump_and_authority() -> (u8, Address) {
    let mut bump: u8 = 255;
    loop {
        if let Some(a) = derive_authority(&SWAP, bump, &PROGRAM) {
            return (bump, a);
        }
        bump -= 1;
    }
}

fn account(address: u8, mint: Address, owner: Address, amount: u64) -> TokenAccount {
    TokenAccount {
        address: [address; 32],
        program: TOKEN_PROGRAM,
        mint,
        owner,
        amount,
        delegate: None,
        close_authority: None,
    }
}

fn init_accounts(authority: Address) -> InitializeAccounts {
    InitializeAccounts {
        swap: SWAP,
        authority,
        token_a: account(40, MINT_A, authority, 1000),
        token_b: account(41, MINT_B, authority, 1000),
        pool_mint: Mint {
            address: POOL_MINT,
            program: TOKEN_PROGRAM,
            supply: 0,
            mint_authority: Some(authority),
            freeze_authority: None,
        },
        fee_account: account(42, POOL_MINT, USER, 0),
        destination: account(43, POOL_MINT, USER, 0),
        token_program_id: TOKEN_PROGRAM,
    }
}

fn empty_pool() -> SwapPool {
    SwapPool {
        is_initialized: false,
        bump_seed: 0,
        token_program_id: [0; 32],
        token_a: [0; 32],
        token_b: [0; 32],
        pool_mint: [0; 32],
        token_a_mint: [0; 32],
        token_b_mint: [0; 32],
        pool_fee_account: [0; 32],
        fees: zero_fees(),
        swap_curve: SwapCurve::ConstantProduct,
    }
}

fn new_pool(fees: Fees) -> (SwapPool, Address) {
    let (bump, authority) = bump_and_authority();
    let out = initialize(&empty_pool(), &PROGRAM, &init_accounts(authority), bump, fees, SwapCurve::ConstantProduct, &None)
        .unwrap();
    assert_eq!(out.pool_tokens_minted, INITIAL_SWAP_POOL_AMOUNT);
    (out.pool, authority)
}

fn swap_accounts(authority: Address, min_supply: u64) -> SwapAccounts {
    SwapAccounts {
        authority,
        source: account(50, MINT_A, USER, 500),
        swap_source: account(40, MINT_A, authority, 1000),
        swap_destination: account(41, MINT_B, authority, 1000),
        destination: account(51, MINT_B, USER, 0),
        pool_mint: Mint {
            address: POOL_MINT,
            program: TOKEN_PROGRAM,
            supply: min_supply,
            mint_authority: Some(authority),
            freeze_authority: None,
        },
        pool_fee_account: account(42, POOL_MINT, USER, 0),
        host_fee_account: None,
        token_program_id: TOKEN_PROGRAM,
    }
}

fn pool_accounts(authority: Address, supply: u64) -> PoolAccounts {
    PoolAccounts {
        authority,
        swap_token_a: account(40, MINT_A, authority, 1000),
        swap_token_b: account(41, MINT_B, authority, 2000),
        pool_mint: Mint {
            address: POOL_MINT,
            program: TOKEN_PROGRAM,
            supply,
            mint_authority: Some(authority),
            freeze_authority: None,
        },
        pool_fee_account: account(42, POOL_MINT, USER, 0),
        token_program_id: TOKEN_PROGRAM,
    }
}

#[test]
fn derived_authority_matches_the_platform() {
    let (bump, authority) = bump_and_authority();
    let expected =
        Pubkey::create_program_address(&[&SWAP[..], &[bump]], &Pubkey::new_from_array(PROGRAM)).unwrap();
    assert_eq!(authority, expected.to_bytes());
    assert_ne!(authority, SWAP);
    assert!(same_address(&authority, &expected.to_bytes()));
    assert!(!same_address(&authority, &SWAP));
}

#[test]
fn initialize_writes_the_record() {
    let (pool, _) = new_pool(zero_fees());
    assert!(pool.is_initialized);
    assert_eq!(pool.token_a, [40; 32]);
    assert_eq!(pool.token_b, [41; 32]);
    assert_eq!(pool.pool_fee_account, [42; 32]);
    assert_eq!(pool.token_a_mint, MINT_A);
}

#[test]
fn initialize_rejects_used_record() {
    let (pool, authority) = new_pool(zero_fees());
    let r = initialize(&pool, &PROGRAM, &init_accounts(authority), pool.bump_seed, zero_fees(), SwapCurve::ConstantProduct, &None);
    assert_eq!(r.unwrap_err(), SwapError::AlreadyInUse);
}

#[test]
fn initialize_rejects_wrong_authority() {
    let (bump, _) = bump_and_authority();
    let r = initialize(&empty_pool(), &PROGRAM, &init_accounts([3; 32]), bump, zero_fees(), SwapCurve::ConstantProduct, &None);
    assert_eq!(r.unwrap_err(), SwapError::InvalidProgramAddress);
}

#[test]
fn initialize_rejects_excess_fee() {
    let (bump, authority) = bump_and_authority();
    for (num, den) in [(2u64, 1u64), (1001, 1000), (u64::MAX, 0)] {
        let fees = Fees { owner_trade_fee_numerator: num, owner_trade_fee_denominator: den, ..zero_fees() };
        let r = initialize(&empty_pool(), &PROGRAM, &init_accounts(authority), bump, fees, SwapCurve::ConstantProduct, &None);
        assert_eq!(r.unwrap_err(), SwapError::InvalidFee);
    }
}

#[test]
fn initialize_rejects_minted_supply_and_freeze_authority() {
    let (bump, authority) = bump_and_authority();
    let mut acc = init_accounts(authority);
    acc.pool_mint.supply = 1;
    let r = initialize(&empty_pool(), &PROGRAM, &acc, bump, zero_fees(), SwapCurve::ConstantProduct, &None);
    assert_eq!(r.unwrap_err(), SwapError::InvalidSupply);
    let mut acc = init_accounts(authority);
    acc.pool_mint.freeze_authority = Some([5; 32]);
    let r = initialize(&empty_pool(), &PROGRAM, &acc, bump, zero_fees(), SwapCurve::ConstantProduct, &None);
    assert_eq!(r.unwrap_err(), SwapError::InvalidFreezeAuthority);
}

#[test]
fn initialize_account_errors() {
    let (bump, authority) = bump_and_authority();
    let cases: Vec<(fn(&mut InitializeAccounts), SwapError)> = vec![
        (|a| a.token_a.program = [0; 32], SwapError::IncorrectTokenProgramId),
        (|a| a.token_b.owner = USER, SwapError::InvalidOwner),
        (|a| a.destination.owner = a.authority, SwapError::InvalidOutputOwner),
        (|a| a.token_b.mint = MINT_A, SwapError::RepeatedMint),
        (|a| a.fee_account.mint = MINT_A, SwapError::IncorrectPoolMint),
        (|a| a.token_a.delegate = Some(USER), SwapError::InvalidDelegate),
        (|a| a.token_b.close_authority = Some(USER), SwapError::InvalidCloseAuthority),
        (|a| a.token_b.amount = 0, SwapError::EmptySupply),
    ];
    for (change, expected) in cases {
        let mut acc = init_accounts(authority);
        change(&mut acc);
        let r = initialize(&empty_pool(), &PROGRAM, &acc, bump, zero_fees(), SwapCurve::ConstantProduct, &None);
        assert_eq!(r.unwrap_err(), expected);
    }
    let r = initialize(&empty_pool(), &PROGRAM, &init_accounts(authority), bump, zero_fees(), SwapCurve::Stable { amp: 0 }, &None);
    assert_eq!(r.unwrap_err(), SwapError::InvalidCurve);
}

#[test]
fn swap_pays_out_and_respects_slippage() {
    let (pool, authority) = new_pool(zero_fees());
    let acc = swap_accounts(authority, INITIAL_SWAP_POOL_AMOUNT);
    let e = swap(&pool, &SWAP, &PROGRAM, &acc, 100, 90).unwrap();
    assert_eq!(e.amount_out, 90);
    assert_eq!(e.new_swap_source_amount, 1100);
    assert_eq!(e.new_swap_destination_amount, 910);
    assert_eq!(swap(&pool, &SWAP, &PROGRAM, &acc, 100, 91), Err(SwapError::ExceededSlippage));
}

#[test]
fn swap_owner_and_host_fees() {
    let fees = Fees {
        owner_trade_fee_numerator: 1,
        owner_trade_fee_denominator: 10,
        host_fee_numerator: 1,
        host_fee_denominator: 5,
        ..zero_fees()
    };
    let (pool, authority) = new_pool(fees);
    let mut acc = swap_accounts(authority, 1000);
    acc.host_fee_account = Some(account(60, POOL_MINT, USER, 0));
    let e = swap(&pool, &SWAP, &PROGRAM, &acc, 210, 0).unwrap();
    // 21 owner fee units; the pool source reserve holds 1189 before that deposit
    assert_eq!(e.owner_fee, 21);
    assert_eq!(e.amount_out, 158);
    assert_eq!(e.pool_tokens_to_fee_account + e.pool_tokens_to_host, 8);
    assert_eq!(e.pool_tokens_to_host, 1);
}

#[test]
fn swap_account_errors() {
    let (pool, authority) = new_pool(zero_fees());
    let mut acc = swap_accounts(authority, 1000);
    acc.swap_destination.address = [99; 32];
    assert_eq!(swap(&pool, &SWAP, &PROGRAM, &acc, 100, 0), Err(SwapError::IncorrectSwapAccount));
    let mut acc = swap_accounts(authority, 1000);
    acc.destination.mint = MINT_A;
    assert_eq!(swap(&pool, &SWAP, &PROGRAM, &acc, 100, 0), Err(SwapError::RepeatedMint));
    let mut acc = swap_accounts(authority, 1000);
    acc.source.program = [0; 32];
    assert_eq!(swap(&pool, &SWAP, &PROGRAM, &acc, 100, 0), Err(SwapError::IncorrectTokenProgramId));
    let mut acc = swap_accounts(authority, 1000);
    acc.pool_fee_account.address = [98; 32];
    assert_eq!(swap(&pool, &SWAP, &PROGRAM, &acc, 100, 0), Err(SwapError::IncorrectFeeAccount));
    let acc = swap_accounts(authority, 1000);
    assert_eq!(swap(&pool, &SWAP, &PROGRAM, &acc, 501, 0), Err(SwapError::InvalidInput));
    assert_eq!(swap(&empty_pool(), &SWAP, &PROGRAM, &acc, 100, 0), Err(SwapError::NotBeInitialized));
}

#[test]
fn balanced_deposit_and_withdraw() {
    let fees = Fees { owner_withdraw_fee_numerator: 1, owner_withdraw_fee_denominator: 10, ..zero_fees() };
    let (pool, authority) = new_pool(fees);
    let acc = pool_accounts(authority, 1000);
    let d = deposit_all_token_types(&pool, &SWAP, &PROGRAM, &acc, 10, 10, 20).unwrap();
    assert_eq!((d.token_a_amount, d.token_b_amount, d.pool_token_amount), (10, 20, 10));
    assert_eq!(deposit_all_token_types(&pool, &SWAP, &PROGRAM, &acc, 10, 9, 20), Err(SwapError::ExceededSlippage));
    let user = account(70, POOL_MINT, USER, 100);
    let w = withdraw_all_token_types(&pool, &SWAP, &PROGRAM, &acc, &user, 100, 0, 0).unwrap();
    assert_eq!(w.owner_fee, 10);
    assert_eq!(w.pool_token_amount, 90);
    assert_eq!((w.token_a_amount, w.token_b_amount), (90, 180));
    assert_eq!(withdraw_all_token_types(&pool, &SWAP, &PROGRAM, &acc, &user, 100, 91, 0), Err(SwapError::ExceededSlippage));
    assert_eq!(withdraw_all_token_types(&pool, &SWAP, &PROGRAM, &acc, &user, 101, 0, 0), Err(SwapError::InvalidInput));
    assert_eq!(withdraw_all_token_types(&pool, &SWAP, &PROGRAM, &acc, &user, 1, 0, 0), Err(SwapError::ZeroTradingTokens));
}

#[test]
fn single_sided_operations() {
    let (pool, authority) = new_pool(zero_fees());
    let acc = pool_accounts(authority, 1000);
    let source = account(80, MINT_A, USER, 100);
    let d = deposit_single_token_type_exact_amount_in(&pool, &SWAP, &PROGRAM, &acc, &source, 21, 10).unwrap();
    assert_eq!((d.token_a_amount, d.token_b_amount, d.pool_token_amount), (21, 0, 10));
    assert_eq!(
        deposit_single_token_type_exact_amount_in(&pool, &SWAP, &PROGRAM, &acc, &source, 21, 11),
        Err(SwapError::ExceededSlippage)
    );
    let stranger = account(81, [77; 32], USER, 100);
    assert_eq!(
        deposit_single_token_type_exact_amount_in(&pool, &SWAP, &PROGRAM, &acc, &stranger, 21, 0),
        Err(SwapError::InvalidInput)
    );
    let user = account(82, POOL_MINT, USER, 100);
    let dest = account(83, MINT_A, USER, 0);
    let w = withdraw_single_token_type_exact_amount_out(&pool, &SWAP, &PROGRAM, &acc, &user, &dest, 19, 10).unwrap();
    assert_eq!((w.token_a_amount, w.pool_token_amount, w.owner_fee), (19, 10, 0));
    assert_eq!(
        withdraw_single_token_type_exact_amount_out(&pool, &SWAP, &PROGRAM, &acc, &user, &dest, 19, 9),
        Err(SwapError::ExceededSlippage)
    );
}

#[test]
fn single_sided_withdraw_to_a_foreign_mint_fails() {
    let (pool, authority) = new_pool(zero_fees());
    let acc = pool_accounts(authority, 1000);
    let user = account(82, POOL_MINT, USER, 100);
    let dest = account(84, [77; 32], USER, 0);
    assert_eq!(
        withdraw_single_token_type_exact_amount_out(&pool, &SWAP, &PROGRAM, &acc, &user, &dest, 19, 100),
        Err(SwapError::InvalidOutput)
    );
    let not_pool_tokens = account(85, MINT_A, USER, 100);
    let dest = account(83, MINT_A, USER, 0);
    assert_eq!(
        withdraw_single_token_type_exact_amount_out(&pool, &SWAP, &PROGRAM, &acc, &not_pool_tokens, &dest, 19, 100),
        Err(SwapError::IncorrectPoolMint)
    );
}

#[test]
fn offset_pool_refuses_deposits() {
    let (bump, authority) = bump_and_authority();
    let mut acc = init_accounts(authority);
    acc.token_b.amount = 0;
    let out = initialize(&empty_pool(), &PROGRAM, &acc, bump, zero_fees(), SwapCurve::Offset { token_b_offset: 1000 }, &None)
        .unwrap();
    let pool = out.pool;
    let accounts = pool_accounts(authority, 1000);
    assert_eq!(
        deposit_all_token_types(&pool, &SWAP, &PROGRAM, &accounts, 10, 100, 100),
        Err(SwapError::UnsupportedCurveOperation)
    );
}

#[test]
fn initialize_honours_constraints() {
    let (bump, authority) = bump_and_authority();
    let constraints = SwapConstraints {
        allow_constant_product: true,
        allow_constant_price: false,
        allow_offset: false,
        allow_stable: false,
        fees: zero_fees(),
    };
    let acc = init_accounts(authority);
    let ok = initialize(&empty_pool(), &PROGRAM, &acc, bump, zero_fees(), SwapCurve::ConstantProduct, &Some(constraints));
    assert!(ok.is_ok());
    let r = initialize(&empty_pool(), &PROGRAM, &acc, bump, zero_fees(), SwapCurve::Stable { amp: 10 }, &Some(constraints));
    assert_eq!(r.unwrap_err(), SwapError::UnsupportedCurveType);
    let other = Fees { trade_fee_numerator: 1, trade_fee_denominator: 100, ..zero_fees() };
    let r = initialize(&empty_pool(), &PROGRAM, &acc, bump, other, SwapCurve::ConstantProduct, &Some(constraints));
    assert_eq!(r.unwrap_err(), SwapError::InvalidFee);
}
