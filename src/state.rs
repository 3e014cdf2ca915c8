use vstd::prelude::*;

use crate::curve::SwapCurve;
use crate::fees::Fees;

verus! {

/// The 32-byte address of an account.
pub type Address = [u8; 32];

/// Whether two addresses are the same.
pub fn same_address(a: &Address, b: &Address) -> (r: bool)
    ensures
        r == (a@ == b@),
{
    let mut i: usize = 0;
    while i < 32
        invariant
            i <= 32,
            a@.len() == 32,
            b@.len() == 32,
            forall|j: int| 0 <= j < i ==> a@[j] == b@[j],
        decreases 32 - i,
    {
        if a[i] != b[i] {
            return false;
        }
        i = i + 1;
    }
    assert(a@ =~= b@);
    true
}

/// Whether an optional address is set.
pub fn is_set(a: &Option<Address>) -> (r: bool)
    ensures
        r == a is Some,
{
    a.is_some()
}

/// The decoded state of a token account, with the program that owns it.
#[derive(Clone, Copy, Debug)]
pub struct TokenAccount {
    /// Address of the account.
    pub address: Address,
    /// The token program that owns the account.
    pub program: Address,
    /// Mint of the tokens it holds.
    pub mint: Address,
    /// Owner allowed to move its tokens.
    pub owner: Address,
    /// Tokens held.
    pub amount: u64,
    /// A delegate allowed to move its tokens, if any.
    pub delegate: Option<Address>,
    /// An authority allowed to close it, if any.
    pub close_authority: Option<Address>,
}

/// The decoded state of a mint, with the program that owns it.
#[derive(Clone, Copy, Debug)]
pub struct Mint {
    /// Address of the mint.
    pub address: Address,
    /// The token program that owns the mint.
    pub program: Address,
    /// Tokens in circulation.
    pub supply: u64,
    /// Authority allowed to mint, if any.
    pub mint_authority: Option<Address>,
    /// Authority allowed to freeze accounts, if any.
    pub freeze_authority: Option<Address>,
}

/// The persisted record of a swap pool.
#[derive(Clone, Copy, Debug)]
pub struct SwapPool {
    /// Set once the pool has been initialized.
    pub is_initialized: bool,
    /// Seed that, with the pool's address, derives its authority.
    pub bump_seed: u8,
    /// The token program that every reserve and mint must belong to.
    pub token_program_id: Address,
    /// Reserve of token A.
    pub token_a: Address,
    /// Reserve of token B.
    pub token_b: Address,
    /// Mint of the pool token.
    pub pool_mint: Address,
    /// Mint of token A.
    pub token_a_mint: Address,
    /// Mint of token B.
    pub token_b_mint: Address,
    /// Account that receives the owner's fees, in pool tokens.
    pub pool_fee_account: Address,
    /// The fee schedule.
    pub fees: Fees,
    /// The pricing curve.
    pub swap_curve: SwapCurve,
}

impl SwapPool {
    /// The record's own invariants: an initialized pool has a valid curve and fee
    /// schedule and two distinct reserves.
    pub open spec fn well_formed(&self) -> bool {
        self.is_initialized ==> {
            &&& self.fees.valid()
            &&& self.swap_curve.valid()
            &&& self.token_a@ != self.token_b@
            &&& self.token_a_mint@ != self.token_b_mint@
        }
    }
}

} // verus!
