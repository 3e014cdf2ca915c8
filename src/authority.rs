use vstd::prelude::*;

use solana_program::pubkey::Pubkey;

use crate::state::Address;

verus! {

/// The program address derived from the seeds `[swap, [bump_seed]]` under
/// `program_id`, or none where those seeds give no valid program address.
pub uninterp spec fn program_address(swap: Seq<u8>, bump_seed: u8, program_id: Seq<u8>) -> Option<Seq<u8>>;

/// Relies on solana_program's `Pubkey::create_program_address`: a hash of the seeds
/// and the program id, refused when it lies on the curve. Two seeds of at most 32
/// bytes are always within its seed limits.
#[verifier::external_body]
pub(crate) fn create_program_address(swap: &Address, bump_seed: u8, program_id: &Address) -> (r: Option<Address>)
    ensures
        r is Some <==> program_address(swap@, bump_seed, program_id@) is Some,
        r matches Some(k) ==> program_address(swap@, bump_seed, program_id@) == Some(k@),
{
    let seed: [u8; 1] = [bump_seed];
    Pubkey::create_program_address(&[&swap[..], &seed[..]], &Pubkey::new_from_array(*program_id))
        .ok()
        .map(|k| k.to_bytes())
}

} // verus!
