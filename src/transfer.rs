//! Value movements that operations request from the host, and the one
//! outside fact the staking engine needs about the token program.

use vstd::prelude::*;

use crate::pubkey::Pubkey;

verus! {

/// What a transfer moves.
#[derive(Clone, Copy, Debug, PartialEq, Eq, Structural)]
pub enum Asset {
    /// Tokens of the fungible-token program, moved on the authority's signature.
    Token,
    /// The chain's native currency, moved from a signing sender.
    Native,
}

/// A value movement that the host carries out on the ledger's behalf.
#[derive(Clone, Copy, Debug, PartialEq, Eq)]
pub struct Transfer {
    pub asset: Asset,
    pub from: Pubkey,
    pub to: Pubkey,
    pub authority: Pubkey,
    pub amount: u64,
}

/// Whether `k` is the identity of the fungible-token program.
pub uninterp spec fn is_token_program_id(k: Seq<u8>) -> bool;

/// Relies on `spl_token::check_program_account`: it succeeds exactly when the
/// key equals the token program's declared id.
#[verifier::external_body]
pub(crate) fn is_token_program(key: &Pubkey) -> (r: bool)
    ensures
        r == is_token_program_id(key@),
{
    let k = spl_token::solana_program::pubkey::Pubkey::new_from_array(key.bytes);
    spl_token::check_program_account(&k).is_ok()
}

} // verus!
