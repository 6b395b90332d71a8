//! Where a wallet's record is stored.
//!
//! A record has no address of its own choosing. Its address is derived from
//! the tag `user`, the owner's identity and the identity of the program, so
//! that whoever knows the owner finds the record, and no wallet has two.

use vstd::prelude::*;
use crate::constants::USER_SEED;
use crate::pubkey::{same_key, Pubkey};

verus! {

/// What `Pubkey::try_find_program_address` of `anchor_lang` gives for two
/// seeds and a program's identity: the derived address with the bump seed
/// that led to it, or `None` where no bump seed leads to an address.
pub uninterp spec fn program_address(
    first_seed: Seq<u8>,
    second_seed: Seq<u8>,
    program_id: Pubkey,
) -> Option<(Pubkey, u8)>;

/// Calls `Pubkey::try_find_program_address` on the two seeds, in this order,
/// and on the program's identity, and hands out its answer with the address
/// as bytes. The answer is `program_address` of what was handed in: the
/// derivation hashes its arguments and reads nothing else.
#[verifier::external_body]
pub(crate) fn try_find_program_address(
    first_seed: &[u8],
    second_seed: &[u8],
    program_id: &Pubkey,
) -> (found: Option<(Pubkey, u8)>)
    ensures
        found == program_address(first_seed@, second_seed@, *program_id),
{
    let program = anchor_lang::prelude::Pubkey::new_from_array(*program_id);
    let seeds = [first_seed, second_seed];
    match anchor_lang::prelude::Pubkey::try_find_program_address(&seeds, &program) {
        Some((address, bump)) => Some((address.to_bytes(), bump)),
        None => None,
    }
}

/// The address of the record of `owner` under the program `program_id`, with
/// its bump seed.
pub open spec fn record_address(owner: Pubkey, program_id: Pubkey) -> Option<(Pubkey, u8)> {
    program_address(USER_SEED@, owner@, program_id)
}

/// Derives the address of the record of `owner`, with its bump seed.
pub fn user_account_address(owner: &Pubkey, program_id: &Pubkey) -> (found: Option<(Pubkey, u8)>)
    ensures
        found == record_address(*owner, *program_id),
{
    try_find_program_address(USER_SEED.as_slice(), owner.as_slice(), program_id)
}

/// Decides whether a derivation led to this address with this bump seed.
pub fn matches_derivation(derived: &Option<(Pubkey, u8)>, address: &Pubkey, bump: u8) -> (ok: bool)
    ensures
        ok == (*derived == Some((*address, bump))),
{
    match derived {
        Some((derived_address, derived_bump)) => *derived_bump == bump && same_key(
            derived_address,
            address,
        ),
        None => false,
    }
}

/// Decides whether `address` is where the record of `owner` is stored, and
/// `bump` the bump seed of that address.
pub fn is_user_account_address(
    address: &Pubkey,
    bump: u8,
    owner: &Pubkey,
    program_id: &Pubkey,
) -> (ok: bool)
    ensures
        ok == (record_address(*owner, *program_id) == Some((*address, bump))),
{
    let derived = user_account_address(owner, program_id);
    matches_derivation(&derived, address, bump)
}

} // verus!
