//! Account keys: the `Pubkey` of the Solana program library, carried through
//! the game logic as an opaque value.
use vstd::prelude::*;

use anchor_lang::solana_program::pubkey::Pubkey;

verus! {

#[verifier::external_type_specification]
#[verifier::external_body]
pub struct ExPubkey(anchor_lang::solana_program::pubkey::Pubkey);

/// Compares two keys with the `PartialEq` that `Pubkey` derives over its 32
/// bytes. The contract claims that the comparison is true exactly when the two
/// keys are the same value.
#[verifier::external_body]
pub(crate) fn pubkey_eq(a: &Pubkey, b: &Pubkey) -> (r: bool)
    ensures
        r == (*a == *b),
{
    a == b
}

} // verus!
