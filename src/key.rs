//! Account identities, as the host ledger writes them.

use vstd::prelude::*;

verus! {

#[verifier::external_type_specification]
#[verifier::external_body]
pub struct ExPubkey(anchor_lang::prelude::Pubkey);

/// Relies on the derived `PartialEq` of `anchor_lang::prelude::Pubkey`
/// (a wrapper of 32 bytes): two keys compare equal exactly when they are
/// the same key.
#[verifier::external_body]
pub(crate) fn same_key(a: &anchor_lang::prelude::Pubkey, b: &anchor_lang::prelude::Pubkey) -> (r: bool)
    ensures
        r == (*a == *b),
{
    a == b
}

} // verus!
