//! Identities of accounts and of the parties that control them.

use anchor_lang::prelude::Pubkey;
use vstd::prelude::*;

verus! {

/// The address of an account or of the party that controls it, held as an
/// opaque value: the rules carry addresses through and compare them, and
/// never take one apart.
#[verifier::external_type_specification]
#[verifier::external_body]
pub struct ExPubkey(anchor_lang::prelude::Pubkey);

/// Compares two addresses with `Pubkey`'s own `==`.
///
/// Trusted: `Pubkey` derives `PartialEq` over its 32 bytes, so the result is
/// `true` exactly when both arguments are the same address.
#[verifier::external_body]
pub(crate) fn same_key(a: &Pubkey, b: &Pubkey) -> (same: bool)
    ensures
        same == (*a == *b),
{
    a == b
}

} // verus!
