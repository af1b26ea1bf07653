//! The substrate's identity type, and the one operation the transition logic
//! needs on it: equality of two identities.
//!
//! A `Pubkey` is a 32-byte key that the substrate has already verified
//! cryptographically before a transition runs; inside the transition logic it
//! is an opaque value that is only stored and compared.

use vstd::prelude::*;
use anchor_lang::prelude::Pubkey;

verus! {

/// Declares `anchor_lang::prelude::Pubkey` so that it can stand in record
/// fields and signatures. The value is opaque to the verifier.
#[verifier::external_type_specification]
#[verifier::external_body]
pub struct ExPubkey(Pubkey);

/// Relies on `Pubkey`'s derived `PartialEq`: two keys compare equal exactly
/// when they are the same 32-byte value, i.e. the same identity.
#[verifier::external_body]
pub(crate) fn pubkey_eq(a: &Pubkey, b: &Pubkey) -> (r: bool)
    ensures
        r == (a == b),
{
    a == b
}

} // verus!
