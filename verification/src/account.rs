//! Identities of the parties that the substrate has authenticated.

use vstd::prelude::*;

verus! {

/// A 256-bit account identity, written as two 128-bit halves.
///
/// The substrate authenticates callers cryptographically; the escrow core
/// only ever compares identities for equality against stored authority
/// fields, so the identity is an opaque fixed-width key here.
#[derive(Clone, Copy, PartialEq, Eq, Structural, Hash, Debug)]
pub struct AccountId {
    pub hi: u128,
    pub lo: u128,
}

/// The capability check every mutating operation applies before touching
/// state: the authenticated caller must be the stored authority.
pub open spec fn authorized(caller: AccountId, authority: AccountId) -> bool {
    caller == authority
}

/// Executable face of [`authorized`].
pub fn check_authorized(caller: &AccountId, authority: &AccountId) -> (r: bool)
    ensures
        r == authorized(*caller, *authority),
{
    caller == authority
}

} // verus!
