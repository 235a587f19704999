//! Identities of ledger accounts and executable programs.

use vstd::prelude::*;

verus! {

/// An opaque ledger identity: a wallet, a token account, a derived authority
/// or an executable program.  The accounting core never looks inside an
/// identity; it only compares identities for equality, so the 32-byte ledger
/// key is modelled by a single opaque word.
#[derive(Clone, Copy, PartialEq, Eq, Structural, Debug)]
pub struct AccountId {
    /// The opaque key material this identity stands for.
    pub key: u64,
}

impl AccountId {
    /// Builds the identity that stands for the given key material.
    pub fn new(key: u64) -> (r: AccountId)
        ensures
            r.key == key,
    {
        AccountId { key }
    }
}

} // verus!
