//! A minimal host configuration for the governance ledger whose account
//! identities are plain 64-bit integers.

use vstd::prelude::*;

use crate::governance::GovernanceConfig;

verus! {

/// A host runtime whose accounts are `u64` values.
pub struct Runtime;

impl GovernanceConfig for Runtime {
    type AccountId = u64;

    fn account_eq(a: &u64, b: &u64) -> bool {
        *a == *b
    }

    fn account_clone(a: &u64) -> u64 {
        *a
    }
}


} // verus!
