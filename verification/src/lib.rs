//! Authorization and minting-cap enforcement for a fungible-token faucet.
//!
//! The faucet lets any caller request newly minted tokens up to a per-call
//! ceiling fixed once at setup; minting authority is a keyless address derived
//! deterministically from the program's own identity. This crate holds the
//! instruction codec, the persisted record's binary layout, the authority
//! derivation, and the dispatcher that enforces every precondition before a
//! record write or a delegated mint call; the surrounding program commits
//! those effects.

pub mod authority;
pub mod error;
pub mod host;
pub mod instruction;
pub mod processor;
pub mod state;

use vstd::prelude::*;

verus! {

/// Compares two 32-byte identities for byte-exact equality.
pub fn keys_equal(a: &[u8; 32], b: &[u8; 32]) -> (r: bool)
    ensures
        r <==> a@ == b@,
{
    let mut i: usize = 0;
    while i < 32
        invariant
            i <= 32,
            forall|j: int| 0 <= j < i ==> a@[j] == b@[j],
        decreases 32 - i,
    {
        if a[i] != b[i] {
            assert(a@ != b@);
            return false;
        }
        i += 1;
    }
    assert(a@ =~= b@);
    true
}

} // verus!
