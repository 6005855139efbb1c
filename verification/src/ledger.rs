use vstd::prelude::*;

use crate::state::default_key;

verus! {

/// One entry of the ordered account list handed to the dispatcher: the plain
/// values of a host-managed account that the handlers read and write.
///
/// `key` is the account's identity, `is_signer` says whether the host
/// verified the account's signature over this instruction, `owner` is the
/// program that may write the account, and `data` are its stored bytes.
#[derive(Clone, Debug)]
pub struct Account {
    pub key: [u8; 32],
    pub is_signer: bool,
    pub owner: [u8; 32],
    pub data: Vec<u8>,
}

/// A delegated external call that a handler requests from the host
/// environment. The handlers decide these calls; performing them — and
/// reverting the whole instruction if one fails — is the host's part.
#[derive(Clone, Copy, Debug, PartialEq, Eq)]
pub enum LedgerEffect {
    /// Size the `target` account to exactly `space` bytes, fund it to the
    /// minimum balance required for permanent retention at the `funder`'s
    /// charge, and set its owner to `owner`.
    CreateStorage { funder: [u8; 32], target: [u8; 32], owner: [u8; 32], space: u64 },
    /// Move `amount` native units from `from` to `to`.
    Transfer { from: [u8; 32], to: [u8; 32], amount: u64 },
}

/// Compares two account identities byte for byte.
pub fn keys_equal(a: &[u8; 32], b: &[u8; 32]) -> (r: bool)
    ensures
        r == (a@ == b@),
{
    let mut i: usize = 0;
    while i < 32
        invariant
            i <= 32,
            forall|j: int| 0 <= j < i ==> a@[j] == b@[j],
        decreases 32 - i,
    {
        if a[i] != b[i] {
            return false;
        }
        i = i + 1;
    }
    proof {
        assert(a@ =~= b@);
    }
    true
}

/// Tests whether an identity is the all-zero "uninitialized" sentinel.
pub fn key_is_default(k: &[u8; 32]) -> (r: bool)
    ensures
        r == (k@ == default_key()),
{
    let mut i: usize = 0;
    while i < 32
        invariant
            i <= 32,
            forall|j: int| 0 <= j < i ==> k@[j] == 0u8,
        decreases 32 - i,
    {
        if k[i] != 0 {
            return false;
        }
        i = i + 1;
    }
    proof {
        assert(k@ =~= default_key());
    }
    true
}

} // verus!
