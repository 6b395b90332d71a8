//! Identities of wallets and programs.

use vstd::prelude::*;

verus! {

/// An identity: the 32 bytes of a public key.
pub type Pubkey = [u8; 32];

/// Decides whether two identities are the same, byte by byte.
pub fn same_key(a: &Pubkey, b: &Pubkey) -> (same: bool)
    ensures
        same == (*a == *b),
{
    let mut i: usize = 0;
    while i < 32
        invariant
            i <= 32,
            forall|j: int| 0 <= j < i ==> a[j] == b[j],
        decreases 32 - i,
    {
        if a[i] != b[i] {
            return false;
        }
        i += 1;
    }
    assert(*a =~= *b);
    true
}

} // verus!
