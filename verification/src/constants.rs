//! Values fixed when the program is built.

use vstd::prelude::*;
use crate::pubkey::Pubkey;

verus! {

/// The one identity that may write scores.
pub const AUTHORITY: Pubkey = [
    0x52, 0x65, 0x70, 0x75, 0x74, 0x65, 0x53, 0x6f,
    0x6c, 0x41, 0x75, 0x74, 0x68, 0x6f, 0x72, 0x69,
    0x74, 0x79, 0x4b, 0x65, 0x79, 0x30, 0x30, 0x30,
    0x30, 0x30, 0x30, 0x30, 0x30, 0x30, 0x30, 0x31,
];

/// What one point of the Gitcoin sub-score adds to the total.
pub const GITCOIN_WEIGHT: u64 = 2;

/// What one point of the Solana sub-score adds to the total.
pub const SOLANA_WEIGHT: u64 = 3;

/// The largest value a sub-score may take.
pub const MAX_SCORE: u16 = 100;

/// The namespace tag that every record's address is derived under: `user`.
pub const USER_SEED: [u8; 4] = [0x75, 0x73, 0x65, 0x72];

} // verus!
