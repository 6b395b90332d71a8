//! The stored record and what holds of it.

use vstd::prelude::*;
use crate::constants::{GITCOIN_WEIGHT, MAX_SCORE, SOLANA_WEIGHT};
use crate::pubkey::Pubkey;

verus! {

/// Whether a sub-score lies in the accepted range.
pub open spec fn valid_score(score: u16) -> bool {
    score <= MAX_SCORE
}

/// The total of two sub-scores, each counted with its weight.
pub open spec fn weighted_total(gitcoin_score: u16, solana_score: u16) -> int {
    gitcoin_score * GITCOIN_WEIGHT + solana_score * SOLANA_WEIGHT
}

/// Computes the weighted total. A `u64` holds it for every pair of `u16`
/// sub-scores; for a pair in range it stays at or below the largest score
/// counted with both weights.
pub fn compute_total(gitcoin_score: u16, solana_score: u16) -> (total: u64)
    ensures
        total == weighted_total(gitcoin_score, solana_score),
        valid_score(gitcoin_score) && valid_score(solana_score) ==> total <= MAX_SCORE * (
            GITCOIN_WEIGHT + SOLANA_WEIGHT),
{
    (gitcoin_score as u64) * GITCOIN_WEIGHT + (solana_score as u64) * SOLANA_WEIGHT
}

/// A wallet's reputation record. Its address is derived from `owner`, so a
/// wallet has one record at most.
#[derive(Clone, Copy, Debug, PartialEq, Eq)]
pub struct UserAccount {
    /// The wallet that this record belongs to.
    pub owner: Pubkey,
    /// The weighted total of the two sub-scores.
    pub total_score: u64,
    pub gitcoin_score: u16,
    pub solana_score: u16,
    /// Host time of the latest write, in seconds since the Unix epoch.
    pub last_updated: i64,
    /// The bump seed that the record's address was derived with.
    pub bump: u8,
}

impl UserAccount {
    /// Bytes that a stored record takes: an 8-byte tag, then the fields in
    /// the order of their declaration.
    pub const LEN: usize = 8 + 32 + 8 + 2 + 2 + 8 + 1;

    /// What holds of every stored record: both sub-scores are in range and
    /// the total is their weighted sum.
    pub open spec fn wf(&self) -> bool {
        &&& valid_score(self.gitcoin_score)
        &&& valid_score(self.solana_score)
        &&& self.total_score == weighted_total(self.gitcoin_score, self.solana_score)
    }

    /// The record of a wallet that has just been registered at time `now`.
    pub open spec fn fresh(owner: Pubkey, now: i64, bump: u8) -> UserAccount {
        UserAccount {
            owner,
            total_score: 0,
            gitcoin_score: 0,
            solana_score: 0,
            last_updated: now,
            bump,
        }
    }

    /// This record after the two sub-scores were written at time `now`.
    pub open spec fn rescored(self, gitcoin_score: u16, solana_score: u16, now: i64) -> UserAccount {
        UserAccount {
            total_score: weighted_total(gitcoin_score, solana_score) as u64,
            gitcoin_score,
            solana_score,
            last_updated: now,
            ..self
        }
    }
}

} // verus!
