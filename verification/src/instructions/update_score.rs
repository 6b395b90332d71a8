//! Writing new scores into a record.

use vstd::prelude::*;
use crate::clock::unix_timestamp;
use crate::constants::{AUTHORITY, GITCOIN_WEIGHT, MAX_SCORE, SOLANA_WEIGHT};
use crate::errors::{ErrorCode, InstructionError};
use crate::pubkey::{same_key, Pubkey};
use crate::state::{compute_total, valid_score, UserAccount};

verus! {

/// What a score update works on.
#[derive(Clone, Copy, Debug, PartialEq, Eq)]
pub struct UpdateScore {
    /// The record to write to.
    pub user_account: UserAccount,
    /// The identity that signed the request.
    pub authority: Pubkey,
}

/// The verdict on a request, before anything is written. The signer is looked
/// at first, then the Gitcoin sub-score, then the Solana sub-score.
pub open spec fn update_verdict(authority: Pubkey, gitcoin_score: u16, solana_score: u16) -> Result<
    (),
    ErrorCode,
> {
    if authority != AUTHORITY {
        Err(ErrorCode::Unauthorized)
    } else if !valid_score(gitcoin_score) {
        Err(ErrorCode::InvalidScore)
    } else if !valid_score(solana_score) {
        Err(ErrorCode::InvalidScore)
    } else {
        Ok(())
    }
}

impl UpdateScore {
    /// The state that an accepted request leaves behind when it is carried
    /// out at time `now`: the record is rescored, the rest stays.
    pub open spec fn rescored(self, gitcoin_score: u16, solana_score: u16, now: i64) -> UpdateScore {
        UpdateScore {
            user_account: self.user_account.rescored(gitcoin_score, solana_score, now),
            ..self
        }
    }

    /// One score update at time `now`: the state it leaves and what it
    /// answers. A rejected request leaves everything as it was.
    pub open spec fn step(self, gitcoin_score: u16, solana_score: u16, now: i64) -> (
        UpdateScore,
        Result<(), ErrorCode>,
    ) {
        match update_verdict(self.authority, gitcoin_score, solana_score) {
            Ok(()) => (self.rescored(gitcoin_score, solana_score, now), Ok(())),
            Err(code) => (self, Err(code)),
        }
    }
}

/// Judges a request without touching any record.
pub fn check_update(authority: &Pubkey, gitcoin_score: u16, solana_score: u16) -> (verdict: Result<
    (),
    ErrorCode,
>)
    ensures
        verdict == update_verdict(*authority, gitcoin_score, solana_score),
{
    if !same_key(authority, &AUTHORITY) {
        return Err(ErrorCode::Unauthorized);
    }
    if gitcoin_score > MAX_SCORE {
        return Err(ErrorCode::InvalidScore);
    }
    if solana_score > MAX_SCORE {
        return Err(ErrorCode::InvalidScore);
    }
    Ok(())
}

/// Writes two sub-scores, their total and the time into a record.
fn write_scores(record: &mut UserAccount, gitcoin_score: u16, solana_score: u16, now: i64)
    ensures
        *final(record) == old(record).rescored(gitcoin_score, solana_score, now),
{
    record.gitcoin_score = gitcoin_score;
    record.solana_score = solana_score;
    record.total_score = compute_total(gitcoin_score, solana_score);
    record.last_updated = now;
}

/// Carries out a score update at the time given.
///
/// The request is accepted when the signer is the authority and both
/// sub-scores are at most 100. Then the record takes the two sub-scores, their
/// weighted total and `now`; its owner and bump seed stay. Otherwise the
/// answer is the reason, `Unauthorized` before `InvalidScore`, and nothing
/// changes.
pub fn update_score_at(
    ctx: &mut UpdateScore,
    gitcoin_score: u16,
    solana_score: u16,
    now: i64,
) -> (outcome: Result<(), ErrorCode>)
    ensures
        (*final(ctx), outcome) == old(ctx).step(gitcoin_score, solana_score, now),
        old(ctx).authority != AUTHORITY ==> (outcome matches Err(
            ErrorCode::Unauthorized,
        )) && *final(ctx) == *old(ctx),
        old(ctx).authority == AUTHORITY && (gitcoin_score > 100 || solana_score > 100) ==> (outcome
            matches Err(ErrorCode::InvalidScore)) && *final(ctx) == *old(ctx),
        old(ctx).authority == AUTHORITY && gitcoin_score <= 100 && solana_score <= 100
            ==> outcome is Ok,
        outcome is Ok ==> final(ctx).user_account.total_score == gitcoin_score * GITCOIN_WEIGHT
            + solana_score * SOLANA_WEIGHT,
        outcome is Ok ==> final(ctx).user_account.wf(),
        final(ctx).user_account.owner == old(ctx).user_account.owner,
{
    match check_update(&ctx.authority, gitcoin_score, solana_score) {
        Ok(()) => {
            write_scores(&mut ctx.user_account, gitcoin_score, solana_score, now);
            Ok(())
        },
        Err(code) => Err(code),
    }
}

/// Carries out a score update at the host's present time.
///
/// A request that `update_verdict` turns down is answered with its reason.
/// An accepted one is stamped with the host's clock reading and carried out
/// as `update_score_at` does; when the host gives no reading the answer is
/// `ClockUnavailable`. Every failure leaves the record as it was.
pub fn update_score(ctx: &mut UpdateScore, gitcoin_score: u16, solana_score: u16) -> (outcome: Result<
    (),
    InstructionError,
>)
    ensures
        match update_verdict(old(ctx).authority, gitcoin_score, solana_score) {
            Err(code) => outcome matches Err(InstructionError::Rejected(reason)) && reason == code,
            Ok(()) => outcome is Ok || outcome matches Err(InstructionError::ClockUnavailable),
        },
        old(ctx).authority != AUTHORITY ==> outcome matches Err(
            InstructionError::Rejected(ErrorCode::Unauthorized),
        ),
        old(ctx).authority == AUTHORITY && (gitcoin_score > 100 || solana_score > 100) ==> outcome
            matches Err(InstructionError::Rejected(ErrorCode::InvalidScore)),
        outcome is Ok ==> *final(ctx) == old(ctx).rescored(
            gitcoin_score,
            solana_score,
            final(ctx).user_account.last_updated,
        ),
        outcome is Ok ==> final(ctx).user_account.total_score == gitcoin_score * GITCOIN_WEIGHT
            + solana_score * SOLANA_WEIGHT,
        outcome is Ok ==> final(ctx).user_account.wf(),
        outcome is Err ==> *final(ctx) == *old(ctx),
        final(ctx).user_account.owner == old(ctx).user_account.owner,
{
    match check_update(&ctx.authority, gitcoin_score, solana_score) {
        Ok(()) => {},
        Err(code) => {
            return Err(InstructionError::Rejected(code));
        },
    }
    match unix_timestamp() {
        Ok(now) => {
            write_scores(&mut ctx.user_account, gitcoin_score, solana_score, now);
            Ok(())
        },
        Err(_) => Err(InstructionError::ClockUnavailable),
    }
}

/// Writing the same scores again changes nothing but the time.
///
/// Two updates with the same sub-scores, one after the other, get the same
/// answer. The records they leave agree in owner, bump seed, both sub-scores
/// and total. Where they were accepted, each record is stamped with the time
/// of its own update, so the stamp grows when the second update is the later.
pub proof fn same_scores_same_record(
    ctx: UpdateScore,
    gitcoin_score: u16,
    solana_score: u16,
    first: i64,
    second: i64,
)
    ensures
        ({
            let (once, first_outcome) = ctx.step(gitcoin_score, solana_score, first);
            let (twice, second_outcome) = once.step(gitcoin_score, solana_score, second);
            &&& second_outcome == first_outcome
            &&& twice.authority == once.authority
            &&& twice.user_account.owner == once.user_account.owner
            &&& twice.user_account.bump == once.user_account.bump
            &&& twice.user_account.gitcoin_score == once.user_account.gitcoin_score
            &&& twice.user_account.solana_score == once.user_account.solana_score
            &&& twice.user_account.total_score == once.user_account.total_score
            &&& first_outcome is Ok ==> once.user_account.last_updated == first
                && twice.user_account.last_updated == second
            &&& first_outcome is Ok && first < second ==> once.user_account.last_updated
                < twice.user_account.last_updated
            &&& first_outcome is Err ==> twice == ctx
        }),
{
}

} // verus!
