//! The program's entry points, one for each instruction.

use vstd::prelude::*;
use crate::constants::{AUTHORITY, GITCOIN_WEIGHT, SOLANA_WEIGHT};
use crate::errors::{ErrorCode, InstructionError};
use crate::instructions;
use crate::instructions::{InitializeUser, UpdateScore};
use crate::instructions::update_score::update_verdict;

verus! {

/// Initialize a new user reputation account.
pub fn initialize_user(ctx: &mut InitializeUser) -> (outcome: Result<(), InstructionError>)
    ensures
        old(ctx).user_account is Some ==> outcome matches Err(InstructionError::DuplicateRecord),
        old(ctx).user_account is None ==> outcome is Ok || outcome matches Err(
            InstructionError::ClockUnavailable,
        ),
        outcome is Ok ==> *final(ctx) == old(ctx).registered(
            final(ctx).user_account.unwrap().last_updated,
        ),
        outcome is Ok ==> final(ctx).user_account.unwrap().wf(),
        outcome is Err ==> *final(ctx) == *old(ctx),
{
    instructions::initialize_user(ctx)
}

/// Update a user's reputation scores (authority only).
pub fn update_score(ctx: &mut UpdateScore, gitcoin_score: u16, solana_score: u16) -> (outcome: Result<
    (),
    InstructionError,
>)
    ensures
        match update_verdict(old(ctx).authority, gitcoin_score, solana_score) {
            Err(code) => outcome matches Err(InstructionError::Rejected(reason)) && reason == code,
            Ok(()) => outcome is Ok || outcome matches Err(InstructionError::ClockUnavailable),
        },
        old(ctx).authority != AUTHORITY ==> outcome matches Err(
            InstructionError::Rejected(ErrorCode::Unauthorized),
        ),
        old(ctx).authority == AUTHORITY && (gitcoin_score > 100 || solana_score > 100) ==> outcome
            matches Err(InstructionError::Rejected(ErrorCode::InvalidScore)),
        outcome is Ok ==> *final(ctx) == old(ctx).rescored(
            gitcoin_score,
            solana_score,
            final(ctx).user_account.last_updated,
        ),
        outcome is Ok ==> final(ctx).user_account.total_score == gitcoin_score * GITCOIN_WEIGHT
            + solana_score * SOLANA_WEIGHT,
        outcome is Ok ==> final(ctx).user_account.wf(),
        outcome is Err ==> *final(ctx) == *old(ctx),
        final(ctx).user_account.owner == old(ctx).user_account.owner,
{
    instructions::update_score(ctx, gitcoin_score, solana_score)
}

} // verus!
