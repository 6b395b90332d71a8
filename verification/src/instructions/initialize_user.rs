//! Registering a wallet.

use vstd::prelude::*;
use crate::clock::unix_timestamp;
use crate::errors::InstructionError;
use crate::pubkey::Pubkey;
use crate::state::UserAccount;

verus! {

/// What a registration works on.
#[derive(Clone, Copy, Debug, PartialEq, Eq)]
pub struct InitializeUser {
    /// The place of the wallet's record: `None` until the wallet is
    /// registered.
    pub user_account: Option<UserAccount>,
    /// The wallet that asks for its record.
    pub owner: Pubkey,
    /// The bump seed that the record's address was derived with.
    pub bump: u8,
}

impl InitializeUser {
    /// The state that a registration at time `now` leaves behind: the place
    /// holds the owner's fresh record.
    pub open spec fn registered(self, now: i64) -> InitializeUser {
        InitializeUser {
            user_account: Some(UserAccount::fresh(self.owner, now, self.bump)),
            ..self
        }
    }

    /// One registration at time `now`: the state it leaves and what it
    /// answers. A wallet that has a record keeps it as it is.
    pub open spec fn step(self, now: i64) -> (InitializeUser, Result<(), InstructionError>) {
        if self.user_account is Some {
            (self, Err(InstructionError::DuplicateRecord))
        } else {
            (self.registered(now), Ok(()))
        }
    }
}

/// Registers the owner at the time given.
///
/// Where the place is empty it takes a record of the owner with all scores
/// zero, stamped `now`. Where a record is there already the answer is
/// `DuplicateRecord` and the record stays untouched.
pub fn initialize_user_at(ctx: &mut InitializeUser, now: i64) -> (outcome: Result<
    (),
    InstructionError,
>)
    ensures
        (*final(ctx), outcome) == old(ctx).step(now),
        old(ctx).user_account is Some ==> (outcome matches Err(InstructionError::DuplicateRecord))
            && *final(ctx) == *old(ctx),
        old(ctx).user_account is None ==> outcome is Ok && final(ctx).user_account == Some(
            UserAccount::fresh(old(ctx).owner, now, old(ctx).bump),
        ),
        outcome is Ok ==> final(ctx).user_account.unwrap().wf(),
{
    if ctx.user_account.is_some() {
        return Err(InstructionError::DuplicateRecord);
    }
    ctx.user_account = Some(
        UserAccount {
            owner: ctx.owner,
            total_score: 0,
            gitcoin_score: 0,
            solana_score: 0,
            last_updated: now,
            bump: ctx.bump,
        },
    );
    Ok(())
}

/// Registers the owner at the host's present time.
///
/// A wallet that has a record is answered with `DuplicateRecord`, whatever
/// the clock says. Otherwise the fresh record is stamped with the host's
/// clock reading; when the host gives no reading the answer is
/// `ClockUnavailable`. Every failure leaves the place as it was.
pub fn initialize_user(ctx: &mut InitializeUser) -> (outcome: Result<(), InstructionError>)
    ensures
        old(ctx).user_account is Some ==> outcome matches Err(InstructionError::DuplicateRecord),
        old(ctx).user_account is None ==> outcome is Ok || outcome matches Err(
            InstructionError::ClockUnavailable,
        ),
        outcome is Ok ==> *final(ctx) == old(ctx).registered(
            final(ctx).user_account.unwrap().last_updated,
        ),
        outcome is Ok ==> final(ctx).user_account.unwrap().wf(),
        outcome is Err ==> *final(ctx) == *old(ctx),
{
    if ctx.user_account.is_some() {
        return Err(InstructionError::DuplicateRecord);
    }
    match unix_timestamp() {
        Ok(now) => initialize_user_at(ctx, now),
        Err(_) => Err(InstructionError::ClockUnavailable),
    }
}

/// A wallet is registered once.
///
/// Whatever the place held before, after one registration another one for
/// the same place fails with `DuplicateRecord` and leaves the place, and so
/// the record of the first, as it was.
pub proof fn registered_once(ctx: InitializeUser, first: i64, second: i64)
    ensures
        ({
            let (once, first_outcome) = ctx.step(first);
            let (twice, second_outcome) = once.step(second);
            &&& once.user_account is Some
            &&& second_outcome matches Err(InstructionError::DuplicateRecord)
            &&& twice == once
            &&& first_outcome is Ok ==> once.user_account == Some(
                UserAccount::fresh(ctx.owner, first, ctx.bump),
            )
        }),
{
}

} // verus!
