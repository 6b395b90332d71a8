//! The host's clock.

use vstd::prelude::*;
use anchor_lang::prelude::Clock;
use anchor_lang::prelude::ProgramError;
use anchor_lang::prelude::SolanaSysvar;

verus! {

/// `anchor_lang::prelude::ProgramError`, the error of a failed host call.
/// Nothing is known of a value of it.
#[verifier::external_type_specification]
#[verifier::external_body]
pub struct ExProgramError(anchor_lang::prelude::ProgramError);

/// Asks the host for its clock with `Clock::get` and hands out the field
/// `unix_timestamp` of the reading. The reading depends on when the host is
/// asked, and off chain the host has none and the call fails: nothing is
/// claimed of the result.
#[verifier::external_body]
pub(crate) fn unix_timestamp() -> (reading: Result<i64, ProgramError>)
{
    match Clock::get() {
        Ok(clock) => Ok(clock.unix_timestamp),
        Err(error) => Err(error),
    }
}

} // verus!
