//! Why a request is turned down.

use vstd::prelude::*;

verus! {

/// The program's own reasons to reject a score update.
#[derive(Clone, Copy, Debug, PartialEq, Eq)]
pub enum ErrorCode {
    /// The signer is not the authority.
    Unauthorized,
    /// A sub-score lies above 100.
    InvalidScore,
}

/// Every way in which an instruction can fail.
#[derive(Clone, Copy, Debug, PartialEq, Eq)]
pub enum InstructionError {
    /// The program rejected the request for the reason given.
    Rejected(ErrorCode),
    /// The wallet has a record already.
    DuplicateRecord,
    /// The host did not tell the time.
    ClockUnavailable,
}

} // verus!
