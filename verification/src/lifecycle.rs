//! A record over its whole life.
//!
//! The place of a wallet's record starts empty. One registration fills it,
//! and from then on score updates rewrite the record, any number of times.
//! Nothing here removes a record.

use vstd::prelude::*;
use crate::instructions::{InitializeUser, UpdateScore};
use crate::pubkey::Pubkey;
use crate::state::UserAccount;

verus! {

/// A request that reaches the place of one wallet's record, with the time at
/// which the host carries it out.
#[derive(Clone, Copy, Debug, PartialEq, Eq)]
pub enum Request {
    Initialize { now: i64 },
    UpdateScore { authority: Pubkey, gitcoin_score: u16, solana_score: u16, now: i64 },
}

impl Request {
    /// What the place of the record of `owner` holds after this request. An
    /// update of a wallet that is not registered finds no record and leaves
    /// the place empty.
    pub open spec fn apply(self, owner: Pubkey, bump: u8, place: Option<UserAccount>) -> Option<
        UserAccount,
    > {
        match self {
            Request::Initialize { now } => (InitializeUser { user_account: place, owner, bump }).step(
                now,
            ).0.user_account,
            Request::UpdateScore { authority, gitcoin_score, solana_score, now } => match place {
                Some(record) => Some(
                    (UpdateScore { user_account: record, authority }).step(
                        gitcoin_score,
                        solana_score,
                        now,
                    ).0.user_account,
                ),
                None => None,
            },
        }
    }
}

/// What the place of the record of `owner` holds after a series of requests,
/// the first of which found it empty.
pub open spec fn after_all(owner: Pubkey, bump: u8, requests: Seq<Request>) -> Option<UserAccount>
    decreases requests.len(),
{
    if requests.len() == 0 {
        None
    } else {
        requests.last().apply(owner, bump, after_all(owner, bump, requests.drop_last()))
    }
}

/// Whatever requests arrive, in whatever order and from whomever, the record
/// that the place holds is well formed: both sub-scores are at most 100 and
/// the total is their weighted sum. It is still the record of `owner`, with
/// the bump seed it was registered with.
pub proof fn record_stays_well_formed(owner: Pubkey, bump: u8, requests: Seq<Request>)
    ensures
        after_all(owner, bump, requests) matches Some(record) ==> record.wf() && record.owner
            == owner && record.bump == bump,
    decreases requests.len(),
{
    if requests.len() > 0 {
        record_stays_well_formed(owner, bump, requests.drop_last());
    }
}

/// A record, once there, stays: no request empties the place.
pub proof fn record_is_never_removed(owner: Pubkey, bump: u8, requests: Seq<Request>, next: Request)
    requires
        after_all(owner, bump, requests) is Some,
    ensures
        after_all(owner, bump, requests.push(next)) is Some,
{
    assert(requests.push(next).drop_last() == requests);
    assert(requests.push(next).last() == next);
}

/// The place is filled by a registration and by nothing else: while no
/// registration was among the requests, it is empty.
pub proof fn only_registration_creates(owner: Pubkey, bump: u8, requests: Seq<Request>)
    requires
        forall|i: int| 0 <= i < requests.len() ==> requests[i] is UpdateScore,
    ensures
        after_all(owner, bump, requests) is None,
    decreases requests.len(),
{
    if requests.len() > 0 {
        only_registration_creates(owner, bump, requests.drop_last());
    }
}

} // verus!
