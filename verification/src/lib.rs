//! A reputation registry for wallets.
//!
//! Every wallet owns at most one record. A record holds two sub-scores, each
//! between 0 and 100, and their weighted total. The wallet creates its own
//! record; after that only one fixed authority may write scores into it.
//!
//! The rules live here as verified functions over plain values. The host
//! program hands in the identities and the stored record, and writes back
//! what comes out.

pub mod address;
pub mod clock;
pub mod constants;
pub mod errors;
pub mod instructions;
pub mod lifecycle;
pub mod pubkey;
pub mod reputesol_program;
pub mod state;
