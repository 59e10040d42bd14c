//! Settlement core of a two-sided pari-mutuel wagering escrow.
//!
//! Participants stake funds on one of two outcomes; an oracle committee
//! attests the winner by threshold signature; winning stakers are paid
//! from the losing pool minus a platform fee. This crate holds the arena
//! state machine, the stake ledger, the oracle-consensus verifier, the
//! signed-message builder and the payout calculator, each with a proved
//! contract. Moving funds and storing accounts is the host's business and
//! stays outside.

use vstd::prelude::*;

pub mod arena;
pub mod consensus;
pub mod errors;
pub mod keys;
pub mod messages;
pub mod payout;

verus! {

/// Denominator for basis-point fees: a fee of 10_000 bps is 100%.
pub const BPS_DENOMINATOR: u64 = 10_000;

/// Size of the oracle committee.
pub const MAX_ORACLES: usize = 3;

/// Distinct committee signatures required for a privileged operation
/// (2-of-3 multisig).
pub const ORACLE_THRESHOLD: u8 = 2;

} // verus!
