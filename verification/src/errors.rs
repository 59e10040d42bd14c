//! Errors of the settlement core. Every operation either fully commits or
//! fails with one of these, mutating nothing.

use vstd::prelude::*;

verus! {

/// Why an operation was refused.
#[derive(Clone, Copy, Debug, PartialEq, Eq, Structural)]
pub enum SoliseumError {
    /// The caller is neither the creator nor backed by a valid consensus.
    UnauthorizedOracle,
    /// The reward for this stake was already paid out.
    AlreadyClaimed,
    /// Checked arithmetic failed, or a fee or amount is out of range.
    MathOverflow,
    /// The operation is not allowed in the arena's current state, the side
    /// does not match, or the winner is missing.
    InvalidArenaState,
    /// Fewer signatures than the committee threshold were supplied.
    InsufficientSignatures,
    /// The same oracle index appears twice in one signature set.
    DuplicateOracle,
    /// An oracle index is outside the committee.
    InvalidOracleIndex,
    /// A proposed committee repeats a key or uses the default key.
    InvalidOracleConfig,
    /// A signature does not verify against its oracle's key.
    InvalidSignature,
}

} // verus!
