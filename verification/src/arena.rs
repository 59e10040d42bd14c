//! Arena state machine and stake ledger: lifecycle status, pool totals,
//! guarded transitions, and the claim path. Every operation either fully
//! commits or fails with an error and no state change, and every operation
//! preserves the arena invariants: the total pool is the sum of the two
//! side pools, the fee stays within the basis-point range, and the
//! committee stays legal.

use vstd::prelude::*;

use crate::consensus::consensus_holds;
use crate::consensus::consensus_verdict;
use crate::consensus::verify_oracle_consensus;
use crate::consensus::OracleSignature;
use crate::consensus::SignatureVerifier;
use crate::errors::SoliseumError;
use crate::keys::check_oracle_set;
use crate::keys::oracle_set_valid;
use crate::keys::PubKey;
use crate::messages::create_oracle_update_message;
use crate::messages::create_reset_message;
use crate::messages::create_settlement_message;
use crate::messages::oracle_update_message;
use crate::messages::reset_message;
use crate::messages::settlement_message;
use crate::payout::payout;
use crate::payout::spec_payout;

verus! {

/// Arena lifecycle status. `Pending` is the storage default and unused in
/// practice: arenas activate on creation. `Cancelled` is reserved, with no
/// transition into it.
#[derive(Clone, Copy, Debug, PartialEq, Eq, Structural)]
pub enum ArenaStatus {
    Pending,
    Active,
    Settled,
    Cancelled,
}

impl Default for ArenaStatus {
    fn default() -> (r: Self)
        ensures
            r == ArenaStatus::Pending,
    {
        ArenaStatus::Pending
    }
}

/// One wagering market: creator, oracle committee, pool totals, lifecycle
/// status, winner, fee and the anti-replay nonce.
#[derive(Clone, Copy, Debug)]
pub struct Arena {
    pub creator: PubKey,
    pub oracles: [PubKey; 3],
    pub oracle_threshold: u8,
    pub total_pool: u64,
    pub agent_a_pool: u64,
    pub agent_b_pool: u64,
    pub status: ArenaStatus,
    pub winner: Option<u8>,
    pub fee_bps: u16,
    pub settlement_nonce: u64,
}

/// One participant's cumulative position on one side of one arena.
#[derive(Clone, Copy, Debug)]
pub struct Stake {
    pub owner: PubKey,
    pub amount: u64,
    pub side: u8,
    pub claimed: bool,
}

impl Arena {
    /// The arena invariants, established at creation and preserved by
    /// every operation: the total pool is exactly the sum of the two side
    /// pools, the fee never leaves the basis-point range, the threshold is
    /// the fixed 2-of-3, and the committee is legal.
    pub open spec fn wf(&self) -> bool {
        &&& self.total_pool == self.agent_a_pool + self.agent_b_pool
        &&& self.fee_bps <= 10_000
        &&& self.oracle_threshold == crate::ORACLE_THRESHOLD
        &&& oracle_set_valid(self.oracles@)
    }

    /// Decide the invariants at run time, for a caller that holds an arena
    /// of unknown provenance.
    pub fn check_wf(&self) -> (r: bool)
        ensures
            r == self.wf(),
    {
        let pools_ok = match self.agent_a_pool.checked_add(self.agent_b_pool) {
            Some(s) => s == self.total_pool,
            None => false,
        };
        pools_ok && self.fee_bps <= 10_000 && self.oracle_threshold == crate::ORACLE_THRESHOLD
            && check_oracle_set(&self.oracles)
    }
}

/// The arena as created: active, empty pools, no winner, nonce zero.
pub open spec fn fresh_arena(creator: PubKey, fee_bps: u16, oracles: [PubKey; 3]) -> Arena {
    Arena {
        creator,
        oracles,
        oracle_threshold: crate::ORACLE_THRESHOLD,
        total_pool: 0,
        agent_a_pool: 0,
        agent_b_pool: 0,
        status: ArenaStatus::Active,
        winner: None,
        fee_bps,
        settlement_nonce: 0,
    }
}

/// The arena after a stake of `amount` on `side`.
pub open spec fn staked_from(a: Arena, amount: u64, side: u8) -> Arena
    recommends
        a.total_pool + amount <= u64::MAX,
        a.wf(),
{
    Arena {
        total_pool: (a.total_pool + amount) as u64,
        agent_a_pool: if side == 0 {
            (a.agent_a_pool + amount) as u64
        } else {
            a.agent_a_pool
        },
        agent_b_pool: if side == 1 {
            (a.agent_b_pool + amount) as u64
        } else {
            a.agent_b_pool
        },
        ..a
    }
}

/// The stake record after a stake of `amount` on `side`: created on first
/// use (the record is fresh exactly when its amount is zero), accumulated
/// afterwards.
pub open spec fn stake_after(s: Stake, owner: PubKey, amount: u64, side: u8) -> Stake
    recommends
        s.amount + amount <= u64::MAX,
{
    if s.amount == 0 {
        Stake { owner, amount, side, claimed: false }
    } else {
        Stake { amount: (s.amount + amount) as u64, ..s }
    }
}

/// The arena after a settle with `winner`.
pub open spec fn settled_from(a: Arena, winner: u8) -> Arena
    recommends
        a.settlement_nonce < u64::MAX,
{
    Arena {
        status: ArenaStatus::Settled,
        winner: Some(winner),
        settlement_nonce: (a.settlement_nonce + 1) as u64,
        ..a
    }
}

/// The arena after a reset: pools and winner cleared, active again, same
/// committee and fee, nonce advanced.
pub open spec fn reset_from(a: Arena) -> Arena
    recommends
        a.settlement_nonce < u64::MAX,
{
    Arena {
        status: ArenaStatus::Active,
        winner: None,
        total_pool: 0,
        agent_a_pool: 0,
        agent_b_pool: 0,
        settlement_nonce: (a.settlement_nonce + 1) as u64,
        ..a
    }
}

/// The arena after an oracle rotation: new committee, nonce advanced.
pub open spec fn rotated_from(a: Arena, new_oracles: [PubKey; 3]) -> Arena
    recommends
        a.settlement_nonce < u64::MAX,
{
    Arena { oracles: new_oracles, settlement_nonce: (a.settlement_nonce + 1) as u64, ..a }
}

/// The pool staked on the winning side.
pub open spec fn winning_pool(a: Arena, winner: u8) -> u64 {
    if winner == 0 {
        a.agent_a_pool
    } else {
        a.agent_b_pool
    }
}

/// The pool staked on the losing side.
pub open spec fn losing_pool(a: Arena, winner: u8) -> u64 {
    if winner == 0 {
        a.agent_b_pool
    } else {
        a.agent_a_pool
    }
}

/// The consensus verdict over the settle payload at the arena's current
/// nonce.
pub open spec fn settle_verdict<V: SignatureVerifier>(
    v: &V,
    a: Arena,
    arena_key: Seq<u8>,
    winner: u8,
    sigs: Seq<OracleSignature>,
) -> Result<(), SoliseumError> {
    consensus_verdict(
        v,
        a.oracles@,
        a.oracle_threshold,
        settlement_message(arena_key, winner, a.settlement_nonce),
        sigs,
    )
}

/// Law (replay resistance): a signature set in which no entry verifies
/// over the settle payload at the arena's current nonce is always
/// rejected. In particular, a set collected for an earlier nonce fails
/// here once any privileged operation has advanced the nonce, since the
/// payload it was signed over differs from the current one
/// ([`crate::messages::lemma_nonce_binding`]) and from every other
/// operation's payload
/// ([`crate::messages::lemma_messages_domain_separated`]).
pub proof fn lemma_stale_signatures_rejected<V: SignatureVerifier>(
    v: &V,
    a: Arena,
    arena_key: Seq<u8>,
    winner: u8,
    sigs: Seq<OracleSignature>,
)
    requires
        sigs.len() > 0,
        forall|i: int|
            0 <= i < sigs.len() && (#[trigger] sigs[i]).oracle_index < crate::MAX_ORACLES as u8
                ==> !v.valid(
                a.oracles@[sigs[i].oracle_index as int]@,
                settlement_message(arena_key, winner, a.settlement_nonce),
                sigs[i].signature@,
            ),
    ensures
        settle_verdict(v, a, arena_key, winner, sigs) is Err,
{
    crate::consensus::lemma_consensus_soundness(
        v,
        a.oracles@,
        a.oracle_threshold,
        settlement_message(arena_key, winner, a.settlement_nonce),
        sigs,
    );
    if settle_verdict(v, a, arena_key, winner, sigs) is Ok {
        assert(consensus_holds(
            v,
            a.oracles@,
            a.oracle_threshold,
            settlement_message(arena_key, winner, a.settlement_nonce),
            sigs,
        ));
        assert(sigs[0].oracle_index < crate::MAX_ORACLES as u8);
    }
}

/// Who may reset: the creator directly, or a consensus of the committee
/// over the reset payload at the arena's current nonce.
pub open spec fn reset_authorization<V: SignatureVerifier>(
    v: &V,
    a: Arena,
    arena_key: Seq<u8>,
    authority: PubKey,
    sigs: Option<Vec<OracleSignature>>,
) -> Result<(), SoliseumError> {
    if authority@ == a.creator@ {
        Ok(())
    } else {
        match sigs {
            Option::None => Err(SoliseumError::UnauthorizedOracle),
            Option::Some(s) => consensus_verdict(
                v,
                a.oracles@,
                a.oracle_threshold,
                reset_message(arena_key, a.settlement_nonce),
                s@,
            ),
        }
    }
}

/// Who may rotate the committee: the creator directly, or a consensus of
/// the current committee over the rotation payload at the current nonce.
pub open spec fn update_authorization<V: SignatureVerifier>(
    v: &V,
    a: Arena,
    arena_key: Seq<u8>,
    authority: PubKey,
    new_oracles: [PubKey; 3],
    sigs: Option<Vec<OracleSignature>>,
) -> Result<(), SoliseumError> {
    if authority@ == a.creator@ {
        Ok(())
    } else {
        match sigs {
            Option::None => Err(SoliseumError::UnauthorizedOracle),
            Option::Some(s) => consensus_verdict(
                v,
                a.oracles@,
                a.oracle_threshold,
                oracle_update_message(arena_key, new_oracles@, a.settlement_nonce),
                s@,
            ),
        }
    }
}

/// The full verdict of a claim, before any mutation: first a repeated
/// claim, then a wrong status, a missing winner, a losing side, and only
/// then the payout arithmetic.
pub open spec fn claim_verdict(a: Arena, s: Stake) -> Result<u64, SoliseumError> {
    if s.claimed {
        Err(SoliseumError::AlreadyClaimed)
    } else if a.status != ArenaStatus::Settled {
        Err(SoliseumError::InvalidArenaState)
    } else {
        match a.winner {
            Option::None => Err(SoliseumError::InvalidArenaState),
            Option::Some(w) => {
                if s.side != w {
                    Err(SoliseumError::InvalidArenaState)
                } else if winning_pool(a, w) == 0 {
                    Err(SoliseumError::MathOverflow)
                } else if spec_payout(s.amount, winning_pool(a, w), losing_pool(a, w), a.fee_bps)
                    > u64::MAX {
                    Err(SoliseumError::MathOverflow)
                } else {
                    Ok(spec_payout(s.amount, winning_pool(a, w), losing_pool(a, w), a.fee_bps) as u64)
                }
            },
        }
    }
}

/// Open a new arena: a legal committee of 3 distinct non-default keys, a
/// fee within the basis-point range, empty pools, active, nonce zero.
pub fn initialize_arena(creator: &PubKey, fee_bps: u16, oracle_pubkeys: &[PubKey; 3]) -> (r: Result<
    Arena,
    SoliseumError,
>)
    ensures
        fee_bps > 10_000 ==> r == Err::<Arena, SoliseumError>(SoliseumError::MathOverflow),
        fee_bps <= 10_000 && !oracle_set_valid(oracle_pubkeys@) ==> r == Err::<
            Arena,
            SoliseumError,
        >(SoliseumError::InvalidOracleConfig),
        fee_bps <= 10_000 && oracle_set_valid(oracle_pubkeys@) ==> r == Ok::<Arena, SoliseumError>(
            fresh_arena(*creator, fee_bps, *oracle_pubkeys),
        ),
        r matches Ok(a) ==> a.wf(),
{
    if fee_bps > 10_000 {
        return Err(SoliseumError::MathOverflow);
    }
    if !check_oracle_set(oracle_pubkeys) {
        return Err(SoliseumError::InvalidOracleConfig);
    }
    Ok(
        Arena {
            creator: *creator,
            oracles: *oracle_pubkeys,
            oracle_threshold: crate::ORACLE_THRESHOLD,
            total_pool: 0,
            agent_a_pool: 0,
            agent_b_pool: 0,
            status: ArenaStatus::Active,
            winner: None,
            fee_bps,
            settlement_nonce: 0,
        },
    )
}

/// Place a stake on a side. Only allowed while the arena is active; a
/// participant's side is fixed at their first stake; every addition is
/// checked, and a failure anywhere changes nothing (all-or-nothing).
pub fn place_stake(
    arena: &mut Arena,
    stake: &mut Stake,
    user: &PubKey,
    amount: u64,
    side: u8,
) -> (r: Result<(), SoliseumError>)
    requires
        old(arena).wf(),
    ensures
        final(arena).wf(),
        r is Err ==> *final(arena) == *old(arena) && *final(stake) == *old(stake),
        side > 1 ==> r == Err::<(), SoliseumError>(SoliseumError::InvalidArenaState),
        side <= 1 && old(arena).status != ArenaStatus::Active ==> r == Err::<(), SoliseumError>(
            SoliseumError::InvalidArenaState,
        ),
        side <= 1 && old(arena).status == ArenaStatus::Active && amount == 0 ==> r == Err::<
            (),
            SoliseumError,
        >(SoliseumError::MathOverflow),
        side <= 1 && old(arena).status == ArenaStatus::Active && amount > 0 && old(stake).amount > 0
            && old(stake).side != side ==> r == Err::<(), SoliseumError>(
            SoliseumError::InvalidArenaState,
        ),
        side <= 1 && old(arena).status == ArenaStatus::Active && amount > 0 && (old(stake).amount
            == 0 || old(stake).side == side) ==> (if old(stake).amount + amount <= u64::MAX && old(
            arena,
        ).total_pool + amount <= u64::MAX {
            r is Ok && *final(stake) == stake_after(*old(stake), *user, amount, side) && *final(arena)
                == staked_from(*old(arena), amount, side)
        } else {
            r == Err::<(), SoliseumError>(SoliseumError::MathOverflow)
        }),
{
    if side > 1 {
        return Err(SoliseumError::InvalidArenaState);
    }
    if arena.status != ArenaStatus::Active {
        return Err(SoliseumError::InvalidArenaState);
    }
    if amount == 0 {
        return Err(SoliseumError::MathOverflow);
    }
    let fresh = stake.amount == 0;
    if !fresh && stake.side != side {
        return Err(SoliseumError::InvalidArenaState);
    }
    let new_stake_amount = match stake.amount.checked_add(amount) {
        Some(v) => v,
        None => return Err(SoliseumError::MathOverflow),
    };
    let new_total = match arena.total_pool.checked_add(amount) {
        Some(v) => v,
        None => return Err(SoliseumError::MathOverflow),
    };
    if side == 0 {
        arena.agent_a_pool = arena.agent_a_pool + amount;
    } else {
        arena.agent_b_pool = arena.agent_b_pool + amount;
    }
    arena.total_pool = new_total;
    if fresh {
        stake.owner = *user;
        stake.amount = amount;
        stake.side = side;
        stake.claimed = false;
    } else {
        stake.amount = new_stake_amount;
    }
    Ok(())
}

/// Settle the arena with a winner, on a committee consensus over the
/// settle payload bound to the current nonce. On success the winner is
/// recorded, the arena is settled, and the nonce advances.
pub fn settle_game<V: SignatureVerifier>(
    verifier: &V,
    arena: &mut Arena,
    arena_key: &PubKey,
    winner: u8,
    oracle_signatures: &Vec<OracleSignature>,
) -> (r: Result<(), SoliseumError>)
    requires
        old(arena).wf(),
    ensures
        final(arena).wf(),
        r is Err ==> *final(arena) == *old(arena),
        winner > 1 ==> r == Err::<(), SoliseumError>(SoliseumError::InvalidArenaState),
        winner <= 1 && old(arena).status != ArenaStatus::Active ==> r == Err::<(), SoliseumError>(
            SoliseumError::InvalidArenaState,
        ),
        winner <= 1 && old(arena).status == ArenaStatus::Active ==> ({
            let verdict = settle_verdict(verifier, *old(arena), arena_key@, winner, oracle_signatures@);
            if verdict is Err {
                r == verdict
            } else if old(arena).settlement_nonce == u64::MAX {
                r == Err::<(), SoliseumError>(SoliseumError::MathOverflow)
            } else {
                r is Ok && *final(arena) == settled_from(*old(arena), winner)
            }
        }),
        r is Ok ==> winner <= 1 && old(arena).status == ArenaStatus::Active && consensus_holds(
            verifier,
            old(arena).oracles@,
            old(arena).oracle_threshold,
            settlement_message(arena_key@, winner, old(arena).settlement_nonce),
            oracle_signatures@,
        ) && *final(arena) == settled_from(*old(arena), winner) && final(arena).settlement_nonce
            == old(arena).settlement_nonce + 1,
{
    if winner > 1 {
        return Err(SoliseumError::InvalidArenaState);
    }
    if arena.status != ArenaStatus::Active {
        return Err(SoliseumError::InvalidArenaState);
    }
    let message = create_settlement_message(arena_key, winner, arena.settlement_nonce);
    match verify_oracle_consensus(
        verifier,
        &arena.oracles,
        arena.oracle_threshold,
        &message,
        oracle_signatures,
    ) {
        Err(e) => {
            return Err(e);
        },
        Ok(()) => {},
    }
    let new_nonce = match arena.settlement_nonce.checked_add(1) {
        Some(v) => v,
        None => return Err(SoliseumError::MathOverflow),
    };
    arena.winner = Some(winner);
    arena.status = ArenaStatus::Settled;
    arena.settlement_nonce = new_nonce;
    Ok(())
}

/// Reset a settled, fully drained arena so it can host another contest.
/// Authorized by the creator directly or by committee consensus over the
/// reset payload at the current nonce. Pools and winner are cleared, the
/// committee and fee stay, the nonce advances.
pub fn reset_arena<V: SignatureVerifier>(
    verifier: &V,
    arena: &mut Arena,
    arena_key: &PubKey,
    authority: &PubKey,
    custody_balance: u64,
    oracle_signatures: &Option<Vec<OracleSignature>>,
) -> (r: Result<(), SoliseumError>)
    requires
        old(arena).wf(),
    ensures
        final(arena).wf(),
        r is Err ==> *final(arena) == *old(arena),
        old(arena).status != ArenaStatus::Settled ==> r == Err::<(), SoliseumError>(
            SoliseumError::InvalidArenaState,
        ),
        old(arena).status == ArenaStatus::Settled && custody_balance != 0 ==> r == Err::<
            (),
            SoliseumError,
        >(SoliseumError::InvalidArenaState),
        old(arena).status == ArenaStatus::Settled && custody_balance == 0 ==> ({
            let auth = reset_authorization(
                verifier,
                *old(arena),
                arena_key@,
                *authority,
                *oracle_signatures,
            );
            if auth is Err {
                r == auth
            } else if old(arena).settlement_nonce == u64::MAX {
                r == Err::<(), SoliseumError>(SoliseumError::MathOverflow)
            } else {
                r is Ok && *final(arena) == reset_from(*old(arena))
            }
        }),
        r is Ok && authority@ != old(arena).creator@ ==> (oracle_signatures matches Some(s)
            && consensus_holds(
            verifier,
            old(arena).oracles@,
            old(arena).oracle_threshold,
            reset_message(arena_key@, old(arena).settlement_nonce),
            s@,
        )),
        r is Ok ==> final(arena).settlement_nonce == old(arena).settlement_nonce + 1,
{
    if arena.status != ArenaStatus::Settled {
        return Err(SoliseumError::InvalidArenaState);
    }
    if custody_balance != 0 {
        return Err(SoliseumError::InvalidArenaState);
    }
    let is_creator = authority.key_eq(&arena.creator);
    if !is_creator {
        match oracle_signatures {
            None => {
                return Err(SoliseumError::UnauthorizedOracle);
            },
            Some(sigs) => {
                let message = create_reset_message(arena_key, arena.settlement_nonce);
                match verify_oracle_consensus(
                    verifier,
                    &arena.oracles,
                    arena.oracle_threshold,
                    &message,
                    sigs,
                ) {
                    Err(e) => {
                        return Err(e);
                    },
                    Ok(()) => {},
                }
            },
        }
    }
    let new_nonce = match arena.settlement_nonce.checked_add(1) {
        Some(v) => v,
        None => return Err(SoliseumError::MathOverflow),
    };
    arena.status = ArenaStatus::Active;
    arena.winner = None;
    arena.total_pool = 0;
    arena.agent_a_pool = 0;
    arena.agent_b_pool = 0;
    arena.settlement_nonce = new_nonce;
    Ok(())
}

/// Replace the oracle committee, in any status. The new committee must be
/// legal; authorized by the creator directly or by consensus of the
/// current committee over the rotation payload at the current nonce.
pub fn update_oracles<V: SignatureVerifier>(
    verifier: &V,
    arena: &mut Arena,
    arena_key: &PubKey,
    authority: &PubKey,
    new_oracles: &[PubKey; 3],
    oracle_signatures: &Option<Vec<OracleSignature>>,
) -> (r: Result<(), SoliseumError>)
    requires
        old(arena).wf(),
    ensures
        final(arena).wf(),
        r is Err ==> *final(arena) == *old(arena),
        !oracle_set_valid(new_oracles@) ==> r == Err::<(), SoliseumError>(
            SoliseumError::InvalidOracleConfig,
        ),
        oracle_set_valid(new_oracles@) ==> ({
            let auth = update_authorization(
                verifier,
                *old(arena),
                arena_key@,
                *authority,
                *new_oracles,
                *oracle_signatures,
            );
            if auth is Err {
                r == auth
            } else if old(arena).settlement_nonce == u64::MAX {
                r == Err::<(), SoliseumError>(SoliseumError::MathOverflow)
            } else {
                r is Ok && *final(arena) == rotated_from(*old(arena), *new_oracles)
            }
        }),
        r is Ok && authority@ != old(arena).creator@ ==> (oracle_signatures matches Some(s)
            && consensus_holds(
            verifier,
            old(arena).oracles@,
            old(arena).oracle_threshold,
            oracle_update_message(arena_key@, new_oracles@, old(arena).settlement_nonce),
            s@,
        )),
        r is Ok ==> final(arena).settlement_nonce == old(arena).settlement_nonce + 1,
{
    if !check_oracle_set(new_oracles) {
        return Err(SoliseumError::InvalidOracleConfig);
    }
    let is_creator = authority.key_eq(&arena.creator);
    if !is_creator {
        match oracle_signatures {
            None => {
                return Err(SoliseumError::UnauthorizedOracle);
            },
            Some(sigs) => {
                let message = create_oracle_update_message(
                    arena_key,
                    new_oracles,
                    arena.settlement_nonce,
                );
                match verify_oracle_consensus(
                    verifier,
                    &arena.oracles,
                    arena.oracle_threshold,
                    &message,
                    sigs,
                ) {
                    Err(e) => {
                        return Err(e);
                    },
                    Ok(()) => {},
                }
            },
        }
    }
    let new_nonce = match arena.settlement_nonce.checked_add(1) {
        Some(v) => v,
        None => return Err(SoliseumError::MathOverflow),
    };
    arena.oracles = *new_oracles;
    arena.settlement_nonce = new_nonce;
    Ok(())
}

/// Claim the reward for a winning stake. The claimed flag flips before the
/// host is asked to move any funds, so a re-entering second claim always
/// fails `AlreadyClaimed` and never pays twice. Returns the amount the
/// host must transfer.
pub fn claim_reward(arena: &Arena, stake: &mut Stake) -> (r: Result<u64, SoliseumError>)
    ensures
        r == claim_verdict(*arena, *old(stake)),
        r is Ok ==> *final(stake) == (Stake { claimed: true, ..*old(stake) }),
        r is Err ==> *final(stake) == *old(stake),
{
    if stake.claimed {
        return Err(SoliseumError::AlreadyClaimed);
    }
    if arena.status != ArenaStatus::Settled {
        return Err(SoliseumError::InvalidArenaState);
    }
    let winner = match arena.winner {
        None => {
            return Err(SoliseumError::InvalidArenaState);
        },
        Some(w) => w,
    };
    if stake.side != winner {
        return Err(SoliseumError::InvalidArenaState);
    }
    let total_winner_pool = if winner == 0 {
        arena.agent_a_pool
    } else {
        arena.agent_b_pool
    };
    let total_loser_pool = if winner == 0 {
        arena.agent_b_pool
    } else {
        arena.agent_a_pool
    };
    let total_payout = match payout(stake.amount, total_winner_pool, total_loser_pool, arena.fee_bps) {
        Ok(v) => v,
        Err(e) => {
            return Err(e);
        },
    };
    stake.claimed = true;
    Ok(total_payout)
}

} // verus!
