//! End-to-end tests of the settlement core: payout arithmetic, message
//! layout, consensus verification, and the arena lifecycle.

use soliseum::arena::claim_reward;
use soliseum::arena::initialize_arena;
use soliseum::arena::place_stake;
use soliseum::arena::reset_arena;
use soliseum::arena::settle_game;
use soliseum::arena::update_oracles;
use soliseum::arena::Arena;
use soliseum::arena::ArenaStatus;
use soliseum::arena::Stake;
use soliseum::consensus::verify_oracle_consensus;
use soliseum::consensus::ListVerifier;
use soliseum::consensus::OracleSignature;
use soliseum::errors::SoliseumError;
use soliseum::keys::PubKey;
use soliseum::messages::create_oracle_update_message;
use soliseum::messages::create_reset_message;
use soliseum::messages::create_settlement_message;
use soliseum::payout::payout;

fn key(b: u8) -> PubKey {
    PubKey { bytes: [b; 32] }
}

fn committee() -> [PubKey; 3] {
    [key(1), key(2), key(3)]
}

fn sig_bytes(b: u8) -> [u8; 64] {
    [b; 64]
}

fn osig(idx: u8, b: u8) -> OracleSignature {
    OracleSignature {
        oracle_index: idx,
        signature: sig_bytes(b),
    }
}

fn creator() -> PubKey {
    key(9)
}

fn arena_key() -> PubKey {
    key(42)
}

fn fresh_stake() -> Stake {
    Stake {
        owner: key(0),
        amount: 0,
        side: 0,
        claimed: false,
    }
}

/// A verifier holding two committee signatures over the settle payload for
/// `winner` at the arena's current nonce, and the matching signature set.
fn settle_consensus(arena: &Arena, winner: u8) -> (ListVerifier, Vec<OracleSignature>) {
    let msg = create_settlement_message(&arena_key(), winner, arena.settlement_nonce);
    let mut v = ListVerifier::new();
    v.accept(&key(1), msg.clone(), sig_bytes(0xA0));
    v.accept(&key(2), msg.clone(), sig_bytes(0xA1));
    (v, vec![osig(0, 0xA0), osig(1, 0xA1)])
}

// ---- payout calculator ----

#[test]
fn payout_scenario_five_percent_fee() {
    // net loser pool = 3000 * 9500 / 10000 = 2850;
    // reward = 200 * 2850 / 1000 = 570; total = 770.
    assert_eq!(payout(200, 1000, 3000, 500), Ok(770));
}

#[test]
fn payout_zero_fee_returns_full_share() {
    assert_eq!(payout(100, 100, 100, 0), Ok(200));
}

#[test]
fn payout_full_fee_returns_principal_only() {
    assert_eq!(payout(100, 200, 1000, 10_000), Ok(100));
}

#[test]
fn payout_fee_above_denominator_saturates_to_principal() {
    assert_eq!(payout(100, 100, 1000, 10_001), Ok(100));
}

#[test]
fn payout_truncates_reward_down() {
    // reward = 1 * 10 / 3 = 3 (truncated), total = 4.
    assert_eq!(payout(1, 3, 10, 0), Ok(4));
}

#[test]
fn payout_zero_winner_pool_is_error_not_crash() {
    assert_eq!(payout(100, 0, 500, 0), Err(SoliseumError::MathOverflow));
}

#[test]
fn payout_too_large_for_u64_is_error() {
    assert_eq!(
        payout(u64::MAX, 1, u64::MAX, 0),
        Err(SoliseumError::MathOverflow)
    );
}

// ---- signed messages ----

#[test]
fn settlement_message_layout_is_exact() {
    let k = PubKey { bytes: [7; 32] };
    let msg = create_settlement_message(&k, 1, 0x0102030405060708);
    let mut expected: Vec<u8> = Vec::new();
    expected.extend_from_slice(b"soliseum:settle:");
    expected.extend_from_slice(&[7u8; 32]);
    expected.push(1);
    expected.extend_from_slice(&0x0102030405060708u64.to_le_bytes());
    assert_eq!(msg, expected);
}

#[test]
fn reset_message_layout_is_exact() {
    let k = PubKey { bytes: [8; 32] };
    let msg = create_reset_message(&k, 3);
    let mut expected: Vec<u8> = Vec::new();
    expected.extend_from_slice(b"soliseum:reset:");
    expected.extend_from_slice(&[8u8; 32]);
    expected.extend_from_slice(&3u64.to_le_bytes());
    assert_eq!(msg, expected);
}

#[test]
fn oracle_update_message_layout_is_exact() {
    let k = PubKey { bytes: [8; 32] };
    let msg = create_oracle_update_message(&k, &[key(4), key(5), key(6)], 2);
    let mut expected: Vec<u8> = Vec::new();
    expected.extend_from_slice(b"soliseum:update_oracles:");
    expected.extend_from_slice(&[8u8; 32]);
    expected.extend_from_slice(&[4u8; 32]);
    expected.extend_from_slice(&[5u8; 32]);
    expected.extend_from_slice(&[6u8; 32]);
    expected.extend_from_slice(&2u64.to_le_bytes());
    assert_eq!(msg, expected);
}

#[test]
fn messages_differ_across_operations_and_nonces() {
    let k = arena_key();
    let settle = create_settlement_message(&k, 0, 5);
    let reset = create_reset_message(&k, 5);
    let update = create_oracle_update_message(&k, &committee(), 5);
    assert_ne!(settle, reset);
    assert_ne!(settle, update);
    assert_ne!(reset, update);
    assert_ne!(settle, create_settlement_message(&k, 0, 6));
    assert_ne!(settle, create_settlement_message(&k, 1, 5));
    assert_ne!(reset, create_reset_message(&k, 6));
}

// ---- consensus verifier ----

/// A verifier accepting signatures 0xA0 from oracle 0, 0xA1 from oracle 1
/// over `msg`.
fn two_sig_verifier(msg: &[u8]) -> ListVerifier {
    let mut v = ListVerifier::new();
    v.accept(&key(1), msg.to_vec(), sig_bytes(0xA0));
    v.accept(&key(2), msg.to_vec(), sig_bytes(0xA1));
    v
}

#[test]
fn consensus_accepts_two_valid_signatures() {
    let msg = create_settlement_message(&arena_key(), 0, 0);
    let v = two_sig_verifier(&msg);
    let sigs = vec![osig(0, 0xA0), osig(1, 0xA1)];
    assert_eq!(
        verify_oracle_consensus(&v, &committee(), 2, &msg, &sigs),
        Ok(())
    );
}

#[test]
fn consensus_rejects_below_threshold() {
    let msg = create_settlement_message(&arena_key(), 0, 0);
    let v = two_sig_verifier(&msg);
    let sigs = vec![osig(0, 0xA0)];
    assert_eq!(
        verify_oracle_consensus(&v, &committee(), 2, &msg, &sigs),
        Err(SoliseumError::InsufficientSignatures)
    );
}

#[test]
fn consensus_rejects_duplicate_oracle() {
    let msg = create_settlement_message(&arena_key(), 0, 0);
    let v = two_sig_verifier(&msg);
    let sigs = vec![osig(0, 0xA0), osig(0, 0xA0)];
    assert_eq!(
        verify_oracle_consensus(&v, &committee(), 2, &msg, &sigs),
        Err(SoliseumError::DuplicateOracle)
    );
}

#[test]
fn consensus_rejects_out_of_range_index() {
    let msg = create_settlement_message(&arena_key(), 0, 0);
    let v = two_sig_verifier(&msg);
    let sigs = vec![osig(0, 0xA0), osig(3, 0xA1)];
    assert_eq!(
        verify_oracle_consensus(&v, &committee(), 2, &msg, &sigs),
        Err(SoliseumError::InvalidOracleIndex)
    );
}

#[test]
fn consensus_rejects_bad_signature() {
    let msg = create_settlement_message(&arena_key(), 0, 0);
    let v = two_sig_verifier(&msg);
    let sigs = vec![osig(0, 0xA0), osig(1, 0xEE)];
    assert_eq!(
        verify_oracle_consensus(&v, &committee(), 2, &msg, &sigs),
        Err(SoliseumError::InvalidSignature)
    );
}

#[test]
fn consensus_checks_every_supplied_signature() {
    // The threshold is already met by the first two signatures, but the
    // third is bad and must still fail the whole call: no early exit.
    let msg = create_settlement_message(&arena_key(), 0, 0);
    let v = two_sig_verifier(&msg);
    let sigs = vec![osig(0, 0xA0), osig(1, 0xA1), osig(2, 0xEE)];
    assert_eq!(
        verify_oracle_consensus(&v, &committee(), 2, &msg, &sigs),
        Err(SoliseumError::InvalidSignature)
    );
}

// ---- arena lifecycle ----

#[test]
fn default_status_is_pending() {
    assert_eq!(ArenaStatus::default(), ArenaStatus::Pending);
}

#[test]
fn initialize_arena_starts_active_and_empty() {
    let arena = initialize_arena(&creator(), 250, &committee()).unwrap();
    assert_eq!(arena.status, ArenaStatus::Active);
    assert_eq!(arena.total_pool, 0);
    assert_eq!(arena.agent_a_pool, 0);
    assert_eq!(arena.agent_b_pool, 0);
    assert_eq!(arena.winner, None);
    assert_eq!(arena.fee_bps, 250);
    assert_eq!(arena.settlement_nonce, 0);
    assert_eq!(arena.oracle_threshold, 2);
    assert_eq!(arena.creator.bytes, [9; 32]);
    assert!(arena.check_wf());
}

#[test]
fn initialize_arena_rejects_fee_above_range() {
    assert!(matches!(
        initialize_arena(&creator(), 10_001, &committee()),
        Err(SoliseumError::MathOverflow)
    ));
}

#[test]
fn initialize_arena_rejects_duplicate_oracles() {
    assert!(matches!(
        initialize_arena(&creator(), 0, &[key(1), key(1), key(3)]),
        Err(SoliseumError::InvalidOracleConfig)
    ));
}

#[test]
fn initialize_arena_rejects_default_oracle_key() {
    assert!(matches!(
        initialize_arena(&creator(), 0, &[key(0), key(2), key(3)]),
        Err(SoliseumError::InvalidOracleConfig)
    ));
}

#[test]
fn place_stake_accumulates_on_same_side() {
    let mut arena = initialize_arena(&creator(), 0, &committee()).unwrap();
    let mut stake = fresh_stake();
    let user = key(20);
    assert_eq!(place_stake(&mut arena, &mut stake, &user, 100, 1), Ok(()));
    assert_eq!(place_stake(&mut arena, &mut stake, &user, 50, 1), Ok(()));
    assert_eq!(stake.amount, 150);
    assert_eq!(stake.side, 1);
    assert_eq!(stake.owner.bytes, [20; 32]);
    assert!(!stake.claimed);
    assert_eq!(arena.total_pool, 150);
    assert_eq!(arena.agent_a_pool, 0);
    assert_eq!(arena.agent_b_pool, 150);
    assert!(arena.check_wf());
}

#[test]
fn place_stake_rejects_side_change() {
    // A second stake by the same participant on the other side fails and
    // changes nothing.
    let mut arena = initialize_arena(&creator(), 0, &committee()).unwrap();
    let mut stake = fresh_stake();
    let user = key(20);
    assert_eq!(place_stake(&mut arena, &mut stake, &user, 100, 0), Ok(()));
    assert_eq!(
        place_stake(&mut arena, &mut stake, &user, 50, 1),
        Err(SoliseumError::InvalidArenaState)
    );
    assert_eq!(stake.amount, 100);
    assert_eq!(stake.side, 0);
    assert_eq!(arena.total_pool, 100);
    assert_eq!(arena.agent_a_pool, 100);
    assert_eq!(arena.agent_b_pool, 0);
}

#[test]
fn place_stake_rejects_invalid_side() {
    let mut arena = initialize_arena(&creator(), 0, &committee()).unwrap();
    let mut stake = fresh_stake();
    assert_eq!(
        place_stake(&mut arena, &mut stake, &key(20), 100, 2),
        Err(SoliseumError::InvalidArenaState)
    );
    assert_eq!(arena.total_pool, 0);
}

#[test]
fn place_stake_rejects_zero_amount() {
    let mut arena = initialize_arena(&creator(), 0, &committee()).unwrap();
    let mut stake = fresh_stake();
    assert_eq!(
        place_stake(&mut arena, &mut stake, &key(20), 0, 0),
        Err(SoliseumError::MathOverflow)
    );
}

#[test]
fn place_stake_rejects_when_not_active() {
    let mut arena = initialize_arena(&creator(), 0, &committee()).unwrap();
    arena.status = ArenaStatus::Settled;
    let mut stake = fresh_stake();
    assert_eq!(
        place_stake(&mut arena, &mut stake, &key(20), 100, 0),
        Err(SoliseumError::InvalidArenaState)
    );
}

#[test]
fn place_stake_overflow_changes_nothing() {
    let mut arena = initialize_arena(&creator(), 0, &committee()).unwrap();
    let mut stake = fresh_stake();
    let user = key(20);
    assert_eq!(
        place_stake(&mut arena, &mut stake, &user, u64::MAX, 0),
        Ok(())
    );
    assert_eq!(
        place_stake(&mut arena, &mut stake, &user, 1, 0),
        Err(SoliseumError::MathOverflow)
    );
    assert_eq!(stake.amount, u64::MAX);
    assert_eq!(arena.total_pool, u64::MAX);
    assert_eq!(arena.agent_a_pool, u64::MAX);
}

#[test]
fn settle_game_records_winner_and_advances_nonce() {
    let mut arena = initialize_arena(&creator(), 0, &committee()).unwrap();
    let (v, sigs) = settle_consensus(&arena, 1);
    assert_eq!(settle_game(&v, &mut arena, &arena_key(), 1, &sigs), Ok(()));
    assert_eq!(arena.status, ArenaStatus::Settled);
    assert_eq!(arena.winner, Some(1));
    assert_eq!(arena.settlement_nonce, 1);
    assert!(arena.check_wf());
}

#[test]
fn settle_game_rejects_invalid_winner() {
    let mut arena = initialize_arena(&creator(), 0, &committee()).unwrap();
    let (v, sigs) = settle_consensus(&arena, 0);
    assert_eq!(
        settle_game(&v, &mut arena, &arena_key(), 2, &sigs),
        Err(SoliseumError::InvalidArenaState)
    );
    assert_eq!(arena.status, ArenaStatus::Active);
}

#[test]
fn settle_game_rejects_when_already_settled() {
    let mut arena = initialize_arena(&creator(), 0, &committee()).unwrap();
    let (v, sigs) = settle_consensus(&arena, 0);
    assert_eq!(settle_game(&v, &mut arena, &arena_key(), 0, &sigs), Ok(()));
    assert_eq!(
        settle_game(&v, &mut arena, &arena_key(), 0, &sigs),
        Err(SoliseumError::InvalidArenaState)
    );
}

#[test]
fn settle_signatures_cannot_replay_after_nonce_advances() {
    // Signatures valid for the nonce-0 settle payload pass once; after a
    // reset advances the nonce they are refused.
    let mut arena = initialize_arena(&creator(), 0, &committee()).unwrap();
    let (v, sigs) = settle_consensus(&arena, 0);
    assert_eq!(settle_game(&v, &mut arena, &arena_key(), 0, &sigs), Ok(()));
    assert_eq!(
        reset_arena(&v, &mut arena, &arena_key(), &creator(), 0, &None),
        Ok(())
    );
    assert_eq!(arena.settlement_nonce, 2);
    assert_eq!(
        settle_game(&v, &mut arena, &arena_key(), 0, &sigs),
        Err(SoliseumError::InvalidSignature)
    );
    assert_eq!(arena.status, ArenaStatus::Active);
}

#[test]
fn reset_by_creator_clears_pools_and_reactivates() {
    let mut arena = initialize_arena(&creator(), 0, &committee()).unwrap();
    let mut stake = fresh_stake();
    assert_eq!(place_stake(&mut arena, &mut stake, &key(20), 100, 0), Ok(()));
    let (v, sigs) = settle_consensus(&arena, 0);
    assert_eq!(settle_game(&v, &mut arena, &arena_key(), 0, &sigs), Ok(()));
    assert_eq!(
        reset_arena(&v, &mut arena, &arena_key(), &creator(), 0, &None),
        Ok(())
    );
    assert_eq!(arena.status, ArenaStatus::Active);
    assert_eq!(arena.winner, None);
    assert_eq!(arena.total_pool, 0);
    assert_eq!(arena.agent_a_pool, 0);
    assert_eq!(arena.agent_b_pool, 0);
    assert_eq!(arena.settlement_nonce, 2);
    assert!(arena.check_wf());
}

#[test]
fn reset_rejects_when_not_settled() {
    let mut arena = initialize_arena(&creator(), 0, &committee()).unwrap();
    let v = ListVerifier::new();
    assert_eq!(
        reset_arena(&v, &mut arena, &arena_key(), &creator(), 0, &None),
        Err(SoliseumError::InvalidArenaState)
    );
}

#[test]
fn reset_rejects_while_custody_holds_funds() {
    // An un-drained arena cannot be recycled: the arena stays settled.
    let mut arena = initialize_arena(&creator(), 0, &committee()).unwrap();
    let (v, sigs) = settle_consensus(&arena, 0);
    assert_eq!(settle_game(&v, &mut arena, &arena_key(), 0, &sigs), Ok(()));
    assert_eq!(
        reset_arena(&v, &mut arena, &arena_key(), &creator(), 57, &None),
        Err(SoliseumError::InvalidArenaState)
    );
    assert_eq!(arena.status, ArenaStatus::Settled);
    assert_eq!(arena.winner, Some(0));
}

#[test]
fn reset_rejects_non_creator_without_signatures() {
    let mut arena = initialize_arena(&creator(), 0, &committee()).unwrap();
    let (v, sigs) = settle_consensus(&arena, 0);
    assert_eq!(settle_game(&v, &mut arena, &arena_key(), 0, &sigs), Ok(()));
    assert_eq!(
        reset_arena(&v, &mut arena, &arena_key(), &key(33), 0, &None),
        Err(SoliseumError::UnauthorizedOracle)
    );
    assert_eq!(arena.status, ArenaStatus::Settled);
}

#[test]
fn reset_by_oracle_consensus() {
    let mut arena = initialize_arena(&creator(), 0, &committee()).unwrap();
    let (v, sigs) = settle_consensus(&arena, 0);
    assert_eq!(settle_game(&v, &mut arena, &arena_key(), 0, &sigs), Ok(()));
    let msg = create_reset_message(&arena_key(), arena.settlement_nonce);
    let mut rv = ListVerifier::new();
    rv.accept(&key(2), msg.clone(), sig_bytes(0xB1));
    rv.accept(&key(3), msg.clone(), sig_bytes(0xB2));
    let reset_sigs = vec![osig(1, 0xB1), osig(2, 0xB2)];
    assert_eq!(
        reset_arena(&rv, &mut arena, &arena_key(), &key(33), 0, &Some(reset_sigs)),
        Ok(())
    );
    assert_eq!(arena.status, ArenaStatus::Active);
    assert_eq!(arena.settlement_nonce, 2);
}

#[test]
fn update_oracles_by_creator_replaces_committee() {
    let mut arena = initialize_arena(&creator(), 0, &committee()).unwrap();
    let new_keys = [key(4), key(5), key(6)];
    let v = ListVerifier::new();
    assert_eq!(
        update_oracles(&v, &mut arena, &arena_key(), &creator(), &new_keys, &None),
        Ok(())
    );
    assert_eq!(arena.oracles[0].bytes, [4; 32]);
    assert_eq!(arena.oracles[1].bytes, [5; 32]);
    assert_eq!(arena.oracles[2].bytes, [6; 32]);
    assert_eq!(arena.settlement_nonce, 1);
    assert!(arena.check_wf());
}

#[test]
fn update_oracles_rejects_illegal_committee() {
    let mut arena = initialize_arena(&creator(), 0, &committee()).unwrap();
    let v = ListVerifier::new();
    assert_eq!(
        update_oracles(
            &v,
            &mut arena,
            &arena_key(),
            &creator(),
            &[key(4), key(4), key(6)],
            &None
        ),
        Err(SoliseumError::InvalidOracleConfig)
    );
    assert_eq!(arena.oracles[0].bytes, [1; 32]);
    assert_eq!(arena.settlement_nonce, 0);
}

#[test]
fn update_oracles_by_consensus_of_current_committee() {
    let mut arena = initialize_arena(&creator(), 0, &committee()).unwrap();
    let new_keys = [key(4), key(5), key(6)];
    let msg = create_oracle_update_message(&arena_key(), &new_keys, 0);
    let mut v = ListVerifier::new();
    v.accept(&key(1), msg.clone(), sig_bytes(0xC0));
    v.accept(&key(3), msg.clone(), sig_bytes(0xC2));
    let sigs = vec![osig(0, 0xC0), osig(2, 0xC2)];
    assert_eq!(
        update_oracles(&v, &mut arena, &arena_key(), &key(33), &new_keys, &Some(sigs)),
        Ok(())
    );
    assert_eq!(arena.oracles[1].bytes, [5; 32]);
    assert_eq!(arena.settlement_nonce, 1);
}

// ---- claims ----

#[test]
fn claim_pays_pro_rata_share() {
    // fee 5%; side 0 holds 1000 (200 + 800), side 1 holds 3000;
    // winner 0; the 200-stake gets 200 + 200*2850/1000 = 770.
    let mut arena = initialize_arena(&creator(), 500, &committee()).unwrap();
    let mut stake1 = fresh_stake();
    let mut stake2 = fresh_stake();
    let mut stake3 = fresh_stake();
    assert_eq!(place_stake(&mut arena, &mut stake1, &key(20), 200, 0), Ok(()));
    assert_eq!(place_stake(&mut arena, &mut stake2, &key(21), 800, 0), Ok(()));
    assert_eq!(place_stake(&mut arena, &mut stake3, &key(22), 3000, 1), Ok(()));
    let (v, sigs) = settle_consensus(&arena, 0);
    assert_eq!(settle_game(&v, &mut arena, &arena_key(), 0, &sigs), Ok(()));
    assert_eq!(claim_reward(&arena, &mut stake1), Ok(770));
    assert!(stake1.claimed);
    assert_eq!(stake1.amount, 200);
}

#[test]
fn second_claim_always_fails_already_claimed() {
    let mut arena = initialize_arena(&creator(), 500, &committee()).unwrap();
    let mut stake = fresh_stake();
    let mut other = fresh_stake();
    assert_eq!(place_stake(&mut arena, &mut stake, &key(20), 200, 0), Ok(()));
    assert_eq!(place_stake(&mut arena, &mut other, &key(22), 300, 1), Ok(()));
    let (v, sigs) = settle_consensus(&arena, 0);
    assert_eq!(settle_game(&v, &mut arena, &arena_key(), 0, &sigs), Ok(()));
    assert_eq!(claim_reward(&arena, &mut stake), Ok(485));
    let before = stake;
    assert_eq!(
        claim_reward(&arena, &mut stake),
        Err(SoliseumError::AlreadyClaimed)
    );
    assert_eq!(stake.amount, before.amount);
    assert_eq!(stake.side, before.side);
    assert!(stake.claimed);
}

#[test]
fn claim_rejects_losing_side() {
    let mut arena = initialize_arena(&creator(), 0, &committee()).unwrap();
    let mut winner_stake = fresh_stake();
    let mut loser_stake = fresh_stake();
    assert_eq!(
        place_stake(&mut arena, &mut winner_stake, &key(20), 100, 0),
        Ok(())
    );
    assert_eq!(
        place_stake(&mut arena, &mut loser_stake, &key(21), 100, 1),
        Ok(())
    );
    let (v, sigs) = settle_consensus(&arena, 0);
    assert_eq!(settle_game(&v, &mut arena, &arena_key(), 0, &sigs), Ok(()));
    assert_eq!(
        claim_reward(&arena, &mut loser_stake),
        Err(SoliseumError::InvalidArenaState)
    );
    assert!(!loser_stake.claimed);
}

#[test]
fn claim_rejects_before_settlement() {
    let mut arena = initialize_arena(&creator(), 0, &committee()).unwrap();
    let mut stake = fresh_stake();
    assert_eq!(place_stake(&mut arena, &mut stake, &key(20), 100, 0), Ok(()));
    assert_eq!(
        claim_reward(&arena, &mut stake),
        Err(SoliseumError::InvalidArenaState)
    );
}

#[test]
fn claim_with_empty_winning_pool_fails_cleanly() {
    // Two stakes of 100 on side 1, nothing on side 0; the committee
    // settles winner 0 anyway. A side-0 stake record then fails its claim
    // with an error, never a division crash, and stays unclaimed.
    let mut arena = initialize_arena(&creator(), 0, &committee()).unwrap();
    let mut s1 = fresh_stake();
    let mut s2 = fresh_stake();
    assert_eq!(place_stake(&mut arena, &mut s1, &key(20), 100, 1), Ok(()));
    assert_eq!(place_stake(&mut arena, &mut s2, &key(21), 100, 1), Ok(()));
    let (v, sigs) = settle_consensus(&arena, 0);
    assert_eq!(settle_game(&v, &mut arena, &arena_key(), 0, &sigs), Ok(()));
    assert_eq!(arena.agent_a_pool, 0);
    let mut rogue = Stake {
        owner: key(30),
        amount: 100,
        side: 0,
        claimed: false,
    };
    assert_eq!(
        claim_reward(&arena, &mut rogue),
        Err(SoliseumError::MathOverflow)
    );
    assert!(!rogue.claimed);
}

#[test]
fn pools_stay_consistent_through_a_full_round() {
    let mut arena = initialize_arena(&creator(), 100, &committee()).unwrap();
    let mut a = fresh_stake();
    let mut b = fresh_stake();
    assert_eq!(place_stake(&mut arena, &mut a, &key(20), 1234, 0), Ok(()));
    assert_eq!(place_stake(&mut arena, &mut b, &key(21), 4321, 1), Ok(()));
    assert_eq!(arena.total_pool, arena.agent_a_pool + arena.agent_b_pool);
    assert!(arena.check_wf());
    let (v, sigs) = settle_consensus(&arena, 1);
    assert_eq!(settle_game(&v, &mut arena, &arena_key(), 1, &sigs), Ok(()));
    assert_eq!(arena.total_pool, arena.agent_a_pool + arena.agent_b_pool);
    assert!(arena.check_wf());
    assert_eq!(
        reset_arena(&v, &mut arena, &arena_key(), &creator(), 0, &None),
        Ok(())
    );
    assert!(arena.check_wf());
}

#[test]
fn claims_in_sum_never_exceed_pools() {
    // Side 0 holds 3 + 5 + 7 = 15, side 1 holds 10, no fee. Every winner
    // claims; truncation under-pays the pool: 5 + 8 + 11 = 24 <= 15 + 10.
    let mut arena = initialize_arena(&creator(), 0, &committee()).unwrap();
    let mut s1 = fresh_stake();
    let mut s2 = fresh_stake();
    let mut s3 = fresh_stake();
    let mut loser = fresh_stake();
    assert_eq!(place_stake(&mut arena, &mut s1, &key(20), 3, 0), Ok(()));
    assert_eq!(place_stake(&mut arena, &mut s2, &key(21), 5, 0), Ok(()));
    assert_eq!(place_stake(&mut arena, &mut s3, &key(22), 7, 0), Ok(()));
    assert_eq!(place_stake(&mut arena, &mut loser, &key(23), 10, 1), Ok(()));
    let (v, sigs) = settle_consensus(&arena, 0);
    assert_eq!(settle_game(&v, &mut arena, &arena_key(), 0, &sigs), Ok(()));
    let p1 = claim_reward(&arena, &mut s1).unwrap();
    let p2 = claim_reward(&arena, &mut s2).unwrap();
    let p3 = claim_reward(&arena, &mut s3).unwrap();
    assert_eq!((p1, p2, p3), (5, 8, 11));
    let net_loser_pool = arena.agent_b_pool * 10_000 / 10_000;
    assert!(p1 + p2 + p3 <= arena.agent_a_pool + net_loser_pool);
}

#[test]
fn check_wf_detects_inconsistent_pools() {
    let mut arena = initialize_arena(&creator(), 0, &committee()).unwrap();
    assert!(arena.check_wf());
    arena.total_pool = 7;
    assert!(!arena.check_wf());
}
