//! Signed-message builder: domain-separated, nonce-bound byte payloads for
//! each authorizable operation. Distinct tags and fixed-width fields make
//! the encoding unambiguous, so a signature can never be replayed across
//! operations, arenas, or nonces.

use vstd::prelude::*;

use crate::keys::PubKey;

verus! {

/// Tag of a settle message: the bytes of "soliseum:settle:".
pub open spec fn settle_tag() -> Seq<u8> {
    seq![115u8, 111u8, 108u8, 105u8, 115u8, 101u8, 117u8, 109u8, 58u8, 115u8, 101u8, 116u8, 116u8, 108u8, 101u8, 58u8]
}

/// Tag of a reset message: the bytes of "soliseum:reset:".
pub open spec fn reset_tag() -> Seq<u8> {
    seq![115u8, 111u8, 108u8, 105u8, 115u8, 101u8, 117u8, 109u8, 58u8, 114u8, 101u8, 115u8, 101u8, 116u8, 58u8]
}

/// Tag of an oracle-rotation message: the bytes of "soliseum:update_oracles:".
pub open spec fn update_tag() -> Seq<u8> {
    seq![115u8, 111u8, 108u8, 105u8, 115u8, 101u8, 117u8, 109u8, 58u8, 117u8, 112u8, 100u8, 97u8, 116u8, 101u8, 95u8, 111u8, 114u8, 97u8, 99u8, 108u8, 101u8, 115u8, 58u8]
}

/// The bytes of a whole committee, in order.
pub open spec fn keys_bytes(keys: Seq<PubKey>) -> Seq<u8>
    recommends
        keys.len() == 3,
{
    keys[0]@ + keys[1]@ + keys[2]@
}

/// Payload that authorizes settling one arena with one winner at one nonce.
pub open spec fn settlement_message(arena: Seq<u8>, winner: u8, nonce: u64) -> Seq<u8> {
    settle_tag() + arena + seq![winner] + vstd::bytes::spec_u64_to_le_bytes(nonce)
}

/// Payload that authorizes resetting one arena at one nonce.
pub open spec fn reset_message(arena: Seq<u8>, nonce: u64) -> Seq<u8> {
    reset_tag() + arena + vstd::bytes::spec_u64_to_le_bytes(nonce)
}

/// Payload that authorizes replacing one arena's committee at one nonce.
pub open spec fn oracle_update_message(arena: Seq<u8>, new_oracles: Seq<PubKey>, nonce: u64) -> Seq<u8>
    recommends
        new_oracles.len() == 3,
{
    update_tag() + arena + keys_bytes(new_oracles) + vstd::bytes::spec_u64_to_le_bytes(nonce)
}

/// Append a slice of bytes to a message.
fn push_slice(msg: &mut Vec<u8>, src: &[u8])
    ensures
        final(msg)@ == old(msg)@ + src@,
{
    let ghost base = msg@;
    let mut i: usize = 0;
    while i < src.len()
        invariant
            i <= src@.len(),
            msg@ == base + src@.take(i as int),
        decreases src@.len() - i,
    {
        msg.push(src[i]);
        assert(msg@ =~= base + src@.take(i as int + 1));
        i += 1;
    }
    assert(msg@ =~= base + src@);
}

/// Append the settle tag.
fn push_settle_tag(msg: &mut Vec<u8>)
    ensures
        final(msg)@ == old(msg)@ + settle_tag(),
{
    msg.push(115);
    msg.push(111);
    msg.push(108);
    msg.push(105);
    msg.push(115);
    msg.push(101);
    msg.push(117);
    msg.push(109);
    msg.push(58);
    msg.push(115);
    msg.push(101);
    msg.push(116);
    msg.push(116);
    msg.push(108);
    msg.push(101);
    msg.push(58);
    assert(msg@ =~= old(msg)@ + settle_tag());
}

/// Append the reset tag.
fn push_reset_tag(msg: &mut Vec<u8>)
    ensures
        final(msg)@ == old(msg)@ + reset_tag(),
{
    msg.push(115);
    msg.push(111);
    msg.push(108);
    msg.push(105);
    msg.push(115);
    msg.push(101);
    msg.push(117);
    msg.push(109);
    msg.push(58);
    msg.push(114);
    msg.push(101);
    msg.push(115);
    msg.push(101);
    msg.push(116);
    msg.push(58);
    assert(msg@ =~= old(msg)@ + reset_tag());
}

/// Append the oracle-rotation tag.
fn push_update_tag(msg: &mut Vec<u8>)
    ensures
        final(msg)@ == old(msg)@ + update_tag(),
{
    msg.push(115);
    msg.push(111);
    msg.push(108);
    msg.push(105);
    msg.push(115);
    msg.push(101);
    msg.push(117);
    msg.push(109);
    msg.push(58);
    msg.push(117);
    msg.push(112);
    msg.push(100);
    msg.push(97);
    msg.push(116);
    msg.push(101);
    msg.push(95);
    msg.push(111);
    msg.push(114);
    msg.push(97);
    msg.push(99);
    msg.push(108);
    msg.push(101);
    msg.push(115);
    msg.push(58);
    assert(msg@ =~= old(msg)@ + update_tag());
}

/// Build the settle payload for one arena, winner and nonce.
pub fn create_settlement_message(arena: &PubKey, winner: u8, nonce: u64) -> (msg: Vec<u8>)
    ensures
        msg@ == settlement_message(arena@, winner, nonce),
{
    let mut msg: Vec<u8> = Vec::new();
    push_settle_tag(&mut msg);
    push_slice(&mut msg, arena.bytes.as_slice());
    msg.push(winner);
    let nonce_bytes = vstd::bytes::u64_to_le_bytes(nonce);
    push_slice(&mut msg, nonce_bytes.as_slice());
    assert(msg@ =~= settlement_message(arena@, winner, nonce));
    msg
}

/// Build the reset payload for one arena and nonce.
pub fn create_reset_message(arena: &PubKey, nonce: u64) -> (msg: Vec<u8>)
    ensures
        msg@ == reset_message(arena@, nonce),
{
    let mut msg: Vec<u8> = Vec::new();
    push_reset_tag(&mut msg);
    push_slice(&mut msg, arena.bytes.as_slice());
    let nonce_bytes = vstd::bytes::u64_to_le_bytes(nonce);
    push_slice(&mut msg, nonce_bytes.as_slice());
    assert(msg@ =~= reset_message(arena@, nonce));
    msg
}

/// Build the oracle-rotation payload for one arena, new committee and nonce.
pub fn create_oracle_update_message(arena: &PubKey, new_oracles: &[PubKey; 3], nonce: u64) -> (msg: Vec<u8>)
    ensures
        msg@ == oracle_update_message(arena@, new_oracles@, nonce),
{
    let mut msg: Vec<u8> = Vec::new();
    push_update_tag(&mut msg);
    push_slice(&mut msg, arena.bytes.as_slice());
    push_slice(&mut msg, new_oracles[0].bytes.as_slice());
    push_slice(&mut msg, new_oracles[1].bytes.as_slice());
    push_slice(&mut msg, new_oracles[2].bytes.as_slice());
    let nonce_bytes = vstd::bytes::u64_to_le_bytes(nonce);
    push_slice(&mut msg, nonce_bytes.as_slice());
    assert(msg@ =~= oracle_update_message(arena@, new_oracles@, nonce));
    msg
}

/// Where each field of a settle payload sits: tag, arena, winner, nonce,
/// at fixed offsets.
pub proof fn lemma_settlement_message_parts(arena: Seq<u8>, winner: u8, nonce: u64)
    requires
        arena.len() == 32,
    ensures
        settlement_message(arena, winner, nonce).len() == 57,
        settlement_message(arena, winner, nonce).subrange(0, 16) == settle_tag(),
        settlement_message(arena, winner, nonce).subrange(16, 48) == arena,
        settlement_message(arena, winner, nonce)[48] == winner,
        settlement_message(arena, winner, nonce).subrange(49, 57)
            == vstd::bytes::spec_u64_to_le_bytes(nonce),
{
    vstd::bytes::lemma_auto_spec_u64_to_from_le_bytes();
    let m = settlement_message(arena, winner, nonce);
    assert(m.subrange(0, 16) =~= settle_tag());
    assert(m.subrange(16, 48) =~= arena);
    assert(m.subrange(49, 57) =~= vstd::bytes::spec_u64_to_le_bytes(nonce));
}

/// Where each field of a reset payload sits.
pub proof fn lemma_reset_message_parts(arena: Seq<u8>, nonce: u64)
    requires
        arena.len() == 32,
    ensures
        reset_message(arena, nonce).len() == 55,
        reset_message(arena, nonce).subrange(0, 15) == reset_tag(),
        reset_message(arena, nonce).subrange(15, 47) == arena,
        reset_message(arena, nonce).subrange(47, 55) == vstd::bytes::spec_u64_to_le_bytes(nonce),
{
    vstd::bytes::lemma_auto_spec_u64_to_from_le_bytes();
    let m = reset_message(arena, nonce);
    assert(m.subrange(0, 15) =~= reset_tag());
    assert(m.subrange(15, 47) =~= arena);
    assert(m.subrange(47, 55) =~= vstd::bytes::spec_u64_to_le_bytes(nonce));
}

/// Where each field of an oracle-rotation payload sits.
pub proof fn lemma_oracle_update_message_parts(arena: Seq<u8>, new_oracles: Seq<PubKey>, nonce: u64)
    requires
        arena.len() == 32,
        new_oracles.len() == 3,
    ensures
        oracle_update_message(arena, new_oracles, nonce).len() == 160,
        oracle_update_message(arena, new_oracles, nonce).subrange(0, 24) == update_tag(),
        oracle_update_message(arena, new_oracles, nonce).subrange(24, 56) == arena,
        oracle_update_message(arena, new_oracles, nonce).subrange(56, 88) == new_oracles[0]@,
        oracle_update_message(arena, new_oracles, nonce).subrange(88, 120) == new_oracles[1]@,
        oracle_update_message(arena, new_oracles, nonce).subrange(120, 152) == new_oracles[2]@,
        oracle_update_message(arena, new_oracles, nonce).subrange(152, 160)
            == vstd::bytes::spec_u64_to_le_bytes(nonce),
{
    vstd::bytes::lemma_auto_spec_u64_to_from_le_bytes();
    let m = oracle_update_message(arena, new_oracles, nonce);
    assert(m.subrange(0, 24) =~= update_tag());
    assert(m.subrange(24, 56) =~= arena);
    assert(m.subrange(56, 88) =~= new_oracles[0]@);
    assert(m.subrange(88, 120) =~= new_oracles[1]@);
    assert(m.subrange(120, 152) =~= new_oracles[2]@);
    assert(m.subrange(152, 160) =~= vstd::bytes::spec_u64_to_le_bytes(nonce));
}

/// Law: a settle payload pins down the arena, the winner and the nonce.
/// Two settle payloads agree only if all three agree.
pub proof fn lemma_settlement_message_injective(
    a1: Seq<u8>,
    w1: u8,
    n1: u64,
    a2: Seq<u8>,
    w2: u8,
    n2: u64,
)
    requires
        a1.len() == 32,
        a2.len() == 32,
        settlement_message(a1, w1, n1) == settlement_message(a2, w2, n2),
    ensures
        a1 == a2,
        w1 == w2,
        n1 == n2,
{
    vstd::bytes::lemma_auto_spec_u64_to_from_le_bytes();
    lemma_settlement_message_parts(a1, w1, n1);
    lemma_settlement_message_parts(a2, w2, n2);
    assert(vstd::bytes::spec_u64_from_le_bytes(vstd::bytes::spec_u64_to_le_bytes(n1))
        == vstd::bytes::spec_u64_from_le_bytes(vstd::bytes::spec_u64_to_le_bytes(n2)));
}

/// Law: a reset payload pins down the arena and the nonce.
pub proof fn lemma_reset_message_injective(a1: Seq<u8>, n1: u64, a2: Seq<u8>, n2: u64)
    requires
        a1.len() == 32,
        a2.len() == 32,
        reset_message(a1, n1) == reset_message(a2, n2),
    ensures
        a1 == a2,
        n1 == n2,
{
    vstd::bytes::lemma_auto_spec_u64_to_from_le_bytes();
    lemma_reset_message_parts(a1, n1);
    lemma_reset_message_parts(a2, n2);
    assert(vstd::bytes::spec_u64_from_le_bytes(vstd::bytes::spec_u64_to_le_bytes(n1))
        == vstd::bytes::spec_u64_from_le_bytes(vstd::bytes::spec_u64_to_le_bytes(n2)));
}

/// Law: an oracle-rotation payload pins down the arena, every new key and
/// the nonce.
pub proof fn lemma_oracle_update_message_injective(
    a1: Seq<u8>,
    keys1: Seq<PubKey>,
    n1: u64,
    a2: Seq<u8>,
    keys2: Seq<PubKey>,
    n2: u64,
)
    requires
        a1.len() == 32,
        a2.len() == 32,
        keys1.len() == 3,
        keys2.len() == 3,
        oracle_update_message(a1, keys1, n1) == oracle_update_message(a2, keys2, n2),
    ensures
        a1 == a2,
        keys1[0]@ == keys2[0]@,
        keys1[1]@ == keys2[1]@,
        keys1[2]@ == keys2[2]@,
        n1 == n2,
{
    vstd::bytes::lemma_auto_spec_u64_to_from_le_bytes();
    lemma_oracle_update_message_parts(a1, keys1, n1);
    lemma_oracle_update_message_parts(a2, keys2, n2);
    assert(vstd::bytes::spec_u64_from_le_bytes(vstd::bytes::spec_u64_to_le_bytes(n1))
        == vstd::bytes::spec_u64_from_le_bytes(vstd::bytes::spec_u64_to_le_bytes(n2)));
}

/// Law (replay resistance): once the nonce has moved on, every payload of
/// every operation differs from the same operation's payload at the old
/// nonce, so a signature collected for the old payload can never pass for
/// the new one.
pub proof fn lemma_nonce_binding(arena: Seq<u8>, winner: u8, keys: Seq<PubKey>, n1: u64, n2: u64)
    requires
        arena.len() == 32,
        keys.len() == 3,
        n1 != n2,
    ensures
        settlement_message(arena, winner, n1) != settlement_message(arena, winner, n2),
        reset_message(arena, n1) != reset_message(arena, n2),
        oracle_update_message(arena, keys, n1) != oracle_update_message(arena, keys, n2),
{
    if settlement_message(arena, winner, n1) == settlement_message(arena, winner, n2) {
        lemma_settlement_message_injective(arena, winner, n1, arena, winner, n2);
    }
    if reset_message(arena, n1) == reset_message(arena, n2) {
        lemma_reset_message_injective(arena, n1, arena, n2);
    }
    if oracle_update_message(arena, keys, n1) == oracle_update_message(arena, keys, n2) {
        lemma_oracle_update_message_injective(arena, keys, n1, arena, keys, n2);
    }
}

/// Law (domain separation): payloads of the three operations are pairwise
/// distinct, whatever their fields, so a signature for one operation can
/// never authorize another. The payloads already differ at byte 9 of the
/// tag.
pub proof fn lemma_messages_domain_separated(
    a1: Seq<u8>,
    winner: u8,
    n1: u64,
    a2: Seq<u8>,
    n2: u64,
    a3: Seq<u8>,
    keys: Seq<PubKey>,
    n3: u64,
)
    requires
        a1.len() == 32,
        a2.len() == 32,
        a3.len() == 32,
        keys.len() == 3,
    ensures
        settlement_message(a1, winner, n1) != reset_message(a2, n2),
        settlement_message(a1, winner, n1) != oracle_update_message(a3, keys, n3),
        reset_message(a2, n2) != oracle_update_message(a3, keys, n3),
{
    let ms = settlement_message(a1, winner, n1);
    let mr = reset_message(a2, n2);
    let mu = oracle_update_message(a3, keys, n3);
    assert(ms[9] == 115u8);
    assert(mr[9] == 114u8);
    assert(mu[9] == 117u8);
}

} // verus!
