//! Oracle consensus verifier: given a committee, a threshold, a message and
//! a set of (index, signature) pairs, checks that the signatures are
//! pairwise distinct by index, in range, and each valid for the committee
//! member it names. Every supplied signature must pass; there is no early
//! exit at the threshold.
//!
//! The asymmetric signature check itself is a capability of the host, so it
//! is injected through the [`SignatureVerifier`] trait: any implementation
//! must prove that its answer agrees with its own declared validity
//! relation.

use vstd::prelude::*;

use crate::errors::SoliseumError;
use crate::keys::PubKey;

verus! {

/// The host's asymmetric-signature check. `valid` is the implementation's
/// own statement of which (key, message, signature) triples its scheme
/// accepts; `verify_signature` must answer exactly that.
pub trait SignatureVerifier {
    /// Which triples the scheme accepts.
    spec fn valid(&self, pk: Seq<u8>, msg: Seq<u8>, sig: Seq<u8>) -> bool;

    /// Check one signature over one message against one public key.
    fn verify_signature(&self, pk: &PubKey, msg: &Vec<u8>, sig: &[u8; 64]) -> (r: bool)
        ensures
            r == self.valid(pk@, msg@, sig@),
    ;
}

/// One oracle's signature over a payload, named by committee index.
#[derive(Clone, Copy, Debug)]
pub struct OracleSignature {
    pub oracle_index: u8,
    pub signature: [u8; 64],
}

/// Entry `i` names an index already used by an earlier entry.
pub open spec fn index_repeated(sigs: Seq<OracleSignature>, i: int) -> bool {
    exists|j: int| 0 <= j < i && sigs[j].oracle_index == sigs[i].oracle_index
}

/// The first failure of entry `i`, in the order the checks run: repeated
/// index, index out of range, bad signature.
pub open spec fn entry_verdict<V: SignatureVerifier>(
    v: &V,
    oracles: Seq<PubKey>,
    msg: Seq<u8>,
    sigs: Seq<OracleSignature>,
    i: int,
) -> Result<(), SoliseumError>
    recommends
        0 <= i < sigs.len(),
        oracles.len() == 3,
{
    if index_repeated(sigs, i) {
        Err(SoliseumError::DuplicateOracle)
    } else if sigs[i].oracle_index >= crate::MAX_ORACLES as u8 {
        Err(SoliseumError::InvalidOracleIndex)
    } else if !v.valid(oracles[sigs[i].oracle_index as int]@, msg, sigs[i].signature@) {
        Err(SoliseumError::InvalidSignature)
    } else {
        Ok(())
    }
}

/// The verdict of checking entries `i..` in order: the first entry error,
/// or success.
pub open spec fn scan_verdict<V: SignatureVerifier>(
    v: &V,
    oracles: Seq<PubKey>,
    msg: Seq<u8>,
    sigs: Seq<OracleSignature>,
    i: int,
) -> Result<(), SoliseumError>
    decreases sigs.len() - i,
{
    if i < 0 || i >= sigs.len() {
        Ok(())
    } else if entry_verdict(v, oracles, msg, sigs, i) is Err {
        entry_verdict(v, oracles, msg, sigs, i)
    } else {
        scan_verdict(v, oracles, msg, sigs, i + 1)
    }
}

/// The verdict of the whole consensus check.
pub open spec fn consensus_verdict<V: SignatureVerifier>(
    v: &V,
    oracles: Seq<PubKey>,
    threshold: u8,
    msg: Seq<u8>,
    sigs: Seq<OracleSignature>,
) -> Result<(), SoliseumError> {
    if sigs.len() < threshold {
        Err(SoliseumError::InsufficientSignatures)
    } else {
        scan_verdict(v, oracles, msg, sigs, 0)
    }
}

/// What a passing consensus means: at least `threshold` signatures, all
/// naming pairwise distinct in-range committee members, each valid for the
/// named member's key over exactly this message.
pub open spec fn consensus_holds<V: SignatureVerifier>(
    v: &V,
    oracles: Seq<PubKey>,
    threshold: u8,
    msg: Seq<u8>,
    sigs: Seq<OracleSignature>,
) -> bool {
    &&& sigs.len() >= threshold
    &&& forall|i: int, j: int|
        0 <= i < j < sigs.len() ==> (#[trigger] sigs[i]).oracle_index != (
        #[trigger] sigs[j]).oracle_index
    &&& forall|i: int|
        0 <= i < sigs.len() ==> (#[trigger] sigs[i]).oracle_index < crate::MAX_ORACLES as u8
            && v.valid(
            oracles[sigs[i].oracle_index as int]@,
            msg,
            sigs[i].signature@,
        )
}

/// Checking from `i` gives the same verdict as checking from `k` when every
/// entry in between passes.
proof fn lemma_scan_skip<V: SignatureVerifier>(
    v: &V,
    oracles: Seq<PubKey>,
    msg: Seq<u8>,
    sigs: Seq<OracleSignature>,
    i: int,
    k: int,
)
    requires
        0 <= i <= k <= sigs.len(),
        forall|j: int| i <= j < k ==> entry_verdict(v, oracles, msg, sigs, j) is Ok,
    ensures
        scan_verdict(v, oracles, msg, sigs, i) == scan_verdict(v, oracles, msg, sigs, k),
    decreases k - i,
{
    if i < k {
        lemma_scan_skip(v, oracles, msg, sigs, i + 1, k);
    }
}

/// A passing scan means every entry from `i` on passes.
proof fn lemma_scan_ok_entries<V: SignatureVerifier>(
    v: &V,
    oracles: Seq<PubKey>,
    msg: Seq<u8>,
    sigs: Seq<OracleSignature>,
    i: int,
)
    requires
        0 <= i <= sigs.len(),
        scan_verdict(v, oracles, msg, sigs, i) is Ok,
    ensures
        forall|j: int| i <= j < sigs.len() ==> entry_verdict(v, oracles, msg, sigs, j) is Ok,
    decreases sigs.len() - i,
{
    if i < sigs.len() {
        lemma_scan_ok_entries(v, oracles, msg, sigs, i + 1);
    }
}

/// Law (consensus soundness): the verifier reports success exactly when at
/// least `threshold` signatures were supplied, all naming pairwise distinct
/// in-range committee members, and each one valid over exactly this
/// message. In particular, one repeated, out-of-range or invalid signature
/// anywhere in the set fails the whole call.
pub proof fn lemma_consensus_soundness<V: SignatureVerifier>(
    v: &V,
    oracles: Seq<PubKey>,
    threshold: u8,
    msg: Seq<u8>,
    sigs: Seq<OracleSignature>,
)
    ensures
        consensus_verdict(v, oracles, threshold, msg, sigs) is Ok <==> consensus_holds(
            v,
            oracles,
            threshold,
            msg,
            sigs,
        ),
{
    if consensus_verdict(v, oracles, threshold, msg, sigs) is Ok {
        lemma_scan_ok_entries(v, oracles, msg, sigs, 0);
        assert forall|i: int, j: int| 0 <= i < j < sigs.len() implies (
        #[trigger] sigs[i]).oracle_index != (#[trigger] sigs[j]).oracle_index by {
            assert(entry_verdict(v, oracles, msg, sigs, j) is Ok);
            assert(!index_repeated(sigs, j));
        }
        assert forall|i: int| 0 <= i < sigs.len() implies (#[trigger] sigs[i]).oracle_index
            < crate::MAX_ORACLES as u8 && v.valid(
            oracles[sigs[i].oracle_index as int]@,
            msg,
            sigs[i].signature@,
        ) by {
            assert(entry_verdict(v, oracles, msg, sigs, i) is Ok);
        }
    }
    if consensus_holds(v, oracles, threshold, msg, sigs) {
        assert forall|j: int| 0 <= j < sigs.len() implies entry_verdict(
            v,
            oracles,
            msg,
            sigs,
            j,
        ) is Ok by {
            assert(!index_repeated(sigs, j));
        }
        lemma_scan_skip(v, oracles, msg, sigs, 0, sigs.len() as int);
    }
}

/// Whether a byte already appears in the list of used indices.
fn contains_index(v: &Vec<u8>, x: u8) -> (r: bool)
    ensures
        r == v@.contains(x),
{
    let mut i: usize = 0;
    while i < v.len()
        invariant
            i <= v@.len(),
            forall|j: int| 0 <= j < i ==> v@[j] != x,
        decreases v@.len() - i,
    {
        if v[i] == x {
            assert(v@.contains(x));
            return true;
        }
        i += 1;
    }
    assert(!v@.contains(x));
    false
}

/// Check a whole signature set against a committee and a message, in input
/// order, with the first failure deciding the error. Succeeds exactly when
/// [`consensus_holds`] does.
pub fn verify_oracle_consensus<V: SignatureVerifier>(
    verifier: &V,
    oracles: &[PubKey; 3],
    threshold: u8,
    message: &Vec<u8>,
    signatures: &Vec<OracleSignature>,
) -> (r: Result<(), SoliseumError>)
    ensures
        r == consensus_verdict(verifier, oracles@, threshold, message@, signatures@),
        r is Ok <==> consensus_holds(verifier, oracles@, threshold, message@, signatures@),
{
    proof {
        lemma_consensus_soundness(verifier, oracles@, threshold, message@, signatures@);
    }
    if signatures.len() < threshold as usize {
        return Err(SoliseumError::InsufficientSignatures);
    }
    let ghost sigs = signatures@;
    let mut used: Vec<u8> = Vec::new();
    let mut i: usize = 0;
    while i < signatures.len()
        invariant
            i <= sigs.len(),
            sigs == signatures@,
            sigs.len() >= threshold,
            used@.len() == i,
            forall|j: int| 0 <= j < i ==> used@[j] == sigs[j].oracle_index,
            forall|j: int| 0 <= j < i ==> entry_verdict(verifier, oracles@, message@, sigs, j) is Ok,
        decreases sigs.len() - i,
    {
        let sig = signatures[i];
        if contains_index(&used, sig.oracle_index) {
            proof {
                let j = choose|j: int| 0 <= j < i && used@[j] == sig.oracle_index;
                assert(sigs[j].oracle_index == sigs[i as int].oracle_index);
                assert(index_repeated(sigs, i as int));
                lemma_scan_skip(verifier, oracles@, message@, sigs, 0, i as int);
            }
            return Err(SoliseumError::DuplicateOracle);
        }
        proof {
            if index_repeated(sigs, i as int) {
                let j = choose|j: int|
                    0 <= j < i && sigs[j].oracle_index == sigs[i as int].oracle_index;
                assert(used@[j] == sig.oracle_index);
                assert(used@.contains(sig.oracle_index));
            }
        }
        if sig.oracle_index >= crate::MAX_ORACLES as u8 {
            proof {
                lemma_scan_skip(verifier, oracles@, message@, sigs, 0, i as int);
            }
            return Err(SoliseumError::InvalidOracleIndex);
        }
        used.push(sig.oracle_index);
        let sig_ok = verifier.verify_signature(
            &oracles[sig.oracle_index as usize],
            message,
            &sig.signature,
        );
        if !sig_ok {
            proof {
                lemma_scan_skip(verifier, oracles@, message@, sigs, 0, i as int);
            }
            return Err(SoliseumError::InvalidSignature);
        }
        assert(entry_verdict(verifier, oracles@, message@, sigs, i as int) is Ok);
        i += 1;
    }
    proof {
        lemma_scan_skip(verifier, oracles@, message@, sigs, 0, sigs.len() as int);
    }
    Ok(())
}

/// Byte-for-byte slice equality.
pub fn slices_eq(a: &[u8], b: &[u8]) -> (r: bool)
    ensures
        r == (a@ == b@),
{
    if a.len() != b.len() {
        return false;
    }
    let mut i: usize = 0;
    while i < a.len()
        invariant
            a@.len() == b@.len(),
            i <= a@.len(),
            forall|j: int| 0 <= j < i ==> a@[j] == b@[j],
        decreases a@.len() - i,
    {
        if a[i] != b[i] {
            assert(a@[i as int] != b@[i as int]);
            return false;
        }
        i += 1;
    }
    assert(a@ =~= b@);
    true
}

/// One (key, message, signature) triple that a [`ListVerifier`] accepts.
pub struct AcceptedSig {
    pub pk: PubKey,
    pub message: Vec<u8>,
    pub signature: [u8; 64],
}

/// A verifier that accepts exactly the triples on its list. It stands in
/// for the host's signature scheme where that scheme is out of reach, and
/// lets a caller exercise both passing and failing consensus.
pub struct ListVerifier {
    pub accepted: Vec<AcceptedSig>,
}

impl ListVerifier {
    /// A verifier that accepts nothing.
    pub fn new() -> (r: ListVerifier)
        ensures
            r.accepted@.len() == 0,
    {
        ListVerifier { accepted: Vec::new() }
    }

    /// Accept one more triple.
    pub fn accept(&mut self, pk: &PubKey, message: Vec<u8>, signature: [u8; 64])
        ensures
            final(self).accepted@.len() == old(self).accepted@.len() + 1,
            forall|k: int|
                0 <= k < old(self).accepted@.len() ==> final(self).accepted@[k]
                    == old(self).accepted@[k],
            final(self).accepted@.last().pk@ == pk@,
            final(self).accepted@.last().message@ == message@,
            final(self).accepted@.last().signature@ == signature@,
    {
        self.accepted.push(AcceptedSig { pk: *pk, message, signature });
    }
}

impl SignatureVerifier for ListVerifier {
    open spec fn valid(&self, pk: Seq<u8>, msg: Seq<u8>, sig: Seq<u8>) -> bool {
        exists|k: int|
            0 <= k < self.accepted@.len() && (#[trigger] self.accepted@[k]).pk@ == pk
                && self.accepted@[k].message@ == msg && self.accepted@[k].signature@ == sig
    }

    fn verify_signature(&self, pk: &PubKey, msg: &Vec<u8>, sig: &[u8; 64]) -> (r: bool) {
        let mut k: usize = 0;
        while k < self.accepted.len()
            invariant
                k <= self.accepted@.len(),
                forall|j: int|
                    0 <= j < k ==> !((#[trigger] self.accepted@[j]).pk@ == pk@
                        && self.accepted@[j].message@ == msg@ && self.accepted@[j].signature@
                        == sig@),
            decreases self.accepted@.len() - k,
        {
            let entry = &self.accepted[k];
            if entry.pk.key_eq(pk) && slices_eq(entry.message.as_slice(), msg.as_slice())
                && slices_eq(entry.signature.as_slice(), sig.as_slice()) {
                assert(self.valid(pk@, msg@, sig@));
                return true;
            }
            k += 1;
        }
        assert(!self.valid(pk@, msg@, sig@));
        false
    }
}

} // verus!
