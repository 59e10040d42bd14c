//! Public keys of the host's signature scheme, and the validity rules for
//! an oracle committee.

use vstd::prelude::*;

verus! {

/// A 32-byte public key. The all-zero key is the host's placeholder for
/// "no key set" and is never a legal committee member.
#[derive(Clone, Copy, Debug)]
pub struct PubKey {
    pub bytes: [u8; 32],
}

impl View for PubKey {
    type V = Seq<u8>;

    open spec fn view(&self) -> Seq<u8> {
        self.bytes@
    }
}

/// The all-zero (default) key.
pub open spec fn is_default_key(k: Seq<u8>) -> bool {
    forall|i: int| 0 <= i < k.len() ==> k[i] == 0
}

/// A legal oracle committee: exactly three keys, none the default key,
/// all pairwise distinct.
pub open spec fn oracle_set_valid(keys: Seq<PubKey>) -> bool {
    &&& keys.len() == crate::MAX_ORACLES
    &&& forall|i: int| 0 <= i < keys.len() ==> !is_default_key(#[trigger] keys[i]@)
    &&& forall|i: int, j: int| 0 <= i < j < keys.len() ==> #[trigger] keys[i]@ != #[trigger] keys[j]@
}

impl PubKey {
    /// Byte-for-byte key equality.
    pub fn key_eq(&self, other: &PubKey) -> (r: bool)
        ensures
            r == (self@ == other@),
    {
        let mut i: usize = 0;
        while i < 32
            invariant
                i <= 32,
                forall|j: int| 0 <= j < i ==> self@[j] == other@[j],
            decreases 32 - i,
        {
            if self.bytes[i] != other.bytes[i] {
                assert(self@[i as int] != other@[i as int]);
                return false;
            }
            i += 1;
        }
        assert(self@ =~= other@);
        true
    }

    /// Whether this is the all-zero key.
    pub fn is_default(&self) -> (r: bool)
        ensures
            r == is_default_key(self@),
    {
        let mut i: usize = 0;
        while i < 32
            invariant
                i <= 32,
                forall|j: int| 0 <= j < i ==> self@[j] == 0,
            decreases 32 - i,
        {
            if self.bytes[i] != 0 {
                assert(self@[i as int] != 0);
                return false;
            }
            i += 1;
        }
        true
    }
}

/// Check that a proposed committee is legal: no default keys, no repeats.
pub fn check_oracle_set(keys: &[PubKey; 3]) -> (r: bool)
    ensures
        r == oracle_set_valid(keys@),
{
    let mut i: usize = 0;
    while i < 3
        invariant
            i <= 3,
            forall|k: int| 0 <= k < i ==> !is_default_key(#[trigger] keys@[k]@),
        decreases 3 - i,
    {
        if keys[i].is_default() {
            return false;
        }
        i += 1;
    }
    let mut a: usize = 0;
    while a < 3
        invariant
            a <= 3,
            forall|k: int| 0 <= k < 3 ==> !is_default_key(#[trigger] keys@[k]@),
            forall|k: int, l: int| 0 <= k < l < 3 && k < a ==> #[trigger] keys@[k]@ != #[trigger] keys@[l]@,
        decreases 3 - a,
    {
        let mut b: usize = a + 1;
        while b < 3
            invariant
                a < b <= 3,
                forall|k: int| 0 <= k < 3 ==> !is_default_key(#[trigger] keys@[k]@),
                forall|k: int, l: int| 0 <= k < l < 3 && k < a ==> #[trigger] keys@[k]@ != #[trigger] keys@[l]@,
                forall|l: int| a < l < b ==> keys@[a as int]@ != #[trigger] keys@[l]@,
            decreases 3 - b,
        {
            if keys[a].key_eq(&keys[b]) {
                return false;
            }
            b += 1;
        }
        a += 1;
    }
    true
}

} // verus!
