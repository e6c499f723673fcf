//! The registry record: a fixed-capacity, ascending-sorted array of identity
//! keys, decoded defensively from a persisted byte buffer.

use vstd::prelude::*;
use crate::keys::{
    Pubkey, KeyOrdering, key_compare, key_le, lemma_le_trans, lemma_lt_asym, lemma_lt_neq,
    lemma_lt_le_trans, lemma_le_lt_trans,
};

verus! {

/// Number of identity slots in a registry record.
pub const MAX_ITEMS: usize = 64;

/// Total size of a persisted registry record: an 8-byte tag followed by
/// 64 keys of 32 bytes each.
pub const RECORD_LEN: usize = 8 + 64 * 32;

/// The key sequence that a record's payload carries: 64 runs of 32 bytes,
/// starting right after the 8-byte tag.
pub open spec fn keys_of(bytes: Seq<u8>) -> Seq<Seq<u8>> {
    Seq::new(64, |i: int| bytes.subrange(8 + 32 * i, 8 + 32 * i + 32))
}

/// Ascending bytewise order over a key sequence, stated pairwise.
pub open spec fn sorted_keys(keys: Seq<Seq<u8>>) -> bool {
    forall|i: int, j: int| 0 <= i <= j < keys.len() ==> key_le(keys[i], keys[j])
}

/// The registry account stores the identity keys of the registered
/// segmenters, sorted ascending so membership can be decided by binary
/// search.
pub struct Registry {
    pub registered_segmenters: Vec<Pubkey>,
}

impl View for Registry {
    type V = Seq<Seq<u8>>;

    open spec fn view(&self) -> Seq<Seq<u8>> {
        Seq::new(self.registered_segmenters@.len() as nat, |i: int| self.registered_segmenters@[i]@)
    }
}

impl Registry {
    /// Well-formedness: exactly 64 keys of 32 bytes each, sorted ascending.
    /// The validating decode establishes this; binary search relies on it.
    pub open spec fn wf(&self) -> bool {
        &&& self.registered_segmenters@.len() == 64
        &&& forall|i: int| 0 <= i < 64 ==> (#[trigger] self@[i]).len() == 32
        &&& sorted_keys(self@)
    }
}

/// If every adjacent pair of a key sequence is ordered, every pair is.
proof fn lemma_le_chain(keys: Seq<Seq<u8>>, i: int, j: int)
    requires
        forall|t: int| 0 <= t < keys.len() - 1 ==> key_le(#[trigger] keys[t], keys[t + 1]),
        0 <= i <= j < keys.len(),
    ensures
        key_le(keys[i], keys[j]),
    decreases j - i,
{
    if i < j {
        lemma_le_chain(keys, i + 1, j);
        lemma_le_trans(keys[i], keys[i + 1], keys[j]);
    }
}

/// Adjacent ordering of a key sequence extends to all pairs.
proof fn lemma_adjacent_implies_sorted(keys: Seq<Seq<u8>>)
    requires
        forall|t: int| 0 <= t < keys.len() - 1 ==> key_le(#[trigger] keys[t], keys[t + 1]),
    ensures
        sorted_keys(keys),
{
    assert forall|i: int, j: int| 0 <= i <= j < keys.len() implies key_le(keys[i], keys[j]) by {
        lemma_le_chain(keys, i, j);
    }
}

impl Registry {
    /// Validating decode of a persisted registry record. Succeeds exactly
    /// when the buffer is long enough to hold a whole record and the keys in
    /// its payload are sorted ascending; any shorter or unsorted buffer is
    /// rejected explicitly rather than trusted.
    pub fn deserialize(bytes: &[u8]) -> (r: Option<Registry>)
        ensures
            match r {
                Some(reg) => {
                    &&& reg.wf()
                    &&& reg@ == keys_of(bytes@)
                    &&& bytes@.len() >= 2056
                    &&& sorted_keys(keys_of(bytes@))
                },
                None => bytes@.len() < 2056 || !sorted_keys(keys_of(bytes@)),
            },
    {
        if bytes.len() < RECORD_LEN {
            return None;
        }
        let mut keys: Vec<Pubkey> = Vec::new();
        let mut j: usize = 0;
        while j < MAX_ITEMS
            invariant
                bytes@.len() >= 2056,
                j <= 64,
                keys@.len() == j,
                forall|t: int| 0 <= t < j ==> (#[trigger] keys@[t])@ == keys_of(bytes@)[t],
            decreases 64 - j,
        {
            let mut kb: Vec<u8> = Vec::new();
            let mut t: usize = 0;
            while t < 32
                invariant
                    bytes@.len() >= 2056,
                    j < 64,
                    t <= 32,
                    kb@.len() == t,
                    forall|u: int| 0 <= u < t ==> kb@[u] == bytes@[8 + 32 * (j as int) + u],
                decreases 32 - t,
            {
                kb.push(bytes[8 + 32 * j + t]);
                t = t + 1;
            }
            proof {
                assert(kb@ =~= keys_of(bytes@)[j as int]);
            }
            keys.push(Pubkey::new(kb));
            j = j + 1;
        }
        let mut j: usize = 1;
        while j < MAX_ITEMS
            invariant
                bytes@.len() >= 2056,
                1 <= j <= 64,
                keys@.len() == 64,
                forall|t: int| 0 <= t < 64 ==> (#[trigger] keys@[t])@ == keys_of(bytes@)[t],
                forall|t: int| 0 <= t < j - 1 ==> key_le(
                    #[trigger] keys_of(bytes@)[t],
                    keys_of(bytes@)[t + 1],
                ),
            decreases 64 - j,
        {
            proof {
                assert(keys@[j - 1]@ == keys_of(bytes@)[j - 1]);
                assert(keys@[j as int]@ == keys_of(bytes@)[j as int]);
            }
            match key_compare(&keys[j - 1], &keys[j]) {
                KeyOrdering::Greater => {
                    proof {
                        let prev = keys_of(bytes@)[j - 1];
                        let here = keys_of(bytes@)[j as int];
                        lemma_lt_asym(here, prev);
                        lemma_lt_neq(here, prev);
                        assert(!key_le(prev, here));
                        assert(!sorted_keys(keys_of(bytes@)));
                    }
                    return None;
                },
                _ => {},
            }
            j = j + 1;
        }
        let reg = Registry { registered_segmenters: keys };
        proof {
            lemma_adjacent_implies_sorted(keys_of(bytes@));
            assert(reg@ =~= keys_of(bytes@));
        }
        Some(reg)
    }

    /// Membership of a key in the registry, decided by bytewise binary
    /// search over the sorted key array: true exactly when the key is
    /// present.
    pub fn is_segmenter_registered(&self, key: &Pubkey) -> (r: bool)
        requires
            self.wf(),
            key.wf(),
        ensures
            r == self@.contains(key@),
    {
        let mut lo: usize = 0;
        let mut hi: usize = MAX_ITEMS;
        while lo < hi
            invariant
                self.wf(),
                key.wf(),
                lo <= hi <= 64,
                forall|i: int| 0 <= i < 64 && #[trigger] self@[i] == key@ ==> lo <= i < hi,
            decreases hi - lo,
        {
            let mid = lo + (hi - lo) / 2;
            proof {
                assert(self@[mid as int].len() == 32);
                assert(self.registered_segmenters@[mid as int]@ == self@[mid as int]);
            }
            match key_compare(key, &self.registered_segmenters[mid]) {
                KeyOrdering::Equal => {
                    proof {
                        assert(self@[mid as int] == key@);
                    }
                    return true;
                },
                KeyOrdering::Less => {
                    proof {
                        assert forall|i: int| mid <= i < 64 implies self@[i] != key@ by {
                            assert(key_le(self@[mid as int], self@[i]));
                            lemma_lt_le_trans(key@, self@[mid as int], self@[i]);
                            lemma_lt_neq(key@, self@[i]);
                        }
                    }
                    hi = mid;
                },
                KeyOrdering::Greater => {
                    proof {
                        assert forall|i: int| 0 <= i <= mid implies self@[i] != key@ by {
                            assert(key_le(self@[i], self@[mid as int]));
                            lemma_le_lt_trans(self@[i], self@[mid as int], key@);
                            lemma_lt_neq(self@[i], key@);
                        }
                    }
                    lo = mid + 1;
                },
            }
        }
        false
    }
}

} // verus!
