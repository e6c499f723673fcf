//! Identity keys and their bytewise lexicographic order.

use vstd::prelude::*;

verus! {

/// Number of bytes in an identity key.
pub const KEY_LEN: usize = 32;

/// A 32-byte identity key, compared bytewise (lexicographically).
pub struct Pubkey {
    pub bytes: Vec<u8>,
}

impl View for Pubkey {
    type V = Seq<u8>;

    open spec fn view(&self) -> Seq<u8> {
        self.bytes@
    }
}

impl Pubkey {
    /// A key is well formed when it holds exactly 32 bytes.
    pub open spec fn wf(&self) -> bool {
        self@.len() == 32
    }

    pub fn new(bytes: Vec<u8>) -> (r: Pubkey)
        requires
            bytes@.len() == 32,
        ensures
            r.wf(),
            r@ == bytes@,
    {
        Pubkey { bytes }
    }
}

/// Strict lexicographic order on the byte suffixes starting at index `i`:
/// the first differing byte below index 32 decides.
pub open spec fn lt_from(a: Seq<u8>, b: Seq<u8>, i: int) -> bool
    decreases 32 - i,
{
    if i < 0 || i >= 32 {
        false
    } else if a[i] < b[i] {
        true
    } else if b[i] < a[i] {
        false
    } else {
        lt_from(a, b, i + 1)
    }
}

/// Strict bytewise lexicographic order on 32-byte keys.
pub open spec fn key_lt(a: Seq<u8>, b: Seq<u8>) -> bool {
    lt_from(a, b, 0)
}

/// Non-strict bytewise lexicographic order: strictly below, or equal.
pub open spec fn key_le(a: Seq<u8>, b: Seq<u8>) -> bool {
    key_lt(a, b) || a == b
}

/// Outcome of comparing two keys bytewise.
pub enum KeyOrdering {
    Less,
    Equal,
    Greater,
}

/// Three-way bytewise comparison of two keys.
pub fn key_compare(a: &Pubkey, b: &Pubkey) -> (r: KeyOrdering)
    requires
        a.wf(),
        b.wf(),
    ensures
        (r is Less) == key_lt(a@, b@),
        (r is Equal) == (a@ == b@),
        (r is Greater) == key_lt(b@, a@),
{
    let mut i: usize = 0;
    while i < KEY_LEN
        invariant
            a.wf(),
            b.wf(),
            i <= 32,
            forall|j: int| 0 <= j < i ==> a@[j] == b@[j],
            key_lt(a@, b@) == lt_from(a@, b@, i as int),
            key_lt(b@, a@) == lt_from(b@, a@, i as int),
        decreases 32 - i,
    {
        let x = a.bytes[i];
        let y = b.bytes[i];
        if x < y {
            proof {
                assert(lt_from(a@, b@, i as int));
                assert(!lt_from(b@, a@, i as int));
                assert(a@[i as int] != b@[i as int]);
            }
            return KeyOrdering::Less;
        }
        if y < x {
            proof {
                assert(lt_from(b@, a@, i as int));
                assert(!lt_from(a@, b@, i as int));
                assert(a@[i as int] != b@[i as int]);
            }
            return KeyOrdering::Greater;
        }
        i = i + 1;
    }
    proof {
        assert(a@ =~= b@);
        assert(!lt_from(a@, b@, 32));
        assert(!lt_from(b@, a@, 32));
    }
    KeyOrdering::Equal
}

proof fn lemma_lt_from_irrefl(a: Seq<u8>, i: int)
    ensures
        !lt_from(a, a, i),
    decreases 32 - i,
{
    if 0 <= i && i < 32 {
        lemma_lt_from_irrefl(a, i + 1);
    }
}

/// A key strictly below another is not equal to it.
pub proof fn lemma_lt_neq(a: Seq<u8>, b: Seq<u8>)
    requires
        key_lt(a, b),
    ensures
        a != b,
{
    if a == b {
        lemma_lt_from_irrefl(a, 0);
    }
}

proof fn lemma_lt_from_trans(a: Seq<u8>, b: Seq<u8>, c: Seq<u8>, i: int)
    requires
        lt_from(a, b, i),
        lt_from(b, c, i),
    ensures
        lt_from(a, c, i),
    decreases 32 - i,
{
    if 0 <= i && i < 32 {
        if a[i] == b[i] && b[i] == c[i] {
            lemma_lt_from_trans(a, b, c, i + 1);
        }
    }
}

/// The strict order is transitive.
pub proof fn lemma_lt_trans(a: Seq<u8>, b: Seq<u8>, c: Seq<u8>)
    requires
        key_lt(a, b),
        key_lt(b, c),
    ensures
        key_lt(a, c),
{
    lemma_lt_from_trans(a, b, c, 0);
}

/// The strict order is asymmetric.
pub proof fn lemma_lt_asym(a: Seq<u8>, b: Seq<u8>)
    requires
        key_lt(a, b),
    ensures
        !key_lt(b, a),
{
    if key_lt(b, a) {
        lemma_lt_trans(a, b, a);
        lemma_lt_from_irrefl(a, 0);
    }
}

/// Strictly below a non-strict step stays strictly below.
pub proof fn lemma_lt_le_trans(a: Seq<u8>, b: Seq<u8>, c: Seq<u8>)
    requires
        key_lt(a, b),
        key_le(b, c),
    ensures
        key_lt(a, c),
{
    if b != c {
        lemma_lt_trans(a, b, c);
    }
}

/// A non-strict step before strictly below stays strictly below.
pub proof fn lemma_le_lt_trans(a: Seq<u8>, b: Seq<u8>, c: Seq<u8>)
    requires
        key_le(a, b),
        key_lt(b, c),
    ensures
        key_lt(a, c),
{
    if a != b {
        lemma_lt_trans(a, b, c);
    }
}

/// The non-strict order is transitive.
pub proof fn lemma_le_trans(a: Seq<u8>, b: Seq<u8>, c: Seq<u8>)
    requires
        key_le(a, b),
        key_le(b, c),
    ensures
        key_le(a, c),
{
    if a != b && b != c {
        lemma_lt_trans(a, b, c);
    }
}

} // verus!
