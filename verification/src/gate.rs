//! The authorization gate: decides whether an invocation is authentic and
//! authorized, given the registry account and the caller's account.

use vstd::prelude::*;
use crate::keys::{Pubkey, KeyOrdering, key_compare};
use crate::registry::{Registry, RECORD_LEN, keys_of, sorted_keys};

verus! {

/// The well-known authority identifier: only accounts owned by it are
/// trusted as authentic registries.
pub open spec fn program_id_spec() -> Seq<u8> {
    seq![
        6u8, 131, 100, 71, 252, 164, 151, 196, 26, 180, 103, 20, 239, 200, 122, 196,
        91, 217, 146, 112, 33, 190, 204, 220, 210, 118, 2, 124, 246, 118, 183, 156,
    ]
}

/// The fixed 8-byte tag that identifies a registry record.
pub open spec fn discriminator_spec() -> Seq<u8> {
    seq![47u8, 174, 110, 246, 184, 182, 252, 218]
}

impl Registry {
    /// The authority that owns authentic registry accounts, as a key value.
    pub fn program_id() -> (r: Pubkey)
        ensures
            r.wf(),
            r@ == program_id_spec(),
    {
        let mut v: Vec<u8> = Vec::new();
        v.push(6);
        v.push(131);
        v.push(100);
        v.push(71);
        v.push(252);
        v.push(164);
        v.push(151);
        v.push(196);
        v.push(26);
        v.push(180);
        v.push(103);
        v.push(20);
        v.push(239);
        v.push(200);
        v.push(122);
        v.push(196);
        v.push(91);
        v.push(217);
        v.push(146);
        v.push(112);
        v.push(33);
        v.push(190);
        v.push(204);
        v.push(220);
        v.push(210);
        v.push(118);
        v.push(2);
        v.push(124);
        v.push(246);
        v.push(118);
        v.push(183);
        v.push(156);
        proof {
            assert(v@ =~= program_id_spec());
        }
        Pubkey::new(v)
    }

    /// The fixed record tag, as bytes.
    pub fn discriminator() -> (r: Vec<u8>)
        ensures
            r@ == discriminator_spec(),
    {
        let mut v: Vec<u8> = Vec::new();
        v.push(47);
        v.push(174);
        v.push(110);
        v.push(246);
        v.push(184);
        v.push(182);
        v.push(252);
        v.push(218);
        proof {
            assert(v@ =~= discriminator_spec());
        }
        v
    }
}

/// An account handle as the surrounding execution context presents it: the
/// identity the account stands for, the authority that owns it, whether the
/// invocation carries a valid signature for that identity, and the account's
/// raw data.
pub struct Account {
    pub key: Pubkey,
    pub owner: Pubkey,
    pub is_signer: bool,
    pub data: Vec<u8>,
}

impl Account {
    /// Well-formedness: the two identifiers are 32-byte keys.
    pub open spec fn wf(&self) -> bool {
        self.key.wf() && self.owner.wf()
    }
}

/// The authorization decision: the registry account is owned by the program
/// authority, the caller signed the invocation, the registry data is a whole
/// record carrying the fixed tag, its keys are sorted, and the caller's key
/// is among them.
pub open spec fn authorized_spec(registry: Account, segmenter: Account) -> bool {
    &&& registry.owner@ == program_id_spec()
    &&& segmenter.is_signer
    &&& registry.data@.len() >= 2056
    &&& registry.data@.subrange(0, 8) == discriminator_spec()
    &&& sorted_keys(keys_of(registry.data@))
    &&& keys_of(registry.data@).contains(segmenter.key@)
}

/// True exactly when the first eight bytes of `data` are the record tag.
fn has_discriminator(data: &Vec<u8>) -> (r: bool)
    requires
        data@.len() >= 8,
    ensures
        r == (data@.subrange(0, 8) == discriminator_spec()),
{
    let disc = Registry::discriminator();
    let mut i: usize = 0;
    while i < 8
        invariant
            data@.len() >= 8,
            i <= 8,
            disc@ == discriminator_spec(),
            forall|j: int| 0 <= j < i ==> data@[j] == discriminator_spec()[j],
        decreases 8 - i,
    {
        if data[i] != disc[i] {
            proof {
                assert(data@.subrange(0, 8)[i as int] != discriminator_spec()[i as int]);
            }
            return false;
        }
        i = i + 1;
    }
    proof {
        assert(data@.subrange(0, 8) =~= discriminator_spec());
    }
    true
}

/// Checks whether the invocation was signed by a registered segmenter.
///
/// Four checks, each short-circuiting to a denial: the registry account must
/// be owned by the program authority; the segmenter must have signed the
/// invocation; the registry data must carry the fixed record tag; and, after
/// a validating decode of the registry record, the segmenter's key must be
/// present in it. The result is `true` exactly when all of them pass; every
/// malformed or unauthentic input collapses to `false`.
pub fn is_invoked_by_segmenter(registry: &Account, registered_segmenter: &Account) -> (r: bool)
    requires
        registry.wf(),
        registered_segmenter.wf(),
    ensures
        r == authorized_spec(*registry, *registered_segmenter),
{
    let pid = Registry::program_id();
    match key_compare(&registry.owner, &pid) {
        KeyOrdering::Equal => {},
        _ => {
            return false;
        },
    }
    if !registered_segmenter.is_signer {
        return false;
    }
    if registry.data.len() < RECORD_LEN {
        return false;
    }
    if !has_discriminator(&registry.data) {
        return false;
    }
    match Registry::deserialize(registry.data.as_slice()) {
        Some(reg) => reg.is_segmenter_registered(&registered_segmenter.key),
        None => false,
    }
}

/// Denial is forced by a foreign owner: an account not owned by the program
/// authority is never an authentic registry, whatever its bytes or the
/// caller's credentials say.
pub proof fn lemma_deny_wrong_owner(registry: Account, segmenter: Account)
    requires
        registry.owner@ != program_id_spec(),
    ensures
        !authorized_spec(registry, segmenter),
{
}

/// Denial is forced by a missing signature: an unauthenticated caller is
/// never authorized, even when its key is registered.
pub proof fn lemma_deny_unsigned(registry: Account, segmenter: Account)
    requires
        !segmenter.is_signer,
    ensures
        !authorized_spec(registry, segmenter),
{
}

/// Denial is forced by a wrong record tag, or by a buffer too short to hold
/// a whole record: such data is never trusted as a registry.
pub proof fn lemma_deny_wrong_discriminator(registry: Account, segmenter: Account)
    requires
        registry.data@.len() < 2056 || registry.data@.subrange(0, 8) != discriminator_spec(),
    ensures
        !authorized_spec(registry, segmenter),
{
}

} // verus!
