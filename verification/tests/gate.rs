//! Authorization decisions on whole accounts.

use segmenter_registry::gate::{is_invoked_by_segmenter, Account};
use segmenter_registry::keys::Pubkey;
use segmenter_registry::registry::Registry;

fn key_a() -> [u8; 32] {
    [1u8; 32]
}

fn key_b() -> [u8; 32] {
    [2u8; 32]
}

fn key_c() -> [u8; 32] {
    [3u8; 32]
}

fn key_d() -> [u8; 32] {
    [4u8; 32]
}

fn key(bytes: [u8; 32]) -> Pubkey {
    Pubkey::new(bytes.to_vec())
}

/// A record whose first three keys are A, B, C and whose remaining slots are
/// filled with keys above them, keeping the array sorted.
fn abc_record() -> Vec<u8> {
    let mut buf = Registry::discriminator();
    buf.extend_from_slice(&key_a());
    buf.extend_from_slice(&key_b());
    buf.extend_from_slice(&key_c());
    for i in 0..61u8 {
        let mut filler = [9u8; 32];
        filler[31] = i;
        buf.extend_from_slice(&filler);
    }
    buf
}

fn registry_account(owner: [u8; 32], data: Vec<u8>) -> Account {
    Account {
        key: key([0u8; 32]),
        owner: key(owner),
        is_signer: false,
        data,
    }
}

fn segmenter_account(id: [u8; 32], is_signer: bool) -> Account {
    Account {
        key: key(id),
        owner: key([0u8; 32]),
        is_signer,
        data: Vec::new(),
    }
}

fn program_id_bytes() -> [u8; 32] {
    let pid = Registry::program_id();
    let mut b = [0u8; 32];
    b.copy_from_slice(&pid.bytes);
    b
}

#[test]
fn authorizes_registered_signer() {
    // Registry {A, B, C}, caller B, signed, owner and tag correct.
    let registry = registry_account(program_id_bytes(), abc_record());
    let caller = segmenter_account(key_b(), true);
    assert!(is_invoked_by_segmenter(&registry, &caller));
}

#[test]
fn denies_absent_caller() {
    // Same registry, caller D is not in it.
    let registry = registry_account(program_id_bytes(), abc_record());
    let caller = segmenter_account(key_d(), true);
    assert!(!is_invoked_by_segmenter(&registry, &caller));
}

#[test]
fn denies_corrupted_owner() {
    // Same registry and caller B, but the owner field is corrupted.
    let mut owner = program_id_bytes();
    owner[0] ^= 0xff;
    let registry = registry_account(owner, abc_record());
    let caller = segmenter_account(key_b(), true);
    assert!(!is_invoked_by_segmenter(&registry, &caller));
}

#[test]
fn denies_unsigned_caller() {
    // Caller B is registered but did not sign the invocation.
    let registry = registry_account(program_id_bytes(), abc_record());
    let caller = segmenter_account(key_b(), false);
    assert!(!is_invoked_by_segmenter(&registry, &caller));
}

#[test]
fn denies_wrong_discriminator() {
    let mut data = abc_record();
    data[3] ^= 0xff;
    let registry = registry_account(program_id_bytes(), data);
    let caller = segmenter_account(key_b(), true);
    assert!(!is_invoked_by_segmenter(&registry, &caller));
}

#[test]
fn denies_short_buffer() {
    // A buffer shorter than a whole record is rejected, never read past.
    for len in [0usize, 7, 8, 100, 2055] {
        let mut data = abc_record();
        data.truncate(len);
        let registry = registry_account(program_id_bytes(), data);
        let caller = segmenter_account(key_b(), true);
        assert!(!is_invoked_by_segmenter(&registry, &caller));
    }
}

#[test]
fn denies_unsorted_registry() {
    // A record whose keys are out of order is not trusted.
    let mut data = Registry::discriminator();
    data.extend_from_slice(&key_c());
    data.extend_from_slice(&key_b());
    data.extend_from_slice(&key_a());
    for i in 0..61u8 {
        let mut filler = [9u8; 32];
        filler[31] = i;
        data.extend_from_slice(&filler);
    }
    let registry = registry_account(program_id_bytes(), data);
    let caller = segmenter_account(key_b(), true);
    assert!(!is_invoked_by_segmenter(&registry, &caller));
}

#[test]
fn authorization_requires_every_check() {
    // Exhaustive combinations: correct owner or not, signed or not, correct
    // tag or not, registered caller or not. Authorized only when all hold.
    let good_owner = program_id_bytes();
    let mut bad_owner = good_owner;
    bad_owner[31] ^= 1;
    for owner_ok in [true, false] {
        for signed in [true, false] {
            for tag_ok in [true, false] {
                for member in [true, false] {
                    let mut data = abc_record();
                    if !tag_ok {
                        data[0] ^= 0xff;
                    }
                    let registry =
                        registry_account(if owner_ok { good_owner } else { bad_owner }, data);
                    let caller =
                        segmenter_account(if member { key_b() } else { key_d() }, signed);
                    let expected = owner_ok && signed && tag_ok && member;
                    assert_eq!(is_invoked_by_segmenter(&registry, &caller), expected);
                }
            }
        }
    }
}
