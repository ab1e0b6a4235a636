//! Versioned-record rules with real signatures: the quorum threshold,
//! version monotonicity, identity stability, DELETE, and the end-to-end
//! scenario.

use mock_routing::DataStore;
use mock_routing::NodeIdentity;
use mock_routing::PublicKey;
use mock_routing::Record;
use mock_routing::Signature;
use mock_routing::SimError;
use sodiumoxide::crypto::sign;

fn keypairs(n: usize) -> Vec<(sign::PublicKey, sign::SecretKey)> {
    let _ = sodiumoxide::init();
    (0..n).map(|_| sign::gen_keypair()).collect()
}

fn owner_keys(pairs: &[(sign::PublicKey, sign::SecretKey)]) -> Vec<PublicKey> {
    pairs.iter().map(|(pk, _)| PublicKey { bytes: pk.0.to_vec() }).collect()
}

fn versioned(identity: &[u8], version: u64, payload: &[u8], owners: Vec<PublicKey>) -> Record {
    Record::Versioned {
        type_tag: 999,
        identity: NodeIdentity { bytes: identity.to_vec() },
        version,
        payload: payload.to_vec(),
        owners,
        signatures: Vec::new(),
    }
}

/// Countersigns `rec`'s canonical signable bytes with each given secret key.
fn countersign(rec: &mut Record, signers: &[&sign::SecretKey]) {
    let msg = rec.signable_bytes();
    if let Record::Versioned { ref mut signatures, .. } = rec {
        for sk in signers {
            let sig = sign::sign_detached(&msg, sk);
            signatures.push(Signature { bytes: sig.to_bytes().to_vec() });
        }
    }
}

#[test]
fn quorum_two_of_three_succeeds_one_fails() {
    let pairs = keypairs(3);
    let identity = [4u8; 64];
    let mut store = DataStore::new();
    assert_eq!(
        store.put(versioned(&identity, 0, b"v0", owner_keys(&pairs))),
        Ok(())
    );
    let loc = NodeIdentity { bytes: identity.to_vec() };

    let mut one_signer = versioned(&identity, 1, b"v1", owner_keys(&pairs));
    countersign(&mut one_signer, &[&pairs[0].1]);
    assert_eq!(store.post(&loc, one_signer), Err(SimError::QuorumNotMet));

    let mut two_signers = versioned(&identity, 1, b"v1", owner_keys(&pairs));
    countersign(&mut two_signers, &[&pairs[0].1, &pairs[1].1]);
    assert_eq!(store.post(&loc, two_signers), Ok(()));
}

#[test]
fn signature_by_non_owner_does_not_count() {
    let pairs = keypairs(1);
    let outsider = keypairs(1);
    let identity = [5u8; 64];
    let mut store = DataStore::new();
    assert_eq!(
        store.put(versioned(&identity, 0, b"v0", owner_keys(&pairs))),
        Ok(())
    );
    let loc = NodeIdentity { bytes: identity.to_vec() };
    let mut forged = versioned(&identity, 1, b"v1", owner_keys(&pairs));
    countersign(&mut forged, &[&outsider[0].1]);
    assert_eq!(store.post(&loc, forged), Err(SimError::QuorumNotMet));
}

#[test]
fn tampered_payload_fails_verification() {
    let pairs = keypairs(1);
    let identity = [6u8; 64];
    let mut store = DataStore::new();
    assert_eq!(
        store.put(versioned(&identity, 0, b"v0", owner_keys(&pairs))),
        Ok(())
    );
    let loc = NodeIdentity { bytes: identity.to_vec() };
    let mut update = versioned(&identity, 1, b"honest", owner_keys(&pairs));
    countersign(&mut update, &[&pairs[0].1]);
    if let Record::Versioned { ref mut payload, .. } = update {
        *payload = b"tampered".to_vec();
    }
    assert_eq!(store.post(&loc, update), Err(SimError::QuorumNotMet));
}

#[test]
fn version_must_increase_by_exactly_one() {
    let pairs = keypairs(1);
    let identity = [7u8; 64];
    let mut store = DataStore::new();
    assert_eq!(
        store.put(versioned(&identity, 0, b"v0", owner_keys(&pairs))),
        Ok(())
    );
    let loc = NodeIdentity { bytes: identity.to_vec() };

    let mut same_version = versioned(&identity, 0, b"again", owner_keys(&pairs));
    countersign(&mut same_version, &[&pairs[0].1]);
    assert_eq!(store.post(&loc, same_version), Err(SimError::VersionMismatch));

    let mut skipping = versioned(&identity, 2, b"skip", owner_keys(&pairs));
    countersign(&mut skipping, &[&pairs[0].1]);
    assert_eq!(store.post(&loc, skipping), Err(SimError::VersionMismatch));

    let mut next = versioned(&identity, 1, b"next", owner_keys(&pairs));
    countersign(&mut next, &[&pairs[0].1]);
    assert_eq!(store.post(&loc, next), Ok(()));
}

#[test]
fn identity_must_be_stable_across_versions() {
    let pairs = keypairs(1);
    let identity = [9u8; 64];
    let mut store = DataStore::new();
    assert_eq!(
        store.put(versioned(&identity, 0, b"v0", owner_keys(&pairs))),
        Ok(())
    );
    let loc = NodeIdentity { bytes: identity.to_vec() };
    let mut moved = versioned(&[10u8; 64], 1, b"moved", owner_keys(&pairs));
    countersign(&mut moved, &[&pairs[0].1]);
    assert_eq!(store.post(&loc, moved), Err(SimError::IdentityMismatch));
}

#[test]
fn delete_then_get_is_not_found() {
    let pairs = keypairs(3);
    let identity = [11u8; 64];
    let mut store = DataStore::new();
    assert_eq!(
        store.put(versioned(&identity, 0, b"v0", owner_keys(&pairs))),
        Ok(())
    );
    let loc = NodeIdentity { bytes: identity.to_vec() };

    let mut under_signed = versioned(&identity, 1, b"v0", owner_keys(&pairs));
    countersign(&mut under_signed, &[&pairs[2].1]);
    assert_eq!(store.delete(&loc, &under_signed), Err(SimError::QuorumNotMet));

    let mut removal = versioned(&identity, 1, b"v0", owner_keys(&pairs));
    countersign(&mut removal, &[&pairs[0].1, &pairs[2].1]);
    assert_eq!(store.delete(&loc, &removal), Ok(()));
    assert_eq!(store.get(&loc).err(), Some(SimError::NotFound));
}

#[test]
fn end_to_end_scenario() {
    let pairs = keypairs(3);
    let identity = [12u8; 64];
    let mut store = DataStore::new();
    let loc = NodeIdentity { bytes: identity.to_vec() };

    // PUT version 0, payload "p0", no countersignatures required.
    assert_eq!(
        store.put(versioned(&identity, 0, b"p0", owner_keys(&pairs))),
        Ok(())
    );

    // POST version 1, payload "p1", signed by A and B.
    let mut v1 = versioned(&identity, 1, b"p1", owner_keys(&pairs));
    countersign(&mut v1, &[&pairs[0].1, &pairs[1].1]);
    assert_eq!(store.post(&loc, v1), Ok(()));
    match store.get(&loc) {
        Ok(Record::Versioned { version, payload, .. }) => {
            assert_eq!(*version, 1);
            assert_eq!(payload.as_slice(), b"p1");
        },
        _ => panic!("expected the versioned record back"),
    }

    // POST version 1 again, payload "p2", signed only by C.
    let mut stale = versioned(&identity, 1, b"p2", owner_keys(&pairs));
    countersign(&mut stale, &[&pairs[2].1]);
    assert_eq!(store.post(&loc, stale), Err(SimError::VersionMismatch));

    // POST version 2, payload "p2", signed only by C.
    let mut lone = versioned(&identity, 2, b"p2", owner_keys(&pairs));
    countersign(&mut lone, &[&pairs[2].1]);
    assert_eq!(store.post(&loc, lone), Err(SimError::QuorumNotMet));

    // POST version 2, payload "p2", signed by B and C.
    let mut v2 = versioned(&identity, 2, b"p2", owner_keys(&pairs));
    countersign(&mut v2, &[&pairs[1].1, &pairs[2].1]);
    assert_eq!(store.post(&loc, v2), Ok(()));
    match store.get(&loc) {
        Ok(Record::Versioned { version, payload, .. }) => {
            assert_eq!(*version, 2);
            assert_eq!(payload.as_slice(), b"p2");
        },
        _ => panic!("expected the versioned record back"),
    }
}

#[test]
fn signable_bytes_exact_framing() {
    let owners = vec![PublicKey { bytes: vec![5u8; 32] }];
    let rec = Record::Versioned {
        type_tag: 2,
        identity: NodeIdentity { bytes: vec![9u8; 64] },
        version: 3,
        payload: vec![10u8, 20u8],
        owners,
        signatures: Vec::new(),
    };
    let mut expected: Vec<u8> = Vec::new();
    expected.extend_from_slice(&[2, 0, 0, 0, 0, 0, 0, 0]);
    expected.extend_from_slice(&[9u8; 64]);
    expected.extend_from_slice(&[3, 0, 0, 0, 0, 0, 0, 0]);
    expected.extend_from_slice(&[2, 0, 0, 0, 0, 0, 0, 0]);
    expected.extend_from_slice(&[10, 20]);
    expected.extend_from_slice(&[1, 0, 0, 0, 0, 0, 0, 0]);
    expected.extend_from_slice(&[5u8; 32]);
    assert_eq!(rec.signable_bytes(), expected);
}

#[test]
fn empty_owner_set_can_never_meet_quorum() {
    let identity = [13u8; 64];
    let mut store = DataStore::new();
    assert_eq!(store.put(versioned(&identity, 0, b"v0", Vec::new())), Ok(()));
    let loc = NodeIdentity { bytes: identity.to_vec() };
    let update = versioned(&identity, 1, b"v1", Vec::new());
    assert_eq!(store.post(&loc, update), Err(SimError::QuorumNotMet));
}
