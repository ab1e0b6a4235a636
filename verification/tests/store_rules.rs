//! Store and validator rules that need no signatures: deduplication,
//! classification conflicts, versioned PUT gating, and GET.

use mock_routing::ContentKind;
use mock_routing::DataStore;
use mock_routing::NodeIdentity;
use mock_routing::PublicKey;
use mock_routing::Record;
use mock_routing::SimError;

fn immutable(kind: ContentKind, value: &[u8]) -> Record {
    Record::Immutable { kind, value: value.to_vec() }
}

fn versioned(identity: &[u8], version: u64, payload: &[u8], owners: Vec<PublicKey>) -> Record {
    Record::Versioned {
        type_tag: 999,
        identity: NodeIdentity { bytes: identity.to_vec() },
        version,
        payload: payload.to_vec(),
        owners,
        signatures: Vec::new(),
    }
}

#[test]
fn dedup_idempotent_put() {
    let mut store = DataStore::new();
    let first = immutable(ContentKind::Normal, b"content");
    let id = first.record_identity();
    assert_eq!(store.put(first), Ok(()));
    let again = immutable(ContentKind::Normal, b"content");
    assert_eq!(store.put(again), Ok(()));
    match store.get(&id) {
        Ok(Record::Immutable { kind, value }) => {
            assert_eq!(*kind, ContentKind::Normal);
            assert_eq!(value.as_slice(), b"content");
        },
        _ => panic!("expected the immutable record back"),
    }
}

#[test]
fn classification_conflict() {
    let mut store = DataStore::new();
    assert_eq!(store.put(immutable(ContentKind::Normal, b"same bytes")), Ok(()));
    assert_eq!(
        store.put(immutable(ContentKind::Backup, b"same bytes")),
        Err(SimError::Conflict)
    );
}

#[test]
fn content_address_ignores_kind_and_depends_on_bytes() {
    let normal = immutable(ContentKind::Normal, b"abc");
    let backup = immutable(ContentKind::Backup, b"abc");
    let other = immutable(ContentKind::Normal, b"abd");
    let id_normal = normal.record_identity();
    let id_backup = backup.record_identity();
    let id_other = other.record_identity();
    assert_eq!(id_normal.bytes.len(), 64);
    assert_eq!(id_normal.bytes, id_backup.bytes);
    assert_ne!(id_normal.bytes, id_other.bytes);
}

#[test]
fn get_after_put_returns_identical_record() {
    let mut store = DataStore::new();
    let rec = immutable(ContentKind::Backup, b"payload bytes");
    let id = rec.record_identity();
    assert_eq!(store.put(rec), Ok(()));
    match store.get(&id) {
        Ok(Record::Immutable { kind, value }) => {
            assert_eq!(*kind, ContentKind::Backup);
            assert_eq!(value.as_slice(), b"payload bytes");
        },
        _ => panic!("expected the immutable record back"),
    }
}

#[test]
fn get_missing_is_not_found() {
    let store = DataStore::new();
    let id = NodeIdentity { bytes: vec![3u8; 64] };
    assert_eq!(store.get(&id).err(), Some(SimError::NotFound));
}

#[test]
fn versioned_put_must_start_at_version_zero() {
    let mut store = DataStore::new();
    let rec = versioned(&[1u8; 64], 4, b"late start", Vec::new());
    assert_eq!(store.put(rec), Err(SimError::Conflict));
    let rec0 = versioned(&[1u8; 64], 0, b"fresh", Vec::new());
    assert_eq!(store.put(rec0), Ok(()));
}

#[test]
fn versioned_put_to_occupied_identity_conflicts() {
    let mut store = DataStore::new();
    assert_eq!(store.put(versioned(&[2u8; 64], 0, b"first", Vec::new())), Ok(()));
    assert_eq!(
        store.put(versioned(&[2u8; 64], 0, b"second", Vec::new())),
        Err(SimError::Conflict)
    );
}

#[test]
fn post_on_missing_identity_is_not_found() {
    let mut store = DataStore::new();
    let loc = NodeIdentity { bytes: vec![8u8; 64] };
    let rec = versioned(&[8u8; 64], 1, b"p", Vec::new());
    assert_eq!(store.post(&loc, rec), Err(SimError::NotFound));
}

#[test]
fn post_on_immutable_record_conflicts() {
    let mut store = DataStore::new();
    let content = immutable(ContentKind::Normal, b"fixed");
    let id = content.record_identity();
    assert_eq!(store.put(content), Ok(()));
    let mut rec = versioned(&[0u8; 64], 1, b"p", Vec::new());
    if let Record::Versioned { ref mut identity, .. } = rec {
        identity.bytes = id.bytes.clone();
    }
    assert_eq!(store.post(&id, rec), Err(SimError::Conflict));
}
