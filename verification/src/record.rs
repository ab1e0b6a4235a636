//! The storable unit of the network: either content-addressed immutable
//! content, or a versioned record guarded by owner signatures.

use vstd::prelude::*;
use crate::crypto::content_digest;
use crate::identity::NodeIdentity;
use crate::identity::PublicKey;
use crate::identity::Signature;
use crate::identity::IDENTITY_LEN;
use crate::identity::PUBLIC_KEY_LEN;
use crate::identity::SIGNATURE_LEN;

verus! {

/// The classification of immutable content.  Identity is derived from the
/// bytes alone, so the same bytes under different classifications collide.
#[derive(Clone, Copy, PartialEq, Eq, Structural, Debug)]
pub enum ContentKind {
    Normal,
    Backup,
}

/// A storable record.
pub enum Record {
    /// Content-addressed immutable content: its identity is the digest of
    /// `value`, and `kind` distinguishes content classes.
    Immutable { kind: ContentKind, value: Vec<u8> },
    /// A versioned mutable record.  `version` starts at 0 and a valid
    /// mutation increases it by exactly 1; `identity` is stable across
    /// versions; mutations must carry signatures by a strict majority of
    /// `owners`.
    Versioned {
        type_tag: u64,
        identity: NodeIdentity,
        version: u64,
        payload: Vec<u8>,
        owners: Vec<PublicKey>,
        signatures: Vec<Signature>,
    },
}

/// The mathematical shadow of a [`Record`]: the same shape over sequences.
pub enum RecordModel {
    Immutable { kind: ContentKind, value: Seq<u8> },
    Versioned {
        type_tag: u64,
        identity: Seq<u8>,
        version: u64,
        payload: Seq<u8>,
        owners: Seq<Seq<u8>>,
        signatures: Seq<Seq<u8>>,
    },
}

/// The byte strings of a sequence of public keys.
pub open spec fn key_views(keys: Seq<PublicKey>) -> Seq<Seq<u8>> {
    keys.map_values(|k: PublicKey| k@)
}

/// The byte strings of a sequence of signatures.
pub open spec fn sig_views(sigs: Seq<Signature>) -> Seq<Seq<u8>> {
    sigs.map_values(|s: Signature| s@)
}

impl View for Record {
    type V = RecordModel;

    open spec fn view(&self) -> RecordModel {
        match self {
            Record::Immutable { kind, value } => RecordModel::Immutable {
                kind: *kind,
                value: value@,
            },
            Record::Versioned { type_tag, identity, version, payload, owners, signatures } => {
                RecordModel::Versioned {
                    type_tag: *type_tag,
                    identity: identity@,
                    version: *version,
                    payload: payload@,
                    owners: key_views(owners@),
                    signatures: sig_views(signatures@),
                }
            },
        }
    }
}

impl RecordModel {
    /// Well-formedness of a record: every fixed-width field has its width.
    pub open spec fn wf(&self) -> bool {
        match *self {
            RecordModel::Immutable { .. } => true,
            RecordModel::Versioned { identity, owners, signatures, .. } => {
                &&& identity.len() == IDENTITY_LEN
                &&& forall|i: int|
                    0 <= i < owners.len() ==> (#[trigger] owners[i]).len() == PUBLIC_KEY_LEN
                &&& forall|i: int|
                    0 <= i < signatures.len() ==> (#[trigger] signatures[i]).len() == SIGNATURE_LEN
            },
        }
    }

    /// The identity a record is stored under: the digest of the content for
    /// immutable records, the embedded identity for versioned ones.
    pub open spec fn identity(&self) -> Seq<u8> {
        match *self {
            RecordModel::Immutable { value, .. } => content_digest(value),
            RecordModel::Versioned { identity, .. } => identity,
        }
    }
}

impl Record {
    /// Well-formedness, checked at run time so that unverified callers can
    /// establish the preconditions of the mutation entry points.
    #[verifier::loop_isolation(false)]
    pub fn is_wf(&self) -> (r: bool)
        ensures
            r == self@.wf(),
    {
        match self {
            Record::Immutable { .. } => true,
            Record::Versioned { identity, owners, signatures, .. } => {
                if identity.bytes.len() != IDENTITY_LEN {
                    return false;
                }
                let mut i: usize = 0;
                let n_owners: usize = owners.len();
                while i < n_owners
                    invariant
                        n_owners == owners@.len(),
                        i <= n_owners,
                        forall|j: int|
                            0 <= j < i ==> (#[trigger] key_views(owners@)[j]).len() == PUBLIC_KEY_LEN,
                    decreases n_owners - i,
                {
                    if owners[i].bytes.len() != PUBLIC_KEY_LEN {
                        proof {
                            let m = self@;
                            assert(m is Versioned);
                            assert(m->owners == key_views(owners@));
                            assert(m->owners[i as int].len() != PUBLIC_KEY_LEN);
                            assert(!m.wf());
                        }
                        return false;
                    }
                    i += 1;
                }
                let mut k: usize = 0;
                let n_sigs: usize = signatures.len();
                while k < n_sigs
                    invariant
                        n_sigs == signatures@.len(),
                        k <= n_sigs,
                        forall|j: int|
                            0 <= j < k ==> (#[trigger] sig_views(signatures@)[j]).len() == SIGNATURE_LEN,
                    decreases n_sigs - k,
                {
                    if signatures[k].bytes.len() != SIGNATURE_LEN {
                        proof {
                            let m = self@;
                            assert(m is Versioned);
                            assert(m->signatures == sig_views(signatures@));
                            assert(m->signatures[k as int].len() != SIGNATURE_LEN);
                            assert(!m.wf());
                        }
                        return false;
                    }
                    k += 1;
                }
                true
            },
        }
    }

    /// The identity this record is stored under.
    pub fn record_identity(&self) -> (r: NodeIdentity)
        ensures
            r@ == self@.identity(),
            self@.wf() ==> r.wf(),
    {
        match self {
            Record::Immutable { value, .. } => crate::crypto::content_address(value),
            Record::Versioned { identity, .. } => identity.duplicate(),
        }
    }
}

} // verus!
