//! The mutation validator: the write-conflict and authorization rules
//! enforced before the data store is changed.
//!
//! Every rule is stated as a spec-level decision function over the store's
//! map view, and each mutation entry point is proved to return exactly that
//! decision and to change the store exactly as the decision allows.
//!
//! Policy choice: DELETE applies the same version rule as POST (the incoming
//! version must be exactly one above the stored version) in addition to the
//! owner quorum, so a deletion proposal names the state it supersedes.

use vstd::prelude::*;
use crate::crypto::sig_verifies;
use crate::crypto::verify_signature;
use crate::errors::SimError;
use crate::identity::NodeIdentity;
use crate::identity::PublicKey;
use crate::identity::Signature;
use crate::record::key_views;
use crate::record::sig_views;
use crate::record::Record;
use crate::record::RecordModel;
use crate::signable::spec_signable;
use crate::store::DataStore;

verus! {

/// Whether at least one of `sigs` verifies against `msg` under `owner`.
pub open spec fn owner_signed(owner: Seq<u8>, sigs: Seq<Seq<u8>>, msg: Seq<u8>) -> bool {
    exists|i: int| 0 <= i < sigs.len() && sig_verifies(sigs[i], msg, owner)
}

/// How many owner entries have at least one verifying signature.
pub open spec fn signed_count(owners: Seq<Seq<u8>>, sigs: Seq<Seq<u8>>, msg: Seq<u8>) -> nat
    decreases owners.len(),
{
    if owners.len() == 0 {
        0
    } else {
        signed_count(owners.drop_last(), sigs, msg) + if owner_signed(owners.last(), sigs, msg) {
            1nat
        } else {
            0nat
        }
    }
}

/// The quorum rule: a strict majority of the owner entries must have a
/// verifying signature (`count > floor(N / 2)`).
pub open spec fn quorum_met(owners: Seq<Seq<u8>>, sigs: Seq<Seq<u8>>, msg: Seq<u8>) -> bool {
    signed_count(owners, sigs, msg) > owners.len() / 2
}

/// What a PUT of `inc` into the store `m` must report.  A PUT of
/// byte-identical immutable content under the same classification is
/// idempotent; the same identity under a different classification, any other
/// occupied identity, and a versioned record whose version is not 0 are
/// conflicts.
pub open spec fn put_decision(m: Map<Seq<u8>, RecordModel>, inc: RecordModel) -> Result<
    (),
    SimError,
> {
    let id = inc.identity();
    if m.contains_key(id) {
        let stored = m[id];
        if stored is Immutable && inc is Immutable && stored->kind == inc->kind && stored->value
            == inc->value {
            Ok(())
        } else {
            Err(SimError::Conflict)
        }
    } else {
        if inc is Versioned && inc->version != 0 {
            Err(SimError::Conflict)
        } else {
            Ok(())
        }
    }
}

/// The checks a conditional mutation proposal must pass against the stored
/// record, in order: record class, version increment, identity stability,
/// and the owner quorum over the *stored* owner set.
pub open spec fn mutation_checks(stored: RecordModel, inc: RecordModel) -> Result<(), SimError> {
    if !(stored is Versioned) || !(inc is Versioned) {
        Err(SimError::Conflict)
    } else if inc->version != stored->version + 1 {
        Err(SimError::VersionMismatch)
    } else if inc->identity != stored->identity {
        Err(SimError::IdentityMismatch)
    } else if !quorum_met(stored->owners, inc->signatures, spec_signable(inc)) {
        Err(SimError::QuorumNotMet)
    } else {
        Ok(())
    }
}

/// What a POST of `inc` at `loc` must report: presence, then the
/// [`mutation_checks`] against the stored record.
pub open spec fn post_decision(
    m: Map<Seq<u8>, RecordModel>,
    loc: Seq<u8>,
    inc: RecordModel,
) -> Result<(), SimError> {
    if !m.contains_key(loc) {
        Err(SimError::NotFound)
    } else {
        mutation_checks(m[loc], inc)
    }
}

/// What a DELETE of `inc` at `loc` must report: the same checks as a POST.
pub open spec fn delete_decision(
    m: Map<Seq<u8>, RecordModel>,
    loc: Seq<u8>,
    inc: RecordModel,
) -> Result<(), SimError> {
    post_decision(m, loc, inc)
}

/// Whether any of `sigs` verifies against `msg` under `owner`.
fn any_signature_verifies(sigs: &Vec<Signature>, msg: &Vec<u8>, owner: &PublicKey) -> (r: bool)
    requires
        owner.wf(),
        forall|i: int| 0 <= i < sigs@.len() ==> (#[trigger] sigs@[i]).wf(),
    ensures
        r == owner_signed(owner@, sig_views(sigs@), msg@),
{
    let n: usize = sigs.len();
    let mut i: usize = 0;
    while i < n
        invariant
            n == sigs@.len(),
            i <= n,
            owner.wf(),
            forall|j: int| 0 <= j < sigs@.len() ==> (#[trigger] sigs@[j]).wf(),
            forall|j: int| 0 <= j < i ==> !sig_verifies(#[trigger] sig_views(sigs@)[j], msg@, owner@),
        decreases n - i,
    {
        if verify_signature(&sigs[i], msg, owner) {
            assert(sig_verifies(sig_views(sigs@)[i as int], msg@, owner@));
            return true;
        }
        i += 1;
    }
    false
}

/// How many of `owners` have at least one verifying signature among `sigs`.
fn count_signed(owners: &Vec<PublicKey>, sigs: &Vec<Signature>, msg: &Vec<u8>) -> (n: usize)
    requires
        forall|i: int| 0 <= i < owners@.len() ==> (#[trigger] owners@[i]).wf(),
        forall|i: int| 0 <= i < sigs@.len() ==> (#[trigger] sigs@[i]).wf(),
    ensures
        n == signed_count(key_views(owners@), sig_views(sigs@), msg@),
{
    let n_owners: usize = owners.len();
    let mut count: usize = 0;
    let mut i: usize = 0;
    while i < n_owners
        invariant
            n_owners == owners@.len(),
            i <= n_owners,
            count <= i,
            forall|j: int| 0 <= j < owners@.len() ==> (#[trigger] owners@[j]).wf(),
            forall|j: int| 0 <= j < sigs@.len() ==> (#[trigger] sigs@[j]).wf(),
            count == signed_count(key_views(owners@).take(i as int), sig_views(sigs@), msg@),
        decreases n_owners - i,
    {
        let ghost prefix = key_views(owners@).take(i as int);
        let signed = any_signature_verifies(sigs, msg, &owners[i]);
        proof {
            let next = key_views(owners@).take(i + 1);
            assert(next.drop_last() =~= prefix);
            assert(next.last() == owners@[i as int]@);
        }
        if signed {
            count += 1;
        }
        i += 1;
    }
    proof {
        assert(key_views(owners@).take(n_owners as int) =~= key_views(owners@));
    }
    count
}

/// Whether a strict majority of `owners` countersigned `msg`.
fn quorum_check(owners: &Vec<PublicKey>, sigs: &Vec<Signature>, msg: &Vec<u8>) -> (r: bool)
    requires
        forall|i: int| 0 <= i < owners@.len() ==> (#[trigger] owners@[i]).wf(),
        forall|i: int| 0 <= i < sigs@.len() ==> (#[trigger] sigs@[i]).wf(),
    ensures
        r == quorum_met(key_views(owners@), sig_views(sigs@), msg@),
{
    let count = count_signed(owners, sigs, msg);
    count > owners.len() / 2
}

/// Runs the [`mutation_checks`] of a conditional mutation proposal against
/// the stored record.
#[verifier::rlimit(100)]
fn check_mutation(stored: &Record, incoming: &Record) -> (r: Result<(), SimError>)
    requires
        stored@.wf(),
        incoming@.wf(),
    ensures
        r == mutation_checks(stored@, incoming@),
{
    match stored {
        Record::Immutable { .. } => Err(SimError::Conflict),
        Record::Versioned {
            version: stored_version,
            identity: stored_identity,
            owners: stored_owners,
            ..
        } => {
            match incoming {
                Record::Immutable { .. } => Err(SimError::Conflict),
                Record::Versioned {
                    version: inc_version,
                    identity: inc_identity,
                    signatures: inc_signatures,
                    ..
                } => {
                    if !(*inc_version >= 1 && *inc_version - 1 == *stored_version) {
                        return Err(SimError::VersionMismatch);
                    }
                    if !inc_identity.equals(stored_identity) {
                        return Err(SimError::IdentityMismatch);
                    }
                    let msg = incoming.signable_bytes();
                    proof {
                        assert forall|j: int|
                            0 <= j < stored_owners@.len() implies (#[trigger] stored_owners@[j]).wf() by {
                            assert(stored@->owners[j] == stored_owners@[j]@);
                        }
                        assert forall|j: int|
                            0 <= j < inc_signatures@.len() implies (
                            #[trigger] inc_signatures@[j]).wf() by {
                            assert(incoming@->signatures[j] == inc_signatures@[j]@);
                        }
                    }
                    if !quorum_check(stored_owners, inc_signatures, &msg) {
                        return Err(SimError::QuorumNotMet);
                    }
                    Ok(())
                },
            }
        },
    }
}

impl DataStore {
    /// GET: never mutates; returns the stored record or `NotFound`.
    pub fn get(&self, location: &NodeIdentity) -> (r: Result<&Record, SimError>)
        requires
            self.wf(),
        ensures
            match r {
                Ok(rec) => self@.contains_key(location@) && rec@ == self@[location@],
                Err(e) => e == SimError::NotFound && !self@.contains_key(location@),
            },
    {
        match self.find(location) {
            Some(i) => Ok(&self.entries[i].record),
            None => Err(SimError::NotFound),
        }
    }

    /// PUT: stores a record under its own identity, subject to the
    /// deduplication and conflict rules of [`put_decision`].
    pub fn put(&mut self, record: Record) -> (r: Result<(), SimError>)
        requires
            old(self).wf(),
            record@.wf(),
        ensures
            final(self).wf(),
            r == put_decision(old(self)@, record@),
            final(self)@ == (if r is Ok {
                old(self)@.insert(record@.identity(), record@)
            } else {
                old(self)@
            }),
    {
        let key = record.record_identity();
        match self.find(&key) {
            Some(i) => {
                match &self.entries[i].record {
                    Record::Immutable { kind: stored_kind, value: stored_value } => {
                        match &record {
                            Record::Immutable { kind: inc_kind, value: inc_value } => {
                                if *stored_kind == *inc_kind
                                    && crate::identity::bytes_eq(stored_value, inc_value) {
                                    proof {
                                        assert(old(self)@[record@.identity()] == record@);
                                        assert(old(self)@.insert(record@.identity(), record@)
                                            =~= old(self)@);
                                    }
                                    Ok(())
                                } else {
                                    Err(SimError::Conflict)
                                }
                            },
                            Record::Versioned { .. } => Err(SimError::Conflict),
                        }
                    },
                    Record::Versioned { .. } => Err(SimError::Conflict),
                }
            },
            None => {
                match &record {
                    Record::Versioned { version, .. } => {
                        if *version != 0 {
                            return Err(SimError::Conflict);
                        }
                    },
                    Record::Immutable { .. } => {},
                }
                self.push_entry(key, record);
                Ok(())
            },
        }
    }

    /// POST: conditional update of a versioned record, subject to
    /// [`post_decision`].  On success the stored record is replaced by the
    /// incoming one.
    pub fn post(&mut self, location: &NodeIdentity, incoming: Record) -> (r: Result<(), SimError>)
        requires
            old(self).wf(),
            incoming@.wf(),
        ensures
            final(self).wf(),
            r == post_decision(old(self)@, location@, incoming@),
            final(self)@ == (if r is Ok {
                old(self)@.insert(location@, incoming@)
            } else {
                old(self)@
            }),
    {
        let idx = match self.find(location) {
            None => {
                return Err(SimError::NotFound);
            },
            Some(i) => i,
        };
        if let Err(e) = check_mutation(&self.entries[idx].record, &incoming) {
            return Err(e);
        }
        let key = incoming.record_identity();
        self.remove_at(idx);
        self.push_entry(key, incoming);
        proof {
            assert(final(self)@ =~= old(self)@.insert(location@, incoming@));
        }
        Ok(())
    }

    /// DELETE: conditional removal of a versioned record, subject to
    /// [`delete_decision`].  On success the entry is removed.
    pub fn delete(&mut self, location: &NodeIdentity, incoming: &Record) -> (r: Result<
        (),
        SimError,
    >)
        requires
            old(self).wf(),
            incoming@.wf(),
        ensures
            final(self).wf(),
            r == delete_decision(old(self)@, location@, incoming@),
            final(self)@ == (if r is Ok {
                old(self)@.remove(location@)
            } else {
                old(self)@
            }),
    {
        let idx = match self.find(location) {
            None => {
                return Err(SimError::NotFound);
            },
            Some(i) => i,
        };
        if let Err(e) = check_mutation(&self.entries[idx].record, incoming) {
            return Err(e);
        }
        self.remove_at(idx);
        Ok(())
    }
}

} // verus!
