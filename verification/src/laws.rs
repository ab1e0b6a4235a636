//! The library-level laws of the store and validator, stated over the same
//! decision functions and map views the mutation entry points are proved
//! against.

use vstd::prelude::*;
use crate::errors::SimError;
use crate::record::ContentKind;
use crate::record::RecordModel;
use crate::signable::spec_signable;
use crate::validator::post_decision;
use crate::validator::delete_decision;
use crate::validator::put_decision;
use crate::validator::quorum_met;
use crate::validator::signed_count;

verus! {

/// Dedup idempotence: after a successful PUT of immutable content, a second
/// PUT of the same content reports success and leaves the store in the
/// identical state.
pub proof fn lemma_put_dedup_idempotent(m: Map<Seq<u8>, RecordModel>, c: RecordModel)
    requires
        c is Immutable,
        put_decision(m, c) is Ok,
    ensures
        ({
            let m1 = m.insert(c.identity(), c);
            &&& put_decision(m1, c) is Ok
            &&& m1.insert(c.identity(), c) == m1
        }),
{
    let id = c.identity();
    let m1 = m.insert(id, c);
    assert(m1[id] == c);
    assert(m1.insert(id, c) =~= m1);
}

/// Classification conflict: after a successful PUT of immutable content
/// classified `Normal`, a PUT of the byte-identical content classified
/// `Backup` fails with `Conflict`, because identity is derived from the
/// bytes alone.
pub proof fn lemma_classification_conflict(m: Map<Seq<u8>, RecordModel>, value: Seq<u8>)
    requires
        put_decision(m, RecordModel::Immutable { kind: ContentKind::Normal, value }) is Ok,
    ensures
        ({
            let first = RecordModel::Immutable { kind: ContentKind::Normal, value };
            let second = RecordModel::Immutable { kind: ContentKind::Backup, value };
            put_decision(m.insert(first.identity(), first), second) == Err::<(), SimError>(
                SimError::Conflict,
            )
        }),
{
}

/// Version monotonicity: a POST is accepted only when the incoming version
/// is exactly one above the stored version, and the store it leaves behind
/// holds exactly that version.
pub proof fn lemma_version_monotonic(m: Map<Seq<u8>, RecordModel>, loc: Seq<u8>, inc: RecordModel)
    requires
        post_decision(m, loc, inc) is Ok,
    ensures
        m[loc] is Versioned,
        inc is Versioned,
        inc->version == m[loc]->version + 1,
        m.insert(loc, inc)[loc]->version == m[loc]->version + 1,
{
}

/// Quorum threshold for an owner set of three: two countersigning owners are
/// a strict majority, one is not.
pub proof fn lemma_quorum_threshold(owners: Seq<Seq<u8>>, sigs: Seq<Seq<u8>>, msg: Seq<u8>)
    requires
        owners.len() == 3,
    ensures
        signed_count(owners, sigs, msg) == 2 ==> quorum_met(owners, sigs, msg),
        signed_count(owners, sigs, msg) == 1 ==> !quorum_met(owners, sigs, msg),
{
}

/// The quorum threshold seen through POST: with three stored owners and the
/// version and identity checks passing, a proposal countersigned by exactly
/// two owners is accepted and one countersigned by exactly one owner is
/// refused with `QuorumNotMet`.
pub proof fn lemma_post_quorum_threshold(
    m: Map<Seq<u8>, RecordModel>,
    loc: Seq<u8>,
    inc: RecordModel,
)
    requires
        m.contains_key(loc),
        m[loc] is Versioned,
        inc is Versioned,
        m[loc]->owners.len() == 3,
        inc->version == m[loc]->version + 1,
        inc->identity == m[loc]->identity,
    ensures
        signed_count(m[loc]->owners, inc->signatures, spec_signable(inc)) == 2 ==> post_decision(
            m,
            loc,
            inc,
        ) is Ok,
        signed_count(m[loc]->owners, inc->signatures, spec_signable(inc)) == 1 ==> post_decision(
            m,
            loc,
            inc,
        ) == Err::<(), SimError>(SimError::QuorumNotMet),
{
}

/// GET after PUT: a successful PUT leaves the store holding exactly the
/// record that was put, so a GET at its identity returns it unchanged.
pub proof fn lemma_get_after_put(m: Map<Seq<u8>, RecordModel>, rec: RecordModel)
    requires
        put_decision(m, rec) is Ok,
    ensures
        m.insert(rec.identity(), rec).contains_key(rec.identity()),
        m.insert(rec.identity(), rec)[rec.identity()] == rec,
{
}

/// DELETE then GET: a successful DELETE leaves the store without the
/// identity, so a subsequent GET fails with `NotFound`.
pub proof fn lemma_delete_then_get(m: Map<Seq<u8>, RecordModel>, loc: Seq<u8>, inc: RecordModel)
    requires
        delete_decision(m, loc, inc) is Ok,
    ensures
        !m.remove(loc).contains_key(loc),
{
}

} // verus!
