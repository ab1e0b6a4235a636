//! The data store: a key-addressed map from record identity to the current
//! record, exclusively owned by the simulator instance.
//!
//! Concretely the store is a vector of entries with pairwise-distinct keys;
//! its mathematical view is the finite map from key bytes to record models.
//! Every entry is keyed by its record's own identity.

use vstd::prelude::*;
use crate::identity::NodeIdentity;
use crate::record::Record;
use crate::record::RecordModel;

verus! {

/// One stored record, keyed by its identity.
pub struct Entry {
    pub key: NodeIdentity,
    pub record: Record,
}

/// The key-addressed record store backing GET and the validated-write path.
pub struct DataStore {
    pub entries: Vec<Entry>,
}

/// The map a sequence of entries denotes; later entries shadow earlier ones,
/// though well-formed stores have pairwise-distinct keys.
pub open spec fn entries_map(s: Seq<Entry>) -> Map<Seq<u8>, RecordModel>
    decreases s.len(),
{
    if s.len() == 0 {
        Map::empty()
    } else {
        entries_map(s.drop_last()).insert(s.last().key@, s.last().record@)
    }
}

/// Pairwise-distinct keys.
pub open spec fn unique_keys(s: Seq<Entry>) -> bool {
    forall|i: int, j: int|
        0 <= i < j < s.len() ==> (#[trigger] s[i].key)@ != (#[trigger] s[j].key)@
}

impl View for DataStore {
    type V = Map<Seq<u8>, RecordModel>;

    open spec fn view(&self) -> Map<Seq<u8>, RecordModel> {
        entries_map(self.entries@)
    }
}

/// A key is in the denoted map exactly when some entry carries it.
pub proof fn lemma_map_domain(s: Seq<Entry>, k: Seq<u8>)
    ensures
        entries_map(s).contains_key(k) <==> exists|i: int| 0 <= i < s.len() && (#[trigger] s[i].key)@ == k,
    decreases s.len(),
{
    if s.len() == 0 {
    } else {
        let prefix = s.drop_last();
        lemma_map_domain(prefix, k);
        if s.last().key@ == k {
            assert(s[s.len() - 1].key@ == k);
        } else {
            assert(entries_map(s).contains_key(k) <==> entries_map(prefix).contains_key(k));
            if exists|i: int| 0 <= i < s.len() && (#[trigger] s[i].key)@ == k {
                let i = choose|i: int| 0 <= i < s.len() && (#[trigger] s[i].key)@ == k;
                assert(i < s.len() - 1);
                assert(prefix[i].key@ == k);
            }
            if exists|i: int| 0 <= i < prefix.len() && (#[trigger] prefix[i].key)@ == k {
                let i = choose|i: int| 0 <= i < prefix.len() && (#[trigger] prefix[i].key)@ == k;
                assert(s[i].key@ == k);
            }
        }
    }
}

/// With distinct keys, the denoted map sends each entry's key to its record.
pub proof fn lemma_map_at(s: Seq<Entry>, i: int)
    requires
        unique_keys(s),
        0 <= i < s.len(),
    ensures
        entries_map(s).contains_key(s[i].key@),
        entries_map(s)[s[i].key@] == s[i].record@,
    decreases s.len(),
{
    if i == s.len() - 1 {
    } else {
        let prefix = s.drop_last();
        assert(unique_keys(prefix));
        lemma_map_at(prefix, i);
        assert(s[i].key@ != s[s.len() - 1].key@);
    }
}

/// Removing the entry at `i` removes exactly its key from the denoted map.
pub proof fn lemma_map_remove(s: Seq<Entry>, i: int)
    requires
        unique_keys(s),
        0 <= i < s.len(),
    ensures
        entries_map(s.remove(i)) == entries_map(s).remove(s[i].key@),
    decreases s.len(),
{
    let k = s[i].key@;
    if i == s.len() - 1 {
        assert(s.remove(i) =~= s.drop_last());
        lemma_map_domain(s.drop_last(), k);
        assert(forall|j: int| 0 <= j < s.len() - 1 ==> (#[trigger] s.drop_last()[j].key)@ != k);
        assert(!entries_map(s.drop_last()).contains_key(k));
        assert(entries_map(s).remove(k) =~= entries_map(s.drop_last()));
    } else {
        let prefix = s.drop_last();
        assert(unique_keys(prefix));
        assert(s.remove(i).drop_last() =~= prefix.remove(i));
        assert(s.remove(i).last() == s.last());
        lemma_map_remove(prefix, i);
        assert(prefix[i].key@ == k);
        assert(s.last().key@ != k);
        assert(entries_map(s.remove(i)) == entries_map(prefix).remove(k).insert(
            s.last().key@,
            s.last().record@,
        ));
        assert(entries_map(prefix).remove(k).insert(s.last().key@, s.last().record@)
            =~= entries_map(prefix).insert(s.last().key@, s.last().record@).remove(k));
    }
}

impl DataStore {
    /// Well-formedness: keys are pairwise distinct, every entry is keyed by
    /// its record's identity, and every stored record is well formed.
    pub open spec fn wf(&self) -> bool {
        &&& unique_keys(self.entries@)
        &&& forall|i: int|
            0 <= i < self.entries@.len() ==> (#[trigger] self.entries@[i]).key@
                == self.entries@[i].record@.identity()
        &&& forall|i: int|
            0 <= i < self.entries@.len() ==> (#[trigger] self.entries@[i]).record@.wf()
    }

    /// An empty store.
    pub fn new() -> (r: DataStore)
        ensures
            r.wf(),
            r@ == Map::<Seq<u8>, RecordModel>::empty(),
    {
        DataStore { entries: Vec::new() }
    }

    /// Finds the entry index holding `key`, if any.
    pub fn find(&self, key: &NodeIdentity) -> (r: Option<usize>)
        requires
            self.wf(),
        ensures
            match r {
                Some(i) => {
                    &&& i < self.entries@.len()
                    &&& self.entries@[i as int].key@ == key@
                    &&& self@.contains_key(key@)
                    &&& self@[key@] == self.entries@[i as int].record@
                },
                None => !self@.contains_key(key@),
            },
    {
        let n: usize = self.entries.len();
        let mut i: usize = 0;
        while i < n
            invariant
                n == self.entries@.len(),
                i <= n,
                self.wf(),
                forall|j: int| 0 <= j < i ==> (#[trigger] self.entries@[j].key)@ != key@,
            decreases n - i,
        {
            if self.entries[i].key.equals(key) {
                proof {
                    lemma_map_at(self.entries@, i as int);
                }
                return Some(i);
            }
            i += 1;
        }
        proof {
            lemma_map_domain(self.entries@, key@);
        }
        None
    }

    /// Adds a record under a key not yet present.
    pub fn push_entry(&mut self, key: NodeIdentity, record: Record)
        requires
            old(self).wf(),
            !old(self)@.contains_key(key@),
            key@ == record@.identity(),
            record@.wf(),
        ensures
            final(self).wf(),
            final(self)@ == old(self)@.insert(key@, record@),
    {
        proof {
            lemma_map_domain(self.entries@, key@);
        }
        let ghost before = self.entries@;
        self.entries.push(Entry { key, record });
        proof {
            assert(self.entries@.drop_last() =~= before);
            assert(forall|j: int| 0 <= j < before.len() ==> (#[trigger] before[j].key)@ != self.entries@[before.len() as int].key@);
        }
    }

    /// Removes the entry at index `i`.
    pub fn remove_at(&mut self, i: usize)
        requires
            old(self).wf(),
            i < old(self).entries@.len(),
        ensures
            final(self).wf(),
            final(self)@ == old(self)@.remove(old(self).entries@[i as int].key@),
    {
        proof {
            lemma_map_remove(self.entries@, i as int);
            self.entries@.remove_ensures(i as int);
        }
        let _ = self.entries.remove(i);
    }
}

} // verus!
