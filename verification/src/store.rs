//! The grant store: a durable keyed record store mapping a storage key to
//! the grant record written under it.  At most one record exists per key;
//! writing under an existing key overwrites the prior record and keeps no
//! history.  Its abstract model is a `Map` from key characters to records.

use vstd::prelude::*;

use crate::values::Allowance;

verus! {

/// One grant: a validity window and a bounded value allowance.
///
/// The canonical field order, used both when a record is written and when
/// it is read back, is `(start_date, end_date, allowance)`.
#[derive(Clone, Copy, Debug, PartialEq, Eq)]
pub struct GrantRecord {
    /// Start of the validity window, a 64-bit timestamp.
    pub start_date: u64,
    /// End of the validity window, a 64-bit timestamp.  No ordering with
    /// respect to `start_date` is enforced.
    pub end_date: u64,
    /// Maximum value the grant authorizes.
    pub allowance: Allowance,
}

/// A keyed store of grant records.
pub struct GrantStore {
    entries: Vec<(String, GrantRecord)>,
}

impl GrantStore {
    /// The records held, as a map from key to record.
    pub closed spec fn view(&self) -> Map<Seq<char>, GrantRecord> {
        GrantStore::entries_map(self.entries@)
    }

    spec fn entries_map(entries: Seq<(String, GrantRecord)>) -> Map<Seq<char>, GrantRecord>
        decreases entries.len(),
    {
        if entries.len() == 0 {
            Map::empty()
        } else {
            GrantStore::entries_map(entries.drop_last()).insert(
                entries.last().0@,
                entries.last().1,
            )
        }
    }

    /// Each key appears at most once among the entries.
    pub closed spec fn wf(&self) -> bool {
        forall|i: int, j: int|
            0 <= i < j < self.entries@.len() ==> self.entries@[i].0@ != self.entries@[j].0@
    }

    /// An empty store.
    pub fn new() -> (r: GrantStore)
        ensures
            r@ == Map::<Seq<char>, GrantRecord>::empty(),
            r.wf(),
    {
        GrantStore { entries: Vec::new() }
    }

    /// Writes a record under a key, overwriting any record already there.
    pub fn put(&mut self, key: String, record: GrantRecord)
        requires
            old(self).wf(),
        ensures
            final(self).wf(),
            final(self)@ == old(self)@.insert(key@, record),
    {
        let n = self.entries.len();
        let mut i: usize = 0;
        while i < n
            invariant
                i <= n,
                n == self.entries@.len(),
                self == old(self),
                old(self).wf(),
                forall|k: int| 0 <= k < i ==> self.entries@[k].0@ != key@,
            decreases n - i,
        {
            if self.entries[i].0 == key {
                proof {
                    assert(old(self).entries@[i as int].0@ == key@);
                    GrantStore::lemma_entries_map_update(
                        old(self).entries@,
                        i as int,
                        (key, record),
                    );
                }
                self.entries.set(i, (key, record));
                proof {
                    assert(self@ =~= old(self)@.insert(key@, record));
                    assert forall|p: int, q: int|
                        0 <= p < q < self.entries@.len() implies self.entries@[p].0@
                        != self.entries@[q].0@ by {
                        assert(self.entries@[p].0@ == old(self).entries@[p].0@);
                        assert(self.entries@[q].0@ == old(self).entries@[q].0@);
                    }
                }
                return ;
            }
            i = i + 1;
        }
        self.entries.push((key, record));
        proof {
            assert(self.entries@.drop_last() =~= old(self).entries@);
            assert(self.entries@.last() == (key, record));
            assert forall|p: int, q: int|
                0 <= p < q < self.entries@.len() implies self.entries@[p].0@
                != self.entries@[q].0@ by {
                if q < self.entries@.len() - 1 {
                    assert(self.entries@[p] == old(self).entries@[p]);
                    assert(self.entries@[q] == old(self).entries@[q]);
                } else {
                    assert(self.entries@[p] == old(self).entries@[p]);
                    assert(self.entries@[q].0@ == key@);
                }
            }
        }
    }

    /// Reads the record under a key, if one is there.
    pub fn get(&self, key: &String) -> (r: Option<GrantRecord>)
        requires
            self.wf(),
        ensures
            match r {
                Some(record) => self@.contains_key(key@) && record == self@[key@],
                None => !self@.contains_key(key@),
            },
    {
        let n = self.entries.len();
        let mut i: usize = 0;
        while i < n
            invariant
                i <= n,
                n == self.entries@.len(),
                self.wf(),
                forall|k: int| 0 <= k < i ==> self.entries@[k].0@ != key@,
            decreases n - i,
        {
            if self.entries[i].0 == *key {
                proof {
                    GrantStore::lemma_entries_map_lookup(self.entries@, i as int);
                }
                return Some(self.entries[i].1);
            }
            i = i + 1;
        }
        proof {
            GrantStore::lemma_entries_map_absent(self.entries@, key@);
        }
        None
    }

    /// Tells whether a record is held under a key.
    pub fn has(&self, key: &String) -> (r: bool)
        requires
            self.wf(),
        ensures
            r == self@.contains_key(key@),
    {
        self.get(key).is_some()
    }

    proof fn lemma_entries_map_lookup(entries: Seq<(String, GrantRecord)>, i: int)
        requires
            0 <= i < entries.len(),
            forall|p: int, q: int|
                0 <= p < q < entries.len() ==> entries[p].0@ != entries[q].0@,
        ensures
            GrantStore::entries_map(entries).contains_key(entries[i].0@),
            GrantStore::entries_map(entries)[entries[i].0@] == entries[i].1,
        decreases entries.len(),
    {
        if i < entries.len() - 1 {
            GrantStore::lemma_entries_map_lookup(entries.drop_last(), i);
            assert(entries.drop_last()[i] == entries[i]);
            assert(entries[i].0@ != entries.last().0@);
        }
    }

    proof fn lemma_entries_map_absent(entries: Seq<(String, GrantRecord)>, key: Seq<char>)
        requires
            forall|k: int| 0 <= k < entries.len() ==> entries[k].0@ != key,
        ensures
            !GrantStore::entries_map(entries).contains_key(key),
        decreases entries.len(),
    {
        if entries.len() > 0 {
            GrantStore::lemma_entries_map_absent(entries.drop_last(), key);
        }
    }

    proof fn lemma_entries_map_update(
        entries: Seq<(String, GrantRecord)>,
        i: int,
        pair: (String, GrantRecord),
    )
        requires
            0 <= i < entries.len(),
            pair.0@ == entries[i].0@,
            forall|p: int, q: int|
                0 <= p < q < entries.len() ==> entries[p].0@ != entries[q].0@,
        ensures
            GrantStore::entries_map(entries.update(i, pair)) =~= GrantStore::entries_map(
                entries,
            ).insert(pair.0@, pair.1),
        decreases entries.len(),
    {
        let updated = entries.update(i, pair);
        if i == entries.len() - 1 {
            assert(updated.drop_last() =~= entries.drop_last());
            assert(updated.last() == pair);
        } else {
            assert(updated.drop_last() =~= entries.drop_last().update(i, pair));
            assert(updated.last() == entries.last());
            GrantStore::lemma_entries_map_update(entries.drop_last(), i, pair);
            assert(entries.drop_last()[i] == entries[i]);
            assert(entries[i].0@ != entries.last().0@);
        }
    }
}

} // verus!
