//! A small string-keyed table: the storage behind the remembered tab
//! selections, the shared input values and the dropdown open states.
use vstd::prelude::*;

use crate::text::str_eq;

verus! {

/// The map a list of entries describes: each entry binds its key to its
/// value, a later entry overriding an earlier one.
pub open spec fn table_map<V: View>(entries: Seq<(String, V)>) -> Map<Seq<char>, V::V>
    decreases entries.len(),
{
    if entries.len() == 0 {
        Map::empty()
    } else {
        table_map(entries.drop_last()).insert(entries.last().0@, entries.last().1@)
    }
}

/// Whether no two entries share a key.
pub open spec fn keys_distinct<V>(entries: Seq<(String, V)>) -> bool {
    forall|i: int, j: int|
        0 <= i < j < entries.len() ==> #[trigger] entries[i].0@ != #[trigger] entries[j].0@
}

proof fn lemma_table_map_domain<V: View>(entries: Seq<(String, V)>, key: Seq<char>)
    ensures
        table_map(entries).contains_key(key) <==> exists|i: int|
            0 <= i < entries.len() && #[trigger] entries[i].0@ == key,
    decreases entries.len(),
{
    if entries.len() > 0 {
        let before = entries.drop_last();
        lemma_table_map_domain(before, key);
        if table_map(entries).contains_key(key) {
            if entries.last().0@ != key {
                let i = choose|i: int| 0 <= i < before.len() && #[trigger] before[i].0@ == key;
                assert(entries[i] == before[i]);
            } else {
                assert(entries[entries.len() - 1].0@ == key);
            }
        }
        if exists|i: int| 0 <= i < entries.len() && #[trigger] entries[i].0@ == key {
            let i = choose|i: int| 0 <= i < entries.len() && #[trigger] entries[i].0@ == key;
            if i < entries.len() - 1 {
                assert(before[i] == entries[i]);
            }
        }
    }
}

proof fn lemma_table_map_value<V: View>(entries: Seq<(String, V)>, i: int)
    requires
        keys_distinct(entries),
        0 <= i < entries.len(),
    ensures
        table_map(entries).contains_key(entries[i].0@),
        table_map(entries)[entries[i].0@] == entries[i].1@,
    decreases entries.len(),
{
    if i < entries.len() - 1 {
        let before = entries.drop_last();
        assert(before[i] == entries[i]);
        assert(keys_distinct(before)) by {
            assert forall|a: int, b: int| 0 <= a < b < before.len() implies #[trigger] before[a].0@
                != #[trigger] before[b].0@ by {
                assert(before[a] == entries[a] && before[b] == entries[b]);
            }
        }
        lemma_table_map_value(before, i);
        assert(entries[i].0@ != entries[entries.len() - 1].0@);
    }
}

proof fn lemma_table_map_update<V: View>(entries: Seq<(String, V)>, i: int, entry: (String, V))
    requires
        keys_distinct(entries),
        0 <= i < entries.len(),
        entry.0@ == entries[i].0@,
    ensures
        table_map(entries.update(i, entry)) == table_map(entries).insert(entry.0@, entry.1@),
        keys_distinct(entries.update(i, entry)),
    decreases entries.len(),
{
    let updated = entries.update(i, entry);
    assert(keys_distinct(updated)) by {
        assert forall|a: int, b: int| 0 <= a < b < updated.len() implies #[trigger] updated[a].0@
            != #[trigger] updated[b].0@ by {
            assert(updated[a].0@ == entries[a].0@);
            assert(updated[b].0@ == entries[b].0@);
        }
    }
    let before = entries.drop_last();
    if i == entries.len() - 1 {
        assert(updated.drop_last() =~= before);
        lemma_table_map_domain(before, entry.0@);
        if before.len() > 0 {
            assert(!table_map(before).contains_key(entry.0@)) by {
                if table_map(before).contains_key(entry.0@) {
                    let j = choose|j: int|
                        0 <= j < before.len() && #[trigger] before[j].0@ == entry.0@;
                    assert(entries[j].0@ == entries[i].0@);
                }
            }
        }
        assert(table_map(updated) =~= table_map(entries).insert(entry.0@, entry.1@));
    } else {
        assert(keys_distinct(before)) by {
            assert forall|a: int, b: int| 0 <= a < b < before.len() implies #[trigger] before[a].0@
                != #[trigger] before[b].0@ by {
                assert(before[a] == entries[a] && before[b] == entries[b]);
            }
        }
        lemma_table_map_update(before, i, entry);
        assert(updated.drop_last() =~= before.update(i, entry));
        assert(entries.last().0@ != entry.0@);
        assert(table_map(updated) =~= table_map(entries).insert(entry.0@, entry.1@));
    }
}

/// A table from string keys to values, each key at most once.
pub struct KeyedTable<V> {
    entries: Vec<(String, V)>,
}

impl<V: View> View for KeyedTable<V> {
    type V = Map<Seq<char>, V::V>;

    closed spec fn view(&self) -> Map<Seq<char>, V::V> {
        table_map(self.entries@)
    }
}

impl<V> KeyedTable<V> {
    #[verifier::type_invariant]
    closed spec fn keys_are_distinct(&self) -> bool {
        keys_distinct(self.entries@)
    }
}

impl<V: View> KeyedTable<V> {
    /// An empty table.
    pub fn new() -> (r: KeyedTable<V>)
        ensures
            r@ == Map::<Seq<char>, V::V>::empty(),
    {
        KeyedTable { entries: Vec::new() }
    }

    fn index_of(&self, key: &str) -> (r: Option<usize>)
        ensures
            match r {
                Some(i) => i < self.entries@.len() && self.entries@[i as int].0@ == key@,
                None => forall|i: int|
                    0 <= i < self.entries@.len() ==> #[trigger] self.entries@[i].0@ != key@,
            },
    {
        let mut i: usize = 0;
        while i < self.entries.len()
            invariant
                i <= self.entries@.len(),
                forall|k: int| 0 <= k < i ==> #[trigger] self.entries@[k].0@ != key@,
            decreases self.entries.len() - i,
        {
            if str_eq(self.entries[i].0.as_str(), key) {
                return Some(i);
            }
            i = i + 1;
        }
        None
    }

    /// Whether `key` is bound.
    pub fn contains_key(&self, key: &str) -> (r: bool)
        ensures
            r == self@.contains_key(key@),
    {
        proof {
            lemma_table_map_domain(self.entries@, key@);
        }
        self.index_of(key).is_some()
    }

    /// The value bound to `key`, if any.
    pub fn get(&self, key: &str) -> (r: Option<&V>)
        ensures
            match r {
                Some(v) => self@.contains_key(key@) && self@[key@] == v@,
                None => !self@.contains_key(key@),
            },
    {
        proof {
            use_type_invariant(self);
            lemma_table_map_domain(self.entries@, key@);
        }
        match self.index_of(key) {
            Some(i) => {
                proof {
                    lemma_table_map_value(self.entries@, i as int);
                }
                Some(&self.entries[i].1)
            },
            None => None,
        }
    }

    /// Binds `key` to `value`, replacing any earlier value.
    pub fn insert(&mut self, key: &str, value: V)
        ensures
            final(self)@ == old(self)@.insert(key@, value@),
    {
        proof {
            use_type_invariant(&*self);
        }
        let entry = (key.to_owned(), value);
        let found = self.index_of(key);
        let mut entries: Vec<(String, V)> = Vec::new();
        std::mem::swap(&mut entries, &mut self.entries);
        let ghost before = entries@;
        match found {
            Some(i) => {
                proof {
                    lemma_table_map_update(before, i as int, entry);
                }
                entries.set(i, entry);
            },
            None => {
                entries.push(entry);
                proof {
                    assert(entries@.drop_last() =~= before);
                    assert(keys_distinct(entries@)) by {
                        assert forall|a: int, b: int|
                            0 <= a < b < entries@.len() implies #[trigger] entries@[a].0@
                            != #[trigger] entries@[b].0@ by {
                            if b < before.len() {
                                assert(entries@[a] == before[a]);
                                assert(entries@[b] == before[b]);
                            } else {
                                assert(entries@[a] == before[a]);
                            }
                        }
                    }
                }
            },
        }
        self.entries = entries;
    }
}

} // verus!
