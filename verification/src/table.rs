//! A table from text keys to values, each key at most once: the card
//! catalogue by keyword and the latest content of each queue.
use vstd::prelude::*;

verus! {

/// The keys of a list of entries, in order.
pub open spec fn entry_keys<V>(entries: Seq<(String, V)>) -> Seq<Seq<char>> {
    entries.map_values(|e: (String, V)| e.0@)
}

/// The map that a list of entries with distinct keys stands for.
pub open spec fn entries_map<V>(entries: Seq<(String, V)>) -> Map<Seq<char>, V>
    decreases entries.len(),
{
    if entries.len() == 0 {
        Map::empty()
    } else {
        entries_map(entries.drop_last()).insert(entries.last().0@, entries.last().1)
    }
}

/// Where the entry for each key of the map stands in the list.
pub proof fn lemma_entries_map<V>(entries: Seq<(String, V)>)
    requires
        entry_keys(entries).no_duplicates(),
    ensures
        forall|k: Seq<char>|
            #[trigger] entries_map(entries).contains_key(k) <==> entry_keys(entries).contains(k),
        forall|i: int|
            0 <= i < entries.len() ==> #[trigger] entries_map(entries)[entries[i].0@]
                == entries[i].1,
    decreases entries.len(),
{
    if entries.len() > 0 {
        let init = entries.drop_last();
        let keys = entry_keys(entries);
        let init_keys = entry_keys(init);
        let last: int = entries.len() - 1;
        let last_key = entries.last().0@;
        assert(init_keys =~= keys.drop_last());
        assert(keys =~= init_keys.push(last_key));
        lemma_entries_map(init);
        assert forall|k: Seq<char>|
            #[trigger] entries_map(entries).contains_key(k) <==> keys.contains(k) by {
            assert(entries_map(init).contains_key(k) <==> init_keys.contains(k));
            if keys.contains(k) {
                let j: int = choose|j: int| 0 <= j < keys.len() && keys[j] == k;
                if j < last {
                    assert(init_keys[j] == k);
                    assert(init_keys.contains(k));
                }
            }
            if init_keys.contains(k) {
                let j: int = choose|j: int| 0 <= j < init_keys.len() && init_keys[j] == k;
                assert(keys[j] == k);
            }
            if k == last_key {
                assert(keys[last] == k);
            }
        }
        assert forall|i: int| 0 <= i < entries.len() implies #[trigger] entries_map(
            entries,
        )[entries[i].0@] == entries[i].1 by {
            if i < last {
                assert(keys[i] != keys[last]);
                assert(init[i] == entries[i]);
                assert(entries_map(init)[init[i].0@] == init[i].1);
            }
        }
    }
}

/// A table from text keys to values.
pub struct KeyedTable<V> {
    entries: Vec<(String, V)>,
}

/// The table as a map from keys to values.
impl<V> View for KeyedTable<V> {
    type V = Map<Seq<char>, V>;

    closed spec fn view(&self) -> Map<Seq<char>, V> {
        entries_map(self.entries@)
    }
}

impl<V> KeyedTable<V> {
    /// No key stands twice in the table.
    #[verifier::type_invariant]
    spec fn keys_distinct(self) -> bool {
        entry_keys(self.entries@).no_duplicates()
    }

    /// An empty table.
    pub fn new() -> (res: Self)
        ensures
            res@ == Map::<Seq<char>, V>::empty(),
    {
        KeyedTable { entries: Vec::new() }
    }

    /// The number of keys in the table.
    pub fn len(&self) -> (res: usize)
        ensures
            res == self@.len(),
    {
        proof {
            use_type_invariant(self);
            self.lemma_len();
        }
        self.entries.len()
    }

    proof fn lemma_len(&self)
        requires
            entry_keys(self.entries@).no_duplicates(),
        ensures
            self@.len() == self.entries@.len(),
            self@.dom().finite(),
    {
        lemma_entries_map(self.entries@);
        let keys = entry_keys(self.entries@);
        assert(self@.dom() =~= keys.to_set());
        keys.unique_seq_to_set();
    }

    /// Where `key` stands in the table, if it does.
    fn position(&self, key: &str) -> (res: Option<usize>)
        ensures
            match res {
                Some(i) => i < self.entries@.len() && self.entries@[i as int].0@ == key@,
                None => !entry_keys(self.entries@).contains(key@),
            },
    {
        let n: usize = self.entries.len();
        let mut i: usize = 0;
        while i < n
            invariant
                n == self.entries@.len(),
                i <= n,
                forall|j: int| 0 <= j < i ==> self.entries@[j].0@ != key@,
            decreases n - i,
        {
            if crate::text::text_equal(self.entries[i].0.as_str(), key) {
                return Some(i);
            }
            i = i + 1;
        }
        assert forall|j: int| 0 <= j < entry_keys(self.entries@).len() implies entry_keys(
            self.entries@,
        )[j] != key@ by {
            assert(self.entries@[j].0@ != key@);
        }
        None
    }

    /// The value stored under `key`.
    pub fn get(&self, key: &str) -> (res: Option<&V>)
        ensures
            match res {
                Some(v) => self@.contains_key(key@) && self@[key@] == *v,
                None => !self@.contains_key(key@),
            },
    {
        proof {
            use_type_invariant(self);
            lemma_entries_map(self.entries@);
        }
        match self.position(key) {
            Some(i) => {
                proof {
                    assert(entry_keys(self.entries@)[i as int] == key@);
                    assert(entries_map(self.entries@)[self.entries@[i as int].0@]
                        == self.entries@[i as int].1);
                }
                Some(&self.entries[i].1)
            },
            None => None,
        }
    }

    /// Stores `value` under `key`, in place of what was stored there before.
    pub fn insert(&mut self, key: String, value: V)
        ensures
            final(self)@ == old(self)@.insert(key@, value),
    {
        proof {
            use_type_invariant(&*self);
            lemma_entries_map(self.entries@);
        }
        let ghost old_entries = self.entries@;
        match self.position(key.as_str()) {
            Some(i) => {
                let ghost k = key@;
                let mut entries: Vec<(String, V)> = Vec::new();
                std::mem::swap(&mut entries, &mut self.entries);
                entries.set(i, (key, value));
                let ghost new_entries = entries@;
                assert(entry_keys(new_entries) =~= entry_keys(old_entries));
                proof {
                    lemma_entries_map(new_entries);
                    let old_map = entries_map(old_entries);
                    let new_map = entries_map(new_entries);
                    assert(entry_keys(old_entries)[i as int] == k);
                    assert(old_map.contains_key(k));
                    assert forall|q: Seq<char>| #[trigger]
                        new_map.contains_key(q) <==> old_map.insert(k, value).contains_key(q) by {
                        assert(old_map.contains_key(q) <==> entry_keys(old_entries).contains(q));
                        assert(new_map.contains_key(q) <==> entry_keys(new_entries).contains(q));
                    }
                    assert forall|q: Seq<char>| #[trigger]
                        new_map.contains_key(q) implies new_map[q] == old_map.insert(k, value)[q] by {
                        assert(entry_keys(new_entries).contains(q));
                        let j: int = choose|j: int|
                            0 <= j < entry_keys(new_entries).len() && entry_keys(new_entries)[j]
                                == q;
                        assert(new_map[new_entries[j].0@] == new_entries[j].1);
                        if j != i {
                            assert(new_entries[j] == old_entries[j]);
                            assert(old_map[old_entries[j].0@] == old_entries[j].1);
                        }
                    }
                    assert(new_map =~= old_map.insert(k, value));
                }
                self.entries = entries;
            },
            None => {
                let ghost k = key@;
                let mut entries: Vec<(String, V)> = Vec::new();
                std::mem::swap(&mut entries, &mut self.entries);
                entries.push((key, value));
                proof {
                    assert(entries@.drop_last() =~= old_entries);
                    assert(entry_keys(entries@) =~= entry_keys(old_entries).push(k));
                    assert forall|a: int, b: int|
                        0 <= a < b < entry_keys(entries@).len() implies entry_keys(entries@)[a]
                        != entry_keys(entries@)[b] by {
                        if b == entry_keys(entries@).len() - 1 {
                            assert(entry_keys(old_entries)[a] == entry_keys(entries@)[a]);
                        }
                    }
                }
                self.entries = entries;
            },
        }
    }
}

/// A read gives back what the last write under its key wrote: once `insert`
/// stored `value` under `key`, `get` of `key` finds `value`, and every other key
/// finds what it found before.
pub proof fn read_after_write<V>(
    before: KeyedTable<V>,
    after: KeyedTable<V>,
    key: Seq<char>,
    value: V,
    other: Seq<char>,
)
    requires
        after@ == before@.insert(key, value),
    ensures
        after@.contains_key(key) && after@[key] == value,
        other != key ==> (after@.contains_key(other) == before@.contains_key(other)),
        other != key && before@.contains_key(other) ==> after@[other]
            == before@[other],
{
}

} // verus!
