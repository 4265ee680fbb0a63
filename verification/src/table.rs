//! A small string-keyed table with a mathematical map as its view.
//!
//! The snapshot store holds few entries (one per light fixture), so the
//! table is a vector of key/value pairs with pairwise distinct keys. Keeping
//! the entries as a sequence also gives the snapshot encoding a fixed,
//! deterministic order to walk.

use vstd::prelude::*;

verus! {

/// No two entries carry the same key.
pub open spec fn keys_unique<V>(s: Seq<(String, V)>) -> bool {
    forall|i: int, j: int| 0 <= i < j < s.len() ==> s[i].0@ != s[j].0@
}

/// The mapping denoted by a sequence of key/value entries; a later entry
/// overrides an earlier one with the same key.
pub open spec fn entries_as_map<V>(s: Seq<(String, V)>) -> Map<Seq<char>, V>
    decreases s.len(),
{
    if s.len() == 0 {
        Map::empty()
    } else {
        entries_as_map(s.drop_last()).insert(s.last().0@, s.last().1)
    }
}

/// A key is in the map exactly when some entry carries it.
pub proof fn lemma_entries_map_domain<V>(s: Seq<(String, V)>, k: Seq<char>)
    ensures
        entries_as_map(s).contains_key(k) <==> (exists|i: int|
            0 <= i < s.len() && s[i].0@ == k),
    decreases s.len(),
{
    if s.len() > 0 {
        lemma_entries_map_domain(s.drop_last(), k);
        if s.last().0@ == k {
            assert(s[s.len() - 1].0@ == k);
        } else {
            if entries_as_map(s).contains_key(k) {
                let i = choose|i: int| 0 <= i < s.drop_last().len() && s.drop_last()[i].0@ == k;
                assert(s[i].0@ == k);
            }
            if exists|i: int| 0 <= i < s.len() && s[i].0@ == k {
                let i = choose|i: int| 0 <= i < s.len() && s[i].0@ == k;
                assert(s.drop_last()[i].0@ == k);
            }
        }
    }
}

/// With distinct keys, the entry at any index gives the map's value at its key.
pub proof fn lemma_entries_map_index<V>(s: Seq<(String, V)>, i: int)
    requires
        keys_unique(s),
        0 <= i < s.len(),
    ensures
        entries_as_map(s).contains_key(s[i].0@),
        entries_as_map(s)[s[i].0@] == s[i].1,
    decreases s.len(),
{
    if i < s.len() - 1 {
        assert(keys_unique(s.drop_last()));
        lemma_entries_map_index(s.drop_last(), i);
        assert(s[i].0@ != s.last().0@);
    }
}

/// Appending an entry with a fresh key inserts it into the map.
pub proof fn lemma_entries_map_push<V>(s: Seq<(String, V)>, key: String, value: V)
    requires
        keys_unique(s),
        forall|i: int| 0 <= i < s.len() ==> s[i].0@ != key@,
    ensures
        keys_unique(s.push((key, value))),
        entries_as_map(s.push((key, value))) == entries_as_map(s).insert(key@, value),
{
    let t = s.push((key, value));
    assert(t.drop_last() =~= s);
    assert forall|i: int, j: int| 0 <= i < j < t.len() implies t[i].0@ != t[j].0@ by {
        if j < s.len() {
            assert(s[i].0@ != s[j].0@);
        } else {
            assert(t[i] == s[i]);
        }
    }
}

/// Removing the entry that carries a key removes that key from the map.
pub proof fn lemma_entries_map_remove<V>(s: Seq<(String, V)>, i: int)
    requires
        keys_unique(s),
        0 <= i < s.len(),
    ensures
        keys_unique(s.remove(i)),
        entries_as_map(s.remove(i)) == entries_as_map(s).remove(s[i].0@),
    decreases s.len(),
{
    let r = s.remove(i);
    assert forall|a: int, b: int| 0 <= a < b < r.len() implies r[a].0@ != r[b].0@ by {
        let a2: int = if a < i { a } else { a + 1 };
        let b2: int = if b < i { b } else { b + 1 };
        assert(r[a] == s[a2] && r[b] == s[b2]);
    }
    if i == s.len() - 1 {
        assert(r =~= s.drop_last());
        lemma_entries_map_domain(s.drop_last(), s[i].0@);
        assert(forall|j: int| 0 <= j < s.drop_last().len() ==> s.drop_last()[j] == s[j]);
        assert(!entries_as_map(s.drop_last()).contains_key(s[i].0@));
        assert(entries_as_map(s.drop_last()).insert(s[i].0@, s[i].1).remove(s[i].0@)
            =~= entries_as_map(s.drop_last()));
    } else {
        assert(keys_unique(s.drop_last()));
        lemma_entries_map_remove(s.drop_last(), i);
        assert(r.drop_last() =~= s.drop_last().remove(i));
        assert(r.last() == s.last());
        assert(s[i].0@ != s.last().0@);
        assert(entries_as_map(s.drop_last()).remove(s[i].0@).insert(s.last().0@, s.last().1)
            =~= entries_as_map(s.drop_last()).insert(s.last().0@, s.last().1).remove(s[i].0@));
    }
}

/// The entry sequence after storing `value` under `key`: the entry carrying
/// `key`, if any, is dropped, and the new pair goes to the back.
pub open spec fn spec_upsert<V>(s: Seq<(String, V)>, key: String, value: V) -> Seq<(String, V)> {
    if exists|i: int| 0 <= i < s.len() && s[i].0@ == key@ {
        let i = choose|i: int| 0 <= i < s.len() && s[i].0@ == key@;
        s.remove(i).push((key, value))
    } else {
        s.push((key, value))
    }
}

/// A string-keyed table whose view is the finite map from key views to values.
pub struct Table<V> {
    entries: Vec<(String, V)>,
}

impl<V> View for Table<V> {
    type V = Map<Seq<char>, V>;

    closed spec fn view(&self) -> Map<Seq<char>, V> {
        entries_as_map(self.entries@)
    }
}

impl<V> Table<V> {
    /// The entries in storage order.
    pub closed spec fn entry_seq(&self) -> Seq<(String, V)> {
        self.entries@
    }

    /// The keys of the entries are pairwise distinct.
    pub closed spec fn wf(&self) -> bool {
        keys_unique(self.entries@)
    }

    pub fn new() -> (t: Table<V>)
        ensures
            t.wf(),
            t@ == Map::<Seq<char>, V>::empty(),
            t.entry_seq() == Seq::<(String, V)>::empty(),
    {
        Table { entries: Vec::new() }
    }

    /// The entries, for walking the table in its storage order.
    pub fn entries(&self) -> (r: &Vec<(String, V)>)
        ensures
            r@ == self.entry_seq(),
    {
        &self.entries
    }

    /// The index of the entry carrying `key`, if any.
    fn find(&self, key: &String) -> (r: Option<usize>)
        ensures
            match r {
                Some(i) => i < self.entries@.len() && self.entries@[i as int].0@ == key@,
                None => forall|i: int|
                    0 <= i < self.entries@.len() ==> self.entries@[i].0@ != key@,
            },
    {
        let n = self.entries.len();
        let mut i: usize = 0;
        while i < n
            invariant
                i <= n,
                n == self.entries@.len(),
                forall|j: int| 0 <= j < i ==> self.entries@[j].0@ != key@,
            decreases n - i,
        {
            if self.entries[i].0 == *key {
                return Some(i);
            }
            i += 1;
        }
        None
    }

    /// The value stored under `key`, if any.
    pub fn get(&self, key: &String) -> (r: Option<&V>)
        requires
            self.wf(),
        ensures
            match r {
                Some(v) => self@.contains_key(key@) && *v == self@[key@],
                None => !self@.contains_key(key@),
            },
    {
        match self.find(key) {
            Some(i) => {
                proof {
                    lemma_entries_map_index(self.entries@, i as int);
                    assert(self.entries@[i as int].0@ == key@);
                    assert(self@ == entries_as_map(self.entries@));
                    assert(self@[key@] == self.entries@[i as int].1);
                }
                Some(&self.entries[i].1)
            },
            None => {
                proof {
                    lemma_entries_map_domain(self.entries@, key@);
                }
                None
            },
        }
    }

    /// Stores `value` under `key`, replacing any previous value.
    pub fn insert(&mut self, key: String, value: V)
        requires
            old(self).wf(),
        ensures
            final(self).wf(),
            final(self)@ == old(self)@.insert(key@, value),
            final(self).entry_seq() == spec_upsert(old(self).entry_seq(), key, value),
    {
        let found = self.find(&key);
        match found {
            Some(i) => {
                proof {
                    let s = self.entries@;
                    let w = choose|j: int| 0 <= j < s.len() && s[j].0@ == key@;
                    assert(w == i as int);
                    lemma_entries_map_remove(s, i as int);
                }
                self.entries.remove(i);
                proof {
                    let t = self.entries@;
                    assert forall|j: int| 0 <= j < t.len() implies t[j].0@ != key@ by {
                        let s0 = old(self).entry_seq();
                        let j2: int = if j < i as int { j } else { j + 1 };
                        assert(t[j] == s0[j2]);
                    }
                    lemma_entries_map_push(t, key, value);
                    assert(entries_as_map(t).insert(key@, value) =~= old(self)@.insert(key@, value));
                }
                self.entries.push((key, value));
            },
            None => {
                proof {
                    lemma_entries_map_push(self.entries@, key, value);
                }
                self.entries.push((key, value));
            },
        }
    }
}

} // verus!
