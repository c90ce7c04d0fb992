//! A small map from text keys to values, kept as a list of distinct keys.
use vstd::prelude::*;
use crate::text::text_eq;

verus! {

/// Some entry of `entries` has key `k`.
pub open spec fn has_key<V>(entries: Seq<(String, V)>, k: Seq<char>) -> bool {
    exists|i: int| 0 <= i < entries.len() && #[trigger] entries[i].0@ == k
}

/// Keys of `entries` are pairwise distinct.
pub open spec fn keys_distinct<V>(entries: Seq<(String, V)>) -> bool {
    forall|i: int, j: int|
        0 <= i < entries.len() && 0 <= j < entries.len() && i != j
            ==> #[trigger] entries[i].0@ != #[trigger] entries[j].0@
}

/// The map that a list of entries stands for.
pub open spec fn entries_map<V>(entries: Seq<(String, V)>) -> Map<Seq<char>, V> {
    Map::new(
        |k: Seq<char>| has_key(entries, k),
        |k: Seq<char>| entries[choose|i: int| 0 <= i < entries.len() && #[trigger] entries[i].0@ == k].1,
    )
}

proof fn lemma_entries_map_at<V>(entries: Seq<(String, V)>, i: int)
    requires
        keys_distinct(entries),
        0 <= i < entries.len(),
    ensures
        entries_map(entries).contains_key(entries[i].0@),
        entries_map(entries)[entries[i].0@] == entries[i].1,
{
    let k = entries[i].0@;
    assert(has_key(entries, k));
    let j = choose|j: int| 0 <= j < entries.len() && #[trigger] entries[j].0@ == k;
    assert(j == i);
}

/// A map from strings to values; each key appears once.
pub struct KeyedList<V> {
    entries: Vec<(String, V)>,
}

impl<V> View for KeyedList<V> {
    type V = Map<Seq<char>, V>;

    closed spec fn view(&self) -> Map<Seq<char>, V> {
        entries_map(self.entries@)
    }
}

impl<V> KeyedList<V> {
    /// Each key appears once.
    pub closed spec fn wf(&self) -> bool {
        keys_distinct(self.entries@)
    }

    /// An empty map.
    pub fn new() -> (r: Self)
        ensures
            r.wf(),
            r@ == Map::<Seq<char>, V>::empty(),
    {
        let r = KeyedList { entries: Vec::new() };
        assert(r@ =~= Map::<Seq<char>, V>::empty());
        r
    }

    /// The position of `key`, if present.
    fn find(&self, key: &str) -> (r: Option<usize>)
        ensures
            match r {
                Some(i) => i < self.entries@.len() && self.entries@[i as int].0@ == key@,
                None => !has_key(self.entries@, key@),
            },
    {
        let mut i: usize = 0;
        while i < self.entries.len()
            invariant
                i <= self.entries@.len(),
                forall|j: int| 0 <= j < i ==> self.entries@[j].0@ != key@,
            decreases self.entries@.len() - i,
        {
            if text_eq(self.entries[i].0.as_str(), key) {
                return Some(i);
            }
            i = i + 1;
        }
        None
    }

    /// Number of keys.
    pub fn len(&self) -> (r: usize)
        requires
            self.wf(),
        ensures
            r == self@.dom().len(),
    {
        proof {
            lemma_dom_len(self.entries@);
        }
        self.entries.len()
    }

    /// The keys, in the order they were first inserted.
    pub fn keys(&self) -> (r: Vec<String>)
        requires
            self.wf(),
        ensures
            r@.len() == self@.dom().len(),
            forall|i: int| 0 <= i < r@.len() ==> self@.contains_key(#[trigger] r@[i]@),
            forall|k: Seq<char>| #[trigger] self@.contains_key(k) ==> exists|i: int| 0 <= i < r@.len() && r@[i]@ == k,
    {
        proof {
            lemma_dom_len(self.entries@);
        }
        let mut r: Vec<String> = Vec::new();
        let mut i: usize = 0;
        while i < self.entries.len()
            invariant
                i <= self.entries@.len(),
                r@.len() == i,
                forall|j: int| 0 <= j < i ==> #[trigger] r@[j]@ == self.entries@[j].0@,
            decreases self.entries@.len() - i,
        {
            r.push(self.entries[i].0.clone());
            i = i + 1;
        }
        proof {
            assert forall|j: int| 0 <= j < r@.len() implies self@.contains_key(#[trigger] r@[j]@) by {
                assert(has_key(self.entries@, self.entries@[j].0@));
            }
            assert forall|k: Seq<char>| #[trigger] self@.contains_key(k) implies exists|j: int| 0 <= j < r@.len() && r@[j]@ == k by {
                let j = choose|j: int| 0 <= j < self.entries@.len() && #[trigger] self.entries@[j].0@ == k;
                assert(r@[j]@ == k);
            }
        }
        r
    }

    /// Whether `key` is present.
    pub fn contains_key(&self, key: &str) -> (r: bool)
        ensures
            r == self@.contains_key(key@),
    {
        self.find(key).is_some()
    }

    /// The value under `key`, if present.
    pub fn get(&self, key: &str) -> (r: Option<&V>)
        requires
            self.wf(),
        ensures
            match r {
                Some(v) => self@.contains_key(key@) && *v == self@[key@],
                None => !self@.contains_key(key@),
            },
    {
        match self.find(key) {
            Some(i) => {
                proof {
                    lemma_entries_map_at(self.entries@, i as int);
                }
                Some(&self.entries[i].1)
            },
            None => None,
        }
    }

    /// Puts `value` under `key`, replacing what was there.
    pub fn insert(&mut self, key: String, value: V)
        requires
            old(self).wf(),
        ensures
            final(self).wf(),
            final(self)@ == old(self)@.insert(key@, value),
    {
        let ghost old_entries = self.entries@;
        let ghost k = key@;
        match self.find(key.as_str()) {
            Some(i) => {
                self.entries.set(i, (key, value));
                proof {
                    lemma_update(old_entries, i as int, self.entries@);
                }
            },
            None => {
                self.entries.push((key, value));
                proof {
                    lemma_push(old_entries, self.entries@);
                }
            },
        }
    }

    /// Removes `key` and hands back its value, if present.
    pub fn remove(&mut self, key: &str) -> (r: Option<V>)
        requires
            old(self).wf(),
        ensures
            final(self).wf(),
            final(self)@ == old(self)@.remove(key@),
            match r {
                Some(v) => old(self)@.contains_key(key@) && v == old(self)@[key@],
                None => !old(self)@.contains_key(key@),
            },
    {
        let ghost old_entries = self.entries@;
        match self.find(key) {
            Some(i) => {
                proof {
                    lemma_entries_map_at(old_entries, i as int);
                }
                let (_k, v) = self.entries.remove(i);
                proof {
                    lemma_remove(old_entries, i as int, self.entries@);
                }
                Some(v)
            },
            None => {
                proof {
                    assert(entries_map(old_entries).remove(key@) =~= entries_map(old_entries));
                }
                None
            },
        }
    }
}

proof fn lemma_dom_len<V>(entries: Seq<(String, V)>)
    requires
        keys_distinct(entries),
    ensures
        entries_map(entries).dom().len() == entries.len(),
{
    let keys = entries.map_values(|e: (String, V)| e.0@);
    assert forall|i: int, j: int| 0 <= i < keys.len() && 0 <= j < keys.len() && i != j implies keys[i] != keys[j] by {
        assert(entries[i].0@ != entries[j].0@);
    }
    keys.unique_seq_to_set();
    assert forall|k: Seq<char>| entries_map(entries).dom().contains(k) implies keys.to_set().contains(k) by {
        let i = choose|i: int| 0 <= i < entries.len() && #[trigger] entries[i].0@ == k;
        assert(keys[i] == k);
    }
    assert forall|k: Seq<char>| keys.to_set().contains(k) implies entries_map(entries).dom().contains(k) by {
        let i = choose|i: int| 0 <= i < keys.len() && keys[i] == k;
        assert(entries[i].0@ == k);
    }
    assert(entries_map(entries).dom() =~= keys.to_set());
}

proof fn lemma_update<V>(old_entries: Seq<(String, V)>, i: int, new_entries: Seq<(String, V)>)
    requires
        keys_distinct(old_entries),
        0 <= i < old_entries.len(),
        new_entries.len() == old_entries.len(),
        new_entries[i].0@ == old_entries[i].0@,
        forall|j: int| 0 <= j < old_entries.len() && j != i ==> new_entries[j] == old_entries[j],
    ensures
        keys_distinct(new_entries),
        entries_map(new_entries) == entries_map(old_entries).insert(new_entries[i].0@, new_entries[i].1),
{
    let k = new_entries[i].0@;
    assert forall|a: int, b: int|
        0 <= a < new_entries.len() && 0 <= b < new_entries.len() && a != b
            implies #[trigger] new_entries[a].0@ != #[trigger] new_entries[b].0@ by {
        assert(old_entries[a].0@ != old_entries[b].0@);
    }
    let nm = entries_map(new_entries);
    let om = entries_map(old_entries).insert(k, new_entries[i].1);
    assert forall|k2: Seq<char>| nm.contains_key(k2) <==> om.contains_key(k2) by {
        if has_key(new_entries, k2) {
            let j = choose|j: int| 0 <= j < new_entries.len() && #[trigger] new_entries[j].0@ == k2;
            assert(old_entries[j].0@ == k2);
        }
        if has_key(old_entries, k2) {
            let j = choose|j: int| 0 <= j < old_entries.len() && #[trigger] old_entries[j].0@ == k2;
            assert(new_entries[j].0@ == k2);
        }
        if k2 == k {
            assert(new_entries[i].0@ == k2);
        }
    }
    assert forall|k2: Seq<char>| nm.contains_key(k2) implies nm[k2] == om[k2] by {
        let j = choose|j: int| 0 <= j < new_entries.len() && #[trigger] new_entries[j].0@ == k2;
        lemma_entries_map_at(new_entries, j);
        if j != i {
            lemma_entries_map_at(old_entries, j);
        }
    }
    assert(nm =~= om);
}

proof fn lemma_push<V>(old_entries: Seq<(String, V)>, new_entries: Seq<(String, V)>)
    requires
        keys_distinct(old_entries),
        new_entries.len() == old_entries.len() + 1,
        !has_key(old_entries, new_entries.last().0@),
        forall|j: int| 0 <= j < old_entries.len() ==> new_entries[j] == old_entries[j],
    ensures
        keys_distinct(new_entries),
        entries_map(new_entries) == entries_map(old_entries).insert(new_entries.last().0@, new_entries.last().1),
{
    let n = old_entries.len() as int;
    let k = new_entries[n].0@;
    assert forall|a: int, b: int|
        0 <= a < new_entries.len() && 0 <= b < new_entries.len() && a != b
            implies #[trigger] new_entries[a].0@ != #[trigger] new_entries[b].0@ by {
        if a < n && b < n {
            assert(old_entries[a].0@ != old_entries[b].0@);
        } else if a < n {
            assert(new_entries[a] == old_entries[a]);
        } else {
            assert(new_entries[b] == old_entries[b]);
        }
    }
    let nm = entries_map(new_entries);
    let om = entries_map(old_entries).insert(k, new_entries[n].1);
    assert forall|k2: Seq<char>| nm.contains_key(k2) <==> om.contains_key(k2) by {
        if has_key(new_entries, k2) {
            let j = choose|j: int| 0 <= j < new_entries.len() && #[trigger] new_entries[j].0@ == k2;
            if j < n {
                assert(old_entries[j].0@ == k2);
            }
        }
        if has_key(old_entries, k2) {
            let j = choose|j: int| 0 <= j < old_entries.len() && #[trigger] old_entries[j].0@ == k2;
            assert(new_entries[j].0@ == k2);
        }
        if k2 == k {
            assert(new_entries[n].0@ == k2);
        }
    }
    assert forall|k2: Seq<char>| nm.contains_key(k2) implies nm[k2] == om[k2] by {
        let j = choose|j: int| 0 <= j < new_entries.len() && #[trigger] new_entries[j].0@ == k2;
        lemma_entries_map_at(new_entries, j);
        if j != n {
            lemma_entries_map_at(old_entries, j);
        }
    }
    assert(nm =~= om);
}

proof fn lemma_remove<V>(old_entries: Seq<(String, V)>, i: int, new_entries: Seq<(String, V)>)
    requires
        keys_distinct(old_entries),
        0 <= i < old_entries.len(),
        new_entries == old_entries.remove(i),
    ensures
        keys_distinct(new_entries),
        entries_map(new_entries) == entries_map(old_entries).remove(old_entries[i].0@),
{
    let k = old_entries[i].0@;
    assert forall|a: int, b: int|
        0 <= a < new_entries.len() && 0 <= b < new_entries.len() && a != b
            implies #[trigger] new_entries[a].0@ != #[trigger] new_entries[b].0@ by {
        let a2 = if a < i { a } else { a + 1 };
        let b2 = if b < i { b } else { b + 1 };
        assert(old_entries[a2].0@ != old_entries[b2].0@);
    }
    let nm = entries_map(new_entries);
    let om = entries_map(old_entries).remove(k);
    assert forall|k2: Seq<char>| nm.contains_key(k2) <==> om.contains_key(k2) by {
        if has_key(new_entries, k2) {
            let j = choose|j: int| 0 <= j < new_entries.len() && #[trigger] new_entries[j].0@ == k2;
            let j2 = if j < i { j } else { j + 1 };
            assert(old_entries[j2].0@ == k2);
            assert(j2 != i);
        }
        if has_key(old_entries, k2) && k2 != k {
            let j = choose|j: int| 0 <= j < old_entries.len() && #[trigger] old_entries[j].0@ == k2;
            let j2 = if j < i { j } else { j - 1 };
            assert(new_entries[j2].0@ == k2);
        }
    }
    assert forall|k2: Seq<char>| nm.contains_key(k2) implies nm[k2] == om[k2] by {
        let j = choose|j: int| 0 <= j < new_entries.len() && #[trigger] new_entries[j].0@ == k2;
        let j2 = if j < i { j } else { j + 1 };
        lemma_entries_map_at(new_entries, j);
        lemma_entries_map_at(old_entries, j2);
    }
    assert(nm =~= om);
}

} // verus!
