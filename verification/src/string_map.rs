//! A map keyed by text.

use vstd::prelude::*;

verus! {

/// A map from text to values, held as a list of entries with distinct keys.
pub struct StringMap<V> {
    entries: Vec<(String, V)>,
}

spec fn entry_keys<V>(entries: Seq<(String, V)>) -> Seq<Seq<char>> {
    entries.map_values(|e: (String, V)| e.0@)
}

spec fn position_of<V>(entries: Seq<(String, V)>, key: Seq<char>) -> int {
    choose|i: int| 0 <= i < entries.len() && (#[trigger] entries[i]).0@ == key
}

spec fn entry_map<V>(entries: Seq<(String, V)>) -> Map<Seq<char>, V> {
    Map::new(
        |key: Seq<char>| exists|i: int| 0 <= i < entries.len() && (#[trigger] entries[i]).0@ == key,
        |key: Seq<char>| entries[position_of(entries, key)].1,
    )
}

spec fn distinct_keys<V>(entries: Seq<(String, V)>) -> bool {
    forall|i: int, j: int|
        0 <= i < j < entries.len() ==> (#[trigger] entries[i]).0@ != (#[trigger] entries[j]).0@
}

proof fn lemma_entry<V>(entries: Seq<(String, V)>, i: int)
    requires
        distinct_keys(entries),
        0 <= i < entries.len(),
    ensures
        entry_map(entries).dom().contains(entries[i].0@),
        entry_map(entries)[entries[i].0@] == entries[i].1,
{
    let key = entries[i].0@;
    let p = position_of(entries, key);
    assert(0 <= p < entries.len() && entries[p].0@ == key);
    assert(p == i);
}

proof fn lemma_absent<V>(entries: Seq<(String, V)>, key: Seq<char>)
    requires
        forall|i: int| 0 <= i < entries.len() ==> (#[trigger] entries[i]).0@ != key,
    ensures
        !entry_map(entries).dom().contains(key),
{
}

impl<V> View for StringMap<V> {
    type V = Map<Seq<char>, V>;

    closed spec fn view(&self) -> Map<Seq<char>, V> {
        entry_map(self.entries@)
    }
}

impl<V> StringMap<V> {
    /// No key occurs twice.
    pub closed spec fn wf(&self) -> bool {
        distinct_keys(self.entries@)
    }

    /// The keys, in the order in which the entries are held.
    pub closed spec fn keys(&self) -> Seq<Seq<char>> {
        entry_keys(self.entries@)
    }

    /// The keys held are exactly the keys of the map, each once.
    pub proof fn lemma_keys(&self)
        requires
            self.wf(),
        ensures
            self.keys().no_duplicates(),
            forall|key: Seq<char>| #[trigger]
                self@.dom().contains(key) <==> self.keys().contains(key),
    {
        assert forall|key: Seq<char>| #[trigger] self@.dom().contains(key) implies self.keys().contains(
            key,
        ) by {
            let p = position_of(self.entries@, key);
            assert(self.keys()[p] == key);
        }
        assert forall|key: Seq<char>| self.keys().contains(key) implies #[trigger] self@.dom().contains(
            key,
        ) by {
            let p = choose|p: int| 0 <= p < self.keys().len() && self.keys()[p] == key;
            lemma_entry(self.entries@, p);
        }
        assert(self.keys().no_duplicates()) by {
            assert forall|i: int, j: int|
                0 <= i < self.keys().len() && 0 <= j < self.keys().len() && i != j implies self.keys()[i]
                != self.keys()[j] by {
                if i < j {
                    assert(self.entries@[i].0@ != self.entries@[j].0@);
                } else {
                    assert(self.entries@[j].0@ != self.entries@[i].0@);
                }
            }
        }
    }

    pub fn new() -> (map: Self)
        ensures
            map.wf(),
            map@ == Map::<Seq<char>, V>::empty(),
            map.keys() == Seq::<Seq<char>>::empty(),
    {
        let map = StringMap { entries: Vec::new() };
        assert(map@ =~= Map::<Seq<char>, V>::empty());
        assert(map.keys() =~= Seq::<Seq<char>>::empty());
        map
    }

    /// The number of entries.
    pub fn len(&self) -> (n: usize)
        ensures
            n == self.keys().len(),
    {
        self.entries.len()
    }

    fn find(&self, key: &str) -> (found: Option<usize>)
        ensures
            match found {
                Some(i) => i < self.entries@.len() && self.entries@[i as int].0@ == key@,
                None => forall|i: int|
                    0 <= i < self.entries@.len() ==> (#[trigger] self.entries@[i]).0@ != key@,
            },
    {
        let wanted = key.to_owned();
        let mut i: usize = 0;
        while i < self.entries.len()
            invariant
                i <= self.entries@.len(),
                wanted@ == key@,
                forall|j: int| 0 <= j < i ==> (#[trigger] self.entries@[j]).0@ != key@,
            decreases self.entries.len() - i,
        {
            if self.entries[i].0 == wanted {
                return Some(i);
            }
            i = i + 1;
        }
        None
    }

    /// The value at a key.
    pub fn get(&self, key: &str) -> (value: Option<&V>)
        requires
            self.wf(),
        ensures
            match value {
                Some(v) => self@.dom().contains(key@) && self@[key@] == *v,
                None => !self@.dom().contains(key@),
            },
    {
        match self.find(key) {
            Some(i) => {
                proof {
                    lemma_entry(self.entries@, i as int);
                }
                Some(&self.entries[i].1)
            },
            None => {
                proof {
                    lemma_absent(self.entries@, key@);
                }
                None
            },
        }
    }

    /// Whether a key is present.
    pub fn contains_key(&self, key: &str) -> (present: bool)
        requires
            self.wf(),
        ensures
            present == self@.dom().contains(key@),
    {
        self.get(key).is_some()
    }

    /// The entry held at a place of the list of keys.
    pub fn entry_at(&self, i: usize) -> (entry: (&String, &V))
        requires
            self.wf(),
            i < self.keys().len(),
        ensures
            entry.0@ == self.keys()[i as int],
            self@.dom().contains(entry.0@),
            self@[entry.0@] == *entry.1,
    {
        proof {
            lemma_entry(self.entries@, i as int);
        }
        (&self.entries[i].0, &self.entries[i].1)
    }

    /// Puts a value in the place of the one at a place of the list of keys.
    pub fn replace_at(&mut self, i: usize, value: V) -> (replaced: V)
        requires
            old(self).wf(),
            i < old(self).keys().len(),
        ensures
            final(self).wf(),
            final(self).keys() == old(self).keys(),
            final(self)@ == old(self)@.insert(old(self).keys()[i as int], value),
            replaced == old(self)@[old(self).keys()[i as int]],
    {
        let ghost before = self.entries@;
        let ghost new_value = value;
        proof {
            lemma_entry(before, i as int);
        }
        let mut value = value;
        std::mem::swap(&mut self.entries[i].1, &mut value);
        proof {
            let after = self.entries@;
            let key = before[i as int].0@;
            assert(after =~= before.update(i as int, (before[i as int].0, new_value)));
            assert(self.keys() =~= old(self).keys());
            assert(distinct_keys(after)) by {
                assert forall|a: int, b: int| 0 <= a < b < after.len() implies (#[trigger] after[a]).0@
                    != (#[trigger] after[b]).0@ by {
                    assert(before[a].0@ != before[b].0@);
                }
            }
            let left = entry_map(after);
            let right = entry_map(before).insert(key, new_value);
            assert forall|k: Seq<char>| left.dom().contains(k) <==> right.dom().contains(k) by {
                if left.dom().contains(k) {
                    let p = position_of(after, k);
                    assert(before[p].0@ == k);
                }
                if right.dom().contains(k) {
                    if k == key {
                        assert(after[i as int].0@ == k);
                    } else {
                        let p = position_of(before, k);
                        assert(after[p].0@ == k);
                    }
                }
            }
            assert forall|k: Seq<char>| left.dom().contains(k) implies left[k] == right[k] by {
                let p = position_of(after, k);
                lemma_entry(after, p);
                lemma_entry(before, p);
            }
            assert(left =~= right);
        }
        value
    }

    /// Takes the entry at a key out of the map.
    pub fn remove(&mut self, key: &str) -> (value: Option<V>)
        requires
            old(self).wf(),
        ensures
            final(self).wf(),
            final(self)@ == old(self)@.remove(key@),
            match value {
                Some(v) => old(self)@.dom().contains(key@) && old(self)@[key@] == v,
                None => !old(self)@.dom().contains(key@),
            },
    {
        match self.find(key) {
            Some(i) => {
                let ghost before = self.entries@;
                proof {
                    lemma_entry(before, i as int);
                }
                let removed = self.entries.remove(i);
                proof {
                    lemma_removed(before, i as int);
                }
                Some(removed.1)
            },
            None => {
                proof {
                    lemma_absent(self.entries@, key@);
                    assert(self@.remove(key@) =~= self@);
                }
                None
            },
        }
    }

    /// Puts a value at a key, replacing the one that was there.
    pub fn insert(&mut self, key: &str, value: V) -> (replaced: Option<V>)
        requires
            old(self).wf(),
        ensures
            final(self).wf(),
            final(self)@ == old(self)@.insert(key@, value),
            match replaced {
                Some(v) => old(self)@.dom().contains(key@) && old(self)@[key@] == v,
                None => !old(self)@.dom().contains(key@),
            },
    {
        let replaced = self.remove(key);
        let ghost rest = self.entries@;
        assert(forall|i: int|
            0 <= i < rest.len() ==> (#[trigger] rest[i]).0@ != key@) by {
            assert forall|i: int| 0 <= i < rest.len() implies (#[trigger] rest[i]).0@ != key@ by {
                lemma_entry(rest, i);
            }
        }
        self.entries.push((key.to_owned(), value));
        proof {
            lemma_pushed(rest, self.entries@.last());
            assert(self.entries@ =~= rest.push(self.entries@.last()));
            assert(old(self)@.remove(key@).insert(key@, value) =~= old(self)@.insert(key@, value));
        }
        replaced
    }
}

proof fn lemma_removed<V>(entries: Seq<(String, V)>, i: int)
    requires
        distinct_keys(entries),
        0 <= i < entries.len(),
    ensures
        distinct_keys(entries.remove(i)),
        entry_map(entries.remove(i)) == entry_map(entries).remove(entries[i].0@),
{
    let rest = entries.remove(i);
    let key = entries[i].0@;
    assert forall|a: int, b: int| 0 <= a < b < rest.len() implies (#[trigger] rest[a]).0@ != (
    #[trigger] rest[b]).0@ by {
        let a0 = if a < i { a } else { a + 1 };
        let b0 = if b < i { b } else { b + 1 };
        assert(entries[a0].0@ != entries[b0].0@);
    }
    let left = entry_map(rest);
    let right = entry_map(entries).remove(key);
    assert forall|k: Seq<char>| left.dom().contains(k) <==> right.dom().contains(k) by {
        if left.dom().contains(k) {
            let p = position_of(rest, k);
            let p0 = if p < i { p } else { p + 1 };
            assert(entries[p0].0@ == k);
            assert(entries[p0].0@ != key) by {
                if p0 < i {
                    assert(entries[p0].0@ != entries[i].0@);
                } else {
                    assert(entries[i].0@ != entries[p0].0@);
                }
            }
        }
        if right.dom().contains(k) {
            let p0 = position_of(entries, k);
            let p = if p0 < i { p0 } else { p0 - 1 };
            assert(p0 != i);
            assert(rest[p].0@ == k);
        }
    }
    assert forall|k: Seq<char>| left.dom().contains(k) implies left[k] == right[k] by {
        let p = position_of(rest, k);
        let p0 = if p < i { p } else { p + 1 };
        assert(rest[p] == entries[p0]);
        lemma_entry(entries, p0);
    }
    assert(left =~= right);
}

proof fn lemma_pushed<V>(entries: Seq<(String, V)>, entry: (String, V))
    requires
        distinct_keys(entries),
        forall|i: int| 0 <= i < entries.len() ==> (#[trigger] entries[i]).0@ != entry.0@,
    ensures
        distinct_keys(entries.push(entry)),
        entry_map(entries.push(entry)) == entry_map(entries).insert(entry.0@, entry.1),
{
    let more = entries.push(entry);
    let left = entry_map(more);
    let right = entry_map(entries).insert(entry.0@, entry.1);
    assert forall|k: Seq<char>| left.dom().contains(k) <==> right.dom().contains(k) by {
        if left.dom().contains(k) {
            let p = position_of(more, k);
            if p < entries.len() {
                assert(entries[p].0@ == k);
            }
        }
        if right.dom().contains(k) {
            if k == entry.0@ {
                assert(more[entries.len() as int].0@ == k);
            } else {
                let p = position_of(entries, k);
                assert(more[p].0@ == k);
            }
        }
    }
    assert forall|k: Seq<char>| left.dom().contains(k) implies left[k] == right[k] by {
        let p = position_of(more, k);
        if p < entries.len() {
            lemma_entry(entries, p);
        }
    }
    assert(left =~= right);
}

} // verus!
