//! A finite map keyed by strings.

use vstd::prelude::*;

verus! {

/// One key with its value.
pub struct Entry<V> {
    pub key: String,
    pub value: V,
}

/// No key occurs twice in the list.
pub open spec fn distinct_keys<V>(list: Seq<Entry<V>>) -> bool {
    forall|i: int, j: int| 0 <= i < j < list.len() ==> list[i].key@ != list[j].key@
}

/// Some entry of the list has the key.
pub open spec fn has_key<V>(list: Seq<Entry<V>>, key: Seq<char>) -> bool {
    exists|i: int| 0 <= i < list.len() && #[trigger] list[i].key@ == key
}

/// A position at which the key stands.
pub open spec fn slot<V>(list: Seq<Entry<V>>, key: Seq<char>) -> int {
    choose|i: int| 0 <= i < list.len() && #[trigger] list[i].key@ == key
}

/// The finite map that a list of entries stands for.
pub open spec fn as_map<V>(list: Seq<Entry<V>>) -> Map<Seq<char>, V> {
    Map::new(|key: Seq<char>| has_key(list, key), |key: Seq<char>| list[slot(list, key)].value)
}

/// In a list without repeated keys every entry is the one its key maps to.
pub proof fn lemma_entry_in_map<V>(list: Seq<Entry<V>>, i: int)
    requires
        distinct_keys(list),
        0 <= i < list.len(),
    ensures
        as_map(list).contains_key(list[i].key@),
        as_map(list)[list[i].key@] == list[i].value,
        slot(list, list[i].key@) == i,
{
    let key = list[i].key@;
    assert(has_key(list, key));
    let j = slot(list, key);
    assert(0 <= j < list.len() && list[j].key@ == key);
    if j < i {
        assert(list[j].key@ != list[i].key@);
    } else if i < j {
        assert(list[i].key@ != list[j].key@);
    }
}

/// Appending an entry under a new key inserts it into the map.
pub proof fn lemma_push_fresh<V>(list: Seq<Entry<V>>, entry: Entry<V>)
    requires
        distinct_keys(list),
        !has_key(list, entry.key@),
    ensures
        distinct_keys(list.push(entry)),
        as_map(list.push(entry)) == as_map(list).insert(entry.key@, entry.value),
{
    let grown = list.push(entry);
    assert forall|i: int, j: int| 0 <= i < j < grown.len() implies grown[i].key@ != grown[j].key@ by {
        if j == list.len() {
            assert(list[i].key@ == grown[i].key@);
        }
    }
    assert forall|key: Seq<char>| has_key(grown, key) <==> (key == entry.key@ || has_key(
        list,
        key,
    )) by {
        if has_key(grown, key) {
            let i = slot(grown, key);
            if i < list.len() {
                assert(list[i].key@ == key);
            }
        }
        if has_key(list, key) {
            let i = slot(list, key);
            assert(grown[i].key@ == key);
        }
        if key == entry.key@ {
            assert(grown[list.len() as int].key@ == key);
        }
    }
    assert forall|key: Seq<char>| has_key(grown, key) implies #[trigger] as_map(grown)[key]
        == as_map(list).insert(entry.key@, entry.value)[key] by {
        let i = slot(grown, key);
        lemma_entry_in_map(grown, i);
        if i < list.len() {
            assert(list[i].key@ == key);
            lemma_entry_in_map(list, i);
        }
    }
    assert(as_map(grown) =~= as_map(list).insert(entry.key@, entry.value));
}

/// Replacing the value at a position updates the map at that key.
pub proof fn lemma_update<V>(list: Seq<Entry<V>>, i: int, entry: Entry<V>)
    requires
        distinct_keys(list),
        0 <= i < list.len(),
        entry.key@ == list[i].key@,
    ensures
        distinct_keys(list.update(i, entry)),
        as_map(list.update(i, entry)) == as_map(list).insert(entry.key@, entry.value),
{
    let changed = list.update(i, entry);
    assert forall|a: int, b: int| 0 <= a < b < changed.len() implies changed[a].key@
        != changed[b].key@ by {
        assert(changed[a].key@ == list[a].key@);
        assert(changed[b].key@ == list[b].key@);
    }
    assert forall|key: Seq<char>| has_key(changed, key) <==> has_key(list, key) by {
        if has_key(changed, key) {
            let a = slot(changed, key);
            assert(list[a].key@ == key);
        }
        if has_key(list, key) {
            let a = slot(list, key);
            assert(changed[a].key@ == key);
        }
    }
    lemma_entry_in_map(list, i);
    assert forall|key: Seq<char>| has_key(changed, key) implies #[trigger] as_map(changed)[key]
        == as_map(list).insert(entry.key@, entry.value)[key] by {
        let a = slot(changed, key);
        lemma_entry_in_map(changed, a);
        assert(list[a].key@ == key);
        lemma_entry_in_map(list, a);
    }
    assert(as_map(changed) =~= as_map(list).insert(entry.key@, entry.value));
}

/// Taking the entry at a position out removes its key from the map.
pub proof fn lemma_remove<V>(list: Seq<Entry<V>>, i: int)
    requires
        distinct_keys(list),
        0 <= i < list.len(),
    ensures
        distinct_keys(list.remove(i)),
        as_map(list.remove(i)) == as_map(list).remove(list[i].key@),
{
    let rest = list.remove(i);
    assert forall|a: int, b: int| 0 <= a < b < rest.len() implies rest[a].key@ != rest[b].key@ by {
        let a0 = if a < i { a } else { a + 1 };
        let b0 = if b < i { b } else { b + 1 };
        assert(rest[a] == list[a0]);
        assert(rest[b] == list[b0]);
    }
    assert forall|key: Seq<char>| has_key(rest, key) <==> (key != list[i].key@ && has_key(
        list,
        key,
    )) by {
        if has_key(rest, key) {
            let a = slot(rest, key);
            let a0 = if a < i { a } else { a + 1 };
            assert(rest[a] == list[a0]);
            assert(list[a0].key@ == key);
            if a0 < i {
                assert(list[a0].key@ != list[i].key@);
            } else {
                assert(list[i].key@ != list[a0].key@);
            }
        }
        if key != list[i].key@ && has_key(list, key) {
            let a0 = slot(list, key);
            let a = if a0 < i { a0 } else { a0 - 1 };
            assert(rest[a] == list[a0]);
            assert(rest[a].key@ == key);
        }
    }
    assert forall|key: Seq<char>| has_key(rest, key) implies #[trigger] as_map(rest)[key] == as_map(
        list,
    ).remove(list[i].key@)[key] by {
        let a = slot(rest, key);
        lemma_entry_in_map(rest, a);
        let a0 = if a < i { a } else { a + 1 };
        assert(rest[a] == list[a0]);
        lemma_entry_in_map(list, a0);
    }
    assert(as_map(rest) =~= as_map(list).remove(list[i].key@));
}

/// The position of a key in a list of entries, if it is there.
pub fn position<V>(list: &Vec<Entry<V>>, key: &str) -> (found: Option<usize>)
    ensures
        match found {
            Some(i) => i < list.len() && list[i as int].key@ == key@,
            None => !has_key(list@, key@),
        },
{
    let mut i: usize = 0;
    while i < list.len()
        invariant
            i <= list.len(),
            forall|j: int| 0 <= j < i ==> list[j].key@ != key@,
        decreases list.len() - i,
    {
        if list[i].key.as_str().eq(key) {
            return Some(i);
        }
        i += 1;
    }
    None
}

/// A finite map keyed by strings, kept as a list in which no key occurs twice.
pub struct Keyed<V> {
    entries: Vec<Entry<V>>,
}

impl<V> View for Keyed<V> {
    type V = Map<Seq<char>, V>;

    closed spec fn view(&self) -> Map<Seq<char>, V> {
        as_map(self.entries@)
    }
}

impl<V> Keyed<V> {
    #[verifier::type_invariant]
    spec fn no_key_twice(self) -> bool {
        distinct_keys(self.entries@)
    }

    /// The empty map.
    pub fn new() -> (table: Self)
        ensures
            table@ == Map::<Seq<char>, V>::empty(),
    {
        Keyed { entries: Vec::new() }
    }

    /// The number of keys.
    pub fn len(&self) -> (n: usize)
        ensures
            n == self@.len(),
            self@.dom().finite(),
    {
        proof {
            use_type_invariant(self);
            lemma_map_size(self.entries@);
        }
        self.entries.len()
    }

    /// Whether the map holds `key`.
    pub fn contains_key(&self, key: &str) -> (found: bool)
        ensures
            found == self@.contains_key(key@),
    {
        position(&self.entries, key).is_some()
    }

    /// The value under `key`, where there is one.
    pub fn get(&self, key: &str) -> (found: Option<&V>)
        ensures
            match found {
                Some(value) => self@.contains_key(key@) && self@[key@] == *value,
                None => !self@.contains_key(key@),
            },
    {
        match position(&self.entries, key) {
            Some(i) => {
                proof {
                    use_type_invariant(self);
                    lemma_entry_in_map(self.entries@, i as int);
                }
                Some(&self.entries[i].value)
            },
            None => None,
        }
    }

    /// Puts `value` under `key`, in place of what stood there.
    pub fn insert(&mut self, key: &str, value: V)
        ensures
            final(self)@ == old(self)@.insert(key@, value),
    {
        proof {
            use_type_invariant(&*self);
        }
        let mut entries: Vec<Entry<V>> = Vec::new();
        core::mem::swap(&mut self.entries, &mut entries);
        let entry = Entry { key: key.to_owned(), value };
        match position(&entries, key) {
            Some(i) => {
                proof {
                    lemma_update(entries@, i as int, entry);
                }
                entries.set(i, entry);
            },
            None => {
                proof {
                    lemma_push_fresh(entries@, entry);
                }
                entries.push(entry);
            },
        }
        self.entries = entries;
    }

    /// Takes the value under `key` out of the map.
    pub fn remove(&mut self, key: &str) -> (taken: Option<V>)
        ensures
            final(self)@ == old(self)@.remove(key@),
            match taken {
                Some(value) => old(self)@.contains_key(key@) && old(self)@[key@] == value,
                None => !old(self)@.contains_key(key@),
            },
    {
        proof {
            use_type_invariant(&*self);
        }
        let mut entries: Vec<Entry<V>> = Vec::new();
        core::mem::swap(&mut self.entries, &mut entries);
        let taken = match position(&entries, key) {
            Some(i) => {
                proof {
                    lemma_remove(entries@, i as int);
                    lemma_entry_in_map(entries@, i as int);
                }
                let entry = entries.remove(i);
                Some(entry.value)
            },
            None => None,
        };
        self.entries = entries;
        taken
    }

    /// Takes some entry out of the map; `None` where the map is empty.
    pub fn pop(&mut self) -> (taken: Option<Entry<V>>)
        ensures
            match taken {
                Some(entry) => old(self)@.contains_key(entry.key@) && old(self)@[entry.key@]
                    == entry.value && final(self)@ == old(self)@.remove(entry.key@)
                    && final(self)@.len() + 1 == old(self)@.len(),
                None => old(self)@ == Map::<Seq<char>, V>::empty() && final(self)@ == old(self)@,
            },
            old(self)@.dom().finite(),
            final(self)@.dom().finite(),
    {
        proof {
            use_type_invariant(&*self);
            lemma_map_size(self.entries@);
        }
        let mut entries: Vec<Entry<V>> = Vec::new();
        core::mem::swap(&mut self.entries, &mut entries);
        let ghost before = entries@;
        let taken = entries.pop();
        proof {
            if before.len() > 0 {
                let last = before.len() - 1;
                lemma_entry_in_map(before, last);
                lemma_remove(before, last);
                assert(before.remove(last) =~= entries@);
                lemma_map_size(entries@);
            } else {
                assert(as_map(before) =~= Map::<Seq<char>, V>::empty());
            }
        }
        self.entries = entries;
        taken
    }

    /// Adds an entry whose key the map does not hold yet.
    pub fn push_fresh(&mut self, entry: Entry<V>)
        requires
            !old(self)@.contains_key(entry.key@),
        ensures
            final(self)@ == old(self)@.insert(entry.key@, entry.value),
    {
        proof {
            use_type_invariant(&*self);
            lemma_push_fresh(self.entries@, entry);
        }
        let mut entries: Vec<Entry<V>> = Vec::new();
        core::mem::swap(&mut self.entries, &mut entries);
        entries.push(entry);
        self.entries = entries;
    }
}

/// A list without repeated keys stands for a map with as many keys as it has entries.
pub proof fn lemma_map_size<V>(list: Seq<Entry<V>>)
    requires
        distinct_keys(list),
    ensures
        as_map(list).dom().finite(),
        as_map(list).len() == list.len(),
    decreases list.len(),
{
    if list.len() == 0 {
        assert(as_map(list) =~= Map::<Seq<char>, V>::empty());
    } else {
        let last = list.last();
        let front = list.drop_last();
        assert forall|i: int, j: int| 0 <= i < j < front.len() implies front[i].key@
            != front[j].key@ by {
            assert(front[i] == list[i]);
            assert(front[j] == list[j]);
        }
        if has_key(front, last.key@) {
            let i = slot(front, last.key@);
            assert(front[i] == list[i]);
            assert(list[i].key@ != list[list.len() - 1].key@);
        }
        lemma_map_size(front);
        lemma_push_fresh(front, last);
        assert(front.push(last) =~= list);
    }
}

} // verus!
