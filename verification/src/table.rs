//! A table of values under distinct keys.
use vstd::prelude::*;

verus! {

/// What a table can be keyed by: a type whose model decides which keys are the same.
pub trait Key: View + Sized {
    /// Tells whether two keys are the same.
    fn same(&self, other: &Self) -> (answer: bool)
        ensures
            answer == (self@ == other@),
    ;

    /// A copy of the key.
    fn copy(&self) -> (copy: Self)
        ensures
            copy@ == self@,
    ;
}

impl Key for String {
    fn same(&self, other: &Self) -> (answer: bool) {
        *self == *other
    }

    fn copy(&self) -> (copy: Self) {
        self.clone()
    }
}

/// A table of values under distinct keys, in the order in which the keys came.
#[derive(Debug)]
pub struct Table<K: Key, V> {
    entries: Vec<(K, V)>,
}

/// Entry `i` of `entries` is there and stands under `key`.
spec fn stands_at<K: Key, V>(entries: Seq<(K, V)>, key: K::V, i: int) -> bool {
    0 <= i < entries.len() && entries[i].0@ == key
}

/// The keys of `entries` are distinct.
spec fn distinct<K: Key, V>(entries: Seq<(K, V)>) -> bool {
    forall|i: int, j: int|
        0 <= i < j < entries.len() ==> #[trigger] entries[i].0@ != #[trigger] entries[j].0@
}

/// The value under each key of `entries`.
spec fn contents<K: Key, V>(entries: Seq<(K, V)>) -> Map<K::V, V> {
    Map::new(
        |key: K::V| exists|i: int| stands_at(entries, key, i),
        |key: K::V| entries[choose|i: int| stands_at(entries, key, i)].1,
    )
}

/// An entry is what its key maps to.
proof fn entry_is_content<K: Key, V>(entries: Seq<(K, V)>, i: int)
    requires
        distinct(entries),
        0 <= i < entries.len(),
    ensures
        contents(entries).contains_key(entries[i].0@),
        contents(entries)[entries[i].0@] == entries[i].1,
{
    let key = entries[i].0@;
    assert(stands_at(entries, key, i));
    let j = choose|j: int| stands_at(entries, key, j);
    assert(stands_at(entries, key, j));
    if i < j {
        assert(entries[i].0@ != entries[j].0@);
    } else if j < i {
        assert(entries[j].0@ != entries[i].0@);
    }
}

/// Adding an entry under a new key adds it to the contents.
proof fn push_inserts<K: Key, V>(entries: Seq<(K, V)>, key: K, value: V)
    requires
        distinct(entries),
        !contents(entries).contains_key(key@),
    ensures
        distinct(entries.push((key, value))),
        contents(entries.push((key, value))) == contents(entries).insert(key@, value),
{
    let longer = entries.push((key, value));
    assert forall|i: int, j: int| 0 <= i < j < longer.len() implies #[trigger] longer[i].0@
        != #[trigger] longer[j].0@ by {
        if j == entries.len() {
            if longer[i].0@ == key@ {
                assert(stands_at(entries, key@, i));
            }
        } else {
            assert(entries[i].0@ != entries[j].0@);
        }
    }
    let grown = contents(entries).insert(key@, value);
    assert forall|k: K::V| #[trigger] contents(longer).contains_key(k) <==> grown.contains_key(
        k,
    ) by {
        if contents(longer).contains_key(k) {
            let i = choose|i: int| stands_at(longer, k, i);
            if i < entries.len() {
                assert(stands_at(entries, k, i));
            }
        }
        if contents(entries).contains_key(k) {
            let i = choose|i: int| stands_at(entries, k, i);
            assert(stands_at(longer, k, i));
        }
        assert(stands_at(longer, key@, entries.len() as int));
    }
    assert forall|k: K::V| contents(longer).contains_key(k) implies #[trigger] contents(longer)[k]
        == grown[k] by {
        let i = choose|i: int| stands_at(longer, k, i);
        entry_is_content(longer, i);
        if i < entries.len() {
            entry_is_content(entries, i);
        }
    }
    assert(contents(longer) =~= grown);
}

/// Taking an entry out takes its key out of the contents.
proof fn removal_removes<K: Key, V>(entries: Seq<(K, V)>, at: int)
    requires
        distinct(entries),
        0 <= at < entries.len(),
    ensures
        distinct(entries.remove(at)),
        contents(entries.remove(at)) == contents(entries).remove(entries[at].0@),
{
    let shorter = entries.remove(at);
    let key = entries[at].0@;
    assert forall|i: int, j: int| 0 <= i < j < shorter.len() implies #[trigger] shorter[i].0@
        != #[trigger] shorter[j].0@ by {
        let before = if i < at {
            i
        } else {
            i + 1
        };
        let after = if j < at {
            j
        } else {
            j + 1
        };
        assert(entries[before].0@ != entries[after].0@);
    }
    let shrunk = contents(entries).remove(key);
    assert forall|k: K::V| #[trigger] contents(shorter).contains_key(k) <==> shrunk.contains_key(
        k,
    ) by {
        if contents(shorter).contains_key(k) {
            let i = choose|i: int| stands_at(shorter, k, i);
            let origin = if i < at {
                i
            } else {
                i + 1
            };
            assert(stands_at(entries, k, origin));
            if origin < at {
                assert(entries[origin].0@ != entries[at].0@);
            } else {
                assert(entries[at].0@ != entries[origin].0@);
            }
        }
        if shrunk.contains_key(k) {
            let i = choose|i: int| stands_at(entries, k, i);
            let place = if i < at {
                i
            } else {
                i - 1
            };
            assert(stands_at(shorter, k, place));
        }
    }
    assert forall|k: K::V| contents(shorter).contains_key(k) implies #[trigger] contents(shorter)[k]
        == shrunk[k] by {
        let i = choose|i: int| stands_at(shorter, k, i);
        entry_is_content(shorter, i);
        entry_is_content(
            entries,
            if i < at {
                i
            } else {
                i + 1
            },
        );
    }
    assert(contents(shorter) =~= shrunk);
}

impl<K: Key, V> View for Table<K, V> {
    type V = Map<K::V, V>;

    /// The value under each key.
    closed spec fn view(&self) -> Map<K::V, V> {
        contents(self.entries@)
    }
}

impl<K: Key, V> Table<K, V> {
    #[verifier::type_invariant]
    spec fn well_formed(self) -> bool {
        distinct(self.entries@)
    }

    /// The keys, in the order in which they came.
    pub closed spec fn keys(&self) -> Seq<K::V> {
        self.entries@.map_values(|entry: (K, V)| entry.0@)
    }

    /// The values, in the order of the keys.
    pub closed spec fn values(&self) -> Seq<V> {
        self.entries@.map_values(|entry: (K, V)| entry.1)
    }

    /// The keys and the values list the table: each key that the table maps stands there once, and
    /// what it maps to stands at the same place.
    pub open spec fn listed(&self) -> bool {
        &&& self.keys().len() == self.values().len()
        &&& self.keys().no_duplicates()
        &&& forall|key: K::V| #[trigger] self@.contains_key(key) <==> self.keys().contains(key)
        &&& forall|i: int|
            0 <= i < self.keys().len() ==> self@[#[trigger] self.keys()[i]] == self.values()[i]
    }

    /// An empty table.
    pub fn new() -> (table: Self)
        ensures
            table@ == Map::<K::V, V>::empty(),
            table.keys() == Seq::<K::V>::empty(),
            table.values() == Seq::<V>::empty(),
    {
        let table = Table { entries: Vec::new() };
        assert(contents(table.entries@) =~= Map::empty());
        table
    }

    /// The number of entries.
    pub fn len(&self) -> (length: usize)
        ensures
            length == self.keys().len(),
            self.listed(),
    {
        proof {
            use_type_invariant(self);
            let entries = self.entries@;
            assert forall|key: K::V| #[trigger] self@.contains_key(key) <==> self.keys().contains(
                key,
            ) by {
                if self@.contains_key(key) {
                    let i = choose|i: int| stands_at(entries, key, i);
                    assert(self.keys()[i] == key);
                }
                if self.keys().contains(key) {
                    let i = choose|i: int| 0 <= i < entries.len() && self.keys()[i] == key;
                    assert(stands_at(entries, key, i));
                }
            }
            assert forall|i: int| 0 <= i < self.keys().len() implies self@[#[trigger] self.keys()[i]]
                == self.values()[i] by {
                entry_is_content(entries, i);
            }
            assert forall|i: int, j: int|
                0 <= i < self.keys().len() && 0 <= j < self.keys().len() && i
                    != j implies self.keys()[i] != self.keys()[j] by {
                if i < j {
                    assert(entries[i].0@ != entries[j].0@);
                } else {
                    assert(entries[j].0@ != entries[i].0@);
                }
            }
        }
        self.entries.len()
    }

    /// The key of entry `i`.
    pub fn key_at(&self, i: usize) -> (key: &K)
        requires
            i < self.keys().len(),
        ensures
            key@ == self.keys()[i as int],
    {
        &self.entries[i].0
    }

    /// The value of entry `i`.
    pub fn value_at(&self, i: usize) -> (value: &V)
        requires
            i < self.values().len(),
        ensures
            *value == self.values()[i as int],
    {
        &self.entries[i].1
    }

    /// Where the entry under a key stands.
    fn position(entries: &Vec<(K, V)>, key: &K) -> (place: Option<usize>)
        requires
            distinct(entries@),
        ensures
            match place {
                Some(i) => i < entries.len() && entries[i as int].0@ == key@
                    && contents(entries@).contains_key(key@),
                None => !contents(entries@).contains_key(key@),
            },
    {
        let mut i: usize = 0;
        while i < entries.len()
            invariant
                i <= entries.len(),
                forall|j: int| 0 <= j < i ==> (#[trigger] entries[j]).0@ != key@,
            decreases entries.len() - i,
        {
            if entries[i].0.same(key) {
                assert(stands_at(entries@, key@, i as int));
                return Some(i);
            }
            i = i + 1;
        }
        assert forall|j: int| !stands_at(entries@, key@, j) by {
            if 0 <= j < entries.len() {
                assert(entries[j].0@ != key@);
            }
        }
        None
    }

    /// The value under a key, if there is one.
    pub fn get(&self, key: &K) -> (value: Option<&V>)
        ensures
            match value {
                Some(found) => self@.contains_key(key@) && *found == self@[key@],
                None => !self@.contains_key(key@),
            },
    {
        proof {
            use_type_invariant(self);
        }
        match Self::position(&self.entries, key) {
            Some(i) => {
                proof {
                    entry_is_content(self.entries@, i as int);
                }
                Some(&self.entries[i].1)
            },
            None => None,
        }
    }

    /// Takes the value under a key out, if there is one.
    pub fn remove(&mut self, key: &K) -> (value: Option<V>)
        ensures
            final(self)@ == old(self)@.remove(key@),
            match value {
                Some(found) => old(self)@.contains_key(key@) && found == old(self)@[key@],
                None => !old(self)@.contains_key(key@),
            },
    {
        proof {
            use_type_invariant(&*self);
        }
        let ghost before = self.entries@;
        let mut entries: Vec<(K, V)> = Vec::new();
        std::mem::swap(&mut entries, &mut self.entries);
        let value = match Self::position(&entries, key) {
            Some(i) => {
                proof {
                    entry_is_content(before, i as int);
                    removal_removes(before, i as int);
                }
                let (_, value) = entries.remove(i);
                Some(value)
            },
            None => {
                assert(contents(before).remove(key@) =~= contents(before));
                None
            },
        };
        self.entries = entries;
        value
    }

    /// Puts a value under a key, in place of the one that stood there.
    pub fn insert(&mut self, key: K, value: V)
        ensures
            final(self)@ == old(self)@.insert(key@, value),
    {
        let _ = self.remove(&key);
        proof {
            use_type_invariant(&*self);
        }
        let ghost before = self.entries@;
        assert(contents(before) == old(self)@.remove(key@));
        let mut entries: Vec<(K, V)> = Vec::new();
        std::mem::swap(&mut entries, &mut self.entries);
        proof {
            push_inserts(before, key, value);
            assert(old(self)@.remove(key@).insert(key@, value) =~= old(self)@.insert(key@, value));
        }
        entries.push((key, value));
        self.entries = entries;
    }
}

impl<K: Key, V: Clone> Table<K, V> {
    /// A copy of the table, for values whose clones are equal to them.
    pub fn duplicate(&self) -> (copy: Self)
        requires
            forall|a: V, b: V| #[trigger] cloned::<V>(a, b) ==> a == b,
        ensures
            copy@ == self@,
    {
        proof {
            use_type_invariant(self);
        }
        let mut entries: Vec<(K, V)> = Vec::new();
        let mut i: usize = 0;
        while i < self.entries.len()
            invariant
                i <= self.entries.len(),
                entries.len() == i,
                forall|a: V, b: V| #[trigger] cloned::<V>(a, b) ==> a == b,
                forall|j: int|
                    0 <= j < i ==> (#[trigger] entries[j]).0@ == self.entries[j].0@ && entries[j].1
                        == self.entries[j].1,
            decreases self.entries.len() - i,
        {
            let key = self.entries[i].0.copy();
            let value = self.entries[i].1.clone();
            assert(cloned::<V>(self.entries[i as int].1, value));
            entries.push((key, value));
            i = i + 1;
        }
        proof {
            let source = self.entries@;
            assert forall|a: int, b: int| 0 <= a < b < entries@.len() implies #[trigger] entries@[a].0@
                != #[trigger] entries@[b].0@ by {
                assert(source[a].0@ != source[b].0@);
            }
            assert forall|k: K::V| #[trigger] contents(entries@).contains_key(k) <==> contents(
                source,
            ).contains_key(k) by {
                if contents(entries@).contains_key(k) {
                    let j = choose|j: int| stands_at(entries@, k, j);
                    assert(stands_at(source, k, j));
                }
                if contents(source).contains_key(k) {
                    let j = choose|j: int| stands_at(source, k, j);
                    assert(entries@[j].0@ == source[j].0@);
                    assert(stands_at(entries@, k, j));
                }
            }
            assert forall|k: K::V| contents(entries@).contains_key(k) implies #[trigger] contents(
                entries@,
            )[k] == contents(source)[k] by {
                let j = choose|j: int| stands_at(entries@, k, j);
                entry_is_content(entries@, j);
                entry_is_content(source, j);
            }
            assert(contents(entries@) =~= contents(source));
        }
        Table { entries }
    }
}

} // verus!
