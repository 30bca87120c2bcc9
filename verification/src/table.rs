//! Keyed storage: a table whose contents are a mathematical map.
use vstd::prelude::*;

verus! {

/// A key that can be compared for equality.
pub trait TableKey: Copy {
    /// Whether the two keys are the same value.
    fn same(&self, other: &Self) -> (r: bool)
        ensures
            r == (*self == *other),
    ;
}

/// A table with at most one value under each key.
#[derive(Clone, Debug, PartialEq, Eq)]
#[verifier::reject_recursive_types(K)]
pub struct Table<K: TableKey, V> {
    entries: Vec<(K, V)>,
}

/// The map that a list of entries stands for: the last entry of a key counts.
spec fn map_of<K, V>(entries: Seq<(K, V)>) -> Map<K, V>
    decreases entries.len(),
{
    if entries.len() == 0 {
        Map::empty()
    } else {
        map_of(entries.drop_last()).insert(entries.last().0, entries.last().1)
    }
}

/// A key is in the map exactly where an entry holds it.
proof fn lemma_map_of_dom<K, V>(entries: Seq<(K, V)>, key: K)
    ensures
        map_of(entries).contains_key(key) <==> exists|i: int|
            0 <= i < entries.len() && (#[trigger] entries[i]).0 == key,
    decreases entries.len(),
{
    if entries.len() > 0 {
        let rest = entries.drop_last();
        lemma_map_of_dom(rest, key);
        if map_of(rest).contains_key(key) {
            let i = choose|i: int| 0 <= i < rest.len() && (#[trigger] rest[i]).0 == key;
            assert(entries[i].0 == key);
        }
        assert(entries[entries.len() - 1] == entries.last());
        if exists|i: int| 0 <= i < entries.len() && (#[trigger] entries[i]).0 == key {
            let i = choose|i: int| 0 <= i < entries.len() && (#[trigger] entries[i]).0 == key;
            if i < rest.len() {
                assert(rest[i].0 == key);
            }
        }
    }
}

/// The value of a key that only entry `i` and earlier entries can hold.
proof fn lemma_map_of_value<K, V>(entries: Seq<(K, V)>, i: int)
    requires
        0 <= i < entries.len(),
        forall|j: int| i < j < entries.len() ==> (#[trigger] entries[j]).0 != entries[i].0,
    ensures
        map_of(entries).contains_key(entries[i].0),
        map_of(entries)[entries[i].0] == entries[i].1,
    decreases entries.len(),
{
    if i < entries.len() - 1 {
        let rest = entries.drop_last();
        assert forall|j: int| i < j < rest.len() implies (#[trigger] rest[j]).0 != rest[i].0 by {
            assert(entries[j].0 != entries[i].0);
        }
        lemma_map_of_value(rest, i);
        assert(entries[entries.len() - 1].0 != entries[i].0);
    }
}

/// Taking out one entry of a key changes the map at that key only.
proof fn lemma_map_of_remove<K, V>(entries: Seq<(K, V)>, i: int)
    requires
        0 <= i < entries.len(),
    ensures
        map_of(entries.remove(i)).remove(entries[i].0) =~= map_of(entries).remove(entries[i].0),
    decreases entries.len(),
{
    let key = entries[i].0;
    if i == entries.len() - 1 {
        assert(entries.remove(i) =~= entries.drop_last());
    } else {
        let rest = entries.drop_last();
        lemma_map_of_remove(rest, i);
        assert(entries.remove(i).drop_last() =~= rest.remove(i));
        assert(entries.remove(i).last() == entries.last());
        let (k, v) = entries.last();
        if k == key {
            assert(map_of(rest).insert(k, v).remove(key) =~= map_of(rest).remove(key));
            assert(map_of(rest.remove(i)).insert(k, v).remove(key) =~= map_of(rest.remove(i)).remove(
                key,
            ));
        } else {
            assert(map_of(rest).insert(k, v).remove(key) =~= map_of(rest).remove(key).insert(k, v));
            assert(map_of(rest.remove(i)).insert(k, v).remove(key) =~= map_of(
                rest.remove(i),
            ).remove(key).insert(k, v));
        }
    }
}

impl<K: TableKey, V> View for Table<K, V> {
    type V = Map<K, V>;

    closed spec fn view(&self) -> Map<K, V> {
        map_of(self.entries@)
    }
}

impl<K: TableKey, V> Table<K, V> {
    /// A table with nothing in it.
    pub fn new() -> (r: Self)
        ensures
            r@ == Map::<K, V>::empty(),
    {
        Table { entries: Vec::new() }
    }

    /// The value under `key`, if there is one.
    pub fn get(&self, key: &K) -> (r: Option<&V>)
        ensures
            match r {
                Some(v) => self@.contains_key(*key) && self@[*key] == *v,
                None => !self@.contains_key(*key),
            },
    {
        let mut i: usize = self.entries.len();
        while i > 0
            invariant
                i <= self.entries.len(),
                forall|j: int|
                    i <= j < self.entries.len() ==> (#[trigger] self.entries@[j]).0 != *key,
            decreases i,
        {
            i -= 1;
            if self.entries[i].0.same(key) {
                proof {
                    lemma_map_of_value(self.entries@, i as int);
                }
                return Some(&self.entries[i].1);
            }
        }
        proof {
            lemma_map_of_dom(self.entries@, *key);
        }
        None
    }

    /// Whether there is a value under `key`.
    pub fn has(&self, key: &K) -> (r: bool)
        ensures
            r == self@.contains_key(*key),
    {
        self.get(key).is_some()
    }

    /// Takes the value under `key` out of the table.
    pub fn remove(&mut self, key: &K)
        ensures
            final(self)@ == old(self)@.remove(*key),
    {
        let mut i: usize = 0;
        while i < self.entries.len()
            invariant
                i <= self.entries.len(),
                forall|j: int| 0 <= j < i ==> (#[trigger] self.entries@[j]).0 != *key,
                map_of(self.entries@).remove(*key) == map_of(old(self).entries@).remove(*key),
            decreases self.entries.len() - i,
        {
            if self.entries[i].0.same(key) {
                proof {
                    lemma_map_of_remove(self.entries@, i as int);
                }
                let _removed = self.entries.remove(i);
            } else {
                i += 1;
            }
        }
        proof {
            lemma_map_of_dom(self.entries@, *key);
            assert(map_of(self.entries@) =~= map_of(self.entries@).remove(*key));
        }
    }

    /// Takes the value under `key` out of the table and hands it over.
    pub fn take(&mut self, key: &K) -> (r: Option<V>)
        ensures
            match r {
                Some(v) => old(self)@.contains_key(*key) && old(self)@[*key] == v,
                None => !old(self)@.contains_key(*key),
            },
            final(self)@ == old(self)@.remove(*key),
    {
        let mut i: usize = self.entries.len();
        while i > 0
            invariant
                i <= self.entries.len(),
                self.entries@ == old(self).entries@,
                forall|j: int|
                    i <= j < self.entries.len() ==> (#[trigger] self.entries@[j]).0 != *key,
            decreases i,
        {
            i -= 1;
            if self.entries[i].0.same(key) {
                proof {
                    lemma_map_of_value(self.entries@, i as int);
                    lemma_map_of_remove(self.entries@, i as int);
                }
                let (_, value) = self.entries.remove(i);
                self.remove(key);
                return Some(value);
            }
        }
        proof {
            lemma_map_of_dom(self.entries@, *key);
            assert(self@ =~= old(self)@.remove(*key));
        }
        None
    }

    /// Puts `value` under `key`, in place of what was there.
    pub fn put(&mut self, key: K, value: V)
        ensures
            final(self)@ == old(self)@.insert(key, value),
    {
        self.remove(&key);
        let ghost others = self.entries@;
        self.entries.push((key, value));
        proof {
            assert(self.entries@.drop_last() =~= others);
            assert(old(self)@.remove(key).insert(key, value) =~= old(self)@.insert(key, value));
        }
    }
}

} // verus!
