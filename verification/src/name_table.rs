//! A table from names to values in which no name occurs twice.

use vstd::prelude::*;

verus! {

/// Where `key` stands in `keys`.
spec fn position(keys: Seq<Seq<char>>, key: Seq<char>) -> int {
    choose|i: int| 0 <= i < keys.len() && keys[i] == key
}

/// The map that pairs each of `keys` with the value at its place.
spec fn paired<V>(keys: Seq<Seq<char>>, values: Seq<V>) -> Map<Seq<char>, V> {
    Map::new(|key: Seq<char>| keys.contains(key), |key: Seq<char>| values[position(keys, key)])
}

/// In a list without duplicates a key stands at one place only.
proof fn lemma_position(keys: Seq<Seq<char>>, i: int)
    requires
        keys.no_duplicates(),
        0 <= i < keys.len(),
    ensures
        keys.contains(keys[i]),
        position(keys, keys[i]) == i,
{
}

/// Adding a new key at the end adds one pair to the map.
proof fn lemma_paired_push<V>(keys: Seq<Seq<char>>, values: Seq<V>, key: Seq<char>, value: V)
    requires
        keys.no_duplicates(),
        keys.len() == values.len(),
        !keys.contains(key),
    ensures
        keys.push(key).no_duplicates(),
        paired(keys.push(key), values.push(value)) == paired(keys, values).insert(key, value),
{
    let keys2 = keys.push(key);
    let values2 = values.push(value);
    assert forall|i: int, j: int| 0 <= i < keys2.len() && 0 <= j < keys2.len() && i != j implies keys2[i]
        != keys2[j] by {}
    let left = paired(keys2, values2);
    let right = paired(keys, values).insert(key, value);
    assert forall|k: Seq<char>| left.dom().contains(k) <==> right.dom().contains(k) by {
        if keys.contains(k) {
            let i = choose|i: int| 0 <= i < keys.len() && keys[i] == k;
            assert(keys2[i] == k);
        }
        if k == key {
            assert(keys2[keys.len() as int] == k);
        }
    }
    assert forall|k: Seq<char>| left.dom().contains(k) implies left[k] == right[k] by {
        let i = position(keys2, k);
        if i < keys.len() {
            lemma_position(keys, i);
        }
    }
}

/// Taking the key at place `i` out takes its pair out of the map.
proof fn lemma_paired_remove<V>(keys: Seq<Seq<char>>, values: Seq<V>, i: int)
    requires
        keys.no_duplicates(),
        keys.len() == values.len(),
        0 <= i < keys.len(),
    ensures
        keys.remove(i).no_duplicates(),
        !keys.remove(i).contains(keys[i]),
        paired(keys.remove(i), values.remove(i)) == paired(keys, values).remove(keys[i]),
{
    let keys2 = keys.remove(i);
    let values2 = values.remove(i);
    assert forall|a: int| 0 <= a < keys2.len() implies keys2[a] == keys[if a < i {
        a
    } else {
        a + 1
    }] by {}
    if keys2.contains(keys[i]) {
        let a = choose|a: int| 0 <= a < keys2.len() && keys2[a] == keys[i];
        assert(keys[if a < i {
            a
        } else {
            a + 1
        }] == keys[i]);
    }
    let left = paired(keys2, values2);
    let right = paired(keys, values).remove(keys[i]);
    assert forall|k: Seq<char>| left.dom().contains(k) <==> right.dom().contains(k) by {
        if keys.contains(k) && k != keys[i] {
            let b = choose|b: int| 0 <= b < keys.len() && keys[b] == k;
            let a = if b < i {
                b
            } else {
                b - 1
            };
            assert(keys2[a] == k);
        }
    }
    assert forall|k: Seq<char>| left.dom().contains(k) implies left[k] == right[k] by {
        let a = position(keys2, k);
        let b = if a < i {
            a
        } else {
            a + 1
        };
        lemma_position(keys, b);
    }
}

/// A list without duplicates has as many keys as its map has entries.
proof fn lemma_paired_len<V>(keys: Seq<Seq<char>>, values: Seq<V>)
    requires
        keys.no_duplicates(),
        keys.len() == values.len(),
    ensures
        paired(keys, values).dom().finite(),
        paired(keys, values).dom().len() == keys.len(),
{
    keys.unique_seq_to_set();
}

/// A table from names to values. Its view is the map from each name to its
/// value.
pub struct NameTable<V> {
    names: Vec<String>,
    values: Vec<V>,
}

impl<V> NameTable<V> {
    /// The names, in the order in which they are stored.
    pub closed spec fn keys(&self) -> Seq<Seq<char>> {
        Seq::new(self.names@.len(), |i: int| self.names@[i]@)
    }

    /// Each name has one value, and no name occurs twice.
    pub closed spec fn wf(&self) -> bool {
        self.names@.len() == self.values@.len() && self.keys().no_duplicates()
    }

    /// The map from each name to its value.
    pub closed spec fn view(&self) -> Map<Seq<char>, V> {
        paired(self.keys(), self.values@)
    }

    /// An empty table.
    pub fn new() -> (table: NameTable<V>)
        ensures
            table.wf(),
            table@ == Map::<Seq<char>, V>::empty(),
    {
        let table = NameTable { names: Vec::new(), values: Vec::new() };
        table
    }

    /// The number of names.
    pub fn len(&self) -> (n: usize)
        requires
            self.wf(),
        ensures
            self@.dom().finite(),
            n == self@.dom().len(),
    {
        proof {
            lemma_paired_len(self.keys(), self.values@);
        }
        self.names.len()
    }

    /// The place of `name`, if the table has it.
    fn find(&self, name: &String) -> (place: Option<usize>)
        requires
            self.wf(),
        ensures
            match place {
                Some(i) => i < self.keys().len() && self.keys()[i as int] == name@,
                None => !self.keys().contains(name@),
            },
    {
        let mut i: usize = 0;
        while i < self.names.len()
            invariant
                i <= self.names@.len(),
                forall|j: int| 0 <= j < i ==> self.keys()[j] != name@,
            decreases self.names@.len() - i,
        {
            if self.names[i] == *name {
                return Some(i);
            }
            i += 1;
        }
        None
    }

    /// The value of `name`, if the table has it.
    pub fn get(&self, name: &String) -> (value: Option<&V>)
        requires
            self.wf(),
        ensures
            match value {
                Some(v) => self@.contains_key(name@) && *v == self@[name@],
                None => !self@.contains_key(name@),
            },
    {
        match self.find(name) {
            Some(i) => {
                proof {
                    lemma_position(self.keys(), i as int);
                }
                Some(&self.values[i])
            },
            None => None,
        }
    }

    /// Gives `name` the value `value`, and returns the value it had.
    pub fn insert(&mut self, name: String, value: V) -> (previous: Option<V>)
        requires
            old(self).wf(),
        ensures
            final(self).wf(),
            final(self)@ == old(self)@.insert(name@, value),
            previous == if old(self)@.contains_key(name@) {
                Some(old(self)@[name@])
            } else {
                None
            },
            final(self)@.dom().len() == old(self)@.dom().len() + if old(self)@.contains_key(name@) {
                0int
            } else {
                1int
            },
    {
        let previous = self.remove(&name);
        proof {
            lemma_paired_len(self.keys(), self.values@);
            lemma_paired_push(self.keys(), self.values@, name@, value);
            assert(self.keys().push(name@) =~= Seq::new(
                self.names@.push(name).len(),
                |i: int| self.names@.push(name)[i]@,
            ));
            assert(old(self)@.remove(name@).insert(name@, value) =~= old(self)@.insert(
                name@,
                value,
            ));
        }
        self.names.push(name);
        self.values.push(value);
        proof {
            lemma_paired_len(self.keys(), self.values@);
        }
        previous
    }

    /// Takes `name` out of the table, and returns the value it had.
    pub fn remove(&mut self, name: &String) -> (previous: Option<V>)
        requires
            old(self).wf(),
        ensures
            final(self).wf(),
            final(self)@ == old(self)@.remove(name@),
            !final(self).keys().contains(name@),
            previous == if old(self)@.contains_key(name@) {
                Some(old(self)@[name@])
            } else {
                None
            },
            final(self)@.dom().len() == old(self)@.dom().len() - if old(self)@.contains_key(name@) {
                1int
            } else {
                0int
            },
    {
        proof {
            lemma_paired_len(self.keys(), self.values@);
        }
        match self.find(name) {
            Some(i) => {
                proof {
                    lemma_paired_len(self.keys().remove(i as int), self.values@.remove(i as int));
                    lemma_position(self.keys(), i as int);
                    lemma_paired_remove(self.keys(), self.values@, i as int);
                    assert(self.keys().remove(i as int) =~= Seq::new(
                        self.names@.remove(i as int).len(),
                        |j: int| self.names@.remove(i as int)[j]@,
                    ));
                }
                self.names.remove(i);
                let value = self.values.remove(i);
                Some(value)
            },
            None => {
                None
            },
        }
    }
}

} // verus!
