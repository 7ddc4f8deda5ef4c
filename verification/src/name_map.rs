//! A map keyed by names, kept as a list in which no name occurs twice.

use vstd::prelude::*;

verus! {

/// The map that a list of names and a list of values spell out: each name
/// leads to the value at its position.
pub open spec fn map_of<V>(names: Seq<Seq<char>>, values: Seq<V>) -> Map<Seq<char>, V> {
    Map::new(|name: Seq<char>| names.contains(name), |name: Seq<char>| values[names.index_of(name)])
}

/// Each name of a list without repetition leads to the value at its own
/// position, and the map has as many names as the list.
pub proof fn lemma_map_of<V>(names: Seq<Seq<char>>, values: Seq<V>)
    requires
        names.no_duplicates(),
    ensures
        map_of(names, values).dom().finite(),
        map_of(names, values).dom().len() == names.len(),
        forall|i: int|
            0 <= i < names.len() ==> map_of(names, values).contains_key(#[trigger] names[i])
                && map_of(names, values)[names[i]] == values[i],
{
    names.unique_seq_to_set();
    assert(map_of(names, values).dom() =~= names.to_set());
    assert forall|i: int| 0 <= i < names.len() implies map_of(names, values).contains_key(
        #[trigger] names[i],
    ) && map_of(names, values)[names[i]] == values[i] by {
        assert(names.contains(names[i]));
    }
}

/// A new name at the end of the list is a new entry of the map.
pub proof fn lemma_map_of_push<V>(names: Seq<Seq<char>>, values: Seq<V>, name: Seq<char>, value: V)
    requires
        names.no_duplicates(),
        names.len() == values.len(),
        !names.contains(name),
    ensures
        names.push(name).no_duplicates(),
        map_of(names.push(name), values.push(value)) == map_of(names, values).insert(name, value),
{
    let longer = names.push(name);
    assert(longer[names.len() as int] == name);
    assert forall|k: Seq<char>| longer.contains(k) <==> names.contains(k) || k == name by {
        if names.contains(k) {
            assert(longer[names.index_of(k)] == k);
        }
    }
    lemma_map_of(longer, values.push(value));
    lemma_map_of(names, values);
    assert(map_of(longer, values.push(value)) =~= map_of(names, values).insert(name, value));
}

/// A new value at the position of a name is a new value under that name.
pub proof fn lemma_map_of_update<V>(names: Seq<Seq<char>>, values: Seq<V>, i: int, value: V)
    requires
        names.no_duplicates(),
        names.len() == values.len(),
        0 <= i < names.len(),
    ensures
        map_of(names, values.update(i, value)) == map_of(names, values).insert(names[i], value),
{
    lemma_map_of(names, values.update(i, value));
    lemma_map_of(names, values);
    assert(names.contains(names[i]));
    assert(map_of(names, values.update(i, value)) =~= map_of(names, values).insert(
        names[i],
        value,
    ));
}

/// Taking a position out of both lists takes its name out of the map.
pub proof fn lemma_map_of_remove<V>(names: Seq<Seq<char>>, values: Seq<V>, i: int)
    requires
        names.no_duplicates(),
        names.len() == values.len(),
        0 <= i < names.len(),
    ensures
        names.remove(i).no_duplicates(),
        map_of(names.remove(i), values.remove(i)) == map_of(names, values).remove(names[i]),
{
    let shorter = names.remove(i);
    assert forall|k: Seq<char>| shorter.contains(k) <==> names.contains(k) && k != names[i] by {
        if names.contains(k) && k != names[i] {
            let j = names.index_of(k);
            assert(shorter[if j < i { j } else { j - 1 }] == k);
        }
    }
    lemma_map_of(shorter, values.remove(i));
    lemma_map_of(names, values);
    assert(map_of(shorter, values.remove(i)) =~= map_of(names, values).remove(names[i])) by {
        assert forall|k: Seq<char>| shorter.contains(k) implies map_of(shorter, values.remove(i))[k]
            == map_of(names, values)[k] by {
            let j = shorter.index_of(k);
            assert(names[if j < i { j } else { j + 1 }] == k);
        }
    }
}

/// A finite map from names to values. The entries keep the order in which
/// their names first arrived.
#[derive(Debug)]
pub struct NameMap<V> {
    entries: Vec<(String, V)>,
}

/// The names of a list of entries, in order.
pub open spec fn names_of<V>(entries: Seq<(String, V)>) -> Seq<Seq<char>> {
    Seq::new(entries.len(), |i: int| entries[i].0@)
}

/// The values of a list of entries, in order.
pub open spec fn values_of<V>(entries: Seq<(String, V)>) -> Seq<V> {
    Seq::new(entries.len(), |i: int| entries[i].1)
}

impl<V> NameMap<V> {
    /// The names, in entry order.
    pub closed spec fn names(&self) -> Seq<Seq<char>> {
        names_of(self.entries@)
    }

    /// The values, in entry order.
    pub closed spec fn values(&self) -> Seq<V> {
        values_of(self.entries@)
    }

    /// No name occurs twice.
    #[verifier::type_invariant]
    pub closed spec fn well_formed(&self) -> bool {
        self.names().no_duplicates()
    }

    /// The map that the entries spell out.
    pub open spec fn view(&self) -> Map<Seq<char>, V> {
        map_of(self.names(), self.values())
    }

    /// The empty map.
    pub fn new() -> (r: Self)
        ensures
            r@ == Map::<Seq<char>, V>::empty(),
            r@.dom().finite(),
            r.names() == Seq::<Seq<char>>::empty(),
    {
        let r = NameMap { entries: Vec::new() };
        assert(r.names() =~= Seq::<Seq<char>>::empty());
        assert(r@ =~= Map::<Seq<char>, V>::empty());
        r
    }

    /// The number of entries.
    pub fn len(&self) -> (n: usize)
        ensures
            self@.dom().finite(),
            n == self@.dom().len(),
            n == self.names().len(),
            n == self.values().len(),
    {
        proof {
            use_type_invariant(self);
            lemma_map_of(self.names(), self.values());
        }
        self.entries.len()
    }

    /// Where the name stands among the entries, if it does.
    fn position(&self, name: &String) -> (r: Option<usize>)
        ensures
            match r {
                Some(i) => i < self.names().len() && self.names()[i as int] == name@,
                None => !self.names().contains(name@),
            },
    {
        let mut i: usize = 0;
        while i < self.entries.len()
            invariant
                i <= self.entries.len(),
                forall|j: int| 0 <= j < i ==> self.names()[j] != name@,
            decreases self.entries.len() - i,
        {
            if self.entries[i].0 == *name {
                return Some(i);
            }
            i = i + 1;
        }
        None
    }

    /// Whether the name has an entry.
    pub fn contains_name(&self, name: &str) -> (b: bool)
        ensures
            b == self@.contains_key(name@),
            self@.dom().finite(),
    {
        proof {
            use_type_invariant(self);
            lemma_map_of(self.names(), self.values());
        }
        let key = name.to_owned();
        self.position(&key).is_some()
    }

    /// The value under the name, if there is one.
    pub fn get(&self, name: &str) -> (r: Option<&V>)
        ensures
            match r {
                Some(value) => self@.contains_key(name@) && *value == self@[name@],
                None => !self@.contains_key(name@),
            },
    {
        let key = name.to_owned();
        match self.position(&key) {
            Some(i) => {
                proof {
                    use_type_invariant(self);
                    lemma_map_of(self.names(), self.values());
                }
                Some(&self.entries[i].1)
            },
            None => None,
        }
    }

    /// The name of the entry at a position.
    pub fn name_at(&self, index: usize) -> (name: &String)
        requires
            index < self.names().len(),
        ensures
            name@ == self.names()[index as int],
            self@.contains_key(name@),
    {
        proof {
            use_type_invariant(self);
            lemma_map_of(self.names(), self.values());
        }
        &self.entries[index].0
    }

    /// The value of the entry at a position.
    pub fn value_at(&self, index: usize) -> (value: &V)
        requires
            index < self.names().len(),
        ensures
            *value == self.values()[index as int],
            *value == self@[self.names()[index as int]],
    {
        proof {
            use_type_invariant(self);
            lemma_map_of(self.names(), self.values());
        }
        &self.entries[index].1
    }

    /// Puts the value under the name and hands back the value that stood
    /// there before, if any. A name that is already present keeps its place;
    /// a new one goes to the end.
    pub fn insert(&mut self, name: String, value: V) -> (previous: Option<V>)
        ensures
            final(self)@ == old(self)@.insert(name@, value),
            old(self)@.dom().finite(),
            final(self)@.dom().finite(),
            final(self)@.dom().len() == old(self)@.dom().len() + if old(self)@.contains_key(
                name@,
            ) {
                0int
            } else {
                1int
            },
            previous == if old(self)@.contains_key(name@) {
                Some(old(self)@[name@])
            } else {
                None::<V>
            },
            final(self).names() == if old(self)@.contains_key(name@) {
                old(self).names()
            } else {
                old(self).names().push(name@)
            },
    {
        proof {
            use_type_invariant(&*self);
            lemma_map_of(self.names(), self.values());
        }
        let ghost names = self.names();
        let ghost values = self.values();
        let found = self.position(&name);
        let mut entries: Vec<(String, V)> = Vec::new();
        core::mem::swap(&mut self.entries, &mut entries);
        entries.push((name, value));
        let previous = match found {
            Some(i) => {
                let replaced = entries.swap_remove(i);
                proof {
                    lemma_map_of_update(names, values, i as int, value);
                    assert(names_of(entries@) =~= names);
                    assert(values_of(entries@) =~= values.update(i as int, value));
                }
                Some(replaced.1)
            },
            None => {
                proof {
                    lemma_map_of_push(names, values, name@, value);
                    assert(names_of(entries@) =~= names.push(name@));
                    assert(values_of(entries@) =~= values.push(value));
                }
                None
            },
        };
        self.entries = entries;
        previous
    }

    /// Takes the entry under the name out and hands its value back, if there
    /// is one. The other entries keep their order.
    pub fn remove(&mut self, name: &str) -> (removed: Option<V>)
        ensures
            final(self)@ == old(self)@.remove(name@),
            old(self)@.dom().finite(),
            final(self)@.dom().finite(),
            final(self)@.dom().len() == old(self)@.dom().len() - if old(self)@.contains_key(
                name@,
            ) {
                1int
            } else {
                0int
            },
            removed == if old(self)@.contains_key(name@) {
                Some(old(self)@[name@])
            } else {
                None::<V>
            },
    {
        proof {
            use_type_invariant(&*self);
            lemma_map_of(self.names(), self.values());
        }
        let ghost names = self.names();
        let ghost values = self.values();
        let key = name.to_owned();
        match self.position(&key) {
            Some(i) => {
                let mut entries: Vec<(String, V)> = Vec::new();
                core::mem::swap(&mut self.entries, &mut entries);
                let entry = entries.remove(i);
                proof {
                    lemma_map_of_remove(names, values, i as int);
                    assert(names_of(entries@) =~= names.remove(i as int));
                    assert(values_of(entries@) =~= values.remove(i as int));
                }
                self.entries = entries;
                Some(entry.1)
            },
            None => {
                assert(self@ =~= self@.remove(name@));
                None
            },
        }
    }
}

} // verus!
