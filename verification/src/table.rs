//! A table from server names to values that keeps the order of first entry.

use vstd::prelude::*;

verus! {

/// Values keyed by name. No name occurs twice, nothing is ever removed, and
/// the names stay in the order in which they were entered.
pub struct Table<V> {
    keys: Vec<String>,
    values: Vec<V>,
}

impl<V: Copy> Table<V> {
    /// The names, in order of entry.
    pub closed spec fn names(&self) -> Seq<Seq<char>> {
        self.keys@.map_values(|k: String| k@)
    }

    /// The values, each at the position of its name.
    pub closed spec fn cells(&self) -> Seq<V> {
        self.values@
    }

    /// Every name has one value and no name occurs twice.
    pub open spec fn wf(&self) -> bool {
        &&& self.names().len() == self.cells().len()
        &&& self.names().no_duplicates()
    }

    /// Whether `name` was entered.
    pub open spec fn contains(&self, name: Seq<char>) -> bool {
        self.names().contains(name)
    }

    /// The value entered under `name`.
    pub open spec fn value(&self, name: Seq<char>) -> V
        recommends
            self.contains(name),
    {
        self.cells()[self.names().index_of(name)]
    }

    /// The value entered under `name`, if any.
    pub open spec fn entry(&self, name: Seq<char>) -> Option<V> {
        if self.contains(name) {
            Some(self.value(name))
        } else {
            None
        }
    }

    /// In a well-formed table a name stands at one position only.
    pub proof fn lemma_position(&self, name: Seq<char>, i: int)
        requires
            self.wf(),
            0 <= i < self.names().len(),
            self.names()[i] == name,
        ensures
            self.contains(name),
            self.names().index_of(name) == i,
            self.value(name) == self.cells()[i],
    {
        assert(self.names().contains(name));
    }

    /// A table with nothing in it.
    pub fn new() -> (t: Table<V>)
        ensures
            t.wf(),
            t.names() == Seq::<Seq<char>>::empty(),
            t.cells() == Seq::<V>::empty(),
    {
        let t = Table { keys: Vec::new(), values: Vec::new() };
        assert(t.names() =~= Seq::<Seq<char>>::empty());
        t
    }

    /// How many names were entered.
    pub fn len(&self) -> (n: usize)
        ensures
            n == self.names().len(),
    {
        self.keys.len()
    }

    /// The first position of `name`, if it was entered.
    pub fn find(&self, name: &String) -> (r: Option<usize>)
        ensures
            match r {
                Some(i) => {
                    &&& i < self.names().len()
                    &&& self.names()[i as int] == name@
                    &&& forall|j: int| 0 <= j < i ==> self.names()[j] != name@
                },
                None => !self.contains(name@),
            },
    {
        let mut i: usize = 0;
        while i < self.keys.len()
            invariant
                i <= self.keys.len(),
                forall|j: int| 0 <= j < i ==> self.names()[j] != name@,
            decreases self.keys.len() - i,
        {
            if self.keys[i] == *name {
                return Some(i);
            }
            i += 1;
        }
        None
    }

    /// The name at position `i`.
    pub fn name_at(&self, i: usize) -> (k: &String)
        requires
            i < self.names().len(),
        ensures
            k@ == self.names()[i as int],
    {
        &self.keys[i]
    }

    /// The value at position `i`.
    pub fn value_at(&self, i: usize) -> (v: V)
        requires
            i < self.cells().len(),
        ensures
            v == self.cells()[i as int],
    {
        self.values[i]
    }

    /// The value entered under `name`, if any.
    pub fn get(&self, name: &String) -> (r: Option<V>)
        requires
            self.wf(),
        ensures
            r == self.entry(name@),
    {
        match self.find(name) {
            Some(i) => {
                proof {
                    self.lemma_position(name@, i as int);
                }
                Some(self.values[i])
            },
            None => None,
        }
    }

    /// The position of `name`, entered with the value `fresh` at the end of
    /// the table if it was not there yet. Nothing else changes.
    pub fn slot(&mut self, name: &String, fresh: V) -> (i: usize)
        requires
            old(self).wf(),
        ensures
            final(self).wf(),
            i < final(self).names().len(),
            final(self).names()[i as int] == name@,
            final(self).names() == if old(self).contains(name@) {
                old(self).names()
            } else {
                old(self).names().push(name@)
            },
            final(self).cells() == if old(self).contains(name@) {
                old(self).cells()
            } else {
                old(self).cells().push(fresh)
            },
            final(self).entry(name@) == Some(
                if old(self).contains(name@) { old(self).value(name@) } else { fresh },
            ),
            final(self).cells()[i as int] == final(self).value(name@),
            forall|other: Seq<char>| other != name@ ==> final(self).entry(other) == old(
                self,
            ).entry(other),
    {
        match self.find(name) {
            Some(i) => {
                proof {
                    self.lemma_position(name@, i as int);
                }
                i
            },
            None => {
                let i = self.keys.len();
                self.keys.push(name.clone());
                self.values.push(fresh);
                proof {
                    let before = old(self).names();
                    assert(self.names() =~= before.push(name@));
                    assert(self.cells() =~= old(self).cells().push(fresh));
                    assert(self.names()[i as int] == name@);
                    self.lemma_position(name@, i as int);
                    assert forall|other: Seq<char>| other != name@ implies self.entry(other)
                        == old(self).entry(other) by {
                        if old(self).contains(other) {
                            let j = before.index_of(other);
                            assert(self.names()[j] == other);
                            self.lemma_position(other, j);
                        } else if self.contains(other) {
                            let j = self.names().index_of(other);
                            assert(before[j] == other);
                        }
                    }
                }
                i
            },
        }
    }

    /// Replaces the value at position `i`. Nothing else changes.
    pub fn put(&mut self, i: usize, v: V)
        requires
            old(self).wf(),
            i < old(self).names().len(),
        ensures
            final(self).wf(),
            final(self).names() == old(self).names(),
            final(self).cells() == old(self).cells().update(i as int, v),
            final(self).entry(old(self).names()[i as int]) == Some(v),
            forall|other: Seq<char>| other != old(self).names()[i as int] ==> final(self).entry(
                other,
            ) == old(self).entry(other),
    {
        self.values.set(i, v);
        proof {
            let name = self.names()[i as int];
            self.lemma_position(name, i as int);
            assert forall|other: Seq<char>| other != name implies self.entry(other) == old(
                self,
            ).entry(other) by {
                if self.contains(other) {
                    let j = self.names().index_of(other);
                    self.lemma_position(other, j);
                }
            }
        }
    }
}

} // verus!
