//! A small map from names to values, kept as an association list whose names
//! are pairwise distinct, with the semantics of a hash map keyed by name.

use vstd::prelude::*;

verus! {

/// Compares two string slices character by character.
pub fn str_equal(a: &str, b: &str) -> (r: bool)
    ensures
        r == (a@ == b@),
{
    let n = a.unicode_len();
    if n != b.unicode_len() {
        return false;
    }
    let mut i: usize = 0;
    while i < n
        invariant
            n == a@.len(),
            n == b@.len(),
            i <= n,
            forall|j: int| 0 <= j < i ==> a@[j] == b@[j],
        decreases n - i,
    {
        if a.get_char(i) != b.get_char(i) {
            return false;
        }
        i = i + 1;
    }
    assert(a@ =~= b@);
    true
}

/// A table from names to values in which no name occurs twice.
pub struct NameTable<V> {
    entries: Vec<(&'static str, V)>,
}

impl<V> NameTable<V> {
    /// The names, in the order in which they were first inserted.
    pub closed spec fn names(self) -> Seq<Seq<char>> {
        self.entries@.map_values(|e: (&'static str, V)| e.0@)
    }

    #[verifier::type_invariant]
    spec fn distinct_names(self) -> bool {
        forall|i: int, j: int|
            0 <= i < j < self.entries@.len() ==> self.entries@[i].0@ != self.entries@[j].0@
    }

    spec fn index_of(self, name: Seq<char>) -> int {
        choose|i: int| 0 <= i < self.entries@.len() && self.entries@[i].0@ == name
    }

    proof fn lemma_index_of(self, i: int)
        requires
            self.distinct_names(),
            0 <= i < self.entries@.len(),
        ensures
            self.index_of(self.entries@[i].0@) == i,
            self@.contains_key(self.entries@[i].0@),
            self@[self.entries@[i].0@] == self.entries@[i].1,
    {
        let k = self.entries@[i].0@;
        assert(self.entries@[i].0@ == k);
        let j = self.index_of(k);
        assert(0 <= j < self.entries@.len() && self.entries@[j].0@ == k);
        if j < i {
            assert(self.entries@[j].0@ != self.entries@[i].0@);
        } else if i < j {
            assert(self.entries@[i].0@ != self.entries@[j].0@);
        }
    }

    /// An empty table.
    pub fn new() -> (t: Self)
        ensures
            t@ == Map::<Seq<char>, V>::empty(),
    {
        let t = NameTable { entries: Vec::new() };
        assert(t@ =~= Map::<Seq<char>, V>::empty());
        t
    }

    /// The value stored under `name`, if any.
    pub fn get(&self, name: &str) -> (r: Option<&V>)
        ensures
            r == (if self@.contains_key(name@) {
                Some(&self@[name@])
            } else {
                None
            }),
    {
        proof {
            use_type_invariant(self);
        }
        let n = self.entries.len();
        let mut i: usize = 0;
        while i < n
            invariant
                n == self.entries@.len(),
                i <= n,
                self.distinct_names(),
                forall|j: int| 0 <= j < i ==> self.entries@[j].0@ != name@,
            decreases n - i,
        {
            if str_equal(self.entries[i].0, name) {
                proof {
                    self.lemma_index_of(i as int);
                }
                return Some(&self.entries[i].1);
            }
            i = i + 1;
        }
        None
    }

    /// Stores `value` under `name`, replacing the value that was there.
    pub fn insert(&mut self, name: &'static str, value: V)
        ensures
            final(self)@ == old(self)@.insert(name@, value),
    {
        proof {
            use_type_invariant(&*self);
        }
        let ghost before = *self;
        let mut entries: Vec<(&'static str, V)> = Vec::new();
        std::mem::swap(&mut entries, &mut self.entries);
        assert(entries@ == before.entries@);
        let n = entries.len();
        let mut i: usize = 0;
        while i < n
            invariant
                n == entries@.len(),
                i <= n,
                forall|j: int| 0 <= j < i ==> entries@[j].0@ != name@,
            ensures
                i <= n,
                forall|j: int| 0 <= j < i ==> entries@[j].0@ != name@,
                i < n ==> entries@[i as int].0@ == name@,
            decreases n - i,
        {
            if str_equal(entries[i].0, name) {
                break;
            }
            i = i + 1;
        }
        if i < n {
            entries.set(i, (name, value));
            assert forall|a: int, b: int| 0 <= a < b < entries@.len() implies entries@[a].0@ != entries@[b].0@ by {
                assert(before.entries@[a].0@ != before.entries@[b].0@);
            }
            self.entries = entries;
            proof {
                assert forall|k: Seq<char>| #![auto] self@.contains_key(k) <==> before@.insert(name@, value).contains_key(k) by {
                    if self@.contains_key(k) {
                        let j = self.index_of(k);
                        if j != i {
                            before.lemma_index_of(j);
                        }
                    }
                    if before@.contains_key(k) {
                        let j = before.index_of(k);
                        self.lemma_index_of(j);
                    }
                }
                assert forall|k: Seq<char>| #![auto] self@.contains_key(k) implies self@[k] == before@.insert(name@, value)[k] by {
                    let j = self.index_of(k);
                    self.lemma_index_of(j);
                    if j != i {
                        before.lemma_index_of(j);
                    }
                }
                assert(self@ =~= before@.insert(name@, value));
            }
        } else {
            entries.push((name, value));
            assert forall|a: int, b: int| 0 <= a < b < entries@.len() implies entries@[a].0@ != entries@[b].0@ by {
                if b < n {
                    assert(before.entries@[a].0@ != before.entries@[b].0@);
                }
            }
            self.entries = entries;
            proof {
                assert forall|k: Seq<char>| #![auto] self@.contains_key(k) <==> before@.insert(name@, value).contains_key(k) by {
                    if self@.contains_key(k) {
                        let j = self.index_of(k);
                        if j != n {
                            before.lemma_index_of(j);
                        }
                    }
                    if before@.contains_key(k) {
                        let j = before.index_of(k);
                        self.lemma_index_of(j);
                    }
                    if k == name@ {
                        self.lemma_index_of(n as int);
                    }
                }
                assert forall|k: Seq<char>| #![auto] self@.contains_key(k) implies self@[k] == before@.insert(name@, value)[k] by {
                    let j = self.index_of(k);
                    self.lemma_index_of(j);
                    if j != n {
                        before.lemma_index_of(j);
                    }
                }
                assert(self@ =~= before@.insert(name@, value));
            }
        }
    }
}

impl<V> View for NameTable<V> {
    type V = Map<Seq<char>, V>;

    /// Each name of the table maps to the value stored with it.
    closed spec fn view(&self) -> Map<Seq<char>, V> {
        Map::new(
            |k: Seq<char>| exists|i: int| 0 <= i < self.entries@.len() && self.entries@[i].0@ == k,
            |k: Seq<char>| self.entries@[self.index_of(k)].1,
        )
    }
}

} // verus!
