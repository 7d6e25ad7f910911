//! Maps keyed by texts.

use vstd::prelude::*;

use crate::json::{Json, JsonTree};
use crate::text;

verus! {

/// A map from texts to values. No two entries have the same key; the entries
/// keep the order in which their keys first came.
pub struct StringMap<V> {
    entries: Vec<(String, V)>,
}

/// Whether an entry of a list has a key.
spec fn keyed<V>(entries: Seq<(String, V)>, i: int, key: Seq<char>) -> bool {
    0 <= i < entries.len() && entries[i].0@ == key
}

impl<V> StringMap<V> {
    #[verifier::type_invariant]
    spec fn distinct(self) -> bool {
        forall|i: int, j: int|
            0 <= i < j < self.entries@.len() ==> (#[trigger] self.entries@[i]).0@ != (
            #[trigger] self.entries@[j]).0@
    }

    /// What the map holds.
    pub closed spec fn view(&self) -> Map<Seq<char>, V> {
        Map::new(
            |k: Seq<char>| exists|i: int| keyed(self.entries@, i, k),
            |k: Seq<char>| self.entries@[choose|i: int| keyed(self.entries@, i, k)].1,
        )
    }

    /// The keys in order.
    pub closed spec fn keys(&self) -> Seq<Seq<char>> {
        Seq::new(self.entries@.len(), |i: int| self.entries@[i].0@)
    }

    /// An empty map.
    pub fn new() -> (r: StringMap<V>)
        ensures
            r@ == Map::<Seq<char>, V>::empty(),
    {
        let r = StringMap { entries: Vec::new() };
        assert(r@ =~= Map::empty()) by {
            assert forall|k: Seq<char>| !r@.dom().contains(k) by {
                assert(!exists|i: int| keyed(r.entries@, i, k));
            }
        }
        r
    }

    /// The place of a key.
    fn place(&self, key: &str) -> (r: Option<usize>)
        ensures
            match r {
                Some(i) => keyed(self.entries@, i as int, key@) && self@.dom().contains(key@)
                    && self@[key@] == self.entries@[i as int].1,
                None => !self@.dom().contains(key@) && forall|i: int|
                    !keyed(self.entries@, i, key@),
            },
    {
        proof {
            use_type_invariant(self);
        }
        let mut i: usize = 0;
        while i < self.entries.len()
            invariant
                i <= self.entries.len(),
                forall|j: int| 0 <= j < i ==> (#[trigger] self.entries@[j]).0@ != key@,
            decreases self.entries.len() - i,
        {
            if text::same(self.entries[i].0.as_str(), key) {
                proof {
                    use_type_invariant(self);
                    assert(keyed(self.entries@, i as int, key@));
                    let c = choose|j: int| keyed(self.entries@, j, key@);
                    assert(c == i);
                }
                return Some(i);
            }
            i += 1;
        }
        None
    }

    /// The value under a key.
    pub fn get(&self, key: &str) -> (r: Option<&V>)
        ensures
            match r {
                Some(v) => self@.dom().contains(key@) && self@[key@] == *v,
                None => !self@.dom().contains(key@),
            },
    {
        match self.place(key) {
            Some(i) => Some(&self.entries[i].1),
            None => None,
        }
    }

    /// Whether there is a value under a key.
    pub fn contains_key(&self, key: &str) -> (r: bool)
        ensures
            r == self@.dom().contains(key@),
    {
        self.place(key).is_some()
    }

    /// How many keys there are.
    pub fn len(&self) -> (r: usize)
        ensures
            r == self@.dom().len(),
            self@.dom().finite(),
    {
        proof {
            use_type_invariant(self);
            self.keys_are_distinct();
            self.keys().unique_seq_to_set();
            assert(self.keys().to_set() =~= self@.dom());
        }
        self.entries.len()
    }

    /// The keys are those of the map, each once.
    proof fn keys_are_distinct(&self)
        requires
            self.distinct(),
        ensures
            self.keys().no_duplicates(),
            forall|k: Seq<char>| self.keys().contains(k) == self@.dom().contains(k),
            self.keys().len() == self.entries@.len(),
    {
        assert forall|i: int, j: int|
            0 <= i < self.keys().len() && 0 <= j < self.keys().len() && i != j implies self.keys()[i]
            != self.keys()[j] by {
            if i < j {
                assert(self.entries@[i].0@ != self.entries@[j].0@);
            } else {
                assert(self.entries@[j].0@ != self.entries@[i].0@);
            }
        }
        assert forall|k: Seq<char>| self.keys().contains(k) == self@.dom().contains(k) by {
            if self.keys().contains(k) {
                let i = choose|i: int| 0 <= i < self.keys().len() && self.keys()[i] == k;
                assert(keyed(self.entries@, i, k));
            }
            if self@.dom().contains(k) {
                let i = choose|i: int| keyed(self.entries@, i, k);
                assert(self.keys()[i] == k);
            }
        }
    }

    /// Whether there is no key.
    pub fn is_empty(&self) -> (r: bool)
        ensures
            r == (self@.dom().len() == 0),
            self@.dom().finite(),
    {
        self.len() == 0
    }

    /// Puts a value under a key, and gives back the one that stood there.
    pub fn insert(&mut self, key: String, value: V) -> (r: Option<V>)
        ensures
            final(self)@ == old(self)@.insert(key@, value),
            match r {
                Some(v) => old(self)@.dom().contains(key@) && old(self)@[key@] == v,
                None => !old(self)@.dom().contains(key@),
            },
    {
        proof {
            use_type_invariant(&*self);
        }
        let at = self.place(key.as_str());
        let mut entries: Vec<(String, V)> = Vec::new();
        std::mem::swap(&mut entries, &mut self.entries);
        let ghost was = entries@;
        match at {
            Some(i) => {
                let old_entry = entries.remove(i);
                let ghost gap = entries@;
                entries.insert(i, (key, value));
                assert(entries@ =~= was.update(i as int, (key, value)));
                self.entries = entries;
                proof {
                    assert forall|k: Seq<char>| #[trigger]
                        self@.dom().contains(k) == old(self)@.insert(key@, value).dom().contains(
                            k,
                        ) by {
                        if exists|j: int| keyed(was, j, k) {
                            let j = choose|j: int| keyed(was, j, k);
                            assert(keyed(entries@, j, k));
                        }
                        if exists|j: int| keyed(entries@, j, k) {
                            let j = choose|j: int| keyed(entries@, j, k);
                            assert(keyed(was, j, k));
                        }
                    }
                    assert forall|k: Seq<char>| #[trigger]
                        self@.dom().contains(k) implies self@[k] == old(self)@.insert(
                        key@,
                        value,
                    )[k] by {
                        let j = choose|j: int| keyed(entries@, j, k);
                        assert(keyed(was, j, k));
                        let j2 = choose|j: int| keyed(was, j, k);
                        assert(j == j2);
                    }
                    assert(self@ =~= old(self)@.insert(key@, value));
                }
                Some(old_entry.1)
            },
            None => {
                proof {
                    assert forall|j: int| 0 <= j < was.len() implies (#[trigger] was[j]).0@
                        != key@ by {
                        assert(!keyed(was, j, key@));
                    }
                }
                entries.push((key, value));
                self.entries = entries;
                proof {
                    assert forall|k: Seq<char>| #[trigger]
                        self@.dom().contains(k) == old(self)@.insert(key@, value).dom().contains(
                            k,
                        ) by {
                        if k == key@ {
                            assert(keyed(entries@, was.len() as int, k));
                        } else {
                            if exists|j: int| keyed(was, j, k) {
                                let j = choose|j: int| keyed(was, j, k);
                                assert(keyed(entries@, j, k));
                            }
                            if exists|j: int| keyed(entries@, j, k) {
                                let j = choose|j: int| keyed(entries@, j, k);
                                assert(keyed(was, j, k));
                            }
                        }
                    }
                    assert forall|k: Seq<char>| #[trigger]
                        self@.dom().contains(k) implies self@[k] == old(self)@.insert(
                        key@,
                        value,
                    )[k] by {
                        let j = choose|j: int| keyed(entries@, j, k);
                        if k != key@ {
                            assert(keyed(was, j, k));
                            let j2 = choose|j: int| keyed(was, j, k);
                            assert(j == j2);
                        }
                    }
                    assert(self@ =~= old(self)@.insert(key@, value));
                }
                None
            },
        }
    }

    /// Takes the value under a key out.
    pub fn remove(&mut self, key: &str) -> (r: Option<V>)
        ensures
            final(self)@ == old(self)@.remove(key@),
            match r {
                Some(v) => old(self)@.dom().contains(key@) && old(self)@[key@] == v,
                None => !old(self)@.dom().contains(key@),
            },
    {
        proof {
            use_type_invariant(&*self);
        }
        match self.place(key) {
            Some(i) => {
                let mut entries: Vec<(String, V)> = Vec::new();
                std::mem::swap(&mut entries, &mut self.entries);
                let ghost was = entries@;
                let e = entries.remove(i);
                self.entries = entries;
                proof {
                    assert forall|k: Seq<char>| #[trigger]
                        self@.dom().contains(k) == old(self)@.remove(key@).dom().contains(k) by {
                        if k != key@ {
                            if exists|j: int| keyed(was, j, k) {
                                let j = choose|j: int| keyed(was, j, k);
                                let j2 = if j < i {
                                    j
                                } else {
                                    j - 1
                                };
                                assert(keyed(entries@, j2, k));
                            }
                        }
                        if exists|j: int| keyed(entries@, j, k) {
                            let j = choose|j: int| keyed(entries@, j, k);
                            let j2 = if j < i {
                                j
                            } else {
                                j + 1
                            };
                            assert(keyed(was, j2, k));
                        }
                    }
                    assert forall|k: Seq<char>| #[trigger]
                        self@.dom().contains(k) implies self@[k] == old(self)@.remove(key@)[k] by {
                        let j = choose|j: int| keyed(entries@, j, k);
                        let j2 = if j < i {
                            j
                        } else {
                            j + 1
                        };
                        assert(keyed(was, j2, k));
                        let j3 = choose|j: int| keyed(was, j, k);
                        assert(j2 == j3);
                    }
                    assert(self@ =~= old(self)@.remove(key@));
                }
                Some(e.1)
            },
            None => {
                assert(self@ =~= old(self)@.remove(key@));
                None
            },
        }
    }

    /// The keys, each once.
    pub fn names(&self) -> (r: Vec<String>)
        ensures
            text::views(r@).no_duplicates(),
            forall|k: Seq<char>| text::views(r@).contains(k) == self@.dom().contains(k),
    {
        proof {
            use_type_invariant(self);
            self.keys_are_distinct();
        }
        let mut r: Vec<String> = Vec::new();
        let mut i: usize = 0;
        while i < self.entries.len()
            invariant
                i <= self.entries.len(),
                text::views(r@) == self.keys().take(i as int),
            decreases self.entries.len() - i,
        {
            let ghost was = text::views(r@);
            r.push(self.entries[i].0.clone());
            assert(text::views(r@) =~= was.push(self.entries@[i as int].0@));
            assert(self.keys().take(i + 1) =~= self.keys().take(i as int).push(self.keys()[i as int]));
            i += 1;
        }
        assert(self.keys().take(i as int) =~= self.keys());
        r
    }

    /// Takes all values out.
    pub fn clear(&mut self)
        ensures
            final(self)@ == Map::<Seq<char>, V>::empty(),
    {
        self.entries = Vec::new();
        assert(self@ =~= Map::empty()) by {
            assert forall|k: Seq<char>| !self@.dom().contains(k) by {
                assert(!exists|i: int| keyed(self.entries@, i, k));
            }
        }
    }
}

/// The values of a map as trees.
pub open spec fn tree_map(m: Map<Seq<char>, Json>) -> Map<Seq<char>, JsonTree> {
    m.map_values(|j: Json| j@)
}

/// A map with copies of the values of another.
pub fn copy_values(m: &StringMap<Json>) -> (r: StringMap<Json>)
    ensures
        tree_map(r@) == tree_map(m@),
{
    let names = m.names();
    let ghost keys = text::views(names@);
    let mut r: StringMap<Json> = StringMap::new();
    let mut i: usize = 0;
    while i < names.len()
        invariant
            i <= names.len(),
            keys == text::views(names@),
            keys.no_duplicates(),
            forall|k: Seq<char>| keys.contains(k) == m@.dom().contains(k),
            forall|k: Seq<char>| #[trigger] r@.dom().contains(k) == keys.take(i as int).contains(k),
            forall|k: Seq<char>| #[trigger] r@.dom().contains(k) ==> r@[k]@ == m@[k]@,
        decreases names.len() - i,
    {
        let ghost before = r@;
        let ghost key = keys[i as int];
        proof {
            assert(keys.contains(key));
            assert(keys.take(i + 1) =~= keys.take(i as int).push(key));
            assert forall|k: Seq<char>| keys.take(i + 1).contains(k) == (keys.take(
                i as int,
            ).contains(k) || k == key) by {
                let a = keys.take(i as int);
                let b = keys.take(i + 1);
                if a.contains(k) {
                    let j = choose|j: int| 0 <= j < a.len() && a[j] == k;
                    assert(b[j] == k);
                }
                if k == key {
                    assert(b[i as int] == k);
                }
            }
        }
        if let Some(v) = m.get(names[i].as_str()) {
            let _ = r.insert(names[i].clone(), v.copy());
        }
        i += 1;
    }
    proof {
        assert(keys.take(i as int) =~= keys);
        assert(tree_map(r@).dom() =~= tree_map(m@).dom());
        assert(tree_map(r@) =~= tree_map(m@));
    }
    r
}

} // verus!
