use vstd::prelude::*;

verus! {

/// Index of the entry whose key is `k`; meaningful when some entry has that key.
pub open spec fn key_index<V>(s: Seq<(String, V)>, k: Seq<char>) -> int {
    choose|i: int| 0 <= i < s.len() && (#[trigger] s[i]).0@ == k
}

pub open spec fn has_key<V>(s: Seq<(String, V)>, k: Seq<char>) -> bool {
    exists|i: int| 0 <= i < s.len() && (#[trigger] s[i]).0@ == k
}

pub open spec fn keys_unique<V>(s: Seq<(String, V)>) -> bool {
    forall|i: int, j: int|
        0 <= i < s.len() && 0 <= j < s.len() && i != j ==> (#[trigger] s[i]).0@ != (#[trigger] s[j]).0@
}

/// The map that a sequence of keyed entries stands for.
pub open spec fn entries_map<V>(s: Seq<(String, V)>) -> Map<Seq<char>, V> {
    Map::new(|k: Seq<char>| has_key(s, k), |k: Seq<char>| s[key_index(s, k)].1)
}

/// With unique keys, the entry found for a key is the one at its index.
pub proof fn lemma_key_index<V>(s: Seq<(String, V)>, i: int)
    requires
        keys_unique(s),
        0 <= i < s.len(),
    ensures
        has_key(s, s[i].0@),
        key_index(s, s[i].0@) == i,
        entries_map(s).contains_key(s[i].0@),
        entries_map(s)[s[i].0@] == s[i].1,
{
    let k = s[i].0@;
    assert(has_key(s, k));
    let j = key_index(s, k);
    assert(0 <= j < s.len() && s[j].0@ == k);
}

/// A string-keyed table that keeps its entries in insertion order, with each
/// key at most once.
pub struct Table<V> {
    entries: Vec<(String, V)>,
}

impl<V> Table<V> {
    pub closed spec fn seq(&self) -> Seq<(String, V)> {
        self.entries@
    }

    pub open spec fn wf(&self) -> bool {
        keys_unique(self.seq())
    }

    pub open spec fn view(&self) -> Map<Seq<char>, V> {
        entries_map(self.seq())
    }

    pub fn new() -> (r: Table<V>)
        ensures
            r.wf(),
            r.seq() == Seq::<(String, V)>::empty(),
            r@ == Map::<Seq<char>, V>::empty(),
    {
        let r = Table { entries: Vec::new() };
        assert(r@ =~= Map::<Seq<char>, V>::empty());
        r
    }

    pub fn len(&self) -> (r: usize)
        ensures
            r == self.seq().len(),
    {
        self.entries.len()
    }

    /// The entry at position `i` of the insertion order.
    pub fn entry(&self, i: usize) -> (r: &(String, V))
        requires
            i < self.seq().len(),
        ensures
            *r == self.seq()[i as int],
    {
        &self.entries[i]
    }

    /// Position of the entry with key `key`, if any.
    pub fn find(&self, key: &String) -> (r: Option<usize>)
        requires
            self.wf(),
        ensures
            r is None <==> !self@.contains_key(key@),
            r matches Some(i) ==> i < self.seq().len() && self.seq()[i as int].0@ == key@
                && key_index(self.seq(), key@) == i,
    {
        let mut i: usize = 0;
        while i < self.entries.len()
            invariant
                self.wf(),
                i <= self.entries@.len(),
                forall|j: int| 0 <= j < i ==> (#[trigger] self.entries@[j]).0@ != key@,
            decreases self.entries@.len() - i,
        {
            if self.entries[i].0 == *key {
                proof {
                    lemma_key_index(self.seq(), i as int);
                }
                return Some(i);
            }
            i += 1;
        }
        None
    }

    pub fn contains_key(&self, key: &String) -> (r: bool)
        requires
            self.wf(),
        ensures
            r == self@.contains_key(key@),
    {
        self.find(key).is_some()
    }

    pub fn get(&self, key: &String) -> (r: Option<&V>)
        requires
            self.wf(),
        ensures
            r is Some <==> self@.contains_key(key@),
            r matches Some(v) ==> *v == self@[key@],
    {
        match self.find(key) {
            Some(i) => {
                proof {
                    lemma_key_index(self.seq(), i as int);
                }
                Some(&self.entries[i].1)
            },
            None => None,
        }
    }

    /// Adds an entry under a key that is not yet present.
    pub fn insert_new(&mut self, key: String, value: V)
        requires
            old(self).wf(),
            !old(self)@.contains_key(key@),
        ensures
            final(self).wf(),
            final(self)@ == old(self)@.insert(key@, value),
            final(self).seq() == old(self).seq().push((key, value)),
    {
        let ghost s = self.seq();
        let ghost k = key@;
        self.entries.push((key, value));
        let ghost t = self.seq();
        assert(t == s.push((key, value)));
        assert(forall|j: int| 0 <= j < s.len() ==> (#[trigger] s[j]).0@ != k);
        assert(keys_unique(t)) by {
            assert forall|i: int, j: int|
                0 <= i < t.len() && 0 <= j < t.len() && i != j implies (#[trigger] t[i]).0@
                != (#[trigger] t[j]).0@ by {
                if i < s.len() && j < s.len() {
                    assert(t[i] == s[i] && t[j] == s[j]);
                } else if i < s.len() {
                    assert(t[i] == s[i]);
                } else {
                    assert(t[j] == s[j]);
                }
            }
        }
        assert(entries_map(t) =~= entries_map(s).insert(k, value)) by {
            assert forall|x: Seq<char>| #[trigger] entries_map(t).contains_key(x)
                <==> entries_map(s).insert(k, value).contains_key(x) by {
                if has_key(s, x) {
                    let j = choose|j: int| 0 <= j < s.len() && (#[trigger] s[j]).0@ == x;
                    assert(t[j] == s[j]);
                }
                if has_key(t, x) && x != k {
                    let j = choose|j: int| 0 <= j < t.len() && (#[trigger] t[j]).0@ == x;
                    assert(j < s.len());
                    assert(s[j] == t[j]);
                }
                if x == k {
                    assert(t[s.len() as int].0@ == k);
                }
            }
            assert forall|x: Seq<char>| #[trigger] entries_map(t).contains_key(x)
                implies entries_map(t)[x] == entries_map(s).insert(k, value)[x] by {
                if x == k {
                    lemma_key_index(t, s.len() as int);
                } else {
                    let j = choose|j: int| 0 <= j < t.len() && (#[trigger] t[j]).0@ == x;
                    assert(j < s.len());
                    assert(s[j] == t[j]);
                    lemma_key_index(t, j);
                    lemma_key_index(s, j);
                }
            }
        }
    }

    /// Replaces the value at a position, keeping its key and the order.
    pub fn replace_at(&mut self, i: usize, value: V)
        requires
            old(self).wf(),
            i < old(self).seq().len(),
        ensures
            final(self).wf(),
            final(self)@ == old(self)@.insert(old(self).seq()[i as int].0@, value),
            final(self).seq().len() == old(self).seq().len(),
            forall|j: int|
                0 <= j < old(self).seq().len() && j != i ==> #[trigger] final(self).seq()[j]
                    == old(self).seq()[j],
            final(self).seq()[i as int].1 == value,
            final(self).seq()[i as int].0@ == old(self).seq()[i as int].0@,
    {
        let ghost s = self.seq();
        let ghost k = s[i as int].0@;
        let key = self.entries[i].0.clone();
        self.entries.set(i, (key, value));
        let ghost t = self.seq();
        assert(keys_unique(t)) by {
            assert forall|a: int, b: int|
                0 <= a < t.len() && 0 <= b < t.len() && a != b implies (#[trigger] t[a]).0@
                != (#[trigger] t[b]).0@ by {
                assert(t[a].0@ == s[a].0@);
                assert(t[b].0@ == s[b].0@);
            }
        }
        assert(entries_map(t) =~= entries_map(s).insert(k, value)) by {
            assert forall|x: Seq<char>| #[trigger] entries_map(t).contains_key(x)
                <==> entries_map(s).insert(k, value).contains_key(x) by {
                if has_key(s, x) {
                    let j = choose|j: int| 0 <= j < s.len() && (#[trigger] s[j]).0@ == x;
                    assert(t[j].0@ == x);
                }
                if has_key(t, x) {
                    let j = choose|j: int| 0 <= j < t.len() && (#[trigger] t[j]).0@ == x;
                    assert(s[j].0@ == x);
                }
                if x == k {
                    assert(s[i as int].0@ == k);
                }
            }
            assert forall|x: Seq<char>| #[trigger] entries_map(t).contains_key(x)
                implies entries_map(t)[x] == entries_map(s).insert(k, value)[x] by {
                let j = choose|j: int| 0 <= j < t.len() && (#[trigger] t[j]).0@ == x;
                lemma_key_index(t, j);
                if j != i {
                    assert(s[j] == t[j]);
                    lemma_key_index(s, j);
                }
            }
        }
    }

    /// Sets the value under `key`, adding the entry at the end if it is new.
    pub fn set(&mut self, key: String, value: V)
        requires
            old(self).wf(),
        ensures
            final(self).wf(),
            final(self)@ == old(self)@.insert(key@, value),
    {
        match self.find(&key) {
            Some(i) => self.replace_at(i, value),
            None => self.insert_new(key, value),
        }
    }
}

} // verus!
