use vstd::prelude::*;
use crate::text::str_eq;

verus! {

/// Whether no two entries of `s` share a key.
pub open spec fn keys_unique<T>(s: Seq<(String, T)>) -> bool {
    forall|i: int, j: int| 0 <= i < s.len() && 0 <= j < s.len() && i != j ==> s[i].0@ != s[j].0@
}

/// Whether some entry of `s` has the key `k`.
pub open spec fn has_key<T>(s: Seq<(String, T)>, k: Seq<char>) -> bool {
    exists|i: int| 0 <= i < s.len() && s[i].0@ == k
}

/// The map that a sequence of entries stands for: each key to the value of
/// an entry with that key.
pub open spec fn entries_map<T>(s: Seq<(String, T)>) -> Map<Seq<char>, T> {
    Map::new(
        |k: Seq<char>| has_key(s, k),
        |k: Seq<char>| s[choose|i: int| 0 <= i < s.len() && s[i].0@ == k].1,
    )
}

/// Where the keys are unique, the entry at `i` is what the map holds for its key.
pub proof fn lemma_entry_in_map<T>(s: Seq<(String, T)>, i: int)
    requires
        keys_unique(s),
        0 <= i < s.len(),
    ensures
        entries_map(s).contains_key(s[i].0@),
        entries_map(s)[s[i].0@] == s[i].1,
{
    let k = s[i].0@;
    assert(has_key(s, k));
    let j = choose|j: int| 0 <= j < s.len() && s[j].0@ == k;
    assert(j == i);
}

/// Entries whose keys are unique and that stand for the map of the single
/// pair `k` to `v` are exactly that one entry.
pub proof fn lemma_single_entry<T>(s: Seq<(String, T)>, k: Seq<char>, v: T)
    requires
        keys_unique(s),
        entries_map(s) == Map::<Seq<char>, T>::empty().insert(k, v),
    ensures
        s.len() == 1,
        s[0].0@ == k,
        s[0].1 == v,
{
    assert(entries_map(s).contains_key(k));
    assert(has_key(s, k));
    if s.len() >= 2 {
        assert(entries_map(s).contains_key(s[0].0@));
        assert(entries_map(s).contains_key(s[1].0@));
    }
    lemma_entry_in_map(s, 0);
}

/// A map from string keys to values, kept as a vector of entries with unique
/// keys in the order in which the keys were first inserted.
pub struct StringMap<T> {
    items: Vec<(String, T)>,
}

impl<T> View for StringMap<T> {
    type V = Map<Seq<char>, T>;

    open spec fn view(&self) -> Map<Seq<char>, T> {
        entries_map(self.entries())
    }
}

impl<T> StringMap<T> {
    #[verifier::type_invariant]
    spec fn inv(self) -> bool {
        keys_unique(self.items@)
    }

    /// The entries, in the order in which their keys were first inserted.
    pub closed spec fn entries(&self) -> Seq<(String, T)> {
        self.items@
    }

    /// An empty map.
    pub fn new() -> (r: StringMap<T>)
        ensures
            r.entries().len() == 0,
            r@ == Map::<Seq<char>, T>::empty(),
    {
        let r = StringMap { items: Vec::new() };
        assert(r@ =~= Map::<Seq<char>, T>::empty());
        r
    }

    /// The number of entries; no two of them share a key.
    pub fn len(&self) -> (r: usize)
        ensures
            r == self.entries().len(),
            keys_unique(self.entries()),
    {
        proof {
            use_type_invariant(self);
        }
        self.items.len()
    }

    /// The entry at position `i`.
    pub fn entry(&self, i: usize) -> (r: &(String, T))
        requires
            i < self.entries().len(),
        ensures
            *r == self.entries()[i as int],
    {
        &self.items[i]
    }

    /// The position of the entry with key `key`, if there is one.
    fn position(&self, key: &str) -> (r: Option<usize>)
        ensures
            match r {
                Some(i) => i < self.items@.len() && self.items@[i as int].0@ == key@,
                None => !has_key(self.items@, key@),
            },
    {
        let mut i: usize = 0;
        while i < self.items.len()
            invariant
                0 <= i <= self.items@.len(),
                forall|j: int| 0 <= j < i ==> self.items@[j].0@ != key@,
            decreases self.items@.len() - i,
        {
            if str_eq(self.items[i].0.as_str(), key) {
                return Some(i);
            }
            i += 1;
        }
        None
    }

    /// The value held for `key`, if there is one.
    pub fn get(&self, key: &str) -> (r: Option<&T>)
        ensures
            match r {
                Some(v) => self@.contains_key(key@) && *v == self@[key@],
                None => !self@.contains_key(key@),
            },
    {
        proof {
            use_type_invariant(self);
        }
        match self.position(key) {
            Some(i) => {
                proof {
                    lemma_entry_in_map(self.items@, i as int);
                }
                Some(&self.items[i].1)
            },
            None => None,
        }
    }

    /// Sets the value held for `key`, replacing any earlier one.
    pub fn insert(&mut self, key: String, value: T)
        ensures
            final(self)@ == old(self)@.insert(key@, value),
    {
        proof {
            use_type_invariant(&*self);
        }
        let ghost old_items = self.items@;
        let ghost k = key@;
        let found = self.position(key.as_str());
        let mut items: Vec<(String, T)> = Vec::new();
        std::mem::swap(&mut self.items, &mut items);
        match found {
            Some(i) => {
                items.set(i, (key, value));
                proof {
                    let s = items@;
                    assert(s == old_items.update(i as int, (s[i as int].0, value)));
                    assert(keys_unique(s));
                    assert forall|q: Seq<char>| #[trigger] has_key(s, q) == (has_key(old_items, q) || q == k) by {
                        if has_key(old_items, q) {
                            let w = choose|w: int| 0 <= w < old_items.len() && old_items[w].0@ == q;
                            assert(s[w].0@ == q);
                        }
                        if has_key(s, q) {
                            let w = choose|w: int| 0 <= w < s.len() && s[w].0@ == q;
                            if w != i {
                                assert(old_items[w].0@ == q);
                            }
                        }
                    }
                    assert forall|q: Seq<char>| has_key(s, q) implies #[trigger] entries_map(s)[q] == entries_map(old_items).insert(k, value)[q] by {
                        let w = choose|w: int| 0 <= w < s.len() && s[w].0@ == q;
                        lemma_entry_in_map(s, w);
                        if w != i {
                            lemma_entry_in_map(old_items, w);
                        }
                    }
                    assert(entries_map(s) =~= entries_map(old_items).insert(k, value));
                }
            },
            None => {
                items.push((key, value));
                proof {
                    let s = items@;
                    assert(keys_unique(s));
                    assert forall|q: Seq<char>| #[trigger] has_key(s, q) == (has_key(old_items, q) || q == k) by {
                        if has_key(old_items, q) {
                            let w = choose|w: int| 0 <= w < old_items.len() && old_items[w].0@ == q;
                            assert(s[w].0@ == q);
                        }
                        if q == k {
                            assert(s[old_items.len() as int].0@ == q);
                        }
                    }
                    assert forall|q: Seq<char>| has_key(s, q) implies #[trigger] entries_map(s)[q] == entries_map(old_items).insert(k, value)[q] by {
                        let w = choose|w: int| 0 <= w < s.len() && s[w].0@ == q;
                        lemma_entry_in_map(s, w);
                        if w < old_items.len() {
                            lemma_entry_in_map(old_items, w);
                        }
                    }
                    assert(entries_map(s) =~= entries_map(old_items).insert(k, value));
                }
            },
        }
        self.items = items;
    }

    /// Removes the value held for `key`, if there is one.
    pub fn remove(&mut self, key: &str)
        ensures
            final(self)@ == old(self)@.remove(key@),
    {
        proof {
            use_type_invariant(&*self);
        }
        let ghost old_items = self.items@;
        let ghost k = key@;
        if let Some(i) = self.position(key) {
            let mut items: Vec<(String, T)> = Vec::new();
            std::mem::swap(&mut self.items, &mut items);
            let _ = items.remove(i);
            proof {
                let s = items@;
                assert(s == old_items.remove(i as int));
                assert(keys_unique(s));
                assert forall|q: Seq<char>| #[trigger] has_key(s, q) == (has_key(old_items, q) && q != k) by {
                    if has_key(old_items, q) && q != k {
                        let w = choose|w: int| 0 <= w < old_items.len() && old_items[w].0@ == q;
                        if w < i {
                            assert(s[w].0@ == q);
                        } else {
                            assert(s[w - 1].0@ == q);
                        }
                    }
                    if has_key(s, q) {
                        let w = choose|w: int| 0 <= w < s.len() && s[w].0@ == q;
                        if w < i {
                            assert(old_items[w].0@ == q);
                        } else {
                            assert(old_items[w + 1].0@ == q);
                        }
                    }
                }
                assert forall|q: Seq<char>| has_key(s, q) implies #[trigger] entries_map(s)[q] == entries_map(old_items)[q] by {
                    let w = choose|w: int| 0 <= w < s.len() && s[w].0@ == q;
                    lemma_entry_in_map(s, w);
                    if w < i {
                        lemma_entry_in_map(old_items, w);
                    } else {
                        lemma_entry_in_map(old_items, w + 1);
                    }
                }
                assert(entries_map(s) =~= entries_map(old_items).remove(k));
            }
            self.items = items;
        } else {
            assert(entries_map(old_items) =~= entries_map(old_items).remove(k));
        }
    }
}

} // verus!
