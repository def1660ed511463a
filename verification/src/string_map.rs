//! A map keyed by strings, kept as a list in which no key occurs twice.

use vstd::prelude::*;

use crate::text::str_eq;

verus! {

/// A map from strings to values of `V`.
///
/// Its view is the map from the characters of each key to the value under it.
pub struct StringMap<V> {
    entries: Vec<(String, V)>,
}

/// Some entry of a list has the key `key`.
pub open spec fn has_entry<V>(entries: Seq<(String, V)>, key: Seq<char>) -> bool {
    exists|i: int| 0 <= i < entries.len() && (#[trigger] entries[i]).0@ == key
}

/// The key of entry `i`.
spec fn key_at<V>(entries: Seq<(String, V)>, i: int) -> Seq<char> {
    entries[i].0@
}

/// No two entries have the same key.
spec fn keys_distinct<V>(entries: Seq<(String, V)>) -> bool {
    forall|i: int, j: int|
        0 <= i < j < entries.len() ==> #[trigger] key_at(entries, i) != #[trigger] key_at(
            entries,
            j,
        )
}

/// Some entry has the key `key`.
spec fn has_key<V>(entries: Seq<(String, V)>, key: Seq<char>) -> bool {
    exists|i: int| 0 <= i < entries.len() && #[trigger] key_at(entries, i) == key
}

/// The map that a list of entries stands for.
spec fn entries_map<V>(entries: Seq<(String, V)>) -> Map<Seq<char>, V> {
    Map::new(
        |key: Seq<char>| has_key(entries, key),
        |key: Seq<char>|
            entries[choose|i: int| 0 <= i < entries.len() && #[trigger] key_at(entries, i) == key].1,
    )
}

proof fn lemma_lookup<V>(entries: Seq<(String, V)>, i: int)
    requires
        keys_distinct(entries),
        0 <= i < entries.len(),
    ensures
        entries_map(entries).contains_key(entries[i].0@),
        entries_map(entries)[entries[i].0@] == entries[i].1,
{
    let key = key_at(entries, i);
    assert(has_key(entries, key));
    let j = choose|j: int| 0 <= j < entries.len() && #[trigger] key_at(entries, j) == key;
    assert(0 <= j < entries.len() && key_at(entries, j) == key);
    if i < j {
        assert(key_at(entries, i) != key_at(entries, j));
    } else if j < i {
        assert(key_at(entries, j) != key_at(entries, i));
    }
}

proof fn lemma_push<V>(entries: Seq<(String, V)>, entry: (String, V))
    requires
        keys_distinct(entries),
        !has_key(entries, entry.0@),
    ensures
        keys_distinct(entries.push(entry)),
        entries_map(entries.push(entry)) == entries_map(entries).insert(entry.0@, entry.1),
{
    let longer = entries.push(entry);
    assert forall|i: int| 0 <= i < entries.len() implies #[trigger] key_at(longer, i) == key_at(
        entries,
        i,
    ) by {}
    assert(key_at(longer, entries.len() as int) == entry.0@);
    assert forall|i: int, j: int| 0 <= i < j < longer.len() implies #[trigger] key_at(longer, i)
        != #[trigger] key_at(longer, j) by {
        assert(key_at(entries, i) == key_at(longer, i));
        if j < entries.len() {
            assert(key_at(entries, j) == key_at(longer, j));
        }
    }
    assert forall|key: Seq<char>| has_key(longer, key) <==> (has_key(entries, key) || key
        == entry.0@) by {
        if has_key(entries, key) {
            let i = choose|i: int| 0 <= i < entries.len() && #[trigger] key_at(entries, i) == key;
            assert(key_at(longer, i) == key);
        }
    }
    assert forall|key: Seq<char>| has_key(longer, key) implies #[trigger] entries_map(longer)[key]
        == entries_map(entries).insert(entry.0@, entry.1)[key] by {
        let i = choose|i: int| 0 <= i < longer.len() && #[trigger] key_at(longer, i) == key;
        lemma_lookup(longer, i);
        if i < entries.len() {
            lemma_lookup(entries, i);
            assert(key_at(entries, i) == key);
        }
    }
    assert(entries_map(longer) =~= entries_map(entries).insert(entry.0@, entry.1));
}

proof fn lemma_remove<V>(entries: Seq<(String, V)>, at: int)
    requires
        keys_distinct(entries),
        0 <= at < entries.len(),
    ensures
        keys_distinct(entries.remove(at)),
        entries_map(entries.remove(at)) == entries_map(entries).remove(entries[at].0@),
{
    let shorter = entries.remove(at);
    let gone = key_at(entries, at);
    assert forall|i: int| 0 <= i < shorter.len() implies #[trigger] key_at(shorter, i) == key_at(
        entries,
        if i < at {
            i
        } else {
            i + 1
        },
    ) by {}
    assert forall|i: int, j: int| 0 <= i < j < shorter.len() implies #[trigger] key_at(shorter, i)
        != #[trigger] key_at(shorter, j) by {
        let a = if i < at {
            i
        } else {
            i + 1
        };
        let b = if j < at {
            j
        } else {
            j + 1
        };
        assert(key_at(entries, a) != key_at(entries, b));
    }
    assert forall|key: Seq<char>| has_key(shorter, key) <==> (has_key(entries, key) && key != gone) by {
        if has_key(shorter, key) {
            let i = choose|i: int| 0 <= i < shorter.len() && #[trigger] key_at(shorter, i) == key;
            let a = if i < at {
                i
            } else {
                i + 1
            };
            assert(key_at(entries, a) == key);
            if a < at {
                assert(key_at(entries, a) != key_at(entries, at));
            } else {
                assert(key_at(entries, at) != key_at(entries, a));
            }
        }
        if has_key(entries, key) && key != gone {
            let a = choose|a: int| 0 <= a < entries.len() && #[trigger] key_at(entries, a) == key;
            let i = if a < at {
                a
            } else {
                a - 1
            };
            assert(key_at(shorter, i) == key);
        }
    }
    assert forall|key: Seq<char>| has_key(shorter, key) implies #[trigger] entries_map(shorter)[key]
        == entries_map(entries).remove(gone)[key] by {
        let i = choose|i: int| 0 <= i < shorter.len() && #[trigger] key_at(shorter, i) == key;
        lemma_lookup(shorter, i);
        lemma_lookup(
            entries,
            if i < at {
                i
            } else {
                i + 1
            },
        );
    }
    assert(entries_map(shorter) =~= entries_map(entries).remove(gone));
}

impl<V> View for StringMap<V> {
    type V = Map<Seq<char>, V>;

    closed spec fn view(&self) -> Map<Seq<char>, V> {
        entries_map(self.entries@)
    }
}

impl<V> StringMap<V> {
    #[verifier::type_invariant]
    spec fn distinct(self) -> bool {
        keys_distinct(self.entries@)
    }

    /// A map with nothing in it.
    pub fn new() -> (r: Self)
        ensures
            r@ == Map::<Seq<char>, V>::empty(),
    {
        let r = StringMap { entries: Vec::new() };
        assert(r@ =~= Map::<Seq<char>, V>::empty());
        r
    }

    /// The position of `key`, if it occurs.
    fn position(entries: &Vec<(String, V)>, key: &str) -> (r: Option<usize>)
        ensures
            match r {
                Some(i) => i < entries@.len() && key_at(entries@, i as int) == key@,
                None => !has_key(entries@, key@),
            },
    {
        let mut i: usize = 0;
        while i < entries.len()
            invariant
                i <= entries@.len(),
                forall|j: int| 0 <= j < i ==> #[trigger] key_at(entries@, j) != key@,
            decreases entries@.len() - i,
        {
            if str_eq(entries[i].0.as_str(), key) {
                return Some(i);
            }
            i = i + 1;
        }
        None
    }

    /// The value under `key`.
    pub fn get(&self, key: &str) -> (r: Option<&V>)
        ensures
            r == (if self@.contains_key(key@) {
                Some(&self@[key@])
            } else {
                None
            }),
    {
        proof {
            use_type_invariant(self);
        }
        match Self::position(&self.entries, key) {
            Some(i) => {
                proof {
                    lemma_lookup(self.entries@, i as int);
                }
                Some(&self.entries[i].1)
            },
            None => None,
        }
    }

    /// Whether there is a value under `key`.
    pub fn contains_key(&self, key: &str) -> (r: bool)
        ensures
            r == self@.contains_key(key@),
    {
        self.get(key).is_some()
    }

    /// Takes the value under `key` out of the map.
    pub fn remove(&mut self, key: &str) -> (r: Option<V>)
        ensures
            final(self)@ == old(self)@.remove(key@),
            r == (if old(self)@.contains_key(key@) {
                Some(old(self)@[key@])
            } else {
                None
            }),
    {
        proof {
            use_type_invariant(&*self);
        }
        let mut entries: Vec<(String, V)> = Vec::new();
        std::mem::swap(&mut entries, &mut self.entries);
        let ghost before = entries@;
        match Self::position(&entries, key) {
            Some(i) => {
                proof {
                    lemma_lookup(before, i as int);
                    lemma_remove(before, i as int);
                }
                let entry = entries.remove(i);
                self.entries = entries;
                Some(entry.1)
            },
            None => {
                self.entries = entries;
                assert(self@ =~= old(self)@.remove(key@));
                None
            },
        }
    }

    /// Puts `value` under `key`, in place of what was there.
    pub fn insert(&mut self, key: String, value: V) -> (r: Option<V>)
        ensures
            final(self)@ == old(self)@.insert(key@, value),
            r == (if old(self)@.contains_key(key@) {
                Some(old(self)@[key@])
            } else {
                None
            }),
    {
        let previous = self.remove(key.as_str());
        proof {
            use_type_invariant(&*self);
        }
        let mut entries: Vec<(String, V)> = Vec::new();
        std::mem::swap(&mut entries, &mut self.entries);
        proof {
            assert(!entries_map(entries@).contains_key(key@));
            lemma_push(entries@, (key, value));
            assert(old(self)@.remove(key@).insert(key@, value) =~= old(self)@.insert(key@, value));
        }
        entries.push((key, value));
        self.entries = entries;
        previous
    }

    /// The entries of the map, each key once, in no promised order.
    pub fn into_entries(self) -> (r: Vec<(String, V)>)
        ensures
            forall|i: int|
                0 <= i < r@.len() ==> self@.contains_key((#[trigger] r@[i]).0@) && self@[r@[i].0@]
                    == r@[i].1,
            forall|key: Seq<char>|
                #![trigger self@.contains_key(key)]
                #![trigger has_entry(r@, key)]
                self@.contains_key(key) ==> has_entry(r@, key),
            forall|i: int, j: int|
                0 <= i < j < r@.len() ==> (#[trigger] r@[i]).0@ != (#[trigger] r@[j]).0@,
    {
        proof {
            use_type_invariant(&self);
            let entries = self.entries@;
            assert forall|i: int| 0 <= i < entries.len() implies self@.contains_key(
                (#[trigger] entries[i]).0@,
            ) && self@[entries[i].0@] == entries[i].1 by {
                lemma_lookup(entries, i);
            }
            assert forall|i: int, j: int| 0 <= i < j < entries.len() implies (
            #[trigger] entries[i]).0@ != (#[trigger] entries[j]).0@ by {
                assert(key_at(entries, i) != key_at(entries, j));
            }
            assert forall|key: Seq<char>| #[trigger] self@.contains_key(key) implies exists|i: int|
                0 <= i < entries.len() && (#[trigger] entries[i]).0@ == key by {
                let i = choose|i: int|
                    0 <= i < entries.len() && #[trigger] key_at(entries, i) == key;
                assert(entries[i].0@ == key);
            }
        }
        self.entries
    }
}

impl StringMap<String> {
    /// The same map once more.
    pub fn duplicate(&self) -> (r: Self)
        ensures
            r@ == self@,
    {
        proof {
            use_type_invariant(self);
        }
        let mut entries: Vec<(String, String)> = Vec::new();
        let mut i: usize = 0;
        while i < self.entries.len()
            invariant
                i <= self.entries@.len(),
                entries@ == self.entries@.take(i as int),
            decreases self.entries@.len() - i,
        {
            let entry = &self.entries[i];
            entries.push((entry.0.clone(), entry.1.clone()));
            assert(entries@ =~= self.entries@.take(i + 1));
            i = i + 1;
        }
        assert(entries@ =~= self.entries@);
        StringMap { entries }
    }
}

} // verus!
