//! The process environment as a map from variable names to values.
use vstd::prelude::*;
use vstd::string::*;

verus! {

/// Whether no two entries share a key.
pub open spec fn keys_distinct(entries: Seq<(String, String)>) -> bool {
    forall|i: int, j: int|
        0 <= i < entries.len() && 0 <= j < entries.len() && i != j ==> entries[i].0@ != entries[j].0@
}

/// Whether some entry has the key `key`.
pub open spec fn has_key(entries: Seq<(String, String)>, key: Seq<char>) -> bool {
    exists|i: int| 0 <= i < entries.len() && entries[i].0@ == key
}

/// The map that a list of entries with distinct keys stands for.
pub open spec fn entries_map(entries: Seq<(String, String)>) -> Map<Seq<char>, Seq<char>> {
    Map::new(
        |k: Seq<char>| has_key(entries, k),
        |k: Seq<char>| entries[choose|i: int| 0 <= i < entries.len() && entries[i].0@ == k].1@,
    )
}

/// Reading a variable just set gives the value it was set to; the other
/// variables are as before.
pub proof fn law_read_after_insert(
    map: Map<Seq<char>, Seq<char>>,
    key: Seq<char>,
    value: Seq<char>,
    other: Seq<char>,
)
    requires
        other != key,
    ensures
        map.insert(key, value).contains_key(key),
        map.insert(key, value)[key] == value,
        map.insert(key, value).contains_key(other) == map.contains_key(other),
        map.contains_key(other) ==> map.insert(key, value)[other] == map[other],
{
}

/// Environment variables by name. Each name occurs at most once, as in a
/// hash map.
pub struct EnvMap {
    entries: Vec<(String, String)>,
}

impl View for EnvMap {
    type V = Map<Seq<char>, Seq<char>>;

    closed spec fn view(&self) -> Map<Seq<char>, Seq<char>> {
        entries_map(self.entries@)
    }
}

/// With distinct keys, the entry at `i` is what the map holds for its key.
proof fn lemma_entry_in_map(entries: Seq<(String, String)>, i: int)
    requires
        keys_distinct(entries),
        0 <= i < entries.len(),
    ensures
        entries_map(entries).contains_key(entries[i].0@),
        entries_map(entries)[entries[i].0@] == entries[i].1@,
{
    let k = entries[i].0@;
    assert(has_key(entries, k));
    let c = choose|j: int| 0 <= j < entries.len() && entries[j].0@ == k;
    assert(c == i);
}

impl EnvMap {
    #[verifier::type_invariant]
    spec fn well_formed(self) -> bool {
        keys_distinct(self.entries@)
    }

    /// An empty map.
    pub fn new() -> (r: Self)
        ensures
            r@ == Map::<Seq<char>, Seq<char>>::empty(),
    {
        let r = EnvMap { entries: Vec::new() };
        assert(r@ =~= Map::<Seq<char>, Seq<char>>::empty());
        r
    }

    /// The number of variables.
    pub fn len(&self) -> (r: usize)
        ensures
            r == self@.len(),
    {
        proof {
            use_type_invariant(self);
            self.lemma_len();
        }
        self.entries.len()
    }

    proof fn lemma_len(&self)
        requires
            keys_distinct(self.entries@),
        ensures
            self@.len() == self.entries@.len(),
        decreases self.entries@.len(),
    {
        let s = self.entries@;
        let keys = Seq::new(s.len(), |i: int| s[i].0@);
        assert(keys.no_duplicates());
        keys.unique_seq_to_set();
        assert(keys.to_set() =~= self@.dom()) by {
            assert forall|k: Seq<char>| keys.to_set().contains(k) implies self@.dom().contains(k) by {
                let i = choose|i: int| 0 <= i < keys.len() && keys[i] == k;
                assert(has_key(s, k));
            }
            assert forall|k: Seq<char>| self@.dom().contains(k) implies keys.to_set().contains(k) by {
                let i = choose|i: int| 0 <= i < s.len() && s[i].0@ == k;
                assert(keys[i] == k);
            }
        }
    }

    /// The index of the entry with key `key`, if there is one.
    fn find(&self, key: &String) -> (r: Option<usize>)
        ensures
            match r {
                Some(i) => i < self.entries@.len() && self.entries@[i as int].0@ == key@,
                None => !has_key(self.entries@, key@),
            },
    {
        let n = self.entries.len();
        for i in 0..n
            invariant
                n == self.entries@.len(),
                forall|j: int| 0 <= j < i ==> self.entries@[j].0@ != key@,
        {
            if self.entries[i].0 == *key {
                return Some(i);
            }
        }
        None
    }

    /// The value of the variable `key`, if it is set.
    pub fn get(&self, key: &str) -> (r: Option<&String>)
        ensures
            match r {
                Some(v) => self@.contains_key(key@) && v@ == self@[key@],
                None => !self@.contains_key(key@),
            },
    {
        proof {
            use_type_invariant(self);
        }
        let k = String::from_str(key);
        match self.find(&k) {
            Some(i) => {
                proof {
                    lemma_entry_in_map(self.entries@, i as int);
                }
                Some(&self.entries[i].1)
            },
            None => None,
        }
    }

    /// Sets the variable `key` to `value`, replacing any value it had.
    pub fn insert(&mut self, key: String, value: String)
        ensures
            final(self)@ == old(self)@.insert(key@, value@),
    {
        proof {
            use_type_invariant(&*self);
        }
        let ghost old_entries = self.entries@;
        let ghost k = key@;
        let ghost v = value@;
        let found = self.find(&key);
        let mut entries: Vec<(String, String)> = Vec::new();
        std::mem::swap(&mut entries, &mut self.entries);
        match found {
            Some(i) => {
                entries.set(i, (key, value));
                proof {
                    let s = entries@;
                    assert(s == old_entries.update(i as int, s[i as int]));
                    assert(keys_distinct(s)) by {
                        assert forall|a: int, b: int|
                            0 <= a < s.len() && 0 <= b < s.len() && a != b implies s[a].0@
                            != s[b].0@ by {
                            if a != i && b != i {
                                assert(s[a] == old_entries[a] && s[b] == old_entries[b]);
                            } else if a == i {
                                assert(s[b] == old_entries[b]);
                            } else {
                                assert(s[a] == old_entries[a]);
                            }
                        }
                    }
                    lemma_insert_view(entries@, old_entries, k, v);
                }
            },
            None => {
                entries.push((key, value));
                proof {
                    let s = entries@;
                    assert(keys_distinct(s)) by {
                        assert forall|a: int, b: int|
                            0 <= a < s.len() && 0 <= b < s.len() && a != b implies s[a].0@
                            != s[b].0@ by {
                            if a < old_entries.len() && b < old_entries.len() {
                                assert(s[a] == old_entries[a] && s[b] == old_entries[b]);
                            } else if a < old_entries.len() {
                                assert(s[a] == old_entries[a]);
                            } else {
                                assert(s[b] == old_entries[b]);
                            }
                        }
                    }
                    assert(s[old_entries.len() as int].0@ == k);
                    lemma_insert_view(entries@, old_entries, k, v);
                }
            },
        }
        self.entries = entries;
    }
}

/// After an insert that kept the keys distinct, the new entries stand for
/// the old map with `k` set to `v`.
proof fn lemma_insert_view(
    new_entries: Seq<(String, String)>,
    old_entries: Seq<(String, String)>,
    k: Seq<char>,
    v: Seq<char>,
)
        requires
            keys_distinct(old_entries),
            keys_distinct(new_entries),
            has_key(new_entries, k),
            forall|i: int|
                0 <= i < new_entries.len() && new_entries[i].0@ == k ==> new_entries[i].1@
                    == v,
            forall|i: int|
                0 <= i < new_entries.len() && new_entries[i].0@ != k ==> (0 <= i
                    < old_entries.len() && new_entries[i] == old_entries[i]),
            forall|i: int|
                0 <= i < old_entries.len() && old_entries[i].0@ != k ==> (i < new_entries.len()
                    && new_entries[i] == old_entries[i]),
        ensures
            entries_map(new_entries) == entries_map(old_entries).insert(k, v),
    {
        let s = new_entries;
        let target = entries_map(old_entries).insert(k, v);
        assert forall|key: Seq<char>| #[trigger] entries_map(new_entries).contains_key(key) <==> target.contains_key(key) by {
            if key != k {
                if has_key(s, key) {
                    let i = choose|i: int| 0 <= i < s.len() && s[i].0@ == key;
                    assert(old_entries[i].0@ == key);
                }
                if has_key(old_entries, key) {
                    let i = choose|i: int| 0 <= i < old_entries.len() && old_entries[i].0@ == key;
                    assert(s[i].0@ == key);
                }
            }
        }
        assert forall|key: Seq<char>| #[trigger] entries_map(new_entries).contains_key(key) implies entries_map(new_entries)[key]
            == target[key] by {
            let i = choose|i: int| 0 <= i < s.len() && s[i].0@ == key;
            lemma_entry_in_map(s, i);
            if key != k {
                lemma_entry_in_map(old_entries, i);
            }
        }
        assert(entries_map(new_entries) =~= target);
    }

} // verus!
