//! A map from names (host names) to results, kept as a list of entries in
//! which no name occurs twice.
use vstd::prelude::*;

use crate::text::str_eq;

verus! {

/// Whether no two entries carry the same name.
pub open spec fn keys_distinct<V>(s: Seq<(String, V)>) -> bool {
    forall|i: int, j: int| 0 <= i < j < s.len() ==> s[i].0@ != s[j].0@
}

/// Whether some entry carries the name `k`.
pub open spec fn has_key<V>(s: Seq<(String, V)>, k: Seq<char>) -> bool {
    exists|i: int| 0 <= i < s.len() && s[i].0@ == k
}

/// The position of an entry that carries the name `k`.
pub open spec fn index_of_key<V>(s: Seq<(String, V)>, k: Seq<char>) -> int {
    choose|i: int| 0 <= i < s.len() && s[i].0@ == k
}

/// The map that a list of entries stands for.
pub open spec fn entries_view<V: View>(s: Seq<(String, V)>) -> Map<Seq<char>, V::V> {
    Map::new(|k: Seq<char>| has_key(s, k), |k: Seq<char>| s[index_of_key(s, k)].1@)
}

/// In a list without repeated names, the entry at `i` is what the map holds
/// for its name.
pub proof fn lemma_entry_in_view<V: View>(s: Seq<(String, V)>, i: int)
    requires
        keys_distinct(s),
        0 <= i < s.len(),
    ensures
        entries_view(s).contains_key(s[i].0@),
        entries_view(s)[s[i].0@] == s[i].1@,
{
    assert(has_key(s, s[i].0@));
    let j = index_of_key(s, s[i].0@);
    if j != i {
        if j < i {
            assert(s[j].0@ != s[i].0@);
        } else {
            assert(s[i].0@ != s[j].0@);
        }
    }
}

/// Results by name. Inserting a name that is present replaces its result.
#[derive(Debug)]
pub struct ResultMap<V> {
    entries: Vec<(String, V)>,
}

impl<V: View> View for ResultMap<V> {
    type V = Map<Seq<char>, V::V>;

    closed spec fn view(&self) -> Map<Seq<char>, V::V> {
        entries_view(self.entries@)
    }
}

impl<V> ResultMap<V> {
    #[verifier::type_invariant]
    spec fn inv(&self) -> bool {
        keys_distinct(self.entries@)
    }
}

impl<V: View> ResultMap<V> {
    /// An empty map.
    pub fn new() -> (m: Self)
        ensures
            m@ == Map::<Seq<char>, V::V>::empty(),
    {
        let m = ResultMap { entries: Vec::new() };
        assert(m@ =~= Map::<Seq<char>, V::V>::empty());
        m
    }

    /// The number of names in the map.
    pub fn len(&self) -> (n: usize)
        ensures
            n == self@.dom().len(),
    {
        proof {
            use_type_invariant(self);
            self.lemma_dom_len();
        }
        self.entries.len()
    }

    proof fn lemma_dom_len(&self)
        requires
            keys_distinct(self.entries@),
        ensures
            self@.dom().len() == self.entries@.len(),
            self@.dom().finite(),
    {
        let s = self.entries@;
        let keys = s.map_values(|e: (String, V)| e.0@);
        assert forall|k: Seq<char>| #[trigger] self@.dom().contains(k) <==> keys.contains(k) by {
            if self@.dom().contains(k) {
                let i = index_of_key(s, k);
                assert(keys[i] == k);
            }
            if keys.contains(k) {
                let i = choose|i: int| 0 <= i < keys.len() && keys[i] == k;
                assert(s[i].0@ == k);
            }
        }
        assert(self@.dom() =~= keys.to_set());
        assert(keys.no_duplicates()) by {
            assert forall|i: int, j: int| 0 <= i < keys.len() && 0 <= j < keys.len() && i != j
                implies keys[i] != keys[j] by {
                if i < j {
                    assert(s[i].0@ != s[j].0@);
                } else {
                    assert(s[j].0@ != s[i].0@);
                }
            }
        }
        keys.unique_seq_to_set();
    }

    fn find(&self, key: &str) -> (r: Option<usize>)
        ensures
            match r {
                Some(i) => i < self.entries@.len() && self.entries@[i as int].0@ == key@,
                None => !has_key(self.entries@, key@),
            },
    {
        let n = self.entries.len();
        let mut i: usize = 0;
        while i < n
            invariant
                n == self.entries@.len(),
                i <= n,
                forall|j: int| 0 <= j < i ==> self.entries@[j].0@ != key@,
            decreases n - i,
        {
            if str_eq(self.entries[i].0.as_str(), key) {
                return Some(i);
            }
            i = i + 1;
        }
        None
    }

    /// Whether the map holds a result for `key`.
    pub fn contains_key(&self, key: &str) -> (b: bool)
        ensures
            b == self@.contains_key(key@),
    {
        self.find(key).is_some()
    }

    /// The result held for `key`, if any.
    pub fn get(&self, key: &str) -> (r: Option<&V>)
        ensures
            r is Some == self@.contains_key(key@),
            r matches Some(v) ==> v@ == self@[key@],
    {
        proof {
            use_type_invariant(self);
        }
        match self.find(key) {
            Some(i) => {
                proof {
                    lemma_entry_in_view(self.entries@, i as int);
                }
                Some(&self.entries[i].1)
            },
            None => None,
        }
    }

    /// Records `value` for `key`, replacing what was held for it.
    pub fn insert(&mut self, key: String, value: V)
        ensures
            final(self)@ == old(self)@.insert(key@, value@),
    {
        proof {
            use_type_invariant(&*self);
        }
        let ghost old_entries = self.entries@;
        let ghost k = key@;
        let ghost v = value@;
        let found = self.find(key.as_str());
        let mut entries: Vec<(String, V)> = Vec::new();
        std::mem::swap(&mut entries, &mut self.entries);
        match found {
            Some(i) => {
                entries.set(i, (key, value));
                proof {
                    let s = entries@;
                    assert(s == old_entries.update(i as int, s[i as int]));
                    assert(keys_distinct(s)) by {
                        assert forall|a: int, b: int| 0 <= a < b < s.len() implies s[a].0@ != s[b].0@ by {
                            assert(old_entries[a].0@ != old_entries[b].0@);
                        }
                    }
                    assert forall|key2: Seq<char>| #[trigger] entries_view(s).contains_key(key2)
                        <==> (entries_view(old_entries).contains_key(key2) || key2 == k) by {
                        if has_key(s, key2) {
                            let j = index_of_key(s, key2);
                            if j != i {
                                assert(old_entries[j].0@ == key2);
                            }
                        }
                        if has_key(old_entries, key2) {
                            let j = index_of_key(old_entries, key2);
                            if j != i {
                                assert(s[j].0@ == key2);
                            } else {
                                assert(s[i as int].0@ == key2);
                            }
                        }
                        if key2 == k {
                            assert(s[i as int].0@ == key2);
                        }
                    }
                    assert forall|key2: Seq<char>| entries_view(s).contains_key(key2) implies
                        #[trigger] entries_view(s)[key2] == old_entries_view_insert(old_entries, k, v)[key2] by {
                        let j = index_of_key(s, key2);
                        lemma_entry_in_view(s, j);
                        if key2 != k {
                            assert(j != i);
                            assert(old_entries[j] == s[j]);
                            lemma_entry_in_view(old_entries, j);
                        }
                    }
                    assert(entries_view(s) =~= entries_view(old_entries).insert(k, v));
                }
            },
            None => {
                entries.push((key, value));
                proof {
                    let s = entries@;
                    assert(s == old_entries.push(s[s.len() - 1]));
                    assert(keys_distinct(s)) by {
                        assert forall|a: int, b: int| 0 <= a < b < s.len() implies s[a].0@ != s[b].0@ by {
                            if b == s.len() - 1 {
                                assert(old_entries[a].0@ != k);
                            } else {
                                assert(old_entries[a].0@ != old_entries[b].0@);
                            }
                        }
                    }
                    let last = s.len() - 1;
                    assert forall|key2: Seq<char>| #[trigger] entries_view(s).contains_key(key2)
                        <==> (entries_view(old_entries).contains_key(key2) || key2 == k) by {
                        if has_key(s, key2) {
                            let j = index_of_key(s, key2);
                            if j != last {
                                assert(old_entries[j].0@ == key2);
                            }
                        }
                        if has_key(old_entries, key2) {
                            let j = index_of_key(old_entries, key2);
                            assert(s[j].0@ == key2);
                        }
                        if key2 == k {
                            assert(s[last].0@ == key2);
                        }
                    }
                    assert forall|key2: Seq<char>| entries_view(s).contains_key(key2) implies
                        #[trigger] entries_view(s)[key2] == old_entries_view_insert(old_entries, k, v)[key2] by {
                        let j = index_of_key(s, key2);
                        lemma_entry_in_view(s, j);
                        if key2 != k {
                            assert(j != last);
                            assert(old_entries[j] == s[j]);
                            lemma_entry_in_view(old_entries, j);
                        }
                    }
                    assert(entries_view(s) =~= entries_view(old_entries).insert(k, v));
                }
            },
        }
        self.entries = entries;
    }

    /// The entries of the map, each name once.
    pub fn into_entries(self) -> (r: Vec<(String, V)>)
        ensures
            keys_distinct(r@),
            entries_view(r@) == self@,
    {
        proof {
            use_type_invariant(&self);
        }
        self.entries
    }
}

pub open spec fn old_entries_view_insert<V: View>(s: Seq<(String, V)>, k: Seq<char>, v: V::V) -> Map<
    Seq<char>,
    V::V,
> {
    entries_view(s).insert(k, v)
}

} // verus!
