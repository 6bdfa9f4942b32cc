//! A string-keyed map kept as an association list whose keys never repeat.
//!
//! Its abstract view is a `Map<Seq<char>, V>`; lookups compare keys by their
//! character sequences.
use vstd::prelude::*;

verus! {

/// Whether two string slices hold the same characters, compared one by one.
pub fn str_eq(a: &str, b: &str) -> (r: bool)
    ensures
        r == (a@ == b@),
{
    broadcast use vstd::string::axiom_spec_iter, vstd::string::next_postcondition;

    let mut ai = a.chars();
    let mut bi = b.chars();
    let ghost mut k: int = 0;
    loop
        invariant
            0 <= k <= a@.len(),
            k <= b@.len(),
            vstd::std_specs::iter::IteratorSpec::remaining(&ai) == a@.skip(k),
            vstd::std_specs::iter::IteratorSpec::remaining(&bi) == b@.skip(k),
            a@.take(k) == b@.take(k),
        decreases a@.len() - k,
    {
        let x = ai.next();
        let y = bi.next();
        match (x, y) {
            (None, None) => {
                assert(a@ == a@.take(k) && b@ == b@.take(k));
                return true;
            },
            (Some(c), Some(d)) => {
                if c != d {
                    assert(a@[k] != b@[k]);
                    return false;
                }
                proof {
                    assert(a@.take(k + 1) == a@.take(k).push(c));
                    assert(b@.take(k + 1) == b@.take(k).push(d));
                    k = k + 1;
                }
            },
            _ => {
                assert(a@.len() != b@.len());
                return false;
            },
        }
    }
}

/// No two entries share a key.
pub open spec fn keys_unique<V>(s: Seq<(String, V)>) -> bool {
    forall|i: int, j: int|
        0 <= i < s.len() && 0 <= j < s.len() && i != j ==> #[trigger] s[i].0@ != #[trigger] s[j].0@
}

/// Some entry has key `k`.
pub open spec fn has_key<V>(s: Seq<(String, V)>, k: Seq<char>) -> bool {
    exists|i: int| 0 <= i < s.len() && #[trigger] s[i].0@ == k
}

/// An index whose entry has key `k` (meaningful when `has_key(s, k)`).
pub open spec fn key_index<V>(s: Seq<(String, V)>, k: Seq<char>) -> int {
    choose|i: int| 0 <= i < s.len() && #[trigger] s[i].0@ == k
}

/// The map that an association list stands for.
pub open spec fn entries_map<V>(s: Seq<(String, V)>) -> Map<Seq<char>, V> {
    Map::new(|k: Seq<char>| has_key(s, k), |k: Seq<char>| s[key_index(s, k)].1)
}

/// With unique keys, the entry at `i` is the one that `key_index` finds.
pub proof fn lemma_key_index_unique<V>(s: Seq<(String, V)>, i: int)
    requires
        keys_unique(s),
        0 <= i < s.len(),
    ensures
        has_key(s, s[i].0@),
        key_index(s, s[i].0@) == i,
        entries_map(s).contains_key(s[i].0@),
        entries_map(s)[s[i].0@] == s[i].1,
{
    assert(has_key(s, s[i].0@));
    let j = key_index(s, s[i].0@);
    assert(s[j].0@ == s[i].0@);
}

/// With unique keys the map has as many entries as the list.
pub proof fn lemma_entries_map_len<V>(s: Seq<(String, V)>)
    requires
        keys_unique(s),
    ensures
        entries_map(s).dom().finite(),
        entries_map(s).len() == s.len(),
    decreases s.len(),
{
    if s.len() == 0 {
        assert(entries_map(s).dom() =~= Set::<Seq<char>>::empty());
    } else {
        let t = s.drop_last();
        assert(keys_unique(t)) by {
            assert forall|i: int, j: int|
                0 <= i < t.len() && 0 <= j < t.len() && i != j implies #[trigger] t[i].0@
                != #[trigger] t[j].0@ by {
                assert(t[i] == s[i] && t[j] == s[j]);
            }
        }
        lemma_entries_map_len(t);
        let k = s.last().0@;
        assert(entries_map(s).dom() =~= entries_map(t).dom().insert(k)) by {
            assert forall|x: Seq<char>| entries_map(s).dom().contains(x) implies entries_map(
                t,
            ).dom().contains(x) || x == k by {
                let i = key_index(s, x);
                if i < s.len() - 1 {
                    assert(t[i] == s[i]);
                }
            }
            assert forall|x: Seq<char>| entries_map(t).dom().contains(x) implies entries_map(
                s,
            ).dom().contains(x) by {
                let i = key_index(t, x);
                assert(s[i] == t[i]);
            }
            assert(s[s.len() - 1].0@ == k);
        }
        assert(!entries_map(t).dom().contains(k)) by {
            if entries_map(t).dom().contains(k) {
                let i = key_index(t, k);
                assert(s[i] == t[i]);
                assert(s[i].0@ == s[s.len() - 1].0@);
            }
        }
    }
}

/// Entries given by references, as pairs of their key and value.
pub open spec fn entry_pairs<V>(s: Seq<(&String, &V)>) -> Seq<(String, V)> {
    s.map_values(|e: (&String, &V)| (*e.0, *e.1))
}

/// A map from strings to values whose keys never repeat.
#[derive(Debug)]
pub struct StrMap<V> {
    pub(crate) entries: Vec<(String, V)>,
}

impl<V> View for StrMap<V> {
    type V = Map<Seq<char>, V>;

    closed spec fn view(&self) -> Map<Seq<char>, V> {
        entries_map(self.entries@)
    }
}

impl<V> StrMap<V> {
    /// Keys are unique.
    #[verifier::type_invariant]
    pub(crate) closed spec fn wf(self) -> bool {
        keys_unique(self.entries@)
    }

    /// The entries in the order in which they were first inserted.
    pub closed spec fn entry_seq(self) -> Seq<(String, V)> {
        self.entries@
    }

    /// Inside the crate, the entry sequence is the stored list.
    pub(crate) proof fn lemma_entry_seq(&self)
        ensures
            self.entry_seq() == self.entries@,
            self@ == entries_map(self.entries@),
    {
    }

    /// Creates an empty map.
    pub fn new() -> (m: Self)
        ensures
            m@ == Map::<Seq<char>, V>::empty(),
            m.entry_seq().len() == 0,
    {
        let m = StrMap { entries: Vec::new() };
        assert(m@ =~= Map::<Seq<char>, V>::empty());
        m
    }

    /// The position of the entry with key `key`, if any.
    pub fn find(&self, key: &str) -> (r: Option<usize>)
        ensures
            match r {
                Some(i) => i < self.entry_seq().len() && self.entry_seq()[i as int].0@ == key@
                    && self@.contains_key(key@) && self@[key@] == self.entry_seq()[i as int].1,
                None => !self@.contains_key(key@),
            },
    {
        proof {
            use_type_invariant(self);
        }
        let n = self.entries.len();
        let mut i: usize = 0;
        while i < n
            invariant
                n == self.entries@.len(),
                i <= n,
                keys_unique(self.entries@),
                forall|j: int| 0 <= j < i ==> self.entries@[j].0@ != key@,
            decreases n - i,
        {
            if str_eq(self.entries[i].0.as_str(), key) {
                proof {
                    lemma_key_index_unique(self.entries@, i as int);
                }
                return Some(i);
            }
            i = i + 1;
        }
        assert(!self@.contains_key(key@)) by {
            if has_key(self.entries@, key@) {
                let j = key_index(self.entries@, key@);
                assert(self.entries@[j].0@ == key@);
            }
        }
        None
    }

    /// The number of entries.
    pub fn len(&self) -> (r: usize)
        ensures
            r == self@.len(),
            r == self.entry_seq().len(),
            self@.dom().finite(),
            self@ == entries_map(self.entry_seq()),
            keys_unique(self.entry_seq()),
    {
        proof {
            use_type_invariant(self);
            lemma_entries_map_len(self.entries@);
        }
        self.entries.len()
    }

    /// Whether the map has no entries.
    pub fn is_empty(&self) -> (r: bool)
        ensures
            r == (self@.len() == 0),
            self@.dom().finite(),
    {
        self.len() == 0
    }

    /// Whether some entry has key `key`.
    pub fn contains_key(&self, key: &str) -> (r: bool)
        ensures
            r == self@.contains_key(key@),
    {
        self.find(key).is_some()
    }

    /// The value stored under `key`, if any.
    pub fn get(&self, key: &str) -> (r: Option<&V>)
        ensures
            match r {
                Some(v) => self@.contains_key(key@) && *v == self@[key@],
                None => !self@.contains_key(key@),
            },
    {
        match self.find(key) {
            Some(i) => Some(&self.entries[i].1),
            None => None,
        }
    }

    /// The key and value of the entry at position `i`.
    pub fn entry_at(&self, i: usize) -> (r: (&String, &V))
        requires
            i < self.entry_seq().len(),
        ensures
            *r.0 == self.entry_seq()[i as int].0,
            *r.1 == self.entry_seq()[i as int].1,
            self@.contains_key(r.0@),
            self@[r.0@] == *r.1,
    {
        proof {
            use_type_invariant(self);
            lemma_key_index_unique(self.entries@, i as int);
        }
        let e = &self.entries[i];
        (&e.0, &e.1)
    }

    /// Stores `value` under `key`, returning the value that was there before.
    pub fn insert(&mut self, key: String, value: V) -> (r: Option<V>)
        ensures
            final(self)@ == old(self)@.insert(key@, value),
            match r {
                Some(v) => old(self)@.contains_key(key@) && v == old(self)@[key@],
                None => !old(self)@.contains_key(key@),
            },
            old(self)@.contains_key(key@) ==> exists|i: int|
                0 <= i < old(self).entry_seq().len() && (#[trigger] old(self).entry_seq()[i]).0@
                    == key@ && final(self).entry_seq() == old(self).entry_seq().update(
                    i,
                    (key, value),
                ),
            !old(self)@.contains_key(key@) ==> final(self).entry_seq() == old(
                self,
            ).entry_seq().push((key, value)),
    {
        proof {
            use_type_invariant(&*self);
        }
        let ghost old_s = self.entries@;
        let found = self.find(key.as_str());
        let mut entries: Vec<(String, V)> = Vec::new();
        std::mem::swap(&mut entries, &mut self.entries);
        match found {
            Some(i) => {
                let ghost k = key@;
                let old_entry = entries.remove(i);
                entries.insert(i, (key, value));
                let ghost s = entries@;
                assert(s =~= old_s.update(i as int, s[i as int]));
                assert(keys_unique(s)) by {
                    assert forall|a: int, b: int|
                        0 <= a < s.len() && 0 <= b < s.len() && a != b implies #[trigger] s[a].0@
                        != #[trigger] s[b].0@ by {
                        assert(old_s[a].0@ != old_s[b].0@);
                    }
                }
                proof {
                    lemma_key_index_unique(s, i as int);
                    assert(entries_map(s) =~= entries_map(old_s).insert(k, value)) by {
                        assert forall|x: Seq<char>| #[trigger]
                            entries_map(s).contains_key(x) <==> entries_map(old_s).insert(
                                k,
                                value,
                            ).contains_key(x) by {
                            if has_key(s, x) {
                                let j = key_index(s, x);
                                assert(j == i || old_s[j] == s[j]);
                            }
                            if has_key(old_s, x) {
                                let j = key_index(old_s, x);
                                assert(j == i || old_s[j] == s[j]);
                            }
                        }
                        assert forall|x: Seq<char>| #[trigger]
                            entries_map(s).contains_key(x) implies entries_map(s)[x]
                            == entries_map(old_s).insert(k, value)[x] by {
                            let j = key_index(s, x);
                            if j != i {
                                assert(old_s[j] == s[j]);
                                lemma_key_index_unique(old_s, j);
                                lemma_key_index_unique(s, j);
                            }
                        }
                    }
                }
                assert(old_s[i as int].0@ == key@);
                self.entries = entries;
                Some(old_entry.1)
            },
            None => {
                let ghost k = key@;
                entries.push((key, value));
                let ghost s = entries@;
                assert(keys_unique(s)) by {
                    assert forall|a: int, b: int|
                        0 <= a < s.len() && 0 <= b < s.len() && a != b implies #[trigger] s[a].0@
                        != #[trigger] s[b].0@ by {
                        if a < old_s.len() && b < old_s.len() {
                            assert(old_s[a] == s[a] && old_s[b] == s[b]);
                        } else if a < old_s.len() {
                            assert(old_s[a] == s[a]);
                            assert(has_key(old_s, s[a].0@));
                        } else {
                            assert(old_s[b] == s[b]);
                            assert(has_key(old_s, s[b].0@));
                        }
                    }
                }
                proof {
                    lemma_key_index_unique(s, old_s.len() as int);
                    assert(entries_map(s) =~= entries_map(old_s).insert(k, value)) by {
                        assert forall|x: Seq<char>| #[trigger]
                            entries_map(s).contains_key(x) <==> entries_map(old_s).insert(
                                k,
                                value,
                            ).contains_key(x) by {
                            if has_key(s, x) {
                                let j = key_index(s, x);
                                if j < old_s.len() {
                                    assert(old_s[j] == s[j]);
                                }
                            }
                            if has_key(old_s, x) {
                                let j = key_index(old_s, x);
                                assert(old_s[j] == s[j]);
                            }
                        }
                        assert forall|x: Seq<char>| #[trigger]
                            entries_map(s).contains_key(x) implies entries_map(s)[x]
                            == entries_map(old_s).insert(k, value)[x] by {
                            let j = key_index(s, x);
                            if j < old_s.len() {
                                assert(old_s[j] == s[j]);
                                lemma_key_index_unique(old_s, j);
                                lemma_key_index_unique(s, j);
                            }
                        }
                    }
                }
                self.entries = entries;
                None
            },
        }
    }

    /// Removes the entry with key `key`, returning its value.
    pub fn remove(&mut self, key: &str) -> (r: Option<V>)
        ensures
            final(self)@ == old(self)@.remove(key@),
            match r {
                Some(v) => old(self)@.contains_key(key@) && v == old(self)@[key@],
                None => !old(self)@.contains_key(key@),
            },
    {
        proof {
            use_type_invariant(&*self);
        }
        let ghost old_s = self.entries@;
        match self.find(key) {
            Some(i) => {
                let mut entries: Vec<(String, V)> = Vec::new();
        std::mem::swap(&mut entries, &mut self.entries);
                let old_entry = entries.remove(i);
                let ghost s = entries@;
                assert(forall|j: int| 0 <= j < i ==> s[j] == old_s[j]);
                assert(forall|j: int| i <= j < s.len() ==> s[j] == old_s[j + 1]);
                assert(keys_unique(s)) by {
                    assert forall|a: int, b: int|
                        0 <= a < s.len() && 0 <= b < s.len() && a != b implies #[trigger] s[a].0@
                        != #[trigger] s[b].0@ by {
                        let oa = if a < i { a } else { a + 1 };
                        let ob = if b < i { b } else { b + 1 };
                        assert(old_s[oa].0@ != old_s[ob].0@);
                    }
                }
                proof {
                    assert(entries_map(s) =~= entries_map(old_s).remove(key@)) by {
                        assert forall|x: Seq<char>| #[trigger]
                            entries_map(s).contains_key(x) <==> entries_map(old_s).remove(
                                key@,
                            ).contains_key(x) by {
                            if has_key(s, x) {
                                let j = key_index(s, x);
                                let oj = if j < i { j } else { j + 1 };
                                assert(old_s[oj].0@ == x);
                                assert(old_s[oj].0@ != old_s[i as int].0@);
                            }
                            if has_key(old_s, x) && x != key@ {
                                let j = key_index(old_s, x);
                                assert(j != i);
                                let nj = if j < i { j } else { j - 1 };
                                assert(s[nj] == old_s[j]);
                            }
                        }
                        assert forall|x: Seq<char>| #[trigger]
                            entries_map(s).contains_key(x) implies entries_map(s)[x]
                            == entries_map(old_s).remove(key@)[x] by {
                            let j = key_index(s, x);
                            let oj = if j < i { j } else { j + 1 };
                            assert(s[j] == old_s[oj]);
                            lemma_key_index_unique(old_s, oj);
                            lemma_key_index_unique(s, j);
                        }
                    }
                }
                assert(old_s[i as int].0@ == key@);
                self.entries = entries;
                Some(old_entry.1)
            },
            None => {
                assert(entries_map(old_s) =~= entries_map(old_s).remove(key@));
                None
            },
        }
    }

    /// The entries, in order, giving up the map.
    pub fn into_entries(self) -> (r: Vec<(String, V)>)
        ensures
            r@ == self.entry_seq(),
            keys_unique(r@),
    {
        proof {
            use_type_invariant(&self);
        }
        self.entries
    }

    /// A map made of entries whose keys do not repeat, in their order.
    pub fn from_entries(entries: Vec<(String, V)>) -> (m: Self)
        requires
            keys_unique(entries@),
        ensures
            m.entry_seq() == entries@,
            m@ == entries_map(entries@),
    {
        StrMap { entries }
    }

    /// The entries in insertion order, each as references to its key and
    /// value.
    pub fn entries(&self) -> (r: Vec<(&String, &V)>)
        ensures
            entry_pairs(r@) == self.entry_seq(),
            keys_unique(entry_pairs(r@)),
            entries_map(entry_pairs(r@)) == self@,
    {
        proof {
            use_type_invariant(self);
        }
        let mut out: Vec<(&String, &V)> = Vec::new();
        let n = self.entries.len();
        let mut i: usize = 0;
        while i < n
            invariant
                n == self.entries@.len(),
                i <= n,
                out@.len() == i,
                entry_pairs(out@) == self.entries@.take(i as int),
            decreases n - i,
        {
            let e = &self.entries[i];
            let ghost prev = out@;
            out.push((&e.0, &e.1));
            proof {
                assert forall|j: int| 0 <= j < i + 1 implies #[trigger] entry_pairs(out@)[j]
                    == self.entries@[j] by {
                    if j < i {
                        assert(out@[j] == prev[j]);
                        assert(entry_pairs(prev)[j] == self.entries@.take(i as int)[j]);
                    }
                }
                assert(entry_pairs(out@) =~= self.entries@.take(i as int + 1));
            }
            i = i + 1;
        }
        proof {
            assert(self.entries@.take(n as int) =~= self.entries@);
        }
        out
    }

    /// The keys in insertion order.
    pub fn keys(&self) -> (r: Vec<String>)
        ensures
            r@.len() == self.entry_seq().len(),
            forall|i: int| 0 <= i < r@.len() ==> #[trigger] r@[i] == self.entry_seq()[i].0,
    {
        let mut out: Vec<String> = Vec::new();
        let n = self.entries.len();
        let mut i: usize = 0;
        while i < n
            invariant
                n == self.entries@.len(),
                i <= n,
                out@.len() == i,
                forall|j: int| 0 <= j < i ==> #[trigger] out@[j] == self.entries@[j].0,
            decreases n - i,
        {
            out.push(self.entries[i].0.clone());
            i = i + 1;
        }
        out
    }
}

} // verus!
