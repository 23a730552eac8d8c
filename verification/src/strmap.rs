//! A small map from text keys to values that keeps its entries in the order
//! in which their keys first arrived.

use vstd::prelude::*;
use vstd::string::*;
use crate::text::str_eq;

verus! {

/// Whether some entry of `s` has the key `k`.
pub open spec fn has_key<V>(s: Seq<(Seq<char>, V)>, k: Seq<char>) -> bool {
    exists|i: int| 0 <= i < s.len() && (#[trigger] s[i]).0 == k
}

/// The position of an entry of `s` with the key `k`.
pub open spec fn position<V>(s: Seq<(Seq<char>, V)>, k: Seq<char>) -> int {
    choose|i: int| 0 <= i < s.len() && (#[trigger] s[i]).0 == k
}

/// The value filed under `k`.
pub open spec fn value_of<V>(s: Seq<(Seq<char>, V)>, k: Seq<char>) -> V
    recommends
        has_key(s, k),
{
    s[position(s, k)].1
}

/// No key occurs twice.
pub open spec fn distinct_keys<V>(s: Seq<(Seq<char>, V)>) -> bool {
    forall|i: int, j: int|
        0 <= i < s.len() && 0 <= j < s.len() && (#[trigger] s[i]).0 == (#[trigger] s[j]).0 ==> i
            == j
}

/// `s` with `v` filed under `k`: in place of the entry that has the key, or
/// as a new last entry.
pub open spec fn with_entry<V>(s: Seq<(Seq<char>, V)>, k: Seq<char>, v: V) -> Seq<(Seq<char>, V)> {
    if has_key(s, k) {
        s.update(position(s, k), (k, v))
    } else {
        s.push((k, v))
    }
}

/// `s` without the entry that has the key `k`, if there is one.
pub open spec fn without_key<V>(s: Seq<(Seq<char>, V)>, k: Seq<char>) -> Seq<(Seq<char>, V)> {
    if has_key(s, k) {
        s.remove(position(s, k))
    } else {
        s
    }
}

/// With distinct keys, the position of a key is the one place where it stands.
pub proof fn lemma_position_unique<V>(s: Seq<(Seq<char>, V)>, i: int)
    requires
        distinct_keys(s),
        0 <= i < s.len(),
    ensures
        has_key(s, s[i].0),
        position(s, s[i].0) == i,
        value_of(s, s[i].0) == s[i].1,
{
}

/// Filing a value keeps the keys distinct and makes it the value of its key.
pub proof fn lemma_with_entry<V>(s: Seq<(Seq<char>, V)>, k: Seq<char>, v: V)
    requires
        distinct_keys(s),
    ensures
        distinct_keys(with_entry(s, k, v)),
        has_key(with_entry(s, k, v), k),
        value_of(with_entry(s, k, v), k) == v,
        forall|o: Seq<char>| o != k ==> has_key(with_entry(s, k, v), o) == has_key(s, o),
        forall|o: Seq<char>| o != k && has_key(s, o) ==> value_of(with_entry(s, k, v), o) == value_of(s, o),
{
    let t = with_entry(s, k, v);
    if has_key(s, k) {
        let p = position(s, k);
        assert(t[p].0 == k);
        assert forall|o: Seq<char>| o != k implies has_key(t, o) == has_key(s, o) by {
            if has_key(s, o) {
                let q = position(s, o);
                assert(t[q].0 == o);
            }
            if has_key(t, o) {
                let q = position(t, o);
                assert(s[q].0 == o);
            }
        }
        assert forall|o: Seq<char>| o != k && has_key(s, o) implies value_of(t, o) == value_of(s, o) by {
            let q = position(s, o);
            assert(t[q].0 == o);
            lemma_position_unique(t, q);
        }
        lemma_position_unique(t, p);
    } else {
        let p = s.len() as int;
        assert(t[p].0 == k);
        assert forall|o: Seq<char>| o != k implies has_key(t, o) == has_key(s, o) by {
            if has_key(s, o) {
                let q = position(s, o);
                assert(t[q].0 == o);
            }
            if has_key(t, o) {
                let q = position(t, o);
                assert(s[q].0 == o);
            }
        }
        assert forall|o: Seq<char>| o != k && has_key(s, o) implies value_of(t, o) == value_of(s, o) by {
            let q = position(s, o);
            assert(t[q].0 == o);
            lemma_position_unique(t, q);
        }
        lemma_position_unique(t, p);
    }
}

/// Removing a key keeps the keys distinct, removes that key and no other.
pub proof fn lemma_without_key<V>(s: Seq<(Seq<char>, V)>, k: Seq<char>)
    requires
        distinct_keys(s),
    ensures
        distinct_keys(without_key(s, k)),
        !has_key(without_key(s, k), k),
        forall|o: Seq<char>| o != k ==> has_key(without_key(s, k), o) == has_key(s, o),
        forall|o: Seq<char>| o != k && has_key(s, o) ==> value_of(without_key(s, k), o) == value_of(s, o),
{
    let t = without_key(s, k);
    if has_key(s, k) {
        let p = position(s, k);
        assert forall|i: int| 0 <= i < t.len() implies #[trigger] t[i] == s[if i < p { i } else { i + 1 }] by {}
        assert(distinct_keys(t)) by {
            assert forall|i: int, j: int|
                0 <= i < t.len() && 0 <= j < t.len() && (#[trigger] t[i]).0 == (#[trigger] t[j]).0 implies i == j by {
                let si = if i < p { i } else { i + 1 };
                let sj = if j < p { j } else { j + 1 };
                assert(s[si].0 == s[sj].0);
            }
        }
        if has_key(t, k) {
            let q = position(t, k);
            let sq = if q < p { q } else { q + 1 };
            assert(s[sq].0 == k);
            assert(false);
        }
        assert forall|o: Seq<char>| o != k implies has_key(t, o) == has_key(s, o) by {
            if has_key(s, o) {
                let q = position(s, o);
                let tq = if q < p { q } else { q - 1 };
                assert(t[tq].0 == o);
            }
            if has_key(t, o) {
                let q = position(t, o);
                let sq = if q < p { q } else { q + 1 };
                assert(s[sq].0 == o);
            }
        }
        assert forall|o: Seq<char>| o != k && has_key(s, o) implies value_of(t, o) == value_of(s, o) by {
            let q = position(s, o);
            let tq = if q < p { q } else { q - 1 };
            assert(t[tq] == s[q]);
            lemma_position_unique(t, tq);
        }
    }
}

/// One entry of a [`StrMap`].
pub struct Entry<V> {
    key: String,
    value: V,
}

/// A map from text keys to values, in the order of first insertion. Its view
/// is the sequence of its entries: each key with the view of its value.
pub struct StrMap<V: View> {
    entries: Vec<Entry<V>>,
}

impl<V: View> View for StrMap<V> {
    type V = Seq<(Seq<char>, V::V)>;

    closed spec fn view(&self) -> Seq<(Seq<char>, V::V)> {
        pairs(self.entries@)
    }
}

spec fn pairs<V: View>(entries: Seq<Entry<V>>) -> Seq<(Seq<char>, V::V)> {
    Seq::new(entries.len(), |i: int| (entries[i].key@, entries[i].value@))
}

impl<V: View> StrMap<V> {
    /// No key occurs twice. Holds of every map that this module hands out.
    #[verifier::type_invariant]
    pub open spec fn wf(&self) -> bool {
        distinct_keys(self@)
    }

    pub fn new() -> (m: Self)
        ensures
            m@ == Seq::<(Seq<char>, V::V)>::empty(),
            m.wf(),
    {
        let m = Self { entries: Vec::new() };
        assert(m@ =~= Seq::<(Seq<char>, V::V)>::empty());
        m
    }

    pub fn len(&self) -> (n: usize)
        ensures
            n == self@.len(),
            self.wf(),
    {
        proof {
            use_type_invariant(self);
        }
        self.entries.len()
    }

    pub fn is_empty(&self) -> (r: bool)
        ensures
            r == (self@.len() == 0),
    {
        self.entries.len() == 0
    }

    /// The position of `key`, if it is present.
    pub fn find(&self, key: &str) -> (r: Option<usize>)
        ensures
            self.wf(),
            match r {
                Some(i) => i < self@.len() && self@[i as int].0 == key@ && has_key(self@, key@)
                    && position(self@, key@) == i,
                None => !has_key(self@, key@),
            },
    {
        proof {
            use_type_invariant(self);
        }
        let mut i: usize = 0;
        while i < self.entries.len()
            invariant
                i <= self.entries.len(),
                distinct_keys(self@),
                forall|j: int| 0 <= j < i ==> (#[trigger] self@[j]).0 != key@,
            decreases self.entries.len() - i,
        {
            if str_eq(self.entries[i].key.as_str(), key) {
                proof {
                    lemma_position_unique(self@, i as int);
                }
                return Some(i);
            }
            i += 1;
        }
        None
    }

    pub fn contains_key(&self, key: &str) -> (r: bool)
        ensures
            r == has_key(self@, key@),
            self.wf(),
    {
        self.find(key).is_some()
    }

    pub fn get(&self, key: &str) -> (r: Option<&V>)
        ensures
            self.wf(),
            match r {
                Some(v) => has_key(self@, key@) && v@ == value_of(self@, key@),
                None => !has_key(self@, key@),
            },
    {
        match self.find(key) {
            Some(i) => Some(&self.entries[i].value),
            None => None,
        }
    }

    /// The key of the entry at position `i`.
    pub fn key_at(&self, i: usize) -> (k: &String)
        requires
            i < self@.len(),
        ensures
            k@ == self@[i as int].0,
    {
        &self.entries[i].key
    }

    /// The value of the entry at position `i`.
    pub fn value_at(&self, i: usize) -> (v: &V)
        requires
            i < self@.len(),
        ensures
            v@ == self@[i as int].1,
    {
        &self.entries[i].value
    }

    /// Files `value` under `key`, in place of the value that the key had.
    pub fn insert(&mut self, key: String, value: V)
        ensures
            final(self)@ == with_entry(old(self)@, key@, value@),
            final(self).wf(),
    {
        proof {
            use_type_invariant(&*self);
            lemma_with_entry(self@, key@, value@);
        }
        let ghost before = self@;
        match self.find(key.as_str()) {
            Some(i) => {
                let mut entries: Vec<Entry<V>> = Vec::new();
                core::mem::swap(&mut entries, &mut self.entries);
                entries.set(i, Entry { key, value });
                assert(pairs(entries@) =~= with_entry(before, key@, value@));
                self.entries = entries;
            },
            None => {
                let mut entries: Vec<Entry<V>> = Vec::new();
                core::mem::swap(&mut entries, &mut self.entries);
                entries.push(Entry { key, value });
                assert(pairs(entries@) =~= with_entry(before, key@, value@));
                self.entries = entries;
            },
        }
    }

    /// Removes the entry of `key` and hands out its value.
    pub fn remove(&mut self, key: &str) -> (r: Option<V>)
        ensures
            final(self)@ == without_key(old(self)@, key@),
            final(self).wf(),
            match r {
                Some(v) => has_key(old(self)@, key@) && v@ == value_of(old(self)@, key@),
                None => !has_key(old(self)@, key@),
            },
    {
        proof {
            use_type_invariant(&*self);
            lemma_without_key(self@, key@);
        }
        let ghost before = self@;
        match self.find(key) {
            Some(i) => {
                let mut entries: Vec<Entry<V>> = Vec::new();
                core::mem::swap(&mut entries, &mut self.entries);
                let e = entries.remove(i);
                assert(pairs(entries@) =~= without_key(before, key@));
                self.entries = entries;
                Some(e.value)
            },
            None => None,
        }
    }

    pub fn clear(&mut self)
        ensures
            final(self)@ == Seq::<(Seq<char>, V::V)>::empty(),
            final(self).wf(),
    {
        self.entries = Vec::new();
        assert(self@ =~= Seq::<(Seq<char>, V::V)>::empty());
    }
}

} // verus!
