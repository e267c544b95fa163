//! A string-keyed table that keeps its entries in insertion order.
//!
//! The table is viewed as the sequence of its `(key, value)` entries; keys are
//! unique, an update of a present key keeps its position, and a new key goes
//! to the end.

use vstd::prelude::*;

verus! {

/// No key occurs twice among the entries.
pub open spec fn unique_keys<V>(s: Seq<(Seq<char>, V)>) -> bool {
    forall|i: int, j: int| 0 <= i < s.len() && 0 <= j < s.len() && i != j ==> #[trigger] s[i].0 != #[trigger] s[j].0
}

/// `k` is the key of some entry.
pub open spec fn has_key<V>(s: Seq<(Seq<char>, V)>, k: Seq<char>) -> bool {
    exists|i: int| 0 <= i < s.len() && #[trigger] s[i].0 == k
}

/// Position of the entry with key `k` (meaningful when `has_key(s, k)`).
pub open spec fn key_pos<V>(s: Seq<(Seq<char>, V)>, k: Seq<char>) -> int {
    choose|i: int| 0 <= i < s.len() && #[trigger] s[i].0 == k
}

/// The value stored under `k`, if any.
pub open spec fn lookup<V>(s: Seq<(Seq<char>, V)>, k: Seq<char>) -> Option<V> {
    if has_key(s, k) {
        Some(s[key_pos(s, k)].1)
    } else {
        None
    }
}

/// The entries after storing `v` under `k`: in place when `k` is present,
/// appended otherwise.
pub open spec fn upsert<V>(s: Seq<(Seq<char>, V)>, k: Seq<char>, v: V) -> Seq<(Seq<char>, V)> {
    if has_key(s, k) {
        s.update(key_pos(s, k), (k, v))
    } else {
        s.push((k, v))
    }
}

/// The keys of the entries, in order.
pub open spec fn keys_of<V>(s: Seq<(Seq<char>, V)>) -> Seq<Seq<char>> {
    s.map_values(|e: (Seq<char>, V)| e.0)
}

/// With unique keys, the entry at position `i` is the one `lookup` finds.
pub proof fn lemma_lookup_at<V>(s: Seq<(Seq<char>, V)>, i: int)
    requires
        unique_keys(s),
        0 <= i < s.len(),
    ensures
        has_key(s, s[i].0),
        key_pos(s, s[i].0) == i,
        lookup(s, s[i].0) == Some(s[i].1),
{
    assert(s[i].0 == s[i].0);
    let p = key_pos(s, s[i].0);
    assert(s[p].0 == s[i].0);
}

/// `upsert` keeps keys unique and stores `v` under `k`.
pub proof fn lemma_upsert<V>(s: Seq<(Seq<char>, V)>, k: Seq<char>, v: V)
    requires
        unique_keys(s),
    ensures
        unique_keys(upsert(s, k, v)),
        lookup(upsert(s, k, v), k) == Some(v),
        forall|k2: Seq<char>| k2 != k ==> lookup(upsert(s, k, v), k2) == lookup(s, k2),
        has_key(s, k) ==> upsert(s, k, v).len() == s.len(),
        !has_key(s, k) ==> upsert(s, k, v).len() == s.len() + 1,
{
    let t = upsert(s, k, v);
    if has_key(s, k) {
        let p = key_pos(s, k);
        assert(s[p].0 == k);
        assert forall|i: int, j: int| 0 <= i < t.len() && 0 <= j < t.len() && i != j implies #[trigger] t[i].0 != #[trigger] t[j].0 by {
            if i == p {
                assert(s[j].0 != s[p].0);
            } else if j == p {
                assert(s[i].0 != s[p].0);
            } else {
                assert(s[i].0 != s[j].0);
            }
        }
        lemma_lookup_at(t, p);
        assert forall|k2: Seq<char>| k2 != k implies lookup(t, k2) == lookup(s, k2) by {
            if has_key(s, k2) {
                let q = key_pos(s, k2);
                assert(q != p);
                assert(t[q] == s[q]);
                lemma_lookup_at(t, q);
            } else {
                if has_key(t, k2) {
                    let q = key_pos(t, k2);
                    if q == p {
                    } else {
                        assert(s[q].0 == k2);
                    }
                }
            }
        }
    } else {
        let n = s.len() as int;
        assert forall|i: int, j: int| 0 <= i < t.len() && 0 <= j < t.len() && i != j implies #[trigger] t[i].0 != #[trigger] t[j].0 by {
            if i == n {
                if s[j].0 == k {
                    assert(has_key(s, k));
                }
            } else if j == n {
                if s[i].0 == k {
                    assert(has_key(s, k));
                }
            } else {
                assert(s[i].0 != s[j].0);
            }
        }
        lemma_lookup_at(t, n);
        assert forall|k2: Seq<char>| k2 != k implies lookup(t, k2) == lookup(s, k2) by {
            if has_key(s, k2) {
                let q = key_pos(s, k2);
                assert(t[q] == s[q]);
                lemma_lookup_at(t, q);
            } else {
                if has_key(t, k2) {
                    let q = key_pos(t, k2);
                    if q < n {
                        assert(s[q].0 == k2);
                    }
                }
            }
        }
    }
}

/// A table of values under unique string keys, in insertion order.
pub struct KeyedList<V> {
    entries: Vec<(String, V)>,
}

impl<V> View for KeyedList<V> {
    type V = Seq<(Seq<char>, V)>;

    closed spec fn view(&self) -> Seq<(Seq<char>, V)> {
        self.entries@.map_values(|e: (String, V)| (e.0@, e.1))
    }
}

impl<V> KeyedList<V> {
    /// An empty table.
    pub fn new() -> (t: Self)
        ensures
            t@ == Seq::<(Seq<char>, V)>::empty(),
    {
        let t = KeyedList { entries: Vec::new() };
        assert(t@ =~= Seq::<(Seq<char>, V)>::empty());
        t
    }

    /// Number of entries.
    pub fn len(&self) -> (n: usize)
        ensures
            n == self@.len(),
    {
        self.entries.len()
    }

    /// The key of the entry at position `i`.
    pub fn key_at(&self, i: usize) -> (k: &String)
        requires
            i < self@.len(),
        ensures
            k@ == self@[i as int].0,
    {
        &self.entries[i].0
    }

    /// The value of the entry at position `i`.
    pub fn value_at(&self, i: usize) -> (v: &V)
        requires
            i < self@.len(),
        ensures
            *v == self@[i as int].1,
    {
        &self.entries[i].1
    }

    /// Position of the entry with key `k`, if there is one.
    pub fn position(&self, k: &str) -> (r: Option<usize>)
        requires
            unique_keys(self@),
        ensures
            match r {
                Some(i) => i < self@.len() && self@[i as int].0 == k@ && key_pos(self@, k@) == i
                    && has_key(self@, k@),
                None => !has_key(self@, k@),
            },
    {
        let mut i: usize = 0;
        while i < self.entries.len()
            invariant
                0 <= i <= self.entries@.len(),
                self@.len() == self.entries@.len(),
                unique_keys(self@),
                forall|j: int| 0 <= j < i ==> self@[j].0 != k@,
            decreases self.entries.len() - i,
        {
            if crate::text::str_eq(self.entries[i].0.as_str(), k) {
                proof { lemma_lookup_at(self@, i as int); }
                return Some(i);
            }
            i = i + 1;
        }
        None
    }

    /// The value stored under `k`, if any.
    pub fn get(&self, k: &str) -> (r: Option<&V>)
        requires
            unique_keys(self@),
        ensures
            match r {
                Some(v) => lookup(self@, k@) == Some(*v),
                None => lookup(self@, k@) is None,
            },
    {
        match self.position(k) {
            Some(i) => Some(&self.entries[i].1),
            None => None,
        }
    }

    /// Replaces the value of the entry at position `i`, keeping its key.
    pub fn set_value_at(&mut self, i: usize, v: V)
        requires
            i < old(self)@.len(),
        ensures
            final(self)@ == old(self)@.update(i as int, (old(self)@[i as int].0, v)),
    {
        let k = self.entries[i].0.clone();
        self.entries.set(i, (k, v));
        assert(self@ =~= old(self)@.update(i as int, (old(self)@[i as int].0, v)));
    }

    /// Puts `v` in place of the value at position `i`, keeping its key, and
    /// hands back the value it held.
    pub fn replace_value_at(&mut self, i: usize, v: V) -> (prev: V)
        requires
            i < old(self)@.len(),
        ensures
            prev == old(self)@[i as int].1,
            final(self)@ == old(self)@.update(i as int, (old(self)@[i as int].0, v)),
    {
        let ghost before = self.entries@;
        let (k, prev) = self.entries.remove(i);
        self.entries.insert(i, (k, v));
        assert(self@ =~= old(self)@.update(i as int, (old(self)@[i as int].0, v)));
        prev
    }

    /// Stores `v` under `k`: in place when `k` is present, appended otherwise.
    pub fn insert(&mut self, k: String, v: V)
        requires
            unique_keys(old(self)@),
        ensures
            final(self)@ == upsert(old(self)@, k@, v),
            unique_keys(final(self)@),
    {
        proof { lemma_upsert(self@, k@, v); }
        match self.position(k.as_str()) {
            Some(i) => {
                self.entries.set(i, (k, v));
                assert(self@ =~= upsert(old(self)@, k@, v));
            },
            None => {
                self.entries.push((k, v));
                assert(self@ =~= upsert(old(self)@, k@, v));
            },
        }
    }

    /// Removes every entry.
    pub fn clear(&mut self)
        ensures
            final(self)@ == Seq::<(Seq<char>, V)>::empty(),
    {
        self.entries.clear();
        assert(self@ =~= Seq::<(Seq<char>, V)>::empty());
    }
}

impl<V: Copy> KeyedList<V> {
    /// An independent copy of the table.
    pub fn duplicate(&self) -> (t: Self)
        ensures
            t@ == self@,
    {
        let mut entries: Vec<(String, V)> = Vec::new();
        let mut i: usize = 0;
        while i < self.entries.len()
            invariant
                0 <= i <= self.entries@.len(),
                entries@.len() == i,
                forall|j: int| 0 <= j < i ==> (#[trigger] entries@[j]).0@ == self.entries@[j].0@
                    && entries@[j].1 == self.entries@[j].1,
            decreases self.entries.len() - i,
        {
            let k = self.entries[i].0.clone();
            let v = self.entries[i].1;
            entries.push((k, v));
            i = i + 1;
        }
        let t = KeyedList { entries };
        assert(t@ =~= self@);
        t
    }
}

impl<T> KeyedList<Vec<T>> {
    /// Appends `x` to the list stored at position `i`.
    pub fn push_value_at(&mut self, i: usize, x: T)
        requires
            i < old(self)@.len(),
        ensures
            final(self)@.len() == old(self)@.len(),
            forall|j: int| 0 <= j < old(self)@.len() && j != i ==> #[trigger] final(self)@[j] == old(self)@[j],
            final(self)@[i as int].0 == old(self)@[i as int].0,
            final(self)@[i as int].1@ == old(self)@[i as int].1@.push(x),
    {
        self.entries[i].1.push(x);
    }
}

/// The entries of a table of strings, each value taken by its characters.
pub open spec fn text_entries(s: Seq<(Seq<char>, String)>) -> Seq<(Seq<char>, Seq<char>)> {
    s.map_values(|e: (Seq<char>, String)| (e.0, e.1@))
}

/// Storing a string and then taking the values by their characters is
/// storing the characters.
pub proof fn lemma_text_upsert(s: Seq<(Seq<char>, String)>, k: Seq<char>, v: String)
    requires
        unique_keys(s),
    ensures
        text_entries(upsert(s, k, v)) == upsert(text_entries(s), k, v@),
{
    let t = text_entries(s);
    if has_key(s, k) {
        let i = key_pos(s, k);
        lemma_lookup_at(s, i);
        assert(t[i].0 == k);
        assert(has_key(t, k));
        assert(unique_keys(t)) by {
            assert forall|a: int, b: int| 0 <= a < t.len() && 0 <= b < t.len() && a != b implies #[trigger] t[a].0 != #[trigger] t[b].0 by {
                assert(s[a].0 != s[b].0);
            }
        }
        lemma_lookup_at(t, i);
        assert(text_entries(upsert(s, k, v)) =~= upsert(t, k, v@));
    } else {
        assert(!has_key(t, k)) by {
            if has_key(t, k) {
                let j = choose|j: int| 0 <= j < t.len() && #[trigger] t[j].0 == k;
                assert(s[j].0 == k);
            }
        }
        assert(text_entries(upsert(s, k, v)) =~= upsert(t, k, v@));
    }
}

/// The entries of a table, each value taken by its view.
pub open spec fn viewed<V: View>(s: Seq<(Seq<char>, V)>) -> Seq<(Seq<char>, V::V)> {
    s.map_values(|e: (Seq<char>, V)| (e.0, e.1@))
}

/// Storing a value and then taking the values by their views is storing
/// the view.
pub proof fn lemma_viewed_upsert<V: View>(s: Seq<(Seq<char>, V)>, k: Seq<char>, v: V)
    requires
        unique_keys(s),
    ensures
        viewed(upsert(s, k, v)) == upsert(viewed(s), k, v@),
        unique_keys(viewed(s)),
        has_key(viewed(s), k) == has_key(s, k),
{
    let t = viewed(s);
    assert(unique_keys(t)) by {
        assert forall|a: int, b: int| 0 <= a < t.len() && 0 <= b < t.len() && a != b implies #[trigger] t[a].0 != #[trigger] t[b].0 by {
            assert(s[a].0 != s[b].0);
        }
    }
    if has_key(s, k) {
        let i = key_pos(s, k);
        lemma_lookup_at(s, i);
        assert(t[i].0 == k);
        assert(has_key(t, k));
        lemma_lookup_at(t, i);
        assert(viewed(upsert(s, k, v)) =~= upsert(t, k, v@));
    } else {
        assert(!has_key(t, k)) by {
            if has_key(t, k) {
                let j = choose|j: int| 0 <= j < t.len() && #[trigger] t[j].0 == k;
                assert(s[j].0 == k);
            }
        }
        assert(viewed(upsert(s, k, v)) =~= upsert(t, k, v@));
    }
}

/// Taking values by their views keeps keys, positions and uniqueness.
pub proof fn lemma_viewed_keys<V: View>(s: Seq<(Seq<char>, V)>, k: Seq<char>)
    requires
        unique_keys(s),
    ensures
        unique_keys(viewed(s)),
        has_key(viewed(s), k) == has_key(s, k),
        has_key(s, k) ==> key_pos(viewed(s), k) == key_pos(s, k) && s[key_pos(s, k)].0 == k
            && 0 <= key_pos(s, k) < s.len(),
{
    let t = viewed(s);
    assert(unique_keys(t)) by {
        assert forall|a: int, b: int| 0 <= a < t.len() && 0 <= b < t.len() && a != b implies #[trigger] t[a].0 != #[trigger] t[b].0 by {
            assert(s[a].0 != s[b].0);
        }
    }
    if has_key(s, k) {
        let i = key_pos(s, k);
        lemma_lookup_at(s, i);
        assert(t[i].0 == k);
        lemma_lookup_at(t, i);
    } else {
        if has_key(t, k) {
            let j = choose|j: int| 0 <= j < t.len() && #[trigger] t[j].0 == k;
            assert(s[j].0 == k);
        }
    }
}

impl KeyedList<String> {
    /// An independent copy of a table of strings.
    pub fn duplicate_text(&self) -> (t: Self)
        ensures
            text_entries(t@) == text_entries(self@),
            t@.len() == self@.len(),
            keys_of(t@) == keys_of(self@),
    {
        let mut entries: Vec<(String, String)> = Vec::new();
        let mut i: usize = 0;
        while i < self.entries.len()
            invariant
                0 <= i <= self.entries@.len(),
                entries@.len() == i,
                forall|j: int| 0 <= j < i ==> (#[trigger] entries@[j]).0@ == self.entries@[j].0@
                    && entries@[j].1@ == self.entries@[j].1@,
            decreases self.entries.len() - i,
        {
            let k = self.entries[i].0.clone();
            let v = self.entries[i].1.clone();
            entries.push((k, v));
            i = i + 1;
        }
        let t = KeyedList { entries };
        assert(text_entries(t@) =~= text_entries(self@));
        assert(keys_of(t@) =~= keys_of(self@));
        t
    }
}

} // verus!
