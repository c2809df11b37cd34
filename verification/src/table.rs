//! A table of values keyed by 32-byte hashes, with at most one entry per key.
//! It stands for one family of persistent storage entries (`Device(hash)` or
//! `Bounty(hash)`); its view is the map from each key present to its value.

use vstd::prelude::*;
use crate::bytes::hashes_equal;

verus! {

broadcast use vstd::seq_lib::group_seq_properties;

/// One stored entry: a key and its value.
pub struct Entry<V> {
    pub key: [u8; 32],
    pub value: V,
}

/// Whether some entry of `s` has key `k`.
pub open spec fn seq_has<V>(s: Seq<Entry<V>>, k: Seq<u8>) -> bool {
    exists|i: int| 0 <= i < s.len() && #[trigger] s[i].key@ == k
}

/// The position of an entry of `s` with key `k`, where there is one.
pub open spec fn seq_index<V>(s: Seq<Entry<V>>, k: Seq<u8>) -> int {
    choose|i: int| 0 <= i < s.len() && #[trigger] s[i].key@ == k
}

/// No two entries of `s` share a key.
pub open spec fn keys_distinct<V>(s: Seq<Entry<V>>) -> bool {
    forall|i: int, j: int|
        0 <= i < s.len() && 0 <= j < s.len() && i != j ==> #[trigger] s[i].key@ != #[trigger] s[j].key@
}

/// The map from each key of `s` to the view of its value.
pub open spec fn seq_map<V: View>(s: Seq<Entry<V>>) -> Map<Seq<u8>, V::V> {
    Map::new(|k: Seq<u8>| seq_has(s, k), |k: Seq<u8>| s[seq_index(s, k)].value@)
}

/// The entry at position `i` is what the map holds for its key.
pub proof fn lemma_map_at<V: View>(s: Seq<Entry<V>>, i: int)
    requires
        keys_distinct(s),
        0 <= i < s.len(),
    ensures
        seq_map(s).contains_key(s[i].key@),
        seq_map(s)[s[i].key@] == s[i].value@,
{
    let k = s[i].key@;
    assert(seq_has(s, k));
    let j = seq_index(s, k);
    assert(s[j].key@ == k);
}

/// The domain of the map is finite.
pub proof fn lemma_map_finite<V: View>(s: Seq<Entry<V>>)
    ensures
        seq_map(s).dom().finite(),
{
    let keys = s.map_values(|e: Entry<V>| e.key@);
    assert(seq_map(s).dom() =~= keys.to_set()) by {
        assert forall|k: Seq<u8>| seq_map(s).dom().contains(k) implies keys.to_set().contains(k) by {
            let i = choose|i: int| 0 <= i < s.len() && #[trigger] s[i].key@ == k;
            assert(keys[i] == k);
        }
        assert forall|k: Seq<u8>| keys.to_set().contains(k) implies seq_map(s).dom().contains(k) by {
            let i = choose|i: int| 0 <= i < keys.len() && #[trigger] keys[i] == k;
            assert(s[i].key@ == k);
        }
    }
    vstd::seq_lib::seq_to_set_is_finite(keys);
}

/// Appending an entry with a new key adds that key to the map.
pub proof fn lemma_push<V: View>(s: Seq<Entry<V>>, e: Entry<V>)
    requires
        keys_distinct(s),
        !seq_has(s, e.key@),
    ensures
        keys_distinct(s.push(e)),
        seq_map(s.push(e)) =~= seq_map(s).insert(e.key@, e.value@),
{
    let t = s.push(e);
    assert forall|i: int, j: int|
        0 <= i < t.len() && 0 <= j < t.len() && i != j implies #[trigger] t[i].key@ != #[trigger] t[j].key@ by {
        if i < s.len() && j < s.len() {
            assert(t[i] == s[i] && t[j] == s[j]);
        } else if i < s.len() {
            assert(t[i] == s[i]);
        } else {
            assert(t[j] == s[j]);
        }
    }
    assert forall|k: Seq<u8>| #[trigger] seq_has(t, k) == (seq_has(s, k) || k == e.key@) by {
        if seq_has(s, k) {
            let i = choose|i: int| 0 <= i < s.len() && #[trigger] s[i].key@ == k;
            assert(t[i] == s[i]);
        }
        if k == e.key@ {
            assert(t[s.len() as int] == e);
        }
        if seq_has(t, k) && k != e.key@ {
            let i = choose|i: int| 0 <= i < t.len() && #[trigger] t[i].key@ == k;
            assert(i < s.len());
            assert(s[i] == t[i]);
        }
    }
    assert forall|k: Seq<u8>| #[trigger] seq_map(t).contains_key(k) implies seq_map(t)[k]
        == seq_map(s).insert(e.key@, e.value@)[k] by {
        let i = seq_index(t, k);
        lemma_map_at(t, i);
        if k != e.key@ {
            assert(i < s.len());
            assert(s[i] == t[i]);
            lemma_map_at(s, i);
        } else {
            lemma_map_at(t, s.len() as int);
        }
    }
}

/// Replacing the value at a position, key kept, replaces it in the map.
pub proof fn lemma_update<V: View>(s: Seq<Entry<V>>, i: int, e: Entry<V>)
    requires
        keys_distinct(s),
        0 <= i < s.len(),
        e.key@ == s[i].key@,
    ensures
        keys_distinct(s.update(i, e)),
        seq_map(s.update(i, e)) =~= seq_map(s).insert(e.key@, e.value@),
{
    let t = s.update(i, e);
    assert forall|a: int, b: int|
        0 <= a < t.len() && 0 <= b < t.len() && a != b implies #[trigger] t[a].key@ != #[trigger] t[b].key@ by {
        assert(t[a].key@ == s[a].key@);
        assert(t[b].key@ == s[b].key@);
    }
    assert forall|k: Seq<u8>| #[trigger] seq_has(t, k) == seq_has(s, k) by {
        if seq_has(s, k) {
            let j = choose|j: int| 0 <= j < s.len() && #[trigger] s[j].key@ == k;
            assert(t[j].key@ == k);
        }
        if seq_has(t, k) {
            let j = choose|j: int| 0 <= j < t.len() && #[trigger] t[j].key@ == k;
            assert(s[j].key@ == k);
        }
    }
    lemma_map_at(s, i);
    assert forall|k: Seq<u8>| #[trigger] seq_map(t).contains_key(k) implies seq_map(t)[k]
        == seq_map(s).insert(e.key@, e.value@)[k] by {
        let j = seq_index(t, k);
        lemma_map_at(t, j);
        if j != i {
            assert(s[j] == t[j]);
            lemma_map_at(s, j);
        }
    }
}

/// Removing the entry at a position removes its key from the map.
pub proof fn lemma_remove<V: View>(s: Seq<Entry<V>>, i: int)
    requires
        keys_distinct(s),
        0 <= i < s.len(),
    ensures
        keys_distinct(s.remove(i)),
        seq_map(s.remove(i)) =~= seq_map(s).remove(s[i].key@),
{
    let t = s.remove(i);
    let k0 = s[i].key@;
    assert forall|a: int, b: int|
        0 <= a < t.len() && 0 <= b < t.len() && a != b implies #[trigger] t[a].key@ != #[trigger] t[b].key@ by {
        let a2 = if a < i { a } else { a + 1 };
        let b2 = if b < i { b } else { b + 1 };
        assert(t[a] == s[a2] && t[b] == s[b2]);
    }
    assert forall|k: Seq<u8>| #[trigger] seq_has(t, k) == (seq_has(s, k) && k != k0) by {
        if seq_has(s, k) && k != k0 {
            let j = choose|j: int| 0 <= j < s.len() && #[trigger] s[j].key@ == k;
            assert(j != i);
            if j < i {
                assert(t[j] == s[j]);
            } else {
                assert(t[j - 1] == s[j]);
            }
        }
        if seq_has(t, k) {
            let j = choose|j: int| 0 <= j < t.len() && #[trigger] t[j].key@ == k;
            let j2 = if j < i { j } else { j + 1 };
            assert(t[j] == s[j2]);
            assert(j2 != i);
        }
    }
    assert forall|k: Seq<u8>| #[trigger] seq_map(t).contains_key(k) implies seq_map(t)[k]
        == seq_map(s).remove(k0)[k] by {
        let j = seq_index(t, k);
        lemma_map_at(t, j);
        let j2 = if j < i { j } else { j + 1 };
        assert(t[j] == s[j2]);
        lemma_map_at(s, j2);
    }
}

/// Values keyed by 32-byte hashes, one entry per key.
pub(crate) struct Table<V> {
    pub(crate) entries: Vec<Entry<V>>,
}

impl<V: View> View for Table<V> {
    type V = Map<Seq<u8>, V::V>;

    closed spec fn view(&self) -> Map<Seq<u8>, V::V> {
        seq_map(self.entries@)
    }
}

impl<V: View> Table<V> {
    /// The table's invariant: no key occurs twice.
    pub(crate) open spec fn wf(&self) -> bool {
        keys_distinct(self.entries@)
    }

    /// The set of keys present is finite.
    pub(crate) proof fn lemma_finite(&self)
        ensures
            self@.dom().finite(),
    {
        lemma_map_finite(self.entries@);
    }

    /// An empty table.
    pub(crate) fn new() -> (r: Self)
        ensures
            r.wf(),
            r@ == Map::<Seq<u8>, V::V>::empty(),
    {
        let r = Table { entries: Vec::new() };
        assert(r@ =~= Map::<Seq<u8>, V::V>::empty());
        r
    }

    /// The position of the entry with key `key`, if there is one.
    pub(crate) fn find(&self, key: &[u8; 32]) -> (r: Option<usize>)
        requires
            self.wf(),
        ensures
            match r {
                Some(i) => i < self.entries@.len() && self.entries@[i as int].key@ == key@
                    && self@.contains_key(key@) && self@[key@] == self.entries@[i as int].value@,
                None => !self@.contains_key(key@),
            },
    {
        let n = self.entries.len();
        let mut i: usize = 0;
        while i < n
            invariant
                self.wf(),
                n == self.entries@.len(),
                i <= n,
                forall|j: int| 0 <= j < i ==> #[trigger] self.entries@[j].key@ != key@,
            decreases n - i,
        {
            if hashes_equal(&self.entries[i].key, key) {
                proof {
                    lemma_map_at(self.entries@, i as int);
                }
                return Some(i);
            }
            i = i + 1;
        }
        None
    }

    /// The value stored under `key`, if any.
    pub(crate) fn get(&self, key: &[u8; 32]) -> (r: Option<&V>)
        requires
            self.wf(),
        ensures
            match r {
                Some(v) => self@.contains_key(key@) && v@ == self@[key@],
                None => !self@.contains_key(key@),
            },
    {
        match self.find(key) {
            Some(i) => Some(&self.entries[i].value),
            None => None,
        }
    }

    /// Stores `value` under `key`, replacing what was there.
    pub(crate) fn set(&mut self, key: [u8; 32], value: V)
        requires
            old(self).wf(),
        ensures
            final(self).wf(),
            final(self)@ == old(self)@.insert(key@, value@),
    {
        let e = Entry { key, value };
        match self.find(&key) {
            Some(i) => {
                proof {
                    lemma_update(self.entries@, i as int, e);
                }
                self.entries.set(i, e);
            },
            None => {
                proof {
                    lemma_push(self.entries@, e);
                }
                self.entries.push(e);
            },
        }
    }

    /// Removes the entry under `key`, if any, and returns its value.
    pub(crate) fn remove(&mut self, key: &[u8; 32]) -> (r: Option<V>)
        requires
            old(self).wf(),
        ensures
            final(self).wf(),
            final(self)@ == old(self)@.remove(key@),
            match r {
                Some(v) => old(self)@.contains_key(key@) && v@ == old(self)@[key@],
                None => !old(self)@.contains_key(key@),
            },
    {
        match self.find(key) {
            Some(i) => {
                proof {
                    lemma_remove(self.entries@, i as int);
                }
                let e = self.entries.remove(i);
                Some(e.value)
            },
            None => {
                assert(self@.remove(key@) =~= self@);
                None
            },
        }
    }
}

} // verus!
