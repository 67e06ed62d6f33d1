//! `Table`: a finite map from 32-byte keys (addresses, hashes, peer ids) to
//! values, kept as a vector of entries in insertion order with no key twice.

use vstd::prelude::*;
use crate::bytes::{bytes32_eq, bytes_lt, push_all, seq_lt, lemma_seq_lt_asymmetric, lemma_seq_lt_irreflexive, lemma_seq_lt_total, lemma_seq_lt_transitive};

verus! {

/// A key of a `Table`: it has a mathematical view, and equality of keys is
/// equality of their views.
pub trait TableKey: Sized {
    type KV;

    spec fn kview(&self) -> Self::KV;

    fn key_eq(&self, other: &Self) -> (r: bool)
        ensures
            r == (self.kview() == other.kview()),
    ;
}

impl TableKey for [u8; 32] {
    type KV = Seq<u8>;

    open spec fn kview(&self) -> Seq<u8> {
        self@
    }

    fn key_eq(&self, other: &Self) -> (r: bool) {
        bytes32_eq(self, other)
    }
}

impl TableKey for Vec<u8> {
    type KV = Seq<u8>;

    open spec fn kview(&self) -> Seq<u8> {
        self@
    }

    fn key_eq(&self, other: &Self) -> (r: bool) {
        crate::bytes::bytes_eq(self.as_slice(), other.as_slice())
    }
}

impl TableKey for String {
    type KV = Seq<char>;

    open spec fn kview(&self) -> Seq<char> {
        self@
    }

    fn key_eq(&self, other: &Self) -> (r: bool) {
        <String as PartialEq>::eq(self, other)
    }
}

impl TableKey for u64 {
    type KV = u64;

    open spec fn kview(&self) -> u64 {
        *self
    }

    fn key_eq(&self, other: &Self) -> (r: bool) {
        *self == *other
    }
}

/// A finite map from keys to values. Entries keep their insertion order;
/// no key occurs twice.
#[derive(Clone, Debug)]
pub struct Table<K, V> {
    entries: Vec<(K, V)>,
}

/// The keys of a sequence of entries, each taken by its byte view.
pub open spec fn entry_keys<K: TableKey, V>(s: Seq<(K, V)>) -> Seq<K::KV> {
    s.map_values(|e: (K, V)| e.0.kview())
}

/// The position of key `k` among the entries (meaningful when it occurs).
pub open spec fn key_index<K: TableKey, V>(s: Seq<(K, V)>, k: K::KV) -> int {
    choose|i: int| 0 <= i < s.len() && s[i].0.kview() == k
}

/// The map that a sequence of entries with distinct keys stands for.
pub open spec fn entries_map<K: TableKey, V>(s: Seq<(K, V)>) -> Map<K::KV, V> {
    Map::new(
        |k: K::KV| exists|i: int| 0 <= i < s.len() && s[i].0.kview() == k,
        |k: K::KV| s[key_index(s, k)].1,
    )
}

/// No two entries share a key.
pub open spec fn distinct_keys<K: TableKey, V>(s: Seq<(K, V)>) -> bool {
    forall|i: int, j: int| 0 <= i < s.len() && 0 <= j < s.len() && i != j ==> s[i].0.kview() != s[j].0.kview()
}

/// With distinct keys, the entry at position `i` is the one the map gives for its key.
pub proof fn lemma_entry_in_map<K: TableKey, V>(s: Seq<(K, V)>, i: int)
    requires
        distinct_keys(s),
        0 <= i < s.len(),
    ensures
        entries_map(s).dom().contains(s[i].0.kview()),
        key_index(s, s[i].0.kview()) == i,
        entries_map(s)[s[i].0.kview()] == s[i].1,
{
    let k = s[i].0.kview();
    assert(0 <= i < s.len() && s[i].0.kview() == k);
    let j = key_index(s, k);
    assert(0 <= j < s.len() && s[j].0.kview() == k);
}

/// The domain of the map is the set of keys, and it has one element per entry.
pub proof fn lemma_map_len<K: TableKey, V>(s: Seq<(K, V)>)
    requires
        distinct_keys(s),
    ensures
        entries_map(s).dom() == entry_keys(s).to_set(),
        entries_map(s).dom().finite(),
        entries_map(s).dom().len() == s.len(),
{
    let ks = entry_keys(s);
    assert forall|k: K::KV| entries_map(s).dom().contains(k) <==> ks.to_set().contains(k) by {
        if entries_map(s).dom().contains(k) {
            let i = choose|i: int| 0 <= i < s.len() && s[i].0.kview() == k;
            assert(ks[i] == k);
        }
        if ks.to_set().contains(k) {
            let i = choose|i: int| 0 <= i < ks.len() && ks[i] == k;
            assert(s[i].0.kview() == k);
        }
    }
    assert(entries_map(s).dom() =~= ks.to_set());
    assert(ks.no_duplicates()) by {
        assert forall|i: int, j: int| 0 <= i < ks.len() && 0 <= j < ks.len() && i != j implies ks[i]
            != ks[j] by {
            assert(ks[i] == s[i].0.kview());
            assert(ks[j] == s[j].0.kview());
        }
    }
    ks.unique_seq_to_set();
    vstd::seq_lib::seq_to_set_is_finite(ks);
}

/// Appending an entry with a fresh key inserts it into the map.
pub proof fn lemma_push<K: TableKey, V>(s: Seq<(K, V)>, k: K, v: V)
    requires
        distinct_keys(s),
        !entries_map(s).dom().contains(k.kview()),
    ensures
        distinct_keys(s.push((k, v))),
        entries_map(s.push((k, v))) == entries_map(s).insert(k.kview(), v),
{
    let t = s.push((k, v));
    assert forall|i: int| 0 <= i < s.len() implies s[i].0.kview() != k.kview() by {
        lemma_entry_in_map(s, i);
    }
    assert(distinct_keys(t));
    assert forall|key: K::KV| #[trigger] entries_map(t).dom().contains(key)
        <==> entries_map(s).insert(k.kview(), v).dom().contains(key) by {
        if entries_map(t).dom().contains(key) {
            let i = choose|i: int| 0 <= i < t.len() && t[i].0.kview() == key;
            if i < s.len() {
                assert(s[i].0.kview() == key);
            }
        }
        if entries_map(s).dom().contains(key) {
            let i = choose|i: int| 0 <= i < s.len() && s[i].0.kview() == key;
            assert(t[i].0.kview() == key);
        }
        if key == k.kview() {
            assert(t[s.len() as int].0.kview() == key);
        }
    }
    assert forall|key: K::KV| entries_map(t).dom().contains(key) implies #[trigger] entries_map(
        t,
    )[key] == entries_map(s).insert(k.kview(), v)[key] by {
        let i = choose|i: int| 0 <= i < t.len() && t[i].0.kview() == key;
        lemma_entry_in_map(t, i);
        if i < s.len() {
            assert(s[i] == t[i]);
            lemma_entry_in_map(s, i);
        }
    }
    assert(entries_map(t) =~= entries_map(s).insert(k.kview(), v));
}

/// Replacing the value at position `i` updates the map at that key.
pub proof fn lemma_update<K: TableKey, V>(s: Seq<(K, V)>, i: int, v: V)
    requires
        distinct_keys(s),
        0 <= i < s.len(),
    ensures
        distinct_keys(s.update(i, (s[i].0, v))),
        entries_map(s.update(i, (s[i].0, v))) == entries_map(s).insert(s[i].0.kview(), v),
{
    let t = s.update(i, (s[i].0, v));
    assert(distinct_keys(t)) by {
        assert forall|a: int, b: int| 0 <= a < t.len() && 0 <= b < t.len() && a != b implies t[a].0.kview()
            != t[b].0.kview() by {
            assert(t[a].0.kview() == s[a].0.kview());
            assert(t[b].0.kview() == s[b].0.kview());
        }
    }
    assert forall|key: K::KV| #[trigger] entries_map(t).dom().contains(key)
        <==> entries_map(s).insert(s[i].0.kview(), v).dom().contains(key) by {
        if entries_map(t).dom().contains(key) {
            let j = choose|j: int| 0 <= j < t.len() && t[j].0.kview() == key;
            assert(s[j].0.kview() == key);
        }
        if entries_map(s).dom().contains(key) {
            let j = choose|j: int| 0 <= j < s.len() && s[j].0.kview() == key;
            assert(t[j].0.kview() == key);
        }
        if key == s[i].0.kview() {
            assert(t[i].0.kview() == key);
        }
    }
    assert forall|key: K::KV| entries_map(t).dom().contains(key) implies #[trigger] entries_map(
        t,
    )[key] == entries_map(s).insert(s[i].0.kview(), v)[key] by {
        let j = choose|j: int| 0 <= j < t.len() && t[j].0.kview() == key;
        lemma_entry_in_map(t, j);
        if j != i {
            lemma_entry_in_map(s, j);
        }
    }
    assert(entries_map(t) =~= entries_map(s).insert(s[i].0.kview(), v));
}

/// Removing the entry at position `i` removes its key from the map.
pub proof fn lemma_remove<K: TableKey, V>(s: Seq<(K, V)>, i: int)
    requires
        distinct_keys(s),
        0 <= i < s.len(),
    ensures
        distinct_keys(s.remove(i)),
        entries_map(s.remove(i)) == entries_map(s).remove(s[i].0.kview()),
{
    let t = s.remove(i);
    let k = s[i].0.kview();
    assert(distinct_keys(t)) by {
        assert forall|a: int, b: int| 0 <= a < t.len() && 0 <= b < t.len() && a != b implies t[a].0.kview()
            != t[b].0.kview() by {
            let sa = if a < i { a } else { a + 1 };
            let sb = if b < i { b } else { b + 1 };
            assert(t[a] == s[sa]);
            assert(t[b] == s[sb]);
        }
    }
    assert forall|key: K::KV| #[trigger] entries_map(t).dom().contains(key)
        <==> entries_map(s).remove(k).dom().contains(key) by {
        if entries_map(t).dom().contains(key) {
            let j = choose|j: int| 0 <= j < t.len() && t[j].0.kview() == key;
            let sj = if j < i { j } else { j + 1 };
            assert(t[j] == s[sj]);
            assert(s[sj].0.kview() == key);
            assert(sj != i);
        }
        if entries_map(s).dom().contains(key) && key != k {
            let j = choose|j: int| 0 <= j < s.len() && s[j].0.kview() == key;
            assert(j != i);
            let tj = if j < i { j } else { j - 1 };
            assert(t[tj] == s[j]);
            assert(t[tj].0.kview() == key);
        }
    }
    assert forall|key: K::KV| entries_map(t).dom().contains(key) implies #[trigger] entries_map(
        t,
    )[key] == entries_map(s).remove(k)[key] by {
        let j = choose|j: int| 0 <= j < t.len() && t[j].0.kview() == key;
        lemma_entry_in_map(t, j);
        let sj = if j < i { j } else { j + 1 };
        assert(t[j] == s[sj]);
        lemma_entry_in_map(s, sj);
    }
    assert(entries_map(t) =~= entries_map(s).remove(k));
}

impl<K: TableKey, V> Table<K, V> {
    /// The map this table holds.
    pub closed spec fn view(&self) -> Map<K::KV, V> {
        entries_map(self.entries@)
    }

    /// The entries in their order.
    pub closed spec fn seq(&self) -> Seq<(K, V)> {
        self.entries@
    }

    /// Well-formedness: no key occurs twice.
    pub closed spec fn wf(&self) -> bool {
        distinct_keys(self.entries@)
    }

    /// The map that the entries stand for is `self@`, and it has one key per entry.
    pub proof fn lemma_view(&self)
        requires
            self.wf(),
        ensures
            self@ == entries_map(self.seq()),
            distinct_keys(self.seq()),
            self@.dom().finite(),
            self@.dom().len() == self.seq().len(),
            forall|i: int|
                0 <= i < self.seq().len() ==> #[trigger] self@.dom().contains(self.seq()[i].0.kview())
                    && self@[self.seq()[i].0.kview()] == self.seq()[i].1,
            forall|k: K::KV|
                #[trigger] self@.dom().contains(k) ==> exists|i: int|
                    0 <= i < self.seq().len() && self.seq()[i].0.kview() == k,
    {
        lemma_map_len(self.entries@);
        assert forall|k: K::KV| #[trigger] self@.dom().contains(k) implies exists|i: int|
            0 <= i < self.seq().len() && self.seq()[i].0.kview() == k by {
            assert(entries_map(self.entries@).dom().contains(k));
            let i = choose|i: int| 0 <= i < self.entries@.len() && self.entries@[i].0.kview() == k;
            assert(self.seq()[i].0.kview() == k);
        }
        assert forall|i: int| 0 <= i < self.seq().len() implies #[trigger] self@.dom().contains(
            self.seq()[i].0.kview(),
        ) && self@[self.seq()[i].0.kview()] == self.seq()[i].1 by {
            lemma_entry_in_map(self.entries@, i);
        }
    }

    /// An empty table.
    pub fn new() -> (t: Self)
        ensures
            t.wf(),
            t@ == Map::<K::KV, V>::empty(),
            t.seq().len() == 0,
    {
        let t = Table { entries: Vec::new() };
        assert(t@ =~= Map::<K::KV, V>::empty());
        t
    }

    /// The number of entries.
    pub fn len(&self) -> (n: usize)
        requires
            self.wf(),
        ensures
            n == self@.dom().len(),
            n == self.seq().len(),
    {
        proof {
            lemma_map_len(self.entries@);
        }
        self.entries.len()
    }

    /// Whether the table holds no entry.
    pub fn is_empty(&self) -> (b: bool)
        requires
            self.wf(),
        ensures
            b == (self@.dom().len() == 0),
            b == (self.seq().len() == 0),
    {
        self.len() == 0
    }

    /// The position of `key`, if it is present.
    pub fn find(&self, key: &K) -> (r: Option<usize>)
        requires
            self.wf(),
        ensures
            r is None <==> !self@.dom().contains(key.kview()),
            r matches Some(i) ==> i < self.seq().len() && self.seq()[i as int].0.kview() == key.kview()
                && self@[key.kview()] == self.seq()[i as int].1,
    {
        let mut i: usize = 0;
        while i < self.entries.len()
            invariant
                i <= self.entries@.len(),
                self.wf(),
                forall|j: int| 0 <= j < i ==> self.entries@[j].0.kview() != key.kview(),
            decreases self.entries@.len() - i,
        {
            if self.entries[i].0.key_eq(key) {
                proof {
                    lemma_entry_in_map(self.entries@, i as int);
                }
                return Some(i);
            }
            i = i + 1;
        }
        proof {
            if self@.dom().contains(key.kview()) {
                let j = choose|j: int| 0 <= j < self.entries@.len() && self.entries@[j].0.kview() == key.kview();
                assert(self.entries@[j].0.kview() != key.kview());
            }
        }
        None
    }

    /// Whether `key` is present.
    pub fn contains_key(&self, key: &K) -> (b: bool)
        requires
            self.wf(),
        ensures
            b == self@.dom().contains(key.kview()),
    {
        self.find(key).is_some()
    }

    /// The value stored under `key`, if any.
    pub fn get(&self, key: &K) -> (r: Option<&V>)
        requires
            self.wf(),
        ensures
            r is Some <==> self@.dom().contains(key.kview()),
            r matches Some(v) ==> *v == self@[key.kview()],
    {
        match self.find(key) {
            Some(i) => Some(&self.entries[i].1),
            None => None,
        }
    }

    /// The key stored at position `i`.
    pub fn key_at(&self, i: usize) -> (k: &K)
        requires
            i < self.seq().len(),
        ensures
            *k == self.seq()[i as int].0,
    {
        &self.entries[i].0
    }

    /// The value stored at position `i`.
    pub fn value_at(&self, i: usize) -> (v: &V)
        requires
            i < self.seq().len(),
        ensures
            *v == self.seq()[i as int].1,
    {
        &self.entries[i].1
    }

    /// Stores `value` under `key`, returning the value it replaces.
    /// A new key goes after all present ones; a present key keeps its place.
    pub fn insert(&mut self, key: K, value: V) -> (old_value: Option<V>)
        requires
            old(self).wf(),
        ensures
            final(self).wf(),
            final(self)@ == old(self)@.insert(key.kview(), value),
            old(self)@.dom().contains(key.kview()) ==> old_value == Some(old(self)@[key.kview()]),
            !old(self)@.dom().contains(key.kview()) ==> old_value is None,
            old(self)@.dom().contains(key.kview()) ==> final(self).seq().len() == old(self).seq().len(),
            !old(self)@.dom().contains(key.kview()) ==> final(self).seq() == old(self).seq().push(
                (key, value),
            ),
    {
        match self.find(&key) {
            Some(i) => {
                let ghost s = self.entries@;
                proof {
                    lemma_update(s, i as int, value);
                }
                let (k, v) = self.entries.remove(i);
                self.entries.insert(i, (k, value));
                assert(self.entries@ =~= s.update(i as int, (s[i as int].0, value)));
                Some(v)
            },
            None => {
                proof {
                    lemma_push(self.entries@, key, value);
                }
                self.entries.push((key, value));
                None
            },
        }
    }

    /// Replaces the value at position `i`, keeping its key and place.
    pub fn set_value_at(&mut self, i: usize, value: V) -> (old_value: V)
        requires
            old(self).wf(),
            i < old(self).seq().len(),
        ensures
            final(self).wf(),
            final(self)@ == old(self)@.insert(old(self).seq()[i as int].0.kview(), value),
            final(self).seq() == old(self).seq().update(i as int, (old(self).seq()[i as int].0, value)),
            old_value == old(self).seq()[i as int].1,
    {
        let ghost s = self.entries@;
        proof {
            lemma_update(s, i as int, value);
        }
        let (k, v) = self.entries.remove(i);
        self.entries.insert(i, (k, value));
        assert(self.entries@ =~= s.update(i as int, (s[i as int].0, value)));
        v
    }

    /// A mutable reference to the value at position `i`; what is written
    /// through it becomes the value of that key.
    pub fn value_mut_at(&mut self, i: usize) -> (v: &mut V)
        requires
            old(self).wf(),
            i < old(self).seq().len(),
        ensures
            *v == old(self).seq()[i as int].1,
            final(self).wf(),
            final(self).seq() == old(self).seq().update(i as int, (old(self).seq()[i as int].0, *final(v))),
            final(self)@ == old(self)@.insert(old(self).seq()[i as int].0.kview(), *final(v)),
    {
        let ghost s = self.entries@;
        proof {
            assert forall|x: V| #[trigger] entries_map(s.update(i as int, (s[i as int].0, x)))
                == entries_map(s).insert(s[i as int].0.kview(), x)
                && distinct_keys(s.update(i as int, (s[i as int].0, x))) by {
                lemma_update(s, i as int, x);
            }
        }
        let e = &mut self.entries[i];
        &mut e.1
    }

    /// A mutable reference to the value stored under `key`, if any; what is
    /// written through it becomes the value of that key.
    pub fn get_mut(&mut self, key: &K) -> (r: Option<&mut V>)
        requires
            old(self).wf(),
        ensures
            final(self).wf(),
            r is Some <==> old(self)@.dom().contains(key.kview()),
            r matches Some(v) ==> *v == old(self)@[key.kview()] && final(self)@ == old(self)@.insert(
                key.kview(),
                *final(v),
            ) && final(self).seq().len() == old(self).seq().len(),
            r is None ==> *final(self) == *old(self),
    {
        match self.find(key) {
            Some(i) => Some(self.value_mut_at(i)),
            None => None,
        }
    }

    /// Removes the entry at position `i`, returning its key and value.
    pub fn remove_at(&mut self, i: usize) -> (e: (K, V))
        requires
            old(self).wf(),
            i < old(self).seq().len(),
        ensures
            final(self).wf(),
            e == old(self).seq()[i as int],
            final(self)@ == old(self)@.remove(e.0.kview()),
            final(self).seq() == old(self).seq().remove(i as int),
    {
        proof {
            lemma_remove(self.entries@, i as int);
        }
        self.entries.remove(i)
    }

    /// Removes `key`, returning its value if it was present.
    pub fn remove(&mut self, key: &K) -> (old_value: Option<V>)
        requires
            old(self).wf(),
        ensures
            final(self).wf(),
            final(self)@ == old(self)@.remove(key.kview()),
            old(self)@.dom().contains(key.kview()) ==> old_value == Some(old(self)@[key.kview()]),
            !old(self)@.dom().contains(key.kview()) ==> old_value is None && final(self).seq() == old(self).seq(),
    {
        match self.find(key) {
            Some(i) => {
                let e = self.remove_at(i);
                Some(e.1)
            },
            None => {
                assert(self@ =~= self@.remove(key.kview()));
                None
            },
        }
    }
}


/// Two tables whose entries have the same keys in the same order, the
/// second's values being `f` of the first's, stand for `f` applied to the
/// first table's map.
pub proof fn lemma_map_values<K: TableKey, V>(a: Table<K, V>, b: Table<K, V>, f: spec_fn(V) -> V)
    requires
        a.wf(),
        b.wf(),
        a.seq().len() == b.seq().len(),
        forall|i: int|
            0 <= i < a.seq().len() ==> (#[trigger] b.seq()[i]).0.kview() == a.seq()[i].0.kview()
                && b.seq()[i].1 == f(a.seq()[i].1),
    ensures
        b@ == a@.map_values(f),
{
    a.lemma_view();
    b.lemma_view();
    assert forall|k: K::KV| #[trigger] b@.dom().contains(k) implies a@.dom().contains(k) by {
        let i = choose|i: int| 0 <= i < b.seq().len() && b.seq()[i].0.kview() == k;
        assert(a@.dom().contains(a.seq()[i].0.kview()));
    }
    assert forall|k: K::KV| #[trigger] a@.dom().contains(k) implies b@.dom().contains(k) && b@[k] == f(a@[k]) by {
        let i = choose|i: int| 0 <= i < a.seq().len() && a.seq()[i].0.kview() == k;
        assert(b.seq()[i].0.kview() == k);
        assert(b@.dom().contains(b.seq()[i].0.kview()));
    }
    assert(b@ =~= a@.map_values(f));
}

/// The keys of `m` whose values satisfy `p`.
pub open spec fn keys_where<KV, V>(m: Map<KV, V>, p: spec_fn(V) -> bool) -> Set<KV> {
    Set::new(|k: KV| m.dom().contains(k) && p(m[k]))
}

/// The number of entries whose value satisfies `p`.
pub open spec fn count_where<K, V>(s: Seq<(K, V)>, p: spec_fn(V) -> bool) -> nat
    decreases s.len(),
{
    if s.len() == 0 {
        0
    } else {
        count_where(s.drop_last(), p) + if p(s.last().1) {
            1nat
        } else {
            0nat
        }
    }
}

/// Counting the entries that satisfy `p` counts the keys of the map whose
/// values satisfy it.
pub proof fn lemma_count_where<K: TableKey, V>(s: Seq<(K, V)>, p: spec_fn(V) -> bool)
    requires
        distinct_keys(s),
    ensures
        keys_where(entries_map(s), p).finite(),
        keys_where(entries_map(s), p).len() == count_where(s, p),
    decreases s.len(),
{
    if s.len() == 0 {
        assert(keys_where(entries_map(s), p) =~= Set::<K::KV>::empty());
    } else {
        let t = s.drop_last();
        let e = s.last();
        assert(s =~= t.push(e));
        assert(distinct_keys(t));
        assert forall|i: int| 0 <= i < t.len() implies t[i].0.kview() != e.0.kview() by {
            assert(s[i] == t[i]);
            assert(s[s.len() - 1] == e);
        }
        if entries_map(t).dom().contains(e.0.kview()) {
            let i = choose|i: int| 0 <= i < t.len() && t[i].0.kview() == e.0.kview();
            assert(t[i].0.kview() != e.0.kview());
        }
        lemma_push(t, e.0, e.1);
        lemma_count_where(t, p);
        let ft = keys_where(entries_map(t), p);
        let fs = keys_where(entries_map(s), p);
        if p(e.1) {
            assert(fs =~= ft.insert(e.0.kview()));
        } else {
            assert(fs =~= ft);
        }
    }
}


/// The byte strings of a byte table, taken by their views.
pub open spec fn bytes_map(m: Map<Seq<u8>, Vec<u8>>) -> Map<Seq<u8>, Seq<u8>> {
    m.map_values(|v: Vec<u8>| v@)
}

/// A copy of a table of byte strings.
pub fn copy_bytes_table(t: &Table<Vec<u8>, Vec<u8>>) -> (r: Table<Vec<u8>, Vec<u8>>)
    requires
        t.wf(),
    ensures
        r.wf(),
        bytes_map(r@) == bytes_map(t@),
{
    let mut out: Table<Vec<u8>, Vec<u8>> = Table::new();
    let n = t.len();
    let mut i: usize = 0;
    let ghost src = t.seq();
    proof {
        t.lemma_view();
    }
    while i < n
        invariant
            t.wf(),
            out.wf(),
            src == t.seq(),
            n == src.len(),
            i <= n,
            crate::table::distinct_keys(src),
            forall|j: int| 0 <= j < n ==> t@.dom().contains((#[trigger] src[j]).0@) && t@[src[j].0@] == src[j].1,
            forall|k: Seq<u8>| #[trigger] t@.dom().contains(k) ==> exists|j: int| 0 <= j < n && src[j].0@ == k,
            out@.dom() == Set::new(|k: Seq<u8>| exists|j: int| 0 <= j < i && src[j].0@ == k),
            forall|j: int| 0 <= j < i ==> (#[trigger] out@[src[j].0@])@ == src[j].1@,
        decreases n - i,
    {
        let k = t.key_at(i).clone();
        let v = t.value_at(i).clone();
        let ghost before = out@;
        out.insert(k, v);
        proof {
            assert forall|j: int| 0 <= j < i + 1 implies (#[trigger] out@[src[j].0@])@ == src[j].1@ by {
                if j < i {
                    assert(src[j].0@ != src[i as int].0@);
                }
            }
            assert(out@.dom() =~= Set::new(|k: Seq<u8>| exists|j: int| 0 <= j < i + 1 && src[j].0@ == k)) by {
                assert forall|k: Seq<u8>| out@.dom().contains(k) implies exists|j: int| 0 <= j < i + 1 && src[j].0@ == k by {
                    if k != src[i as int].0@ {
                        assert(before.dom().contains(k));
                    }
                }
            }
        }
        i = i + 1;
    }
    proof {
        assert forall|k: Seq<u8>| #[trigger] t@.dom().contains(k) implies out@.dom().contains(k) && out@[k]@ == t@[k]@ by {
            let j = choose|j: int| 0 <= j < n && src[j].0@ == k;
            assert(out@.dom().contains(src[j].0@));
        }
        assert(bytes_map(out@) =~= bytes_map(t@));
    }
    out
}

/// A table key whose view is a byte string, ordered lexicographically.
pub trait OrderedKey: TableKey<KV = Seq<u8>> {
    fn key_lt(&self, other: &Self) -> (r: bool)
        ensures
            r == seq_lt(self.kview(), other.kview()),
    ;

    fn key_clone(&self) -> (r: Self)
        ensures
            r.kview() == self.kview(),
    ;
}

impl OrderedKey for [u8; 32] {
    fn key_lt(&self, other: &Self) -> (r: bool) {
        bytes_lt(self.as_slice(), other.as_slice())
    }

    fn key_clone(&self) -> (r: Self) {
        *self
    }
}

impl OrderedKey for Vec<u8> {
    fn key_lt(&self, other: &Self) -> (r: bool) {
        bytes_lt(self.as_slice(), other.as_slice())
    }

    fn key_clone(&self) -> (r: Self) {
        let mut v: Vec<u8> = Vec::new();
        push_all(&mut v, self.as_slice());
        assert(v@ =~= self@);
        v
    }
}

/// The unique strictly increasing order of a finite set of byte strings.
pub open spec fn sorted_order(s: Set<Seq<u8>>) -> Seq<Seq<u8>> {
    choose|q: Seq<Seq<u8>>| strictly_sorted(q) && q.to_set() == s
}

/// Two strictly increasing sequences with the same elements are equal.
pub proof fn lemma_sorted_unique(a: Seq<Seq<u8>>, b: Seq<Seq<u8>>)
    requires
        strictly_sorted(a),
        strictly_sorted(b),
        a.to_set() == b.to_set(),
    ensures
        a == b,
    decreases a.len(),
{
    if a.len() == 0 {
        if b.len() > 0 {
            assert(b.to_set().contains(b[0]));
        }
        assert(a =~= b);
    } else {
        assert(a.to_set().contains(a[0]));
        assert(b.len() > 0);
        assert(b.to_set().contains(b[0]));
        let i = choose|i: int| 0 <= i < a.len() && a[i] == b[0];
        let j = choose|j: int| 0 <= j < b.len() && b[j] == a[0];
        if i > 0 && j > 0 {
            assert(seq_lt(a[0], a[i]));
            assert(seq_lt(b[0], b[j]));
            lemma_seq_lt_asymmetric(a[0], b[0]);
        }
        assert(a[0] == b[0]) by {
            if i == 0 {
            } else {
                assert(j == 0);
            }
        }
        let ra = a.drop_first();
        let rb = b.drop_first();
        assert(strictly_sorted(ra)) by {
            assert forall|x: int, y: int| 0 <= x < y < ra.len() implies seq_lt(#[trigger] ra[x], #[trigger] ra[y]) by {
                assert(ra[x] == a[x + 1]);
                assert(ra[y] == a[y + 1]);
            }
        }
        assert(strictly_sorted(rb)) by {
            assert forall|x: int, y: int| 0 <= x < y < rb.len() implies seq_lt(#[trigger] rb[x], #[trigger] rb[y]) by {
                assert(rb[x] == b[x + 1]);
                assert(rb[y] == b[y + 1]);
            }
        }
        assert(ra.to_set() =~= rb.to_set()) by {
            assert forall|x: Seq<u8>| ra.to_set().contains(x) implies rb.to_set().contains(x) by {
                let p = choose|p: int| 0 <= p < ra.len() && ra[p] == x;
                assert(a[p + 1] == x);
                assert(a.to_set().contains(x));
                let q = choose|q: int| 0 <= q < b.len() && b[q] == x;
                if q == 0 {
                    assert(seq_lt(a[0], a[p + 1]));
                    lemma_seq_lt_irreflexive(x);
                }
                assert(rb[q - 1] == x);
            }
            assert forall|x: Seq<u8>| rb.to_set().contains(x) implies ra.to_set().contains(x) by {
                let p = choose|p: int| 0 <= p < rb.len() && rb[p] == x;
                assert(b[p + 1] == x);
                assert(b.to_set().contains(x));
                let q = choose|q: int| 0 <= q < a.len() && a[q] == x;
                if q == 0 {
                    assert(seq_lt(b[0], b[p + 1]));
                    lemma_seq_lt_irreflexive(x);
                }
                assert(ra[q - 1] == x);
            }
        }
        lemma_sorted_unique(ra, rb);
        assert(ra.len() == rb.len());
        assert(a.len() == b.len());
        assert(a =~= b) by {
            assert forall|x: int| 0 <= x < a.len() implies a[x] == b[x] by {
                if x > 0 {
                    assert(a[x] == ra[x - 1]);
                    assert(b[x] == rb[x - 1]);
                }
            }
        }
    }
}

/// A strictly increasing sequence is the sorted order of its elements.
pub proof fn lemma_is_sorted_order(q: Seq<Seq<u8>>)
    requires
        strictly_sorted(q),
    ensures
        sorted_order(q.to_set()) == q,
{
    let s = q.to_set();
    assert(strictly_sorted(q) && q.to_set() == s);
    let c = sorted_order(s);
    lemma_sorted_unique(c, q);
}

/// Strictly increasing in lexicographic order (so no key occurs twice).
pub open spec fn strictly_sorted(s: Seq<Seq<u8>>) -> bool {
    forall|i: int, j: int| 0 <= i < j < s.len() ==> seq_lt(#[trigger] s[i], #[trigger] s[j])
}

/// The views of a sequence of ordered keys.
pub open spec fn views<K: OrderedKey>(v: Seq<K>) -> Seq<Seq<u8>> {
    v.map_values(|x: K| x.kview())
}

/// Sorts distinct byte strings in increasing lexicographic order.
pub fn sort_distinct<K: OrderedKey>(keys: Vec<K>) -> (out: Vec<K>)
    requires
        views(keys@).no_duplicates(),
    ensures
        strictly_sorted(views(out@)),
        views(out@).to_set() == views(keys@).to_set(),
        out@.len() == keys@.len(),
{
    let mut out: Vec<K> = Vec::new();
    let mut rest = keys;
    let ghost all = views(rest@).to_set();
    let ghost n = rest@.len();
    while rest.len() > 0
        invariant
            strictly_sorted(views(out@)),
            views(rest@).no_duplicates(),
            views(out@).to_set().disjoint(views(rest@).to_set()),
            views(out@).to_set().union(views(rest@).to_set()) == all,
            out@.len() + rest@.len() == n,
        decreases rest@.len(),
    {
        let ghost old_out = views(out@);
        let ghost old_rest = views(rest@);
        let k = rest.pop().unwrap();
        let ghost kv = k.kview();
        assert(old_rest =~= views(rest@).push(kv));
        let mut pos: usize = 0;
        while pos < out.len() && out[pos].key_lt(&k)
            invariant
                pos <= out@.len(),
                kv == k.kview(),
                forall|j: int| 0 <= j < pos ==> seq_lt(views(out@)[j], kv),
            decreases out@.len() - pos,
        {
            assert(views(out@)[pos as int] == out@[pos as int].kview());
            pos = pos + 1;
        }
        proof {
            assert(!old_out.contains(kv)) by {
                if old_out.contains(kv) {
                    assert(old_out.to_set().contains(kv));
                    assert(old_rest.to_set().contains(kv)) by {
                        assert(old_rest[old_rest.len() - 1] == kv);
                    }
                }
            }
            assert forall|j: int| pos <= j < old_out.len() implies seq_lt(kv, #[trigger] old_out[j]) by {
                lemma_seq_lt_total(kv, old_out[j]);
                assert(old_out[j] != kv) by {
                    assert(old_out.contains(old_out[j]));
                }
                if seq_lt(old_out[j], kv) {
                    if j > pos {
                        assert(seq_lt(old_out[pos as int], old_out[j]));
                    }
                    if pos < old_out.len() {
                        assert(!seq_lt(old_out[pos as int], kv));
                        if j > pos {
                            lemma_seq_lt_total(old_out[pos as int], kv);
                            assert(old_out[pos as int] != kv) by {
                                assert(old_out.contains(old_out[pos as int]));
                            }
                            lemma_seq_lt_transitive(kv, old_out[pos as int], old_out[j]);
                            lemma_seq_lt_asymmetric(kv, old_out[j]);
                        }
                    }
                }
            }
        }
        out.insert(pos, k);
        proof {
            let new_out = views(out@);
            assert(new_out =~= old_out.insert(pos as int, kv));
            assert forall|i: int, j: int| 0 <= i < j < new_out.len() implies seq_lt(
                #[trigger] new_out[i],
                #[trigger] new_out[j],
            ) by {
                if i < pos && j == pos {
                } else if i < pos && j > pos {
                    assert(new_out[j] == old_out[j - 1]);
                    assert(seq_lt(old_out[i], kv));
                    lemma_seq_lt_transitive(old_out[i], kv, old_out[j - 1]);
                } else if i == pos {
                    assert(new_out[j] == old_out[j - 1]);
                } else if i < pos {
                } else {
                    assert(new_out[i] == old_out[i - 1]);
                    assert(new_out[j] == old_out[j - 1]);
                }
            }
            assert(new_out.to_set() =~= old_out.to_set().insert(kv)) by {
                assert forall|x: Seq<u8>| new_out.to_set().contains(x) implies old_out.to_set().insert(
                    kv,
                ).contains(x) by {
                    let j = choose|j: int| 0 <= j < new_out.len() && new_out[j] == x;
                    if j < pos {
                        assert(old_out[j] == x);
                    } else if j > pos {
                        assert(old_out[j - 1] == x);
                    }
                }
                assert forall|x: Seq<u8>| old_out.to_set().insert(kv).contains(x) implies new_out.to_set().contains(
                    x,
                ) by {
                    if x == kv {
                        assert(new_out[pos as int] == x);
                    } else {
                        let j = choose|j: int| 0 <= j < old_out.len() && old_out[j] == x;
                        if j < pos {
                            assert(new_out[j] == x);
                        } else {
                            assert(new_out[j + 1] == x);
                        }
                    }
                }
            }
            let new_rest = views(rest@);
            assert(old_rest.to_set() =~= new_rest.to_set().insert(kv)) by {
                assert forall|x: Seq<u8>| old_rest.to_set().contains(x) implies new_rest.to_set().insert(
                    kv,
                ).contains(x) by {
                    let j = choose|j: int| 0 <= j < old_rest.len() && old_rest[j] == x;
                    if j < new_rest.len() {
                        assert(new_rest[j] == x);
                    }
                }
                assert forall|x: Seq<u8>| new_rest.to_set().insert(kv).contains(x) implies old_rest.to_set().contains(
                    x,
                ) by {
                    if x == kv {
                        assert(old_rest[old_rest.len() - 1] == x);
                    } else {
                        let j = choose|j: int| 0 <= j < new_rest.len() && new_rest[j] == x;
                        assert(old_rest[j] == x);
                    }
                }
            }
            assert(!new_rest.to_set().contains(kv)) by {
                if new_rest.to_set().contains(kv) {
                    let j = choose|j: int| 0 <= j < new_rest.len() && new_rest[j] == kv;
                    assert(old_rest[j] == kv);
                    assert(old_rest[old_rest.len() - 1] == kv);
                }
            }
            assert(new_rest.no_duplicates()) by {
                assert forall|a: int, b: int| 0 <= a < new_rest.len() && 0 <= b < new_rest.len() && a != b implies new_rest[a] != new_rest[b] by {
                    assert(new_rest[a] == old_rest[a]);
                    assert(new_rest[b] == old_rest[b]);
                }
            }
            assert(new_out.to_set().disjoint(new_rest.to_set()));
            assert(new_out.to_set().union(new_rest.to_set()) =~= all);
        }
    }
    proof {
        assert(views(rest@).to_set() =~= Set::<Seq<u8>>::empty());
        assert(views(out@).to_set().union(views(rest@).to_set()) =~= views(out@).to_set());
    }
    out
}


impl<K: OrderedKey, V> Table<K, V> {
    /// The keys of the table in increasing order.
    pub fn sorted_keys(&self) -> (ks: Vec<K>)
        requires
            self.wf(),
        ensures
            views(ks@) == sorted_order(self@.dom()),
            strictly_sorted(views(ks@)),
            views(ks@).to_set() == self@.dom(),
            views(ks@).len() == self@.dom().len(),
            ks@.len() == self@.dom().len(),
    {
        let mut all: Vec<K> = Vec::new();
        let mut i: usize = 0;
        proof {
            self.lemma_view();
        }
        while i < self.entries.len()
            invariant
                i <= self.entries@.len(),
                self.wf(),
                all@.len() == i,
                forall|j: int| 0 <= j < i ==> (#[trigger] all@[j]).kview() == self.entries@[j].0.kview(),
            decreases self.entries@.len() - i,
        {
            let k = self.entries[i].0.key_clone();
            all.push(k);
            i = i + 1;
        }
        proof {
            let vs = views(all@);
            assert(vs.no_duplicates()) by {
                assert forall|a: int, b: int| 0 <= a < vs.len() && 0 <= b < vs.len() && a != b implies vs[a] != vs[b] by {
                    assert(vs[a] == self.entries@[a].0.kview());
                    assert(vs[b] == self.entries@[b].0.kview());
                }
            }
            assert(vs.to_set() =~= self@.dom()) by {
                assert forall|k: Seq<u8>| vs.to_set().contains(k) implies self@.dom().contains(k) by {
                    let a = choose|a: int| 0 <= a < vs.len() && vs[a] == k;
                    assert(self.seq()[a].0.kview() == k);
                }
                assert forall|k: Seq<u8>| self@.dom().contains(k) implies vs.to_set().contains(k) by {
                    let a = choose|a: int| 0 <= a < self.seq().len() && self.seq()[a].0.kview() == k;
                    assert(vs[a] == k);
                }
            }
        }
        let out = sort_distinct(all);
        proof {
            lemma_is_sorted_order(views(out@));
            lemma_map_len(self.entries@);
        }
        out
    }
}

} // verus!
