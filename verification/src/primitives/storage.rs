//! Trie storage: a top-level key-value map with child storages, its root,
//! and storage proofs.

use vstd::prelude::*;
use crate::bytes::push_all;
use crate::digest::{sha256, sha256_spec};
use crate::kernel::Hash32;
use crate::table::{Table, TableKey, OrderedKey, sorted_order, views};

verus! {

/// The bytes of a slice, as a vector.
fn vec_of(key: &[u8]) -> (r: Vec<u8>)
    ensures
        r@ == key@,
{
    let mut v: Vec<u8> = Vec::new();
    push_all(&mut v, key);
    v
}

/// Each key of `ks` followed by its value in `m`.
pub open spec fn entries_bytes(ks: Seq<Seq<u8>>, m: Map<Seq<u8>, Vec<u8>>) -> Seq<u8>
    decreases ks.len(),
{
    if ks.len() == 0 {
        Seq::empty()
    } else {
        entries_bytes(ks.drop_last(), m) + ks.last() + m[ks.last()]@
    }
}

/// The root of a key-value map: the digest of its keys in increasing order,
/// each followed by its value.
pub open spec fn map_root(m: Map<Seq<u8>, Vec<u8>>) -> Seq<u8> {
    sha256_spec(entries_bytes(sorted_order(m.dom()), m))
}

#[derive(Clone, Debug)]
pub struct Storage {
    pub top: Table<Vec<u8>, Vec<u8>>,
    pub children_default: Table<Vec<u8>, ChildStorage>,
}

impl Storage {
    pub open spec fn wf(&self) -> bool {
        self.top.wf() && self.children_default.wf()
    }

    pub fn new() -> (r: Self)
        ensures
            r.wf(),
            r.top@ == Map::<Seq<u8>, Vec<u8>>::empty(),
            r.children_default@ == Map::<Seq<u8>, ChildStorage>::empty(),
    {
        Storage { top: Table::new(), children_default: Table::new() }
    }

    pub fn set(&mut self, key: Vec<u8>, value: Vec<u8>)
        requires
            old(self).wf(),
        ensures
            final(self).wf(),
            final(self).top@ == old(self).top@.insert(key@, value),
            final(self).children_default == old(self).children_default,
    {
        self.top.insert(key, value);
    }

    pub fn get(&self, key: &[u8]) -> (r: Option<Vec<u8>>)
        requires
            self.wf(),
        ensures
            r is Some <==> self.top@.dom().contains(key@),
            r matches Some(v) ==> v@ == self.top@[key@]@,
    {
        let k = vec_of(key);
        match self.top.get(&k) {
            Some(v) => Some(v.clone()),
            None => None,
        }
    }

    pub fn remove(&mut self, key: &[u8])
        requires
            old(self).wf(),
        ensures
            final(self).wf(),
            final(self).top@ == old(self).top@.remove(key@),
            final(self).children_default == old(self).children_default,
    {
        let k = vec_of(key);
        self.top.remove(&k);
    }

    /// Empties the top map and the child storages.
    pub fn clear(&mut self)
        ensures
            final(self).wf(),
            final(self).top@ == Map::<Seq<u8>, Vec<u8>>::empty(),
            final(self).children_default@ == Map::<Seq<u8>, ChildStorage>::empty(),
    {
        self.top = Table::new();
        self.children_default = Table::new();
    }

    /// The root of the top map (see `map_root`).
    pub fn root(&self) -> (r: Hash32)
        requires
            self.wf(),
        ensures
            r.0@ == map_root(self.top@),
    {
        let keys = self.top.sorted_keys();
        let ghost order = sorted_order(self.top@.dom());
        let ghost m = self.top@;
        let mut data: Vec<u8> = Vec::new();
        let mut i: usize = 0;
        while i < keys.len()
            invariant
                self.top.wf(),
                m == self.top@,
                views(keys@) == order,
                order.to_set() == m.dom(),
                i <= keys@.len(),
                data@ == entries_bytes(order.take(i as int), m),
            decreases keys@.len() - i,
        {
            assert(views(keys@)[i as int] == keys@[i as int]@);
            assert(m.dom().contains(keys@[i as int]@)) by {
                assert(order.to_set().contains(order[i as int]));
            }
            let v = self.top.get(&keys[i]).unwrap();
            push_all(&mut data, keys[i].as_slice());
            push_all(&mut data, v.as_slice());
            proof {
                assert(order.take(i + 1).drop_last() =~= order.take(i as int));
                assert(order.take(i + 1).last() == order[i as int]);
            }
            i = i + 1;
        }
        assert(order.take(i as int) =~= order);
        Hash32(sha256(data.as_slice()))
    }
}

impl Default for Storage {
    fn default() -> (r: Self)
        ensures
            r.wf(),
            r.top@ == Map::<Seq<u8>, Vec<u8>>::empty(),
            r.children_default@ == Map::<Seq<u8>, ChildStorage>::empty(),
    {
        Storage::new()
    }
}

#[derive(Clone, Debug)]
pub struct ChildStorage {
    pub data: Table<Vec<u8>, Vec<u8>>,
    pub child_info: ChildInfo,
}

impl ChildStorage {
    pub fn new() -> (r: Self)
        ensures
            r.data.wf(),
            r.data@ == Map::<Seq<u8>, Vec<u8>>::empty(),
            r.child_info.storage_key@.len() == 0 && r.child_info.child_type == 0,
    {
        ChildStorage { data: Table::new(), child_info: ChildInfo::default() }
    }

    pub fn set(&mut self, key: Vec<u8>, value: Vec<u8>)
        requires
            old(self).data.wf(),
        ensures
            final(self).data.wf(),
            final(self).data@ == old(self).data@.insert(key@, value),
            final(self).child_info == old(self).child_info,
    {
        self.data.insert(key, value);
    }

    pub fn get(&self, key: &[u8]) -> (r: Option<Vec<u8>>)
        requires
            self.data.wf(),
        ensures
            r is Some <==> self.data@.dom().contains(key@),
            r matches Some(v) ==> v@ == self.data@[key@]@,
    {
        let k = vec_of(key);
        match self.data.get(&k) {
            Some(v) => Some(v.clone()),
            None => None,
        }
    }

    pub fn remove(&mut self, key: &[u8])
        requires
            old(self).data.wf(),
        ensures
            final(self).data.wf(),
            final(self).data@ == old(self).data@.remove(key@),
            final(self).child_info == old(self).child_info,
    {
        let k = vec_of(key);
        self.data.remove(&k);
    }
}

impl Default for ChildStorage {
    fn default() -> (r: Self)
        ensures
            r.data.wf(),
            r.data@ == Map::<Seq<u8>, Vec<u8>>::empty(),
    {
        ChildStorage::new()
    }
}

#[derive(Clone, Debug)]
pub struct ChildInfo {
    pub storage_key: Vec<u8>,
    pub child_type: u32,
}

impl ChildInfo {
    pub fn new(storage_key: Vec<u8>) -> (r: Self)
        ensures
            r.storage_key == storage_key && r.child_type == 0,
    {
        ChildInfo { storage_key, child_type: 0 }
    }
}

impl Default for ChildInfo {
    fn default() -> (r: Self)
        ensures
            r.storage_key@.len() == 0 && r.child_type == 0,
    {
        ChildInfo { storage_key: Vec::new(), child_type: 0 }
    }
}

#[derive(Clone, Debug)]
pub struct StorageProof {
    pub nodes: Vec<Vec<u8>>,
}

impl StorageProof {
    pub fn new() -> (r: Self)
        ensures
            r.nodes@.len() == 0,
    {
        StorageProof { nodes: Vec::new() }
    }

    pub fn add_node(&mut self, node: Vec<u8>)
        ensures
            final(self).nodes@ == old(self).nodes@.push(node),
    {
        self.nodes.push(node);
    }

    pub fn is_empty(&self) -> (r: bool)
        ensures
            r == (self.nodes@.len() == 0),
    {
        self.nodes.len() == 0
    }
}

impl Default for StorageProof {
    fn default() -> (r: Self)
        ensures
            r.nodes@.len() == 0,
    {
        StorageProof::new()
    }
}

} // verus!
