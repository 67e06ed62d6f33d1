//! Contract records: deployed contracts and their code, call and result
//! records, logs and events, and a contract's key-value storage.

use vstd::prelude::*;
use crate::bytes::{bytes_eq, bytes_lt, push_all, seq_lt, lemma_seq_lt_asymmetric, lemma_seq_lt_total, lemma_seq_lt_transitive};
use crate::digest::{sha256, sha256_spec, sorted_le};
use crate::kernel::{Address, Hash32};

verus! {

#[derive(Clone, Copy, Debug)]
pub struct Contract {
    pub contract_id: Hash32,
    pub owner: Address,
    pub code_hash: Hash32,
    pub storage_root: Hash32,
    pub created_at: u64,
    pub frozen: bool,
}

impl Contract {
    /// A contract whose id digests its owner and code hash, with an empty
    /// storage root.
    pub fn new(owner: Address, code_hash: Hash32) -> (r: Self)
        ensures
            r.contract_id.0@ == sha256_spec(owner.0@ + code_hash.0@),
            r.owner == owner && r.code_hash == code_hash,
            r.storage_root.0@ == crate::bytes::zeros32(),
            r.created_at == 0 && !r.frozen,
    {
        let mut input: Vec<u8> = Vec::new();
        push_all(&mut input, owner.0.as_slice());
        push_all(&mut input, code_hash.0.as_slice());
        let contract_id = sha256(input.as_slice());
        Contract {
            contract_id: Hash32(contract_id),
            owner,
            code_hash,
            storage_root: Hash32::empty(),
            created_at: 0,
            frozen: false,
        }
    }
}

#[derive(Debug)]
pub struct ContractCode {
    pub code_hash: Hash32,
    pub code: Vec<u8>,
    pub metadata: ContractMetadata,
}

impl ContractCode {
    /// Code with its digest.
    pub fn new(code: Vec<u8>, metadata: ContractMetadata) -> (r: Self)
        ensures
            r.code_hash.0@ == sha256_spec(code@),
            r.code == code,
            r.metadata == metadata,
    {
        let code_hash = sha256(code.as_slice());
        ContractCode { code_hash: Hash32(code_hash), code, metadata }
    }
}

#[derive(Debug)]
pub struct ContractMetadata {
    pub abi: Vec<ContractMethod>,
    pub language: ContractLanguage,
    pub compiler_version: String,
    pub gas_limit: u64,
}

#[derive(Debug)]
pub struct ContractMethod {
    pub name: String,
    pub arguments: Vec<ContractArg>,
    pub return_type: Option<ContractType>,
    pub gas_limit: Option<u64>,
    pub is_view: bool,
}

#[derive(Debug)]
pub struct ContractArg {
    pub name: String,
    pub arg_type: ContractType,
}

#[derive(Debug)]
pub enum ContractType {
    Address,
    Uint256,
    Uint128,
    Uint64,
    Uint32,
    Int256,
    Bool,
    Bytes,
    String,
    Array(Box<ContractType>),
    Tuple(Vec<ContractType>),
}

#[allow(non_camel_case_types)]
#[derive(Clone, Copy, Debug, PartialEq, Eq, Structural)]
pub enum ContractLanguage {
    TCL,
    Solidity,
    WASM,
}

#[derive(Clone, Debug)]
pub struct ContractCall {
    pub contract_id: Hash32,
    pub caller: Address,
    pub method: String,
    pub args: Vec<Vec<u8>>,
    pub gas_limit: u64,
    pub gas_price: u128,
    pub value: u128,
    pub nonce: u64,
}

impl ContractCall {
    pub fn new(contract_id: Hash32, caller: Address, method: String, args: Vec<Vec<u8>>, gas_limit: u64) -> (r: Self)
        ensures
            r.contract_id == contract_id && r.caller == caller && r.method == method && r.args == args,
            r.gas_limit == gas_limit && r.gas_price == 0 && r.value == 0 && r.nonce == 0,
    {
        ContractCall { contract_id, caller, method, args, gas_limit, gas_price: 0, value: 0, nonce: 0 }
    }

    pub fn with_value(self, value: u128) -> (r: Self)
        ensures
            r == (ContractCall { value, ..self }),
    {
        ContractCall { value, ..self }
    }
}

#[derive(Clone, Debug)]
pub struct ContractResult {
    pub success: bool,
    pub return_data: Vec<u8>,
    pub gas_used: u64,
    pub gas_refunded: u64,
    pub logs: Vec<ContractLog>,
}

impl ContractResult {
    pub fn success(return_data: Vec<u8>, gas_used: u64) -> (r: Self)
        ensures
            r.success && r.return_data == return_data && r.gas_used == gas_used,
            r.gas_refunded == 0 && r.logs@.len() == 0,
    {
        ContractResult { success: true, return_data, gas_used, gas_refunded: 0, logs: Vec::new() }
    }

    /// A failed result whose return data is the error message's bytes.
    pub fn failure(error: &str, gas_used: u64) -> (r: Self)
        ensures
            !r.success && r.return_data@ == crate::primitives::api::utf8(error@),
            r.gas_used == gas_used && r.gas_refunded == 0 && r.logs@.len() == 0,
    {
        let mut data: Vec<u8> = Vec::new();
        push_all(&mut data, error.as_bytes());
        ContractResult { success: false, return_data: data, gas_used, gas_refunded: 0, logs: Vec::new() }
    }
}

#[derive(Clone, Debug)]
pub struct ContractLog {
    pub address: Address,
    pub topics: Vec<Hash32>,
    pub data: Vec<u8>,
}

#[derive(Clone, Debug)]
pub struct ContractEvent {
    pub event_id: Hash32,
    pub contract_id: Hash32,
    pub name: String,
    pub args: Vec<Vec<u8>>,
    pub timestamp: u64,
}

/// The keys of a storage's entries, by their bytes.
pub open spec fn key_views(s: Seq<(Vec<u8>, Vec<u8>)>) -> Seq<Seq<u8>> {
    s.map_values(|e: (Vec<u8>, Vec<u8>)| e.0@)
}

/// `i` is the first position of key `k`.
pub open spec fn first_key_at(s: Seq<(Vec<u8>, Vec<u8>)>, k: Seq<u8>, i: int) -> bool {
    0 <= i < s.len() && s[i].0@ == k && forall|j: int| 0 <= j < i ==> s[j].0@ != k
}

/// Whether key `k` occurs.
pub open spec fn has_key(s: Seq<(Vec<u8>, Vec<u8>)>, k: Seq<u8>) -> bool {
    exists|i: int| 0 <= i < s.len() && s[i].0@ == k
}

/// The value of the first entry with key `k` (empty when there is none).
pub open spec fn first_value(s: Seq<(Vec<u8>, Vec<u8>)>, k: Seq<u8>) -> Seq<u8>
    decreases s.len(),
{
    if s.len() == 0 {
        Seq::empty()
    } else if s[0].0@ == k {
        s[0].1@
    } else {
        first_value(s.drop_first(), k)
    }
}

/// The entries without those of key `k`.
pub open spec fn without_key(s: Seq<(Vec<u8>, Vec<u8>)>, k: Seq<u8>) -> Seq<(Vec<u8>, Vec<u8>)>
    decreases s.len(),
{
    if s.len() == 0 {
        s
    } else {
        without_key(s.drop_last(), k) + if s.last().0@ == k {
            Seq::empty()
        } else {
            seq![s.last()]
        }
    }
}

/// The bytes a storage root digests: each key in the order `ks`, followed by
/// the value of its first entry.
pub open spec fn root_bytes(ks: Seq<Seq<u8>>, s: Seq<(Vec<u8>, Vec<u8>)>) -> Seq<u8>
    decreases ks.len(),
{
    if ks.len() == 0 {
        Seq::empty()
    } else {
        root_bytes(ks.drop_last(), s) + ks.last() + first_value(s, ks.last())
    }
}

/// The root of storage entries: the digest of `root_bytes` over the keys in
/// sorted order.
pub open spec fn is_storage_root(r: Seq<u8>, s: Seq<(Vec<u8>, Vec<u8>)>) -> bool {
    exists|ks: Seq<Seq<u8>>|
        sorted_le(ks) && ks.to_multiset() == key_views(s).to_multiset() && r == sha256_spec(#[trigger] root_bytes(ks, s))
}

proof fn lemma_first_value_at(s: Seq<(Vec<u8>, Vec<u8>)>, k: Seq<u8>, i: int)
    requires
        first_key_at(s, k, i),
    ensures
        first_value(s, k) == s[i].1@,
    decreases s.len(),
{
    if i > 0 {
        assert(s[0].0@ != k);
        lemma_first_value_at(s.drop_first(), k, i - 1);
    }
}

/// A contract's storage: key-value entries in insertion order.
#[derive(Clone, Debug)]
pub struct ContractStorage {
    pub contract_id: Hash32,
    pub storage: Vec<(Vec<u8>, Vec<u8>)>,
}

impl ContractStorage {
    pub fn new(contract_id: Hash32) -> (r: Self)
        ensures
            r.contract_id == contract_id,
            r.storage@.len() == 0,
    {
        ContractStorage { contract_id, storage: Vec::new() }
    }

    fn position(&self, key: &[u8]) -> (r: Option<usize>)
        ensures
            r is None <==> !has_key(self.storage@, key@),
            r matches Some(i) ==> first_key_at(self.storage@, key@, i as int),
    {
        let mut i: usize = 0;
        while i < self.storage.len()
            invariant
                i <= self.storage@.len(),
                forall|j: int| 0 <= j < i ==> self.storage@[j].0@ != key@,
            decreases self.storage@.len() - i,
        {
            if bytes_eq(self.storage[i].0.as_slice(), key) {
                return Some(i);
            }
            i = i + 1;
        }
        None
    }

    /// Replaces the first entry of `key`, or appends one.
    pub fn set(&mut self, key: Vec<u8>, value: Vec<u8>)
        ensures
            final(self).contract_id == old(self).contract_id,
            has_key(old(self).storage@, key@) ==> exists|i: int|
                first_key_at(old(self).storage@, key@, i) && final(self).storage@ == old(self).storage@.update(
                    i,
                    (key, value),
                ),
            !has_key(old(self).storage@, key@) ==> final(self).storage@ == old(self).storage@.push((key, value)),
    {
        match self.position(key.as_slice()) {
            Some(pos) => {
                let ghost k = key@;
                self.storage.set(pos, (key, value));
                assert(first_key_at(old(self).storage@, k, pos as int));
            },
            None => {
                self.storage.push((key, value));
            },
        }
    }

    /// The value of the first entry of `key`, if any.
    pub fn get(&self, key: &[u8]) -> (r: Option<Vec<u8>>)
        ensures
            r is Some <==> has_key(self.storage@, key@),
            r matches Some(v) ==> v@ == first_value(self.storage@, key@),
    {
        match self.position(key) {
            Some(i) => {
                proof {
                    lemma_first_value_at(self.storage@, key@, i as int);
                }
                Some(self.storage[i].1.clone())
            },
            None => None,
        }
    }

    /// Drops every entry of `key`.
    pub fn remove(&mut self, key: &[u8])
        ensures
            final(self).contract_id == old(self).contract_id,
            final(self).storage@ == without_key(old(self).storage@, key@),
    {
        let mut kept: Vec<(Vec<u8>, Vec<u8>)> = Vec::new();
        let mut rest: Vec<(Vec<u8>, Vec<u8>)> = Vec::new();
        core::mem::swap(&mut rest, &mut self.storage);
        let ghost src = rest@;
        let n = rest.len();
        let mut i: usize = 0;
        while i < n
            invariant
                n == src.len(),
                i <= n,
                rest@ == src.skip(i as int),
                kept@ == without_key(src.take(i as int), key@),
            decreases n - i,
        {
            proof {
                assert(src.take(i + 1).drop_last() =~= src.take(i as int));
                assert(src.take(i + 1).last() == src[i as int]);
            }
            let e = rest.remove(0);
            assert(rest@ =~= src.skip(i + 1));
            if !bytes_eq(e.0.as_slice(), key) {
                kept.push(e);
            }
            assert(kept@ =~= without_key(src.take(i + 1), key@));
            i = i + 1;
        }
        assert(src.take(n as int) =~= src);
        self.storage = kept;
    }
}

impl ContractStorage {
    /// Positions of the entries, ordered by key (equal keys keep their
    /// order), with the keys they give.
    fn sorted_positions(&self) -> (r: (Vec<usize>, Ghost<Seq<Seq<u8>>>))
        ensures
            r.0@.len() == self.storage@.len(),
            r.1@.len() == r.0@.len(),
            forall|j: int| 0 <= j < r.0@.len() ==> #[trigger] r.0@[j] < self.storage@.len() && self.storage@[r.0@[j] as int].0@
                == r.1@[j],
            sorted_le(r.1@),
            r.1@.to_multiset() == key_views(self.storage@).to_multiset(),
    {
        let ghost allk = key_views(self.storage@);
        let mut idx: Vec<usize> = Vec::new();
        let ghost mut ks: Seq<Seq<u8>> = Seq::empty();
        let n = self.storage.len();
        let mut i: usize = 0;
        assert(ks =~= allk.subrange(0, 0));
        while i < n
            invariant
                n == self.storage@.len(),
                allk == key_views(self.storage@),
                i <= n,
                idx@.len() == i,
                ks.len() == i,
                forall|j: int| 0 <= j < idx@.len() ==> #[trigger] idx@[j] < n && self.storage@[idx@[j] as int].0@ == ks[j],
                sorted_le(ks),
                ks.to_multiset() == allk.subrange(0, i as int).to_multiset(),
            decreases n - i,
        {
            let ghost e = allk[i as int];
            assert(e == self.storage@[i as int].0@);
            let mut pos: usize = 0;
            while pos < idx.len() && !bytes_lt(self.storage[i].0.as_slice(), self.storage[idx[pos]].0.as_slice())
                invariant
                    pos <= idx@.len(),
                    idx@.len() == ks.len(),
                    n == self.storage@.len(),
                    i < n,
                    e == self.storage@[i as int].0@,
                    forall|j: int| 0 <= j < idx@.len() ==> #[trigger] idx@[j] < n && self.storage@[idx@[j] as int].0@ == ks[j],
                    forall|j: int| 0 <= j < pos ==> !seq_lt(e, #[trigger] ks[j]),
                decreases idx@.len() - pos,
            {
                pos = pos + 1;
            }
            let ghost before = ks;
            let ghost idx_before = idx@;
            proof {
                assert forall|j: int| pos <= j < before.len() implies !seq_lt(#[trigger] before[j], e) by {
                    assert(seq_lt(e, before[pos as int]));
                    if j > pos {
                        assert(!seq_lt(before[j], before[pos as int]));
                        lemma_seq_lt_total(before[j], before[pos as int]);
                        if seq_lt(before[pos as int], before[j]) {
                            lemma_seq_lt_transitive(e, before[pos as int], before[j]);
                        }
                    }
                    lemma_seq_lt_asymmetric(e, before[j]);
                }
            }
            idx.insert(pos, i);
            proof {
                ks = before.insert(pos as int, e);
                assert forall|a: int, b: int| 0 <= a < b < ks.len() implies !seq_lt(#[trigger] ks[b], #[trigger] ks[a]) by {
                    if a < pos && b == pos {
                        assert(ks[a] == before[a]);
                    } else if a < pos && b > pos {
                        assert(ks[b] == before[b - 1]);
                        assert(ks[a] == before[a]);
                    } else if a == pos {
                        assert(ks[b] == before[b - 1]);
                    } else if a < pos {
                        assert(ks[a] == before[a]);
                        assert(ks[b] == before[b]);
                    } else {
                        assert(ks[a] == before[a - 1]);
                        assert(ks[b] == before[b - 1]);
                    }
                }
                assert forall|j: int| 0 <= j < idx@.len() implies #[trigger] idx@[j] < n && self.storage@[idx@[j] as int].0@
                    == ks[j] by {
                    assert(idx@ == idx_before.insert(pos as int, i));
                    if j < pos {
                        assert(idx@[j] == idx_before[j] && ks[j] == before[j]);
                    } else if j > pos {
                        assert(idx@[j] == idx_before[j - 1] && ks[j] == before[j - 1]);
                    }
                }
                assert(allk.subrange(0, i + 1) =~= allk.subrange(0, i as int).push(e));
                vstd::seq_lib::to_multiset_insert(before, pos as int, e);
                vstd::seq_lib::to_multiset_build(allk.subrange(0, i as int), e);
            }
            i = i + 1;
        }
        assert(allk.subrange(0, n as int) =~= allk);
        (idx, Ghost(ks))
    }

    /// The digest of the keys in sorted order, each followed by the value of
    /// its first entry (see `is_storage_root`).
    pub fn root(&self) -> (r: Hash32)
        ensures
            is_storage_root(r.0@, self.storage@),
    {
        let (idx, Ghost(ks)) = self.sorted_positions();
        let mut data: Vec<u8> = Vec::new();
        let mut j: usize = 0;
        while j < idx.len()
            invariant
                j <= idx@.len(),
                idx@.len() == ks.len(),
                forall|t: int| 0 <= t < idx@.len() ==> #[trigger] idx@[t] < self.storage@.len() && self.storage@[idx@[t] as int].0@
                    == ks[t],
                data@ == root_bytes(ks.take(j as int), self.storage@),
            decreases idx@.len() - j,
        {
            let key = &self.storage[idx[j]].0;
            assert(key@ == ks[j as int]);
            let value = match self.position(key.as_slice()) {
                Some(p) => {
                    proof {
                        lemma_first_value_at(self.storage@, key@, p as int);
                    }
                    &self.storage[p].1
                },
                None => {
                    assert(has_key(self.storage@, key@));
                    &self.storage[0].1
                },
            };
            push_all(&mut data, key.as_slice());
            push_all(&mut data, value.as_slice());
            proof {
                assert(ks.take(j + 1).drop_last() =~= ks.take(j as int));
                assert(ks.take(j + 1).last() == ks[j as int]);
            }
            j = j + 1;
        }
        assert(ks.take(j as int) =~= ks);
        let r = Hash32(sha256(data.as_slice()));
        assert(sorted_le(ks) && ks.to_multiset() == key_views(self.storage@).to_multiset() && r.0@ == sha256_spec(
            root_bytes(ks, self.storage@),
        ));
        r
    }
}

} // verus!

verus! {

/// Two sequences in non-decreasing order with the same elements, counted
/// with multiplicity, are equal.
pub proof fn lemma_sorted_le_unique(a: Seq<Seq<u8>>, b: Seq<Seq<u8>>)
    requires
        sorted_le(a),
        sorted_le(b),
        a.to_multiset() == b.to_multiset(),
    ensures
        a == b,
    decreases a.len(),
{
    vstd::seq_lib::to_multiset_len(a);
    vstd::seq_lib::to_multiset_len(b);
    if a.len() == 0 {
        assert(a =~= b);
    } else {
        vstd::seq_lib::to_multiset_contains(a, a[0]);
        vstd::seq_lib::to_multiset_contains(b, a[0]);
        vstd::seq_lib::to_multiset_contains(a, b[0]);
        vstd::seq_lib::to_multiset_contains(b, b[0]);
        assert(a.contains(a[0]));
        assert(b.contains(b[0]));
        let j = choose|j: int| 0 <= j < b.len() && b[j] == a[0];
        let i = choose|i: int| 0 <= i < a.len() && a[i] == b[0];
        assert(a[0] == b[0]) by {
            if j > 0 {
                assert(!seq_lt(b[j], b[0]));
            }
            if i > 0 {
                assert(!seq_lt(a[i], a[0]));
            }
            lemma_seq_lt_total(a[0], b[0]);
        }
        let ra = a.drop_first();
        let rb = b.drop_first();
        vstd::seq_lib::to_multiset_remove(a, 0);
        vstd::seq_lib::to_multiset_remove(b, 0);
        assert(a.remove(0) =~= ra);
        assert(b.remove(0) =~= rb);
        assert(sorted_le(ra)) by {
            assert forall|x: int, y: int| 0 <= x < y < ra.len() implies !seq_lt(#[trigger] ra[y], #[trigger] ra[x]) by {
                assert(ra[x] == a[x + 1] && ra[y] == a[y + 1]);
            }
        }
        assert(sorted_le(rb)) by {
            assert forall|x: int, y: int| 0 <= x < y < rb.len() implies !seq_lt(#[trigger] rb[y], #[trigger] rb[x]) by {
                assert(rb[x] == b[x + 1] && rb[y] == b[y + 1]);
            }
        }
        lemma_sorted_le_unique(ra, rb);
        assert(a =~= b) by {
            assert forall|x: int| 0 <= x < a.len() implies a[x] == b[x] by {
                if x > 0 {
                    assert(a[x] == ra[x - 1] && b[x] == rb[x - 1]);
                }
            }
        }
    }
}

/// `root_bytes` reads the entries only through the first value of each key.
proof fn lemma_root_bytes_by_first_values(ks: Seq<Seq<u8>>, s1: Seq<(Vec<u8>, Vec<u8>)>, s2: Seq<(Vec<u8>, Vec<u8>)>)
    requires
        forall|k: Seq<u8>| #[trigger] first_value(s1, k) == first_value(s2, k),
    ensures
        root_bytes(ks, s1) == root_bytes(ks, s2),
    decreases ks.len(),
{
    if ks.len() > 0 {
        lemma_root_bytes_by_first_values(ks.drop_last(), s1, s2);
        assert(first_value(s1, ks.last()) == first_value(s2, ks.last()));
    }
}

/// A contract's storage root depends only on its contents: storages with
/// the same keys (counted with multiplicity) and the same value for each
/// key have the same root, whatever order their entries were set in.
pub proof fn lemma_storage_root_order_free(
    r1: Seq<u8>,
    s1: Seq<(Vec<u8>, Vec<u8>)>,
    r2: Seq<u8>,
    s2: Seq<(Vec<u8>, Vec<u8>)>,
)
    requires
        is_storage_root(r1, s1),
        is_storage_root(r2, s2),
        key_views(s1).to_multiset() == key_views(s2).to_multiset(),
        forall|k: Seq<u8>| #[trigger] first_value(s1, k) == first_value(s2, k),
    ensures
        r1 == r2,
{
    let ks1 = choose|ks: Seq<Seq<u8>>|
        sorted_le(ks) && ks.to_multiset() == key_views(s1).to_multiset() && r1 == sha256_spec(
            #[trigger] root_bytes(ks, s1),
        );
    let ks2 = choose|ks: Seq<Seq<u8>>|
        sorted_le(ks) && ks.to_multiset() == key_views(s2).to_multiset() && r2 == sha256_spec(
            #[trigger] root_bytes(ks, s2),
        );
    lemma_sorted_le_unique(ks1, ks2);
    lemma_root_bytes_by_first_values(ks1, s1, s2);
}

} // verus!
