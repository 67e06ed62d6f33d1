//! The protocol kernel: addresses, transactions, account state, key-value
//! storage with Merkle roots, and the deterministic transition function.

use vstd::prelude::*;
use crate::bytes::{bytes32_eq, bytes32_is_zero, push_all, push_le, le_bytes, zero32, zeros32, seq_lt, bytes_lt};
use crate::digest::{sha256, sha256_spec, merkle_fold, merkle_root, arr_views, push_arr};
use crate::table::{Table, TableKey, OrderedKey, sorted_order, views};

pub mod consensus;
pub mod economics;
pub mod governance;
pub mod ifp;
pub mod network;
pub mod runtime;
pub mod sdk;
pub mod tvm;

verus! {

pub const MAX_TRANSACTIONS_PER_BLOCK: usize = 10000;

pub const MAX_GAS_PER_BLOCK: u64 = 100_000_000;

pub const MAX_STORAGE_SIZE: u64 = 1_073_741_824;

pub const MIN_BALANCE: u128 = 1_000_000_000_000_000_000;

/// Why the kernel refused or failed an operation.
#[derive(Clone, Debug)]
pub enum KernelError {
    InvalidSignature,
    InsufficientBalance(u128, u128),
    InvalidNonce(u64, u64),
    AccountNotFound(String),
    InvalidTransactionType,
    ModuleDispatchError(String),
    InsufficientGas(u64, u64),
    StorageError(String),
    StateRootMismatch,
    InvalidStateTransition,
    Overflow,
    DivisionByZero,
}

/// The kind of a transaction.
#[derive(Clone, Copy, Debug, PartialEq, Eq, Structural)]
pub enum TransactionType {
    Transfer,
    DeployContract,
    CallContract,
    InvokeModule,
    SubmitPrompt,
    SubmitReceipt,
    Governance,
    Batch,
}

/// The wire code of a transaction kind.
pub open spec fn tx_type_code(t: TransactionType) -> u8 {
    match t {
        TransactionType::Transfer => 0,
        TransactionType::DeployContract => 1,
        TransactionType::CallContract => 2,
        TransactionType::InvokeModule => 3,
        TransactionType::SubmitPrompt => 4,
        TransactionType::SubmitReceipt => 5,
        TransactionType::Governance => 6,
        TransactionType::Batch => 7,
    }
}

impl TransactionType {
    pub fn to_u8(self) -> (r: u8)
        ensures
            r == tx_type_code(self),
    {
        match self {
            TransactionType::Transfer => 0,
            TransactionType::DeployContract => 1,
            TransactionType::CallContract => 2,
            TransactionType::InvokeModule => 3,
            TransactionType::SubmitPrompt => 4,
            TransactionType::SubmitReceipt => 5,
            TransactionType::Governance => 6,
            TransactionType::Batch => 7,
        }
    }

    pub fn from_u8(v: u8) -> (r: Option<Self>)
        ensures
            v <= 7 <==> r is Some,
            r matches Some(t) ==> tx_type_code(t) == v,
    {
        match v {
            0 => Some(TransactionType::Transfer),
            1 => Some(TransactionType::DeployContract),
            2 => Some(TransactionType::CallContract),
            3 => Some(TransactionType::InvokeModule),
            4 => Some(TransactionType::SubmitPrompt),
            5 => Some(TransactionType::SubmitReceipt),
            6 => Some(TransactionType::Governance),
            7 => Some(TransactionType::Batch),
            _ => None,
        }
    }
}

/// Decoding the code of a transaction kind gives that kind back.
pub proof fn lemma_tx_type_roundtrip(t: TransactionType)
    ensures
        tx_type_code(t) <= 7,
        forall|u: TransactionType| tx_type_code(u) == tx_type_code(t) ==> u == t,
{
}

/// A 32-byte account address.
#[derive(Clone, Copy, Debug, Default, Hash)]
pub struct Address(pub [u8; 32]);

impl PartialEq for Address {
    fn eq(&self, other: &Self) -> (r: bool) {
        bytes32_eq(&self.0, &other.0)
    }
}

impl Eq for Address {}

impl vstd::std_specs::cmp::PartialEqSpecImpl for Address {
    open spec fn obeys_eq_spec() -> bool {
        true
    }

    open spec fn eq_spec(&self, other: &Address) -> bool {
        self.0@ == other.0@
    }
}

impl TableKey for Address {
    type KV = Seq<u8>;

    open spec fn kview(&self) -> Seq<u8> {
        self.0@
    }

    fn key_eq(&self, other: &Self) -> (r: bool) {
        bytes32_eq(&self.0, &other.0)
    }
}

impl OrderedKey for Address {
    fn key_lt(&self, other: &Self) -> (r: bool) {
        bytes_lt(self.0.as_slice(), other.0.as_slice())
    }

    fn key_clone(&self) -> (r: Self) {
        *self
    }
}

impl From<[u8; 32]> for Address {
    fn from(bytes: [u8; 32]) -> (r: Self) {
        Address(bytes)
    }
}

impl vstd::std_specs::convert::FromSpecImpl<[u8; 32]> for Address {
    open spec fn obeys_from_spec() -> bool {
        true
    }

    open spec fn from_spec(bytes: [u8; 32]) -> Self {
        Address(bytes)
    }
}

/// The domain tag that precedes a public key in address derivation: the
/// ASCII bytes of `TETCORE:ADDR:v1`.
pub open spec fn address_domain_tag() -> Seq<u8> {
    seq![84u8, 69, 84, 67, 79, 82, 69, 58, 65, 68, 68, 82, 58, 118, 49]
}

impl Address {
    pub fn from_bytes(bytes: [u8; 32]) -> (r: Self)
        ensures
            r.0 == bytes,
    {
        Address(bytes)
    }

    pub fn as_bytes(&self) -> (r: &[u8; 32])
        ensures
            *r == self.0,
    {
        &self.0
    }

    pub fn as_mut_bytes(&mut self) -> (r: &mut [u8; 32])
        ensures
            *r == old(self).0,
            final(self).0 == *final(r),
    {
        &mut self.0
    }

    /// Whether every byte is zero.
    pub fn is_zero(&self) -> (r: bool)
        ensures
            r == (self.0@ == zeros32()),
    {
        let r = bytes32_is_zero(&self.0);
        proof {
            if r {
                assert(self.0@ =~= zeros32());
            }
        }
        r
    }

    /// The address of a public key: the SHA-256 digest of the domain tag
    /// `TETCORE:ADDR:v1` followed by the key's bytes.
    pub fn from_public_key(pk: &[u8; 32]) -> (r: Self)
        ensures
            r.0@ == sha256_spec(address_domain_tag() + pk@),
    {
        let mut data: Vec<u8> = Vec::new();
        let tag: [u8; 15] = [84, 69, 84, 67, 79, 82, 69, 58, 65, 68, 68, 82, 58, 118, 49];
        assert(tag@ =~= address_domain_tag());
        push_all(&mut data, tag.as_slice());
        push_all(&mut data, pk.as_slice());
        Address(sha256(data.as_slice()))
    }
}

/// A 32-byte hash.
#[derive(Clone, Copy, Debug, Default, Hash)]
pub struct Hash32(pub [u8; 32]);

impl PartialEq for Hash32 {
    fn eq(&self, other: &Self) -> (r: bool) {
        bytes32_eq(&self.0, &other.0)
    }
}

impl Eq for Hash32 {}

impl vstd::std_specs::cmp::PartialEqSpecImpl for Hash32 {
    open spec fn obeys_eq_spec() -> bool {
        true
    }

    open spec fn eq_spec(&self, other: &Hash32) -> bool {
        self.0@ == other.0@
    }
}

impl TableKey for Hash32 {
    type KV = Seq<u8>;

    open spec fn kview(&self) -> Seq<u8> {
        self.0@
    }

    fn key_eq(&self, other: &Self) -> (r: bool) {
        bytes32_eq(&self.0, &other.0)
    }
}

impl OrderedKey for Hash32 {
    fn key_lt(&self, other: &Self) -> (r: bool) {
        bytes_lt(self.0.as_slice(), other.0.as_slice())
    }

    fn key_clone(&self) -> (r: Self) {
        *self
    }
}

impl From<[u8; 32]> for Hash32 {
    fn from(bytes: [u8; 32]) -> (r: Self) {
        Hash32(bytes)
    }
}

impl vstd::std_specs::convert::FromSpecImpl<[u8; 32]> for Hash32 {
    open spec fn obeys_from_spec() -> bool {
        true
    }

    open spec fn from_spec(bytes: [u8; 32]) -> Self {
        Hash32(bytes)
    }
}

/// The 32 bytes that `Hash32::from_slice` keeps of a slice: its first 32
/// bytes, padded with zeros when it is shorter.
pub open spec fn slice_to_32(s: Seq<u8>) -> Seq<u8> {
    Seq::new(32, |i: int| if i < s.len() { s[i] } else { 0u8 })
}

/// Copies the first `min(len, 32)` bytes of `slice` into a zeroed array.
pub fn bytes32_from_slice(slice: &[u8]) -> (r: [u8; 32])
    ensures
        r@ == slice_to_32(slice@),
{
    let mut out = [0u8; 32];
    let len = if slice.len() < 32 {
        slice.len()
    } else {
        32
    };
    let mut i: usize = 0;
    while i < len
        invariant
            len <= 32,
            len <= slice@.len(),
            len == slice@.len() || len == 32,
            i <= len,
            out@.len() == 32,
            forall|j: int| 0 <= j < i ==> out@[j] == slice@[j],
            forall|j: int| i <= j < 32 ==> out@[j] == 0,
        decreases len - i,
    {
        out[i] = slice[i];
        i = i + 1;
    }
    assert(out@ =~= slice_to_32(slice@));
    out
}

/// The hash of 32 zero bytes.
pub open spec fn empty_hash32() -> Hash32 {
    choose|h: Hash32| h.0@ == zeros32()
}

impl Hash32 {
    pub fn empty() -> (r: Self)
        ensures
            r.0@ == zeros32(),
            r == empty_hash32(),
    {
        let r = Hash32(zero32());
        proof {
            let h = empty_hash32();
            assert(r.0@ == zeros32());
            assert(h.0@ == zeros32());
            assert(h.0 =~= r.0);
        }
        r
    }

    pub fn from_bytes(bytes: [u8; 32]) -> (r: Self)
        ensures
            r.0 == bytes,
    {
        Hash32(bytes)
    }

    pub fn as_bytes(&self) -> (r: &[u8; 32])
        ensures
            *r == self.0,
    {
        &self.0
    }

    /// The first 32 bytes of `slice`, zero-padded when it is shorter.
    pub fn from_slice(slice: &[u8]) -> (r: Self)
        ensures
            r.0@ == slice_to_32(slice@),
    {
        Hash32(bytes32_from_slice(slice))
    }
}

/// An account: its balance, nonce, key-value storage and code hash.
#[derive(Debug)]
pub struct AccountData {
    pub balance: u128,
    pub nonce: u64,
    pub storage: Table<Vec<u8>, Vec<u8>>,
    pub code_hash: Option<Hash32>,
}

impl AccountData {
    pub fn new(balance: u128) -> (r: Self)
        ensures
            r.balance == balance,
            r.nonce == 0,
            r.storage.wf(),
            r.storage@ == Map::<Seq<u8>, Vec<u8>>::empty(),
            r.code_hash is None,
    {
        AccountData { balance, nonce: 0, storage: Table::new(), code_hash: None }
    }

    /// Whether the balance covers `amount` plus `fee` (their sum saturating).
    pub fn can_transfer(&self, amount: u128, fee: u128) -> (r: bool)
        ensures
            r == (self.balance >= amount.saturating_add(fee)),
    {
        self.balance >= amount.saturating_add(fee)
    }
}

impl Default for AccountData {
    fn default() -> (r: Self)
        ensures
            r.balance == 0,
            r.nonce == 0,
            r.storage@ == Map::<Seq<u8>, Vec<u8>>::empty(),
            r.code_hash is None,
    {
        AccountData::new(0)
    }
}

/// A stored value and the SHA-256 digest of its bytes.
#[derive(Clone, Debug)]
pub struct StorageValue {
    pub value: Vec<u8>,
    pub hash: Hash32,
}

/// Key-value storage with a running size and a Merkle root.
#[derive(Debug)]
pub struct Storage {
    pub values: Table<Vec<u8>, StorageValue>,
    pub size: u64,
}

/// The leaf of a storage entry: the digest of its key followed by its value.
pub open spec fn storage_leaf(k: Seq<u8>, v: Seq<u8>) -> Seq<u8> {
    sha256_spec(k + v)
}

/// The Merkle root of a storage map: its entries in key order.
pub open spec fn storage_root_spec(m: Map<Seq<u8>, StorageValue>) -> Seq<u8> {
    merkle_fold(sorted_order(m.dom()).map_values(|k: Seq<u8>| storage_leaf(k, m[k].value@)))
}

/// The number of bytes stored under `k`, or 0 when nothing is.
pub open spec fn stored_len(m: Map<Seq<u8>, StorageValue>, k: Seq<u8>) -> int {
    if m.dom().contains(k) {
        m[k].value@.len() as int
    } else {
        0
    }
}

impl Storage {
    pub fn new() -> (r: Self)
        ensures
            r.values.wf(),
            r.values@ == Map::<Seq<u8>, StorageValue>::empty(),
            r.size == 0,
    {
        Storage { values: Table::new(), size: 0 }
    }

    pub fn get(&self, key: &Vec<u8>) -> (r: Option<&StorageValue>)
        requires
            self.values.wf(),
        ensures
            r is Some <==> self.values@.dom().contains(key@),
            r matches Some(v) ==> *v == self.values@[key@],
    {
        self.values.get(key)
    }

    /// Stores `value` under `key` with its digest, returning the bytes it
    /// replaces; `size` moves by the difference in length (as a signed
    /// 64-bit sum, reinterpreted unsigned).
    pub fn set(&mut self, key: Vec<u8>, value: Vec<u8>) -> (old_value: Option<Vec<u8>>)
        requires
            old(self).values.wf(),
            value@.len() <= i64::MAX,
            stored_len(old(self).values@, key@) <= i64::MAX,
            i64::MIN <= (old(self).size as i64) as int + value@.len() - stored_len(
                old(self).values@,
                key@,
            ) <= i64::MAX,
        ensures
            final(self).values.wf(),
            final(self).values@.dom() == old(self).values@.dom().insert(key@),
            final(self).values@[key@].value@ == value@,
            final(self).values@[key@].hash.0@ == sha256_spec(value@),
            forall|k: Seq<u8>|
                k != key@ && #[trigger] old(self).values@.dom().contains(k) ==> final(self).values@[k] == old(self).values@[k],
            final(self).size == (((old(self).size as i64) as int + value@.len() - stored_len(
                old(self).values@,
                key@,
            )) as i64) as u64,
            old(self).values@.dom().contains(key@) <==> old_value is Some,
            old_value matches Some(o) ==> o@ == old(self).values@[key@].value@,
    {
        let ghost old_map = self.values@;
        let old_value = match self.values.remove(&key) {
            Some(sv) => Some(sv.value),
            None => None,
        };
        let hash = Self::compute_value_hash(value.as_slice());
        let old_len: i128 = match &old_value {
            Some(old) => old.len() as i128,
            None => 0,
        };
        let total: i128 = (self.size as i64) as i128 + value.len() as i128 - old_len;
        self.size = (total as i64) as u64;
        let ghost vv = value@;
        self.values.insert(key, StorageValue { value, hash });
        proof {
            assert(self.values@.dom() =~= old_map.dom().insert(key@));
        }
        old_value
    }

    /// Removes `key`, shrinking `size` (saturating) by the removed length.
    pub fn remove(&mut self, key: &Vec<u8>) -> (old_value: Option<Vec<u8>>)
        requires
            old(self).values.wf(),
        ensures
            final(self).values.wf(),
            final(self).values@ == old(self).values@.remove(key@),
            old(self).values@.dom().contains(key@) <==> old_value is Some,
            old_value matches Some(o) ==> o@ == old(self).values@[key@].value@
                && final(self).size == old(self).size.saturating_sub(o@.len() as u64),
            old_value is None ==> final(self).size == old(self).size,
    {
        match self.values.remove(key) {
            Some(sv) => {
                self.size = self.size.saturating_sub(sv.value.len() as u64);
                Some(sv.value)
            },
            None => None,
        }
    }

    pub fn root(&self) -> (r: Hash32)
        requires
            self.values.wf(),
        ensures
            r.0@ == storage_root_spec(self.values@),
    {
        self.merkle_root()
    }

    /// The Merkle root of the entries in increasing key order; each leaf is
    /// the digest of the key followed by the value.
    pub fn merkle_root(&self) -> (r: Hash32)
        requires
            self.values.wf(),
        ensures
            r.0@ == storage_root_spec(self.values@),
    {
        let keys = self.values.sorted_keys();
        let ghost order = sorted_order(self.values@.dom());
        let ghost m = self.values@;
        let ghost target = order.map_values(|k: Seq<u8>| storage_leaf(k, m[k].value@));
        let mut leaves: Vec<[u8; 32]> = Vec::new();
        let mut i: usize = 0;
        while i < keys.len()
            invariant
                self.values.wf(),
                m == self.values@,
                views(keys@) == order,
                order.to_set() == m.dom(),
                target == order.map_values(|k: Seq<u8>| storage_leaf(k, m[k].value@)),
                i <= keys@.len(),
                leaves@.len() == i,
                target.len() == keys@.len(),
                arr_views(leaves@) == target.subrange(0, i as int),
            decreases keys@.len() - i,
        {
            assert(views(keys@)[i as int] == keys@[i as int]@);
            assert(m.dom().contains(keys@[i as int]@)) by {
                assert(order.to_set().contains(order[i as int]));
            }
            let sv = self.values.get(&keys[i]).unwrap();
            let mut data: Vec<u8> = Vec::new();
            push_all(&mut data, keys[i].as_slice());
            push_all(&mut data, sv.value.as_slice());
            let h = sha256(data.as_slice());
            let ghost old_leaves = leaves@;
            leaves.push(h);
            proof {
                assert(Seq::<u8>::empty() + keys@[i as int]@ =~= keys@[i as int]@);
                assert(h@ == target[i as int]);
                assert(arr_views(leaves@) =~= target.subrange(0, i + 1)) by {
                    assert forall|j: int| 0 <= j < i + 1 implies arr_views(leaves@)[j] == target.subrange(0, i + 1)[j] by {
                        if j < i {
                            assert(arr_views(old_leaves)[j] == target.subrange(0, i as int)[j]);
                            assert(leaves@[j] == old_leaves[j]);
                        }
                    }
                }
            }
            i = i + 1;
        }
        proof {
            assert(order.to_set() == m.dom());
            assert(target.subrange(0, keys@.len() as int) =~= target);
        }
        Hash32(merkle_root(leaves))
    }

    fn compute_value_hash(value: &[u8]) -> (r: Hash32)
        ensures
            r.0@ == sha256_spec(value@),
    {
        Hash32(sha256(value))
    }
}

impl Default for Storage {
    fn default() -> (r: Self)
        ensures
            r.values@ == Map::<Seq<u8>, StorageValue>::empty(),
            r.size == 0,
    {
        Storage::new()
    }
}

} // verus!

verus! {

/// The balance held under `k` in an account map, 0 when there is no account.
pub open spec fn balance_in(m: Map<Seq<u8>, AccountData>, k: Seq<u8>) -> u128 {
    if m.dom().contains(k) {
        m[k].balance
    } else {
        0
    }
}

/// `after` is `before` with `amount` added (saturating) to the account `k`,
/// which is created empty when missing; every other account is unchanged.
pub open spec fn credited(
    before: Map<Seq<u8>, AccountData>,
    after: Map<Seq<u8>, AccountData>,
    k: Seq<u8>,
    amount: u128,
) -> bool {
    &&& after.dom() == before.dom().insert(k)
    &&& after[k].balance == balance_in(before, k).saturating_add(amount)
    &&& before.dom().contains(k) ==> after[k].nonce == before[k].nonce && after[k].code_hash
        == before[k].code_hash && after[k].storage@ == before[k].storage@
    &&& !before.dom().contains(k) ==> after[k].nonce == 0 && after[k].code_hash is None
        && after[k].storage@.dom().len() == 0
    &&& forall|j: Seq<u8>| #[trigger] before.dom().contains(j) && j != k ==> after[j] == before[j]
}

/// The leaf of an account in a state root: the digest of its address, its
/// balance (16 bytes) and its nonce (8 bytes), little-endian.
pub open spec fn account_leaf(addr: Seq<u8>, balance: u128, nonce: u64) -> Seq<u8> {
    sha256_spec(addr + le_bytes(balance as nat, 16) + le_bytes(nonce as nat, 8))
}

/// The balance and nonce of every account: all that a state root reads of it.
pub open spec fn ledger(m: Map<Seq<u8>, AccountData>) -> Map<Seq<u8>, (u128, u64)> {
    m.map_values(|a: AccountData| (a.balance, a.nonce))
}

/// The leaves of a ledger in increasing address order.
pub open spec fn account_leaves(l: Map<Seq<u8>, (u128, u64)>) -> Seq<Seq<u8>> {
    sorted_order(l.dom()).map_values(|k: Seq<u8>| account_leaf(k, l[k].0, l[k].1))
}

/// Computes the leaf of one account.
pub fn account_leaf_hash(addr: &Address, balance: u128, nonce: u64) -> (h: [u8; 32])
    ensures
        h@ == account_leaf(addr.0@, balance, nonce),
{
    let mut data: Vec<u8> = Vec::new();
    push_arr(&mut data, &addr.0);
    push_le(&mut data, balance, 16);
    push_le(&mut data, nonce as u128, 8);
    assert(Seq::<u8>::empty() + addr.0@ =~= addr.0@);
    sha256(data.as_slice())
}

/// The leaves of the accounts of a table, in increasing address order.
pub fn account_leaf_list(accounts: &Table<Address, AccountData>) -> (leaves: Vec<[u8; 32]>)
    requires
        accounts.wf(),
    ensures
        arr_views(leaves@) == account_leaves(ledger(accounts@)),
{
    let keys = accounts.sorted_keys();
    let ghost order = sorted_order(accounts@.dom());
    let ghost m = accounts@;
    let ghost l = ledger(m);
    let ghost target = order.map_values(|k: Seq<u8>| account_leaf(k, l[k].0, l[k].1));
    let mut leaves: Vec<[u8; 32]> = Vec::new();
    let mut i: usize = 0;
    while i < keys.len()
        invariant
            accounts.wf(),
            m == accounts@,
            views(keys@) == order,
            order.to_set() == m.dom(),
            l == ledger(m),
            target == order.map_values(|k: Seq<u8>| account_leaf(k, l[k].0, l[k].1)),
            target.len() == keys@.len(),
            i <= keys@.len(),
            leaves@.len() == i,
            arr_views(leaves@) == target.subrange(0, i as int),
        decreases keys@.len() - i,
    {
        assert(views(keys@)[i as int] == keys@[i as int].0@);
        assert(m.dom().contains(keys@[i as int].0@)) by {
            assert(order.to_set().contains(order[i as int]));
        }
        let acct = accounts.get(&keys[i]).unwrap();
        let h = account_leaf_hash(&keys[i], acct.balance, acct.nonce);
        let ghost old_leaves = leaves@;
        leaves.push(h);
        proof {
            assert(order[i as int] == keys@[i as int].0@);
            assert(*acct == m[keys@[i as int].0@]);
            assert(l[keys@[i as int].0@] == (acct.balance, acct.nonce));
            assert(h@ == target[i as int]);
            assert(arr_views(leaves@) =~= target.subrange(0, i + 1)) by {
                assert forall|j: int| 0 <= j < i + 1 implies arr_views(leaves@)[j] == target.subrange(0, i + 1)[j] by {
                    if j < i {
                        assert(arr_views(old_leaves)[j] == target.subrange(0, i as int)[j]);
                        assert(leaves@[j] == old_leaves[j]);
                    }
                }
            }
        }
        i = i + 1;
    }
    assert(target.subrange(0, keys@.len() as int) =~= target);
    assert(l.dom() =~= m.dom());
    assert(target =~= account_leaves(ledger(accounts@)));
    leaves
}

/// The root of the accounts of a state together with its storage root:
/// 32 zero bytes when both are empty.
pub open spec fn state_root_spec(
    accounts: Map<Seq<u8>, (u128, u64)>,
    storage: Map<Seq<u8>, StorageValue>,
) -> Seq<u8> {
    if accounts.dom().len() == 0 && storage.dom().len() == 0 {
        zeros32()
    } else {
        merkle_fold(account_leaves(accounts).push(storage_root_spec(storage)))
    }
}

/// Accounts and storage of the state machine.
#[derive(Debug)]
pub struct State {
    pub accounts: Table<Address, AccountData>,
    pub storage: Storage,
}

impl State {
    /// Both tables are well formed.
    pub open spec fn wf(&self) -> bool {
        self.accounts.wf() && self.storage.values.wf()
    }

    pub fn new() -> (r: Self)
        ensures
            r.wf(),
            r.accounts@ == Map::<Seq<u8>, AccountData>::empty(),
            r.storage.values@ == Map::<Seq<u8>, StorageValue>::empty(),
            r.storage.size == 0,
    {
        State { accounts: Table::new(), storage: Storage::new() }
    }

    /// Creates (or replaces) the account at `address` with `balance`.
    pub fn create_account(&mut self, address: Address, balance: u128)
        requires
            old(self).wf(),
        ensures
            final(self).wf(),
            final(self).accounts@.dom() == old(self).accounts@.dom().insert(address.0@),
            final(self).accounts@[address.0@].balance == balance,
            final(self).accounts@[address.0@].nonce == 0,
            final(self).accounts@[address.0@].code_hash is None,
            final(self).accounts@[address.0@].storage@.dom().len() == 0,
            forall|k: Seq<u8>| #[trigger] old(self).accounts@.dom().contains(k) && k != address.0@
                ==> final(self).accounts@[k] == old(self).accounts@[k],
            final(self).storage == old(self).storage,
    {
        self.accounts.insert(address, AccountData::new(balance));
    }

    pub fn account_exists(&self, address: &Address) -> (r: bool)
        requires
            self.wf(),
        ensures
            r == self.accounts@.dom().contains(address.0@),
    {
        self.accounts.contains_key(address)
    }

    pub fn get_account(&self, address: &Address) -> (r: Option<&AccountData>)
        requires
            self.wf(),
        ensures
            r is Some <==> self.accounts@.dom().contains(address.0@),
            r matches Some(a) ==> *a == self.accounts@[address.0@],
    {
        self.accounts.get(address)
    }

    pub fn get_account_mut(&mut self, address: &Address) -> (r: Option<&mut AccountData>)
        requires
            old(self).wf(),
        ensures
            final(self).wf(),
            final(self).storage == old(self).storage,
            r is Some <==> old(self).accounts@.dom().contains(address.0@),
            r matches Some(a) ==> *a == old(self).accounts@[address.0@] && final(self).accounts@
                == old(self).accounts@.insert(address.0@, *final(a)),
            r is None ==> final(self).accounts@ == old(self).accounts@,
    {
        self.accounts.get_mut(address)
    }

    /// Adds `amount` (saturating) to the account at `to`, creating it when missing.
    pub fn credit(&mut self, to: &Address, amount: u128)
        requires
            old(self).wf(),
        ensures
            final(self).wf(),
            final(self).storage == old(self).storage,
            credited(old(self).accounts@, final(self).accounts@, to.0@, amount),
    {
        let ghost before = self.accounts@;
        match self.accounts.find(to) {
            Some(i) => {
                let a = self.accounts.value_mut_at(i);
                a.balance = a.balance.saturating_add(amount);
            },
            None => {
                let mut a = AccountData::new(0);
                a.balance = a.balance.saturating_add(amount);
                self.accounts.insert(*to, a);
            },
        }
        proof {
            assert(self.accounts@.dom() =~= before.dom().insert(to.0@));
        }
    }

    /// Moves `amount` from `from` to `to`; the receiving account is created
    /// when missing and its balance saturates.
    pub fn transfer(&mut self, from: &Address, to: &Address, amount: u128) -> (r: Result<
        (),
        KernelError,
    >)
        requires
            old(self).wf(),
        ensures
            final(self).wf(),
            final(self).storage == old(self).storage,
            !old(self).accounts@.dom().contains(from.0@) ==> (r matches Err(
                KernelError::AccountNotFound(_),
            ) && final(self).accounts@ == old(self).accounts@),
            old(self).accounts@.dom().contains(from.0@) && old(self).accounts@[from.0@].balance
                < amount ==> (r matches Err(KernelError::InsufficientBalance(req, avail)) && req
                == amount && avail == old(self).accounts@[from.0@].balance && final(self).accounts@
                == old(self).accounts@),
            old(self).accounts@.dom().contains(from.0@) && old(self).accounts@[from.0@].balance
                >= amount ==> r is Ok && credited(
                old(self).accounts@.insert(
                    from.0@,
                    AccountData { balance: (old(self).accounts@[from.0@].balance - amount) as u128, ..old(self).accounts@[from.0@] },
                ),
                final(self).accounts@,
                to.0@,
                amount,
            ),
            r is Ok && from.0@ != to.0@ && balance_in(old(self).accounts@, to.0@) + amount <= u128::MAX
                ==> final(self).accounts@[from.0@].balance == old(self).accounts@[from.0@].balance - amount
                && final(self).accounts@[to.0@].balance == balance_in(old(self).accounts@, to.0@) + amount,
            r is Ok && from.0@ == to.0@ ==> final(self).accounts@[from.0@].balance
                == old(self).accounts@[from.0@].balance,
    {
        match self.accounts.get_mut(from) {
            None => {
                let msg = address_debug_string(from);
                return Err(KernelError::AccountNotFound(msg));
            },
            Some(from_account) => {
                if from_account.balance < amount {
                    return Err(KernelError::InsufficientBalance(amount, from_account.balance));
                }
                from_account.balance = from_account.balance.saturating_sub(amount);
            },
        }
        let ghost mid = self.accounts@;
        self.credit(to, amount);
        proof {
            if from.0@ != to.0@ {
                assert(mid.dom().contains(from.0@));
                assert(balance_in(mid, to.0@) == balance_in(old(self).accounts@, to.0@));
            }
        }
        Ok(())
    }

    pub fn root(&self) -> (r: Hash32)
        requires
            self.wf(),
        ensures
            r.0@ == state_root_spec(ledger(self.accounts@), self.storage.values@),
    {
        self.merkle_root()
    }

    /// The Merkle root of the account leaves (in address order) followed by
    /// the storage root; 32 zero bytes when there are no accounts and no storage.
    pub fn merkle_root(&self) -> (r: Hash32)
        requires
            self.wf(),
        ensures
            r.0@ == state_root_spec(ledger(self.accounts@), self.storage.values@),
    {
        proof {
            assert(ledger(self.accounts@).dom() =~= self.accounts@.dom());
        }
        if self.accounts.is_empty() && self.storage.values.is_empty() {
            return Hash32::empty();
        }
        let mut leaves = account_leaf_list(&self.accounts);
        let storage_root = self.storage.merkle_root();
        let ghost before = leaves@;
        leaves.push(storage_root.0);
        assert(arr_views(leaves@) =~= arr_views(before).push(storage_root.0@));
        Hash32(merkle_root(leaves))
    }
}

impl Default for State {
    fn default() -> (r: Self)
        ensures
            r.wf(),
            r.accounts@ == Map::<Seq<u8>, AccountData>::empty(),
            r.storage.values@ == Map::<Seq<u8>, StorageValue>::empty(),
    {
        State::new()
    }
}

/// Renders an address with its `Debug` formatting.
#[verifier::external_body]
pub(crate) fn address_debug_string(a: &Address) -> String {
    format!("{:?}", a)
}

} // verus!

verus! {

/// A signed transaction: the transaction and its signature bytes.
#[derive(Clone, Debug)]
pub struct SignedTransaction {
    pub transaction: Transaction,
    pub signature: Vec<u8>,
}

/// A transaction of the kernel.
#[derive(Clone, Debug)]
pub struct Transaction {
    pub tx_type: TransactionType,
    pub sender: [u8; 32],
    pub nonce: u64,
    pub gas_limit: u64,
    pub gas_price: u64,
    pub value: u128,
    pub payload: Vec<u8>,
    pub chain_id: u32,
}

/// The canonical encoding of a transaction: kind code, sender, nonce,
/// gas limit, gas price (8 bytes each), value (16 bytes), payload length
/// (4 bytes, truncated), payload, chain id (4 bytes); integers little-endian.
pub open spec fn tx_encoding(tx: Transaction) -> Seq<u8> {
    seq![tx_type_code(tx.tx_type)] + tx.sender@ + le_bytes(tx.nonce as nat, 8) + le_bytes(
        tx.gas_limit as nat,
        8,
    ) + le_bytes(tx.gas_price as nat, 8) + le_bytes(tx.value as nat, 16) + le_bytes(
        (tx.payload@.len() as u32) as nat,
        4,
    ) + tx.payload@ + le_bytes(tx.chain_id as nat, 4)
}

/// The fee a transaction offers: gas limit times gas price.
pub open spec fn tx_fee(tx: Transaction) -> u128 {
    (tx.gas_limit * tx.gas_price) as u128
}

impl Transaction {
    pub fn new(sender: [u8; 32]) -> (r: Self)
        ensures
            r.tx_type == TransactionType::Transfer,
            r.sender == sender,
            r.nonce == 0,
            r.gas_limit == 21000,
            r.gas_price == 1,
            r.value == 0,
            r.payload@.len() == 0,
            r.chain_id == 0,
    {
        Transaction {
            tx_type: TransactionType::Transfer,
            sender,
            nonce: 0,
            gas_limit: 21000,
            gas_price: 1,
            value: 0,
            payload: Vec::new(),
            chain_id: 0,
        }
    }

    pub fn sender_address(&self) -> (r: Address)
        ensures
            r.0 == self.sender,
    {
        Address(self.sender)
    }

    pub fn encode(&self) -> (r: Vec<u8>)
        ensures
            r@ == tx_encoding(*self),
    {
        let mut bytes: Vec<u8> = Vec::new();
        bytes.push(self.tx_type.to_u8());
        push_arr(&mut bytes, &self.sender);
        push_le(&mut bytes, self.nonce as u128, 8);
        push_le(&mut bytes, self.gas_limit as u128, 8);
        push_le(&mut bytes, self.gas_price as u128, 8);
        push_le(&mut bytes, self.value, 16);
        push_le(&mut bytes, (self.payload.len() as u32) as u128, 4);
        push_all(&mut bytes, self.payload.as_slice());
        push_le(&mut bytes, self.chain_id as u128, 4);
        assert(bytes@ =~= tx_encoding(*self));
        bytes
    }

    pub fn hash(&self) -> (r: Hash32)
        ensures
            r.0@ == sha256_spec(tx_encoding(*self)),
    {
        let encoded = self.encode();
        Hash32(sha256(encoded.as_slice()))
    }

    pub fn fee(&self) -> (r: u128)
        ensures
            r == tx_fee(*self),
            r == self.gas_limit as int * self.gas_price as int,
    {
        assert(self.gas_limit as int * self.gas_price as int <= u64::MAX as int * u64::MAX as int)
            by (nonlinear_arith);
        (self.gas_limit as u128) * (self.gas_price as u128)
    }
}

/// Gas costs of the kernel.
#[derive(Clone, Copy, Debug)]
pub struct GasSchedule {
    pub tx_base_gas: u64,
    pub transfer_gas: u64,
    pub contract_deploy_gas: u64,
    pub contract_call_gas: u64,
    pub storage_write_gas: u64,
    pub storage_read_gas: u64,
    pub sload_gas: u64,
    pub per_byte_gas: u64,
}

/// The kernel's default gas costs.
pub open spec fn default_gas_schedule(g: GasSchedule) -> bool {
    &&& g.tx_base_gas == 21000
    &&& g.transfer_gas == 21000
    &&& g.contract_deploy_gas == 100000
    &&& g.contract_call_gas == 50000
    &&& g.storage_write_gas == 50000
    &&& g.storage_read_gas == 5000
    &&& g.sload_gas == 5000
    &&& g.per_byte_gas == 1
}

impl Default for GasSchedule {
    fn default() -> (r: Self)
        ensures
            default_gas_schedule(r),
    {
        GasSchedule {
            tx_base_gas: 21000,
            transfer_gas: 21000,
            contract_deploy_gas: 100000,
            contract_call_gas: 50000,
            storage_write_gas: 50000,
            storage_read_gas: 5000,
            sload_gas: 5000,
            per_byte_gas: 1,
        }
    }
}

/// What validation learned of a sender.
#[derive(Clone, Copy, Debug)]
pub struct Validation {
    pub sender_nonce: u64,
    pub sender_balance: u128,
    pub fee: u128,
}

/// An event emitted during execution.
#[derive(Clone, Debug)]
pub struct Event {
    pub phase: u8,
    pub address: Address,
    pub topics: Vec<Hash32>,
    pub data: Vec<u8>,
}

/// The outcome of executing one transaction.
#[derive(Clone, Debug)]
pub struct ExecutionReceipt {
    pub tx_hash: Hash32,
    pub gas_used: u64,
    pub state_root: Hash32,
    pub success: bool,
    pub output: Vec<u8>,
    pub events: Vec<Event>,
}

/// The outcome of applying a block.
#[derive(Clone, Copy, Debug)]
pub struct BlockReceipt {
    pub state_root: Hash32,
    pub receipts_root: Hash32,
    pub gas_used: u64,
    pub transaction_count: u32,
}

/// The root of an account map alone (no storage): 32 zero bytes when empty.
pub fn compute_state_root(accounts: &Table<Address, AccountData>) -> (r: Hash32)
    requires
        accounts.wf(),
    ensures
        r.0@ == merkle_fold(account_leaves(ledger(accounts@))),
{
    let leaves = account_leaf_list(accounts);
    Hash32(merkle_root(leaves))
}

/// The leaf of a receipt: digest of its transaction hash, gas used
/// (8 bytes little-endian) and a success byte.
pub open spec fn receipt_leaf(tx_hash: Seq<u8>, gas_used: u64, success: bool) -> Seq<u8> {
    sha256_spec(tx_hash + le_bytes(gas_used as nat, 8) + seq![if success { 1u8 } else { 0u8 }])
}

/// The Merkle root of receipts in their order.
pub open spec fn receipts_root_spec(rs: Seq<ExecutionReceipt>) -> Seq<u8> {
    merkle_fold(rs.map_values(|r: ExecutionReceipt| receipt_leaf(r.tx_hash.0@, r.gas_used, r.success)))
}

fn compute_receipts_root(receipts: &Vec<ExecutionReceipt>) -> (r: Hash32)
    ensures
        r.0@ == receipts_root_spec(receipts@),
{
    let ghost target = receipts@.map_values(
        |r: ExecutionReceipt| receipt_leaf(r.tx_hash.0@, r.gas_used, r.success),
    );
    let mut leaves: Vec<[u8; 32]> = Vec::new();
    let mut i: usize = 0;
    while i < receipts.len()
        invariant
            i <= receipts@.len(),
            leaves@.len() == i,
            target == receipts@.map_values(
                |r: ExecutionReceipt| receipt_leaf(r.tx_hash.0@, r.gas_used, r.success),
            ),
            arr_views(leaves@) == target.subrange(0, i as int),
        decreases receipts@.len() - i,
    {
        let r = &receipts[i];
        let mut data: Vec<u8> = Vec::new();
        push_arr(&mut data, &r.tx_hash.0);
        push_le(&mut data, r.gas_used as u128, 8);
        data.push(if r.success { 1u8 } else { 0u8 });
        let h = sha256(data.as_slice());
        let ghost old_leaves = leaves@;
        leaves.push(h);
        proof {
            assert(Seq::<u8>::empty() + r.tx_hash.0@ =~= r.tx_hash.0@);
            assert(data@ =~= r.tx_hash.0@ + le_bytes(r.gas_used as nat, 8) + seq![if r.success { 1u8 } else { 0u8 }]);
            assert(h@ == target[i as int]);
            assert(arr_views(leaves@) =~= target.subrange(0, i + 1)) by {
                assert forall|j: int| 0 <= j < i + 1 implies arr_views(leaves@)[j] == target.subrange(0, i + 1)[j] by {
                    if j < i {
                        assert(arr_views(old_leaves)[j] == target.subrange(0, i as int)[j]);
                        assert(leaves@[j] == old_leaves[j]);
                    }
                }
            }
        }
        i = i + 1;
    }
    assert(target.subrange(0, receipts@.len() as int) =~= target);
    Hash32(merkle_root(leaves))
}

} // verus!

verus! {

/// The recipient a transfer names: the first 32 bytes of its payload,
/// zero-padded.
pub open spec fn tx_recipient(tx: Transaction) -> Seq<u8> {
    slice_to_32(tx.payload@)
}

/// Whether a transaction credits its value to a recipient: a transfer of a
/// positive value with a payload that names a non-zero address.
pub open spec fn tx_credits(tx: Transaction) -> bool {
    tx.tx_type == TransactionType::Transfer && tx.value > 0 && tx.payload@.len() > 0
        && tx_recipient(tx) != zeros32()
}

/// The balance of `k` in a ledger, 0 when absent.
pub open spec fn ledger_balance(l: Map<Seq<u8>, (u128, u64)>, k: Seq<u8>) -> u128 {
    if l.dom().contains(k) {
        l[k].0
    } else {
        0
    }
}

/// `l` with `amount` added (saturating) to `k`, which starts at (0, 0) when absent.
pub open spec fn ledger_credit(l: Map<Seq<u8>, (u128, u64)>, k: Seq<u8>, amount: u128) -> Map<
    Seq<u8>,
    (u128, u64),
> {
    l.insert(
        k,
        (
            ledger_balance(l, k).saturating_add(amount),
            if l.dom().contains(k) {
                l[k].1
            } else {
                0
            },
        ),
    )
}

/// Whether the kernel accepts `tx` against the ledger `l` on chain `chain_id`.
pub open spec fn tx_accepted(l: Map<Seq<u8>, (u128, u64)>, chain_id: u32, tx: Transaction) -> bool {
    &&& tx.chain_id == chain_id
    &&& l.dom().contains(tx.sender@)
    &&& l[tx.sender@].1 == tx.nonce
    &&& l[tx.sender@].0 >= tx.value.saturating_add(tx_fee(tx))
    &&& tx.gas_limit <= MAX_GAS_PER_BLOCK
}

/// The ledger after executing an accepted transaction: the sender pays the
/// fee and the value and its nonce goes up (both saturating); then a
/// crediting transfer pays the value to its recipient.
pub open spec fn tx_apply(l: Map<Seq<u8>, (u128, u64)>, tx: Transaction) -> Map<Seq<u8>, (u128, u64)> {
    let s = tx.sender@;
    let l1 = l.insert(
        s,
        (l[s].0.saturating_sub(tx_fee(tx)).saturating_sub(tx.value), l[s].1.saturating_add(1)),
    );
    if tx_credits(tx) {
        ledger_credit(l1, tx_recipient(tx), tx.value)
    } else {
        l1
    }
}

/// The gas an accepted transaction uses under schedule `g`.
pub open spec fn tx_gas(g: GasSchedule, tx: Transaction) -> int {
    g.tx_base_gas + match tx.tx_type {
        TransactionType::Transfer => g.transfer_gas as int,
        TransactionType::DeployContract => g.contract_deploy_gas + tx.payload@.len() * g.per_byte_gas,
        TransactionType::CallContract => g.contract_call_gas + tx.payload@.len() * g.per_byte_gas,
        _ => 0,
    }
}

/// The accounts after a transaction keep their code hashes and storage;
/// accounts it creates have none.
pub open spec fn accounts_framed(before: Map<Seq<u8>, AccountData>, after: Map<Seq<u8>, AccountData>) -> bool {
    &&& before.dom().subset_of(after.dom())
    &&& forall|k: Seq<u8>| #[trigger] after.dom().contains(k) ==> if before.dom().contains(k) {
        after[k].code_hash == before[k].code_hash && after[k].storage@ == before[k].storage@
    } else {
        after[k].code_hash is None && after[k].storage@.dom().len() == 0
    }
}

/// The kernel's state machine.
pub struct Kernel {
    state: State,
    gas_schedule: GasSchedule,
    chain_id: u32,
}

impl Kernel {
    /// The state of the kernel.
    pub closed spec fn state_spec(&self) -> State {
        self.state
    }

    /// The chain the kernel accepts transactions for.
    pub closed spec fn chain_spec(&self) -> u32 {
        self.chain_id
    }

    /// The kernel's gas costs.
    pub closed spec fn gas_spec(&self) -> GasSchedule {
        self.gas_schedule
    }

    /// The state's tables are well formed and the gas costs are the defaults.
    pub open spec fn wf(&self) -> bool {
        self.state_spec().wf() && default_gas_schedule(self.gas_spec())
    }

    pub fn new(chain_id: u32) -> (r: Self)
        ensures
            r.wf(),
            r.chain_spec() == chain_id,
            default_gas_schedule(r.gas_spec()),
            r.state_spec().accounts@ == Map::<Seq<u8>, AccountData>::empty(),
            r.state_spec().storage.values@ == Map::<Seq<u8>, StorageValue>::empty(),
    {
        Kernel { state: State::new(), gas_schedule: GasSchedule::default(), chain_id }
    }

    pub fn state(&self) -> (r: &State)
        ensures
            *r == self.state_spec(),
    {
        &self.state
    }

    pub fn state_mut(&mut self) -> (r: &mut State)
        ensures
            *r == old(self).state_spec(),
            final(self).state_spec() == *final(r),
            final(self).chain_spec() == old(self).chain_spec(),
            final(self).gas_spec() == old(self).gas_spec(),
    {
        &mut self.state
    }

    pub fn chain_id(&self) -> (r: u32)
        ensures
            r == self.chain_spec(),
    {
        self.chain_id
    }

    pub fn create_account(&mut self, address: Address, balance: u128)
        requires
            old(self).wf(),
        ensures
            final(self).wf(),
            final(self).chain_spec() == old(self).chain_spec(),
            final(self).state_spec().accounts@.dom() == old(self).state_spec().accounts@.dom().insert(address.0@),
            final(self).state_spec().accounts@[address.0@].balance == balance,
            final(self).state_spec().accounts@[address.0@].nonce == 0,
            forall|k: Seq<u8>| #[trigger] old(self).state_spec().accounts@.dom().contains(k) && k != address.0@
                ==> final(self).state_spec().accounts@[k] == old(self).state_spec().accounts@[k],
            final(self).state_spec().storage == old(self).state_spec().storage,
    {
        self.state.create_account(address, balance);
    }

    pub fn account_exists(&self, address: &Address) -> (r: bool)
        requires
            self.wf(),
        ensures
            r == self.state_spec().accounts@.dom().contains(address.0@),
    {
        self.state.account_exists(address)
    }

    /// The balance at `address`, 0 when there is no account.
    pub fn get_balance(&self, address: &Address) -> (r: u128)
        requires
            self.wf(),
        ensures
            r == balance_in(self.state_spec().accounts@, address.0@),
    {
        match self.state.get_account(address) {
            Some(a) => a.balance,
            None => 0,
        }
    }

    /// The nonce at `address`, 0 when there is no account.
    pub fn get_nonce(&self, address: &Address) -> (r: u64)
        requires
            self.wf(),
        ensures
            self.state_spec().accounts@.dom().contains(address.0@) ==> r == self.state_spec().accounts@[address.0@].nonce,
            !self.state_spec().accounts@.dom().contains(address.0@) ==> r == 0,
    {
        match self.state.get_account(address) {
            Some(a) => a.nonce,
            None => 0,
        }
    }

    /// Checks, in this order, the chain id, that the sender exists, its
    /// nonce, that its balance covers value plus fee, and the gas limit.
    pub fn validate_transaction(&self, tx: &Transaction) -> (r: Result<Validation, KernelError>)
        requires
            self.wf(),
        ensures
            ({
                let l = ledger(self.state_spec().accounts@);
                let s = tx.sender@;
                &&& tx.chain_id != self.chain_spec() ==> (r matches Err(KernelError::InvalidTransactionType))
                &&& tx.chain_id == self.chain_spec() && !l.dom().contains(s) ==> (r matches Err(KernelError::AccountNotFound(_)))
                &&& tx.chain_id == self.chain_spec() && l.dom().contains(s) && l[s].1 != tx.nonce ==> r
                    == Err::<Validation, KernelError>(KernelError::InvalidNonce(l[s].1, tx.nonce))
                &&& tx.chain_id == self.chain_spec() && l.dom().contains(s) && l[s].1 == tx.nonce && l[s].0
                    < tx.value.saturating_add(tx_fee(*tx)) ==> r == Err::<Validation, KernelError>(
                    KernelError::InsufficientBalance(tx.value.saturating_add(tx_fee(*tx)), l[s].0),
                )
                &&& tx.chain_id == self.chain_spec() && l.dom().contains(s) && l[s].1 == tx.nonce && l[s].0
                    >= tx.value.saturating_add(tx_fee(*tx)) && tx.gas_limit > MAX_GAS_PER_BLOCK ==> r
                    == Err::<Validation, KernelError>(KernelError::InsufficientGas(0, tx.gas_limit))
                &&& tx_accepted(l, self.chain_spec(), *tx) <==> r is Ok
                &&& (r matches Ok(v) ==> v.sender_nonce == l[s].1 && v.sender_balance == l[s].0 && v.fee == tx_fee(*tx))
            }),
    {
        if tx.chain_id != self.chain_id {
            return Err(KernelError::InvalidTransactionType);
        }
        let sender = tx.sender_address();
        let account = match self.state.get_account(&sender) {
            Some(a) => a,
            None => {
                return Err(KernelError::AccountNotFound(address_debug_string(&sender)));
            },
        };
        if account.nonce != tx.nonce {
            return Err(KernelError::InvalidNonce(account.nonce, tx.nonce));
        }
        let fee = tx.fee();
        if account.balance < tx.value.saturating_add(fee) {
            return Err(KernelError::InsufficientBalance(tx.value.saturating_add(fee), account.balance));
        }
        if tx.gas_limit > MAX_GAS_PER_BLOCK {
            return Err(KernelError::InsufficientGas(0, tx.gas_limit));
        }
        Ok(Validation { sender_nonce: account.nonce, sender_balance: account.balance, fee })
    }

    /// Validates and executes `tx`: charges the sender, bumps its nonce,
    /// credits a transfer's recipient, and reports the gas and new state root.
    pub fn execute_transaction(&mut self, tx: &Transaction) -> (r: Result<ExecutionReceipt, KernelError>)
        requires
            old(self).wf(),
            tx.payload@.len() <= u64::MAX - 200_000,
        ensures
            final(self).wf(),
            final(self).chain_spec() == old(self).chain_spec(),
            final(self).gas_spec() == old(self).gas_spec(),
            final(self).state_spec().storage == old(self).state_spec().storage,
            tx_accepted(ledger(old(self).state_spec().accounts@), old(self).chain_spec(), *tx) <==> r is Ok,
            r is Err ==> final(self).state_spec() == old(self).state_spec(),
            r matches Ok(rc) ==> {
                &&& ledger(final(self).state_spec().accounts@) == tx_apply(ledger(old(self).state_spec().accounts@), *tx)
                &&& accounts_framed(old(self).state_spec().accounts@, final(self).state_spec().accounts@)
                &&& rc.tx_hash.0@ == sha256_spec(tx_encoding(*tx))
                &&& rc.gas_used == tx_gas(old(self).gas_spec(), *tx)
                &&& rc.state_root.0@ == state_root_spec(ledger(final(self).state_spec().accounts@), final(self).state_spec().storage.values@)
                &&& rc.success
                &&& rc.output@.len() == 0
                &&& rc.events@.len() == 0
            },
    {
        let validation = self.validate_transaction(tx);
        match validation {
            Err(e) => {
                return Err(e);
            },
            Ok(_) => {},
        }
        let ghost before = self.state.accounts@;
        let ghost l0 = ledger(before);
        let sender = tx.sender_address();
        let fee = tx.fee();
        match self.state.accounts.get_mut(&sender) {
            Some(account) => {
                account.balance = account.balance.saturating_sub(fee);
                if tx.value > 0 {
                    account.balance = account.balance.saturating_sub(tx.value);
                }
                account.nonce = account.nonce.saturating_add(1);
            },
            None => {},
        }
        let ghost mid = self.state.accounts@;
        proof {
            let s = tx.sender@;
            assert(ledger(mid) =~= l0.insert(
                s,
                (l0[s].0.saturating_sub(tx_fee(*tx)).saturating_sub(tx.value), l0[s].1.saturating_add(1)),
            ));
            assert(accounts_framed(before, mid));
        }
        let mut gas_used: u64 = self.gas_schedule.tx_base_gas;
        match tx.tx_type {
            TransactionType::Transfer => {
                gas_used = gas_used + self.gas_schedule.transfer_gas;
                if tx.value > 0 && tx.payload.len() > 0 {
                    let recipient = Address(bytes32_from_slice(tx.payload.as_slice()));
                    if !recipient.is_zero() {
                        self.state.credit(&recipient, tx.value);
                        proof {
                            let after = self.state.accounts@;
                            assert(ledger(after) =~= ledger_credit(ledger(mid), tx_recipient(*tx), tx.value));
                            assert(accounts_framed(before, after)) by {
                                assert forall|k: Seq<u8>| #[trigger] after.dom().contains(k) implies if before.dom().contains(k) {
                                    after[k].code_hash == before[k].code_hash && after[k].storage@ == before[k].storage@
                                } else {
                                    after[k].code_hash is None && after[k].storage@.dom().len() == 0
                                } by {
                                    if k != recipient.0@ {
                                        assert(mid.dom().contains(k));
                                    }
                                }
                            }
                        }
                    }
                }
            },
            TransactionType::DeployContract => {
                gas_used = gas_used + self.gas_schedule.contract_deploy_gas;
                gas_used = gas_used + tx.payload.len() as u64 * self.gas_schedule.per_byte_gas;
            },
            TransactionType::CallContract => {
                gas_used = gas_used + self.gas_schedule.contract_call_gas;
                gas_used = gas_used + tx.payload.len() as u64 * self.gas_schedule.per_byte_gas;
            },
            _ => {},
        }
        let state_root = self.state.root();
        Ok(ExecutionReceipt {
            tx_hash: tx.hash(),
            gas_used,
            state_root,
            success: true,
            output: Vec::new(),
            events: Vec::new(),
        })
    }
}

impl Default for Kernel {
    fn default() -> (r: Self)
        ensures
            r.wf(),
            r.chain_spec() == 0,
            r.state_spec().accounts@ == Map::<Seq<u8>, AccountData>::empty(),
    {
        Kernel::new(0)
    }
}

} // verus!

verus! {

/// Applying a block to a ledger: transactions run in order until one would
/// take the block's gas past `MAX_GAS_PER_BLOCK`; an accepted one changes the
/// ledger and adds its gas, a refused one is recorded as failed with its gas
/// limit. Gives the final ledger, the receipt leaves and the gas used.
pub open spec fn block_run(
    l: Map<Seq<u8>, (u128, u64)>,
    chain_id: u32,
    g: GasSchedule,
    txs: Seq<Transaction>,
    total: u64,
) -> (Map<Seq<u8>, (u128, u64)>, Seq<Seq<u8>>, u64)
    decreases txs.len(),
{
    if txs.len() == 0 {
        (l, Seq::empty(), total)
    } else if total + txs[0].gas_limit > MAX_GAS_PER_BLOCK {
        (l, Seq::empty(), total)
    } else {
        let tx = txs[0];
        if tx_accepted(l, chain_id, tx) {
            let used = tx_gas(g, tx) as u64;
            let rest = block_run(tx_apply(l, tx), chain_id, g, txs.drop_first(), total.saturating_add(used));
            (rest.0, seq![receipt_leaf(sha256_spec(tx_encoding(tx)), used, true)] + rest.1, rest.2)
        } else {
            let rest = block_run(l, chain_id, g, txs.drop_first(), total);
            (rest.0, seq![receipt_leaf(sha256_spec(tx_encoding(tx)), tx.gas_limit, false)] + rest.1, rest.2)
        }
    }
}

/// Frames compose: what two steps keep, their sequence keeps.
pub proof fn lemma_framed_trans(
    a: Map<Seq<u8>, AccountData>,
    b: Map<Seq<u8>, AccountData>,
    c: Map<Seq<u8>, AccountData>,
)
    requires
        accounts_framed(a, b),
        accounts_framed(b, c),
    ensures
        accounts_framed(a, c),
{
    assert forall|k: Seq<u8>| #[trigger] c.dom().contains(k) implies if a.dom().contains(k) {
        c[k].code_hash == a[k].code_hash && c[k].storage@ == a[k].storage@
    } else {
        c[k].code_hash is None && c[k].storage@.dom().len() == 0
    } by {
        if b.dom().contains(k) {
            assert(b.dom().contains(k));
        }
    }
}

impl Kernel {
    /// Executes transactions in order until the block gas limit would be
    /// passed; refused transactions are recorded as failed receipts. The
    /// one bound on the input is that each payload's length leaves room for
    /// the per-byte gas in a `u64`.
    pub fn apply_block(&mut self, txs: &[Transaction]) -> (r: Result<BlockReceipt, KernelError>)
        requires
            old(self).wf(),
            forall|i: int| 0 <= i < txs@.len() ==> (#[trigger] txs@[i]).payload@.len() <= u64::MAX - 200_000,
        ensures
            final(self).wf(),
            final(self).chain_spec() == old(self).chain_spec(),
            final(self).state_spec().storage == old(self).state_spec().storage,
            accounts_framed(old(self).state_spec().accounts@, final(self).state_spec().accounts@),
            r matches Ok(b) && ({
                let run = block_run(ledger(old(self).state_spec().accounts@), old(self).chain_spec(), old(self).gas_spec(), txs@, 0);
                &&& ledger(final(self).state_spec().accounts@) == run.0
                &&& b.receipts_root.0@ == merkle_fold(run.1)
                &&& b.gas_used == run.2
                &&& b.transaction_count == run.1.len() as u32
                &&& b.state_root.0@ == state_root_spec(run.0, final(self).state_spec().storage.values@)
            }),
    {
        let mut receipts: Vec<ExecutionReceipt> = Vec::new();
        let mut total_gas: u64 = 0;
        let ghost l0 = ledger(self.state.accounts@);
        let ghost a0 = self.state.accounts@;
        let ghost g = self.gas_schedule;
        let ghost chain = self.chain_id;
        let ghost target = block_run(l0, chain, g, txs@, 0);
        let mut i: usize = 0;
        proof {
            assert(txs@.skip(0) =~= txs@);
            assert(receipts@.map_values(|r: ExecutionReceipt| receipt_leaf(r.tx_hash.0@, r.gas_used, r.success)) =~= Seq::<Seq<u8>>::empty());
            assert(accounts_framed(a0, a0));
        }
        while i < txs.len()
            invariant_except_break
                ({
                    let rest = block_run(ledger(self.state.accounts@), chain, g, txs@.skip(i as int), total_gas);
                    let done = receipts@.map_values(|r: ExecutionReceipt| receipt_leaf(r.tx_hash.0@, r.gas_used, r.success));
                    target == (rest.0, done + rest.1, rest.2)
                }),
            invariant
                self.wf(),
                self.chain_id == chain,
                self.gas_schedule == g,
                self.state.storage == old(self).state.storage,
                accounts_framed(a0, self.state.accounts@),
                i <= txs@.len(),
                receipts@.len() <= i,
                forall|j: int| 0 <= j < txs@.len() ==> (#[trigger] txs@[j]).payload@.len() <= u64::MAX - 200_000,
                target == block_run(l0, chain, g, txs@, 0),
            ensures
                ({
                    let rest = block_run(ledger(self.state.accounts@), chain, g, txs@.skip(i as int), total_gas);
                    let done = receipts@.map_values(|r: ExecutionReceipt| receipt_leaf(r.tx_hash.0@, r.gas_used, r.success));
                    &&& target == (rest.0, done + rest.1, rest.2)
                    &&& rest.0 == ledger(self.state.accounts@)
                    &&& rest.1.len() == 0
                    &&& rest.2 == total_gas
                }),
            decreases txs@.len() - i,
        {
            let tx = &txs[i];
            let ghost l = ledger(self.state.accounts@);
            let ghost sfx = txs@.skip(i as int);
            let ghost done = receipts@.map_values(|r: ExecutionReceipt| receipt_leaf(r.tx_hash.0@, r.gas_used, r.success));
            assert(sfx[0] == *tx);
            assert(sfx.drop_first() =~= txs@.skip(i + 1));
            let ghost t0 = total_gas;
            let ghost a1 = self.state.accounts@;
            if total_gas > MAX_GAS_PER_BLOCK || tx.gas_limit > MAX_GAS_PER_BLOCK - total_gas {
                break;
            }
            let ghost old_receipts = receipts@;
            match self.execute_transaction(tx) {
                Ok(receipt) => {
                    total_gas = total_gas.saturating_add(receipt.gas_used);
                    receipts.push(receipt);
                },
                Err(_) => {
                    let receipt = ExecutionReceipt {
                        tx_hash: tx.hash(),
                        gas_used: tx.gas_limit,
                        state_root: self.state.root(),
                        success: false,
                        output: Vec::new(),
                        events: Vec::new(),
                    };
                    receipts.push(receipt);
                },
            }
            proof {
                let nd = receipts@.map_values(|r: ExecutionReceipt| receipt_leaf(r.tx_hash.0@, r.gas_used, r.success));
                let leaf = nd[nd.len() - 1];
                assert(nd =~= done.push(leaf));
                let rest = block_run(ledger(self.state.accounts@), chain, g, txs@.skip(i + 1), total_gas);
                let rest0 = block_run(l, chain, g, sfx, t0);
                assert(rest0 == (rest.0, seq![leaf] + rest.1, rest.2));
                assert(done + (seq![leaf] + rest.1) =~= nd + rest.1);
                lemma_framed_trans(a0, a1, self.state.accounts@);
            }
            i = i + 1;
        }
        let state_root = self.state.root();
        let receipts_root = compute_receipts_root(&receipts);
        Ok(BlockReceipt {
            state_root,
            receipts_root,
            gas_used: total_gas,
            transaction_count: receipts.len() as u32,
        })
    }
}

} // verus!

verus! {

/// An accepted transaction moves value without creating any: the sender
/// pays exactly the fee and the value and its nonce goes up by one; a
/// crediting transfer to another account adds exactly the value to the
/// recipient (a transfer to itself leaves the sender paying the fee
/// alone); every other account is untouched. It needs the fee and value
/// together, and the recipient's new balance, to fit in a `u128`.
pub proof fn lemma_tx_moves_value(l: Map<Seq<u8>, (u128, u64)>, chain_id: u32, tx: Transaction)
    requires
        tx_accepted(l, chain_id, tx),
        tx.value + tx_fee(tx) <= u128::MAX,
        l[tx.sender@].1 < u64::MAX,
        tx_credits(tx) ==> ledger_balance(l, tx_recipient(tx)) + tx.value <= u128::MAX,
    ensures
        ({
            let s = tx.sender@;
            let rc = tx_recipient(tx);
            let after = tx_apply(l, tx);
            &&& after.dom().contains(s)
            &&& after[s].1 == l[s].1 + 1
            &&& !(tx_credits(tx) && rc == s) ==> after[s].0 == l[s].0 - tx_fee(tx) - tx.value
            &&& tx_credits(tx) && rc == s ==> after[s].0 == l[s].0 - tx_fee(tx)
            &&& tx_credits(tx) && rc != s ==> after.dom().contains(rc) && after[rc].0 == ledger_balance(l, rc)
                + tx.value
            &&& after.dom() == if tx_credits(tx) { l.dom().insert(rc) } else { l.dom() }
            &&& forall|k: Seq<u8>|
                k != s && !(tx_credits(tx) && k == rc) && #[trigger] l.dom().contains(k) ==> after[k] == l[k]
        }),
{
    let s = tx.sender@;
    let rc = tx_recipient(tx);
    let l1 = l.insert(s, (l[s].0.saturating_sub(tx_fee(tx)).saturating_sub(tx.value), l[s].1.saturating_add(1)));
    assert(l1[s].0 == l[s].0 - tx_fee(tx) - tx.value);
    if tx_credits(tx) {
        assert(ledger_balance(l1, rc) == if rc == s { l1[s].0 } else { ledger_balance(l, rc) });
        assert(tx_apply(l, tx).dom() =~= l.dom().insert(rc));
    } else {
        assert(tx_apply(l, tx).dom() =~= l.dom());
    }
}

/// Replay protection: once the kernel has applied a transaction, the same
/// transaction is refused, since the sender's nonce has moved on (unless
/// the nonce was already at its largest value, where it saturates).
pub proof fn lemma_no_replay(l: Map<Seq<u8>, (u128, u64)>, chain_id: u32, tx: Transaction)
    requires
        tx_accepted(l, chain_id, tx),
        l[tx.sender@].1 < u64::MAX,
    ensures
        !tx_accepted(tx_apply(l, tx), chain_id, tx),
{
    let s = tx.sender@;
    let l1 = l.insert(s, (l[s].0.saturating_sub(tx_fee(tx)).saturating_sub(tx.value), l[s].1.saturating_add(1)));
    assert(l1[s].1 == l[s].1 + 1);
    if tx_credits(tx) {
        let l2 = ledger_credit(l1, tx_recipient(tx), tx.value);
        assert(l2[s].1 == l1[s].1);
    }
}

/// Applying an accepted transaction keeps every account and creates at most
/// the recipient's.
pub proof fn lemma_apply_keeps_accounts(l: Map<Seq<u8>, (u128, u64)>, chain_id: u32, tx: Transaction)
    requires
        tx_accepted(l, chain_id, tx),
    ensures
        l.dom().subset_of(tx_apply(l, tx).dom()),
        tx_apply(l, tx).dom().subset_of(l.dom().insert(tx_recipient(tx))),
{
}

} // verus!
