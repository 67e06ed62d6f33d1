//! Account identifiers and the balance record of an account.

use vstd::prelude::*;
use vstd::string::StringSliceAdditionalSpecFns;
use crate::bytes::{bytes32_eq, zeros32, zero32};
use crate::hexenc::{hex_encode, hex_decode, hex_text, is_hex_text, hex_bytes};
use crate::kernel::Hash32;
use crate::primitives::hash::array32_from_vec;

verus! {

/// A 32-byte account identifier.
#[derive(Clone, Copy, Debug, Default, Hash)]
pub struct AccountId(pub [u8; 32]);

impl PartialEq for AccountId {
    fn eq(&self, other: &Self) -> (r: bool) {
        bytes32_eq(&self.0, &other.0)
    }
}

impl Eq for AccountId {}

impl vstd::std_specs::cmp::PartialEqSpecImpl for AccountId {
    open spec fn obeys_eq_spec() -> bool {
        true
    }

    open spec fn eq_spec(&self, other: &AccountId) -> bool {
        self.0@ == other.0@
    }
}

impl From<[u8; 32]> for AccountId {
    fn from(bytes: [u8; 32]) -> (r: Self) {
        AccountId(bytes)
    }
}

impl vstd::std_specs::convert::FromSpecImpl<[u8; 32]> for AccountId {
    open spec fn obeys_from_spec() -> bool {
        true
    }

    open spec fn from_spec(bytes: [u8; 32]) -> Self {
        AccountId(bytes)
    }
}

/// The message of a hex text of the wrong length for an account id.
pub open spec fn invalid_account_id_length() -> Seq<char> {
    "Invalid account id length"@
}

impl AccountId {
    pub fn from_bytes(bytes: [u8; 32]) -> (r: Self)
        ensures
            r.0 == bytes,
    {
        AccountId(bytes)
    }

    pub fn as_bytes(&self) -> (r: &[u8; 32])
        ensures
            *r == self.0,
    {
        &self.0
    }

    /// The lower-case hex text of the id.
    pub fn to_hex(&self) -> (r: String)
        ensures
            r@ == hex_text(self.0@),
    {
        hex_encode(self.0.as_slice())
    }

    /// The id written as 64 hex digits of either case. Text that is no hex
    /// is refused with the decoder's message; hex of another length with
    /// "Invalid account id length".
    pub fn from_hex(hex_str: &str) -> (r: Result<Self, String>)
        ensures
            r is Ok <==> is_hex_text(hex_str.spec_bytes()) && hex_str.spec_bytes().len() == 64,
            r matches Ok(a) ==> a.0@ == hex_bytes(hex_str.spec_bytes()),
            is_hex_text(hex_str.spec_bytes()) && hex_str.spec_bytes().len() != 64 ==> (r matches Err(e)
                && e@ == invalid_account_id_length()),
    {
        let bytes = match hex_decode(hex_str) {
            Ok(b) => b,
            Err(e) => {
                return Err(e);
            },
        };
        if bytes.len() != 32 {
            proof {
                reveal_strlit("Invalid account id length");
            }
            return Err("Invalid account id length".to_string());
        }
        Ok(AccountId(array32_from_vec(&bytes)))
    }

    pub fn zero() -> (r: Self)
        ensures
            r.0@ == zeros32(),
    {
        AccountId(zero32())
    }

    pub fn from_hash(hash: Hash32) -> (r: Self)
        ensures
            r.0 == hash.0,
    {
        AccountId(hash.0)
    }

    pub fn into_hash(self) -> (r: Hash32)
        ensures
            r.0 == self.0,
    {
        Hash32(self.0)
    }
}

/// The balance record of an account.
#[derive(Clone, Copy, Debug, Default)]
pub struct AccountData {
    pub balance: u128,
    pub nonce: u64,
    pub contract_code_ref: Option<Hash32>,
    pub contract_storage_root: Option<Hash32>,
}

/// A fresh record with `balance`, nonce 0 and no contract.
pub open spec fn fresh_account_data(balance: u128) -> AccountData {
    AccountData { balance, nonce: 0, contract_code_ref: None, contract_storage_root: None }
}

impl AccountData {
    pub fn new(balance: u128) -> (r: Self)
        ensures
            r == fresh_account_data(balance),
    {
        AccountData { balance, nonce: 0, contract_code_ref: None, contract_storage_root: None }
    }

    pub fn zero() -> (r: Self)
        ensures
            r == fresh_account_data(0),
    {
        AccountData::new(0)
    }

    pub fn can_withdraw(&self, amount: u128) -> (r: bool)
        ensures
            r == (self.balance >= amount),
    {
        self.balance >= amount
    }

    /// Adds `amount`, saturating at the largest balance.
    pub fn add_balance(&mut self, amount: u128)
        ensures
            *final(self) == (AccountData { balance: old(self).balance.saturating_add(amount), ..*old(self) }),
    {
        self.balance = self.balance.saturating_add(amount);
    }

    /// Takes `amount` off the balance when it covers it; says whether it did.
    pub fn sub_balance(&mut self, amount: u128) -> (r: bool)
        ensures
            r == (old(self).balance >= amount),
            r ==> *final(self) == (AccountData { balance: (old(self).balance - amount) as u128, ..*old(self) }),
            !r ==> *final(self) == *old(self),
    {
        if self.can_withdraw(amount) {
            self.balance = self.balance.saturating_sub(amount);
            true
        } else {
            false
        }
    }

    /// Raises the nonce by one, saturating.
    pub fn inc_nonce(&mut self)
        ensures
            *final(self) == (AccountData { nonce: old(self).nonce.saturating_add(1), ..*old(self) }),
    {
        self.nonce = self.nonce.saturating_add(1);
    }
}

} // verus!
