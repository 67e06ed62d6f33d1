//! The runtime's account ledger.

use vstd::prelude::*;
use crate::kernel::{Address, Hash32};
use crate::primitives::account::{AccountData, fresh_account_data};
use crate::runtime::RuntimeError;
use crate::table::{Table, TableKey};

verus! {

pub struct AccountsModule {
    accounts: Table<Address, AccountData>,
}

impl View for AccountsModule {
    type V = Map<Seq<u8>, AccountData>;

    closed spec fn view(&self) -> Map<Seq<u8>, AccountData> {
        self.accounts@
    }
}

/// Whether a transfer of `amount` from `from` to `to` keeps every balance
/// within range (the recipient's credit cannot overflow).
pub open spec fn transfer_fits(m: Map<Seq<u8>, AccountData>, from: Seq<u8>, to: Seq<u8>, amount: u128) -> bool {
    from == to || !m.dom().contains(to) || m[to].balance + amount <= u128::MAX
}

/// The ledger after a transfer that the sender's balance covers: the sender
/// pays, and the recipient (created empty when missing) is credited.
pub open spec fn transfer_result(m: Map<Seq<u8>, AccountData>, from: Seq<u8>, to: Seq<u8>, amount: u128) -> Map<
    Seq<u8>,
    AccountData,
> {
    let m1 = m.insert(from, AccountData { balance: (m[from].balance - amount) as u128, ..m[from] });
    let base = if m1.dom().contains(to) {
        m1[to]
    } else {
        fresh_account_data(0)
    };
    m1.insert(to, AccountData { balance: (base.balance + amount) as u128, ..base })
}

impl AccountsModule {
    pub closed spec fn wf(&self) -> bool {
        self.accounts.wf()
    }

    /// The account table, as `all_accounts` hands it out.
    pub closed spec fn account_table(&self) -> Table<Address, AccountData> {
        self.accounts
    }

    pub fn new() -> (r: Self)
        ensures
            r.wf(),
            r@ == Map::<Seq<u8>, AccountData>::empty(),
    {
        AccountsModule { accounts: Table::new() }
    }

    /// Creates (or resets) the account at `address` with `balance`.
    pub fn create_account(&mut self, address: Address, balance: u128)
        requires
            old(self).wf(),
        ensures
            final(self).wf(),
            final(self)@ == old(self)@.insert(address.0@, fresh_account_data(balance)),
    {
        self.accounts.insert(address, AccountData::new(balance));
    }

    pub fn get_account(&self, address: &Address) -> (r: Option<&AccountData>)
        requires
            self.wf(),
        ensures
            r is Some <==> self@.dom().contains(address.0@),
            r matches Some(a) ==> *a == self@[address.0@],
    {
        self.accounts.get(address)
    }

    pub fn get_account_mut(&mut self, address: &Address) -> (r: Option<&mut AccountData>)
        requires
            old(self).wf(),
        ensures
            final(self).wf(),
            r is Some <==> old(self)@.dom().contains(address.0@),
            r is None ==> *final(self) == *old(self),
            r matches Some(a) ==> *a == old(self)@[address.0@] && final(self)@ == old(self)@.insert(
                address.0@,
                *final(a),
            ),
    {
        self.accounts.get_mut(address)
    }

    pub fn account_exists(&self, address: &Address) -> (r: bool)
        requires
            self.wf(),
        ensures
            r == self@.dom().contains(address.0@),
    {
        self.accounts.contains_key(address)
    }

    /// Moves `amount` from `from` to `to`, creating `to` when missing. The
    /// sender must exist and cover the amount.
    pub fn transfer(&mut self, from: &Address, to: &Address, amount: u128) -> (r: Result<(), RuntimeError>)
        requires
            old(self).wf(),
            transfer_fits(old(self)@, from.0@, to.0@, amount),
        ensures
            final(self).wf(),
            r is Ok <==> old(self)@.dom().contains(from.0@) && old(self)@[from.0@].balance >= amount,
            r is Err ==> r == Err::<(), RuntimeError>(RuntimeError::InvalidState) && *final(self) == *old(self),
            r is Ok ==> final(self)@ == transfer_result(old(self)@, from.0@, to.0@, amount),
    {
        match self.accounts.get(from) {
            None => {
                return Err(RuntimeError::InvalidState);
            },
            Some(a) => {
                if a.balance < amount {
                    return Err(RuntimeError::InvalidState);
                }
            },
        }
        match self.accounts.get_mut(from) {
            Some(a) => {
                a.balance = a.balance - amount;
            },
            None => {},
        }
        match self.accounts.get_mut(to) {
            Some(a) => {
                a.balance = a.balance + amount;
            },
            None => {
                let mut fresh = AccountData::new(0);
                fresh.balance = amount;
                self.accounts.insert(*to, fresh);
            },
        }
        Ok(())
    }

    pub fn increment_nonce(&mut self, address: &Address) -> (r: Result<(), RuntimeError>)
        requires
            old(self).wf(),
            old(self)@.dom().contains(address.0@) ==> old(self)@[address.0@].nonce < u64::MAX,
        ensures
            final(self).wf(),
            r is Ok <==> old(self)@.dom().contains(address.0@),
            r is Err ==> r == Err::<(), RuntimeError>(RuntimeError::InvalidState) && *final(self) == *old(self),
            r is Ok ==> final(self)@ == old(self)@.insert(
                address.0@,
                AccountData { nonce: (old(self)@[address.0@].nonce + 1) as u64, ..old(self)@[address.0@] },
            ),
    {
        match self.accounts.get_mut(address) {
            Some(a) => {
                a.nonce = a.nonce + 1;
                Ok(())
            },
            None => Err(RuntimeError::InvalidState),
        }
    }

    pub fn set_contract_code(&mut self, address: &Address, code_hash: Hash32) -> (r: Result<(), RuntimeError>)
        requires
            old(self).wf(),
        ensures
            final(self).wf(),
            r is Ok <==> old(self)@.dom().contains(address.0@),
            r is Err ==> r == Err::<(), RuntimeError>(RuntimeError::InvalidState) && *final(self) == *old(self),
            r is Ok ==> final(self)@ == old(self)@.insert(
                address.0@,
                AccountData { contract_code_ref: Some(code_hash), ..old(self)@[address.0@] },
            ),
    {
        match self.accounts.get_mut(address) {
            Some(a) => {
                a.contract_code_ref = Some(code_hash);
                Ok(())
            },
            None => Err(RuntimeError::InvalidState),
        }
    }

    pub fn set_contract_storage_root(&mut self, address: &Address, storage_root: Hash32) -> (r: Result<
        (),
        RuntimeError,
    >)
        requires
            old(self).wf(),
        ensures
            final(self).wf(),
            r is Ok <==> old(self)@.dom().contains(address.0@),
            r is Err ==> r == Err::<(), RuntimeError>(RuntimeError::InvalidState) && *final(self) == *old(self),
            r is Ok ==> final(self)@ == old(self)@.insert(
                address.0@,
                AccountData { contract_storage_root: Some(storage_root), ..old(self)@[address.0@] },
            ),
    {
        match self.accounts.get_mut(address) {
            Some(a) => {
                a.contract_storage_root = Some(storage_root);
                Ok(())
            },
            None => Err(RuntimeError::InvalidState),
        }
    }

    pub fn all_accounts(&self) -> (r: &Table<Address, AccountData>)
        requires
            self.wf(),
        ensures
            r.wf(),
            r@ == self@,
            *r == self.account_table(),
    {
        &self.accounts
    }
}

impl Default for AccountsModule {
    fn default() -> (r: Self)
        ensures
            r.wf(),
            r@ == Map::<Seq<u8>, AccountData>::empty(),
    {
        AccountsModule::new()
    }
}

} // verus!

verus! {

/// A transfer between two accounts neither creates nor destroys value: the
/// sender's and the recipient's balances add up to what they did before (a
/// missing recipient counting as 0), and every other account is untouched.
pub proof fn lemma_transfer_conserves(m: Map<Seq<u8>, AccountData>, from: Seq<u8>, to: Seq<u8>, amount: u128)
    requires
        m.dom().contains(from),
        m[from].balance >= amount,
        from != to,
        transfer_fits(m, from, to, amount),
    ensures
        ({
            let r = transfer_result(m, from, to, amount);
            let before_to: int = if m.dom().contains(to) {
                m[to].balance as int
            } else {
                0
            };
            &&& r[from].balance + r[to].balance == m[from].balance + before_to
            &&& forall|k: Seq<u8>| k != from && k != to && #[trigger] m.dom().contains(k) ==> r[k] == m[k]
            &&& r.dom() == m.dom().insert(to)
        }),
{
    let r = transfer_result(m, from, to, amount);
    assert(r.dom() =~= m.dom().insert(to));
}

} // verus!
