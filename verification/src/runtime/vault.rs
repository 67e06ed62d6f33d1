//! Model vaults: stakers buy shares of a vault at its share price, redeem
//! them for their part of the stake, and earn from its rewards.

use vstd::prelude::*;
use crate::bytes::{bytes32_eq, le_bytes, push_all, push_le};
use crate::digest::{sha256, sha256_spec};
use crate::kernel::{Address, Hash32};
use crate::runtime::RuntimeError;
use crate::table::{Table, TableKey};

verus! {

#[derive(Clone, Copy, Debug, PartialEq, Eq, Structural)]
pub enum VaultState {
    Active,
    Paused,
    Closed,
}

#[derive(Clone, Copy, Debug)]
pub struct Vault {
    pub vault_id: Hash32,
    pub model_id: Hash32,
    pub owner: Address,
    pub state: VaultState,
    pub total_staked: u128,
    pub share_token_supply: u128,
    pub reward_accumulator: u128,
    pub created_at: u64,
}

#[derive(Clone, Copy, Debug)]
pub struct VaultShare {
    pub holder: Address,
    pub vault_id: Hash32,
    pub staked_amount: u128,
    pub share_count: u128,
    pub last_reward_update: u64,
}

/// The price of one share, scaled by 10^6: the stake per share, or 10^6
/// for a vault without shares.
pub open spec fn share_price(v: Vault) -> int {
    if v.share_token_supply > 0 {
        (v.total_staked * 1_000_000) / (v.share_token_supply as int)
    } else {
        1_000_000
    }
}

/// The shares that `amount` buys in `v`.
pub open spec fn shares_bought(v: Vault, amount: u128) -> int {
    (amount * 1_000_000) / share_price(v)
}

/// The stake that `share_count` shares redeem from `v`.
pub open spec fn redeemed(v: Vault, share_count: u128) -> int {
    (v.total_staked * ((share_count * 1_000_000) / (v.share_token_supply as int))) / 1_000_000
}

/// `i` is the first position of a holding in vault `id`.
pub open spec fn first_share_at(s: Seq<VaultShare>, id: Hash32, i: int) -> bool {
    0 <= i < s.len() && s[i].vault_id.0@ == id.0@ && forall|j: int| 0 <= j < i ==> s[j].vault_id.0@ != id.0@
}

/// Whether `s` holds shares of vault `id`.
pub open spec fn holds_vault(s: Seq<VaultShare>, id: Hash32) -> bool {
    exists|i: int| 0 <= i < s.len() && s[i].vault_id.0@ == id.0@
}

/// `s` without its holdings in vault `id`.
pub open spec fn without_vault(s: Seq<VaultShare>, id: Hash32) -> Seq<VaultShare>
    decreases s.len(),
{
    if s.len() == 0 {
        s
    } else {
        without_vault(s.drop_last(), id) + if s.last().vault_id.0@ == id.0@ {
            Seq::empty()
        } else {
            seq![s.last()]
        }
    }
}

/// The holdings of `holder` (none when it has no entry).
pub open spec fn holdings(m: Map<Seq<u8>, Seq<VaultShare>>, holder: Address) -> Seq<VaultShare> {
    if m.dom().contains(holder.0@) {
        m[holder.0@]
    } else {
        Seq::empty()
    }
}

/// What the module holds: vaults by id, each holder's holdings, and the
/// vault counter.
pub ghost struct VaultView {
    pub vaults: Map<Seq<u8>, Vault>,
    pub shares: Map<Seq<u8>, Seq<VaultShare>>,
    pub vault_counter: u64,
}

pub struct VaultModule {
    vaults: Table<Hash32, Vault>,
    shares: Table<Address, Vec<VaultShare>>,
    vault_counter: u64,
}

impl View for VaultModule {
    type V = VaultView;

    closed spec fn view(&self) -> VaultView {
        VaultView {
            vaults: self.vaults@,
            shares: self.shares@.map_values(|v: Vec<VaultShare>| v@),
            vault_counter: self.vault_counter,
        }
    }
}

/// The bytes digested into the id of the `counter`-th vault.
pub open spec fn vault_id_input(counter: u64, model_id: Hash32, owner: Address) -> Seq<u8> {
    le_bytes(counter as nat, 8) + model_id.0@ + owner.0@
}

/// The view with the vault under `id` replaced.
pub open spec fn with_vault(v: VaultView, id: Hash32, vault: Vault) -> VaultView {
    VaultView { vaults: v.vaults.insert(id.0@, vault), ..v }
}

fn share_position(s: &Vec<VaultShare>, id: &Hash32) -> (r: Option<usize>)
    ensures
        r is None <==> !holds_vault(s@, *id),
        r matches Some(i) ==> first_share_at(s@, *id, i as int),
{
    let mut i: usize = 0;
    while i < s.len()
        invariant
            i <= s@.len(),
            forall|j: int| 0 <= j < i ==> s@[j].vault_id.0@ != id.0@,
        decreases s@.len() - i,
    {
        if bytes32_eq(&s[i].vault_id.0, &id.0) {
            return Some(i);
        }
        i = i + 1;
    }
    None
}

fn remove_vault_shares(s: &Vec<VaultShare>, id: &Hash32) -> (r: Vec<VaultShare>)
    ensures
        r@ == without_vault(s@, *id),
{
    let mut out: Vec<VaultShare> = Vec::new();
    let mut i: usize = 0;
    while i < s.len()
        invariant
            i <= s@.len(),
            out@ == without_vault(s@.take(i as int), *id),
        decreases s@.len() - i,
    {
        proof {
            assert(s@.take(i + 1).drop_last() =~= s@.take(i as int));
            assert(s@.take(i + 1).last() == s@[i as int]);
        }
        let ghost before = out@;
        if !bytes32_eq(&s[i].vault_id.0, &id.0) {
            out.push(s[i]);
        }
        assert(out@ =~= without_vault(s@.take(i + 1), *id));
        i = i + 1;
    }
    assert(s@.take(i as int) =~= s@);
    out
}

impl VaultModule {
    /// The tables are well formed and every vault is stored under its id.
    pub closed spec fn wf(&self) -> bool {
        &&& self.vaults.wf()
        &&& self.shares.wf()
        &&& forall|k: Seq<u8>| #[trigger] self.vaults@.dom().contains(k) ==> self.vaults@[k].vault_id.0@ == k
    }

    /// The vault table, as `all_vaults` hands it out.
    pub closed spec fn vault_table(&self) -> Table<Hash32, Vault> {
        self.vaults
    }

    pub fn new() -> (r: Self)
        ensures
            r.wf(),
            r@.vaults == Map::<Seq<u8>, Vault>::empty(),
            r@.shares == Map::<Seq<u8>, Seq<VaultShare>>::empty(),
            r@.vault_counter == 0,
    {
        let r = VaultModule { vaults: Table::new(), shares: Table::new(), vault_counter: 0 };
        assert(r@.shares =~= Map::<Seq<u8>, Seq<VaultShare>>::empty());
        r
    }

    /// Opens an active vault for a model with an initial stake, which also
    /// counts as its initial share supply.
    pub fn create_vault(&mut self, model_id: Hash32, owner: Address, initial_stake: u128, current_height: u64) -> (r:
        Result<Hash32, RuntimeError>)
        requires
            old(self).wf(),
            old(self)@.vault_counter < u64::MAX,
        ensures
            final(self).wf(),
            r matches Ok(id) && {
                let counter = (old(self)@.vault_counter + 1) as u64;
                &&& id.0@ == sha256_spec(vault_id_input(counter, model_id, owner))
                &&& final(self)@ == (VaultView {
                    vaults: old(self)@.vaults.insert(
                        id.0@,
                        Vault {
                            vault_id: id,
                            model_id,
                            owner,
                            state: VaultState::Active,
                            total_staked: initial_stake,
                            share_token_supply: initial_stake,
                            reward_accumulator: 0,
                            created_at: current_height,
                        },
                    ),
                    vault_counter: counter,
                    ..old(self)@
                })
            },
    {
        self.vault_counter = self.vault_counter + 1;
        let mut data: Vec<u8> = Vec::new();
        push_le(&mut data, self.vault_counter as u128, 8);
        push_all(&mut data, model_id.0.as_slice());
        push_all(&mut data, owner.0.as_slice());
        let id = Hash32(sha256(data.as_slice()));
        let vault = Vault {
            vault_id: id,
            model_id,
            owner,
            state: VaultState::Active,
            total_staked: initial_stake,
            share_token_supply: initial_stake,
            reward_accumulator: 0,
            created_at: current_height,
        };
        self.vaults.insert(id, vault);
        Ok(id)
    }

    /// Pauses a vault, whatever its state.
    pub fn pause_vault(&mut self, vault_id: &Hash32) -> (r: Result<(), RuntimeError>)
        requires
            old(self).wf(),
        ensures
            final(self).wf(),
            r is Ok <==> old(self)@.vaults.dom().contains(vault_id.0@),
            r is Err ==> r == Err::<(), RuntimeError>(RuntimeError::InvalidState) && *final(self) == *old(self),
            r is Ok ==> final(self)@ == with_vault(
                old(self)@,
                *vault_id,
                Vault { state: VaultState::Paused, ..old(self)@.vaults[vault_id.0@] },
            ),
    {
        match self.vaults.get_mut(vault_id) {
            Some(v) => {
                v.state = VaultState::Paused;
                Ok(())
            },
            None => Err(RuntimeError::InvalidState),
        }
    }

    /// Reactivates a paused vault.
    pub fn resume_vault(&mut self, vault_id: &Hash32) -> (r: Result<(), RuntimeError>)
        requires
            old(self).wf(),
        ensures
            final(self).wf(),
            r is Ok <==> old(self)@.vaults.dom().contains(vault_id.0@) && old(self)@.vaults[vault_id.0@].state
                == VaultState::Paused,
            r is Err ==> r == Err::<(), RuntimeError>(RuntimeError::InvalidState) && *final(self) == *old(self),
            r is Ok ==> final(self)@ == with_vault(
                old(self)@,
                *vault_id,
                Vault { state: VaultState::Active, ..old(self)@.vaults[vault_id.0@] },
            ),
    {
        match self.vaults.get(vault_id) {
            None => {
                return Err(RuntimeError::InvalidState);
            },
            Some(v) => {
                if v.state != VaultState::Paused {
                    return Err(RuntimeError::InvalidState);
                }
            },
        }
        match self.vaults.get_mut(vault_id) {
            Some(v) => {
                v.state = VaultState::Active;
            },
            None => {},
        }
        Ok(())
    }

    /// Adds `reward_amount` to an active vault's rewards.
    pub fn distribute_reward(&mut self, vault_id: &Hash32, reward_amount: u128) -> (r: Result<(), RuntimeError>)
        requires
            old(self).wf(),
            old(self)@.vaults.dom().contains(vault_id.0@) ==> old(self)@.vaults[vault_id.0@].reward_accumulator
                + reward_amount <= u128::MAX,
        ensures
            final(self).wf(),
            r is Ok <==> old(self)@.vaults.dom().contains(vault_id.0@) && old(self)@.vaults[vault_id.0@].state
                == VaultState::Active,
            r is Err ==> r == Err::<(), RuntimeError>(RuntimeError::InvalidState) && *final(self) == *old(self),
            r is Ok ==> final(self)@ == with_vault(
                old(self)@,
                *vault_id,
                Vault {
                    reward_accumulator: (old(self)@.vaults[vault_id.0@].reward_accumulator + reward_amount) as u128,
                    ..old(self)@.vaults[vault_id.0@]
                },
            ),
    {
        match self.vaults.get(vault_id) {
            None => {
                return Err(RuntimeError::InvalidState);
            },
            Some(v) => {
                if v.state != VaultState::Active {
                    return Err(RuntimeError::InvalidState);
                }
            },
        }
        match self.vaults.get_mut(vault_id) {
            Some(v) => {
                v.reward_accumulator = v.reward_accumulator + reward_amount;
            },
            None => {},
        }
        Ok(())
    }

    pub fn get_vault(&self, vault_id: &Hash32) -> (r: Option<&Vault>)
        requires
            self.wf(),
        ensures
            r is Some <==> self@.vaults.dom().contains(vault_id.0@),
            r matches Some(v) ==> *v == self@.vaults[vault_id.0@],
    {
        self.vaults.get(vault_id)
    }

    pub fn get_shares(&self, holder: &Address) -> (r: Option<&Vec<VaultShare>>)
        requires
            self.wf(),
        ensures
            r is Some <==> self@.shares.dom().contains(holder.0@),
            r matches Some(v) ==> v@ == self@.shares[holder.0@],
    {
        self.shares.get(holder)
    }

    pub fn all_vaults(&self) -> (r: &Table<Hash32, Vault>)
        requires
            self.wf(),
        ensures
            r.wf(),
            r@ == self@.vaults,
            *r == self.vault_table(),
    {
        &self.vaults
    }
}

impl Default for VaultModule {
    fn default() -> (r: Self)
        ensures
            r.wf(),
            r@.vaults == Map::<Seq<u8>, Vault>::empty(),
            r@.shares == Map::<Seq<u8>, Seq<VaultShare>>::empty(),
            r@.vault_counter == 0,
    {
        VaultModule::new()
    }
}

/// The holdings after `staker` buys `shares` of vault `v` for `amount`:
/// its first holding in the vault grows, or a new holding is added.
pub open spec fn holdings_after_stake(h: Seq<VaultShare>, staker: Address, v: Vault, amount: u128, shares: u128) -> Seq<VaultShare> {
    if holds_vault(h, v.vault_id) {
        let i = choose|i: int| first_share_at(h, v.vault_id, i);
        h.update(
            i,
            VaultShare {
                staked_amount: (h[i].staked_amount + amount) as u128,
                share_count: (h[i].share_count + shares) as u128,
                ..h[i]
            },
        )
    } else {
        h.push(
            VaultShare {
                holder: staker,
                vault_id: v.vault_id,
                staked_amount: amount,
                share_count: shares,
                last_reward_update: v.created_at,
            },
        )
    }
}

/// Whether `staker` can buy into vault `v` for `amount` without any
/// quantity leaving its range.
pub open spec fn stake_fits(v: Vault, h: Seq<VaultShare>, amount: u128) -> bool {
    &&& v.total_staked * 1_000_000 <= u128::MAX
    &&& share_price(v) > 0
    &&& amount * 1_000_000 <= u128::MAX
    &&& v.total_staked + amount <= u128::MAX
    &&& v.share_token_supply + shares_bought(v, amount) <= u128::MAX
    &&& forall|i: int| first_share_at(h, v.vault_id, i) ==> h[i].staked_amount + amount <= u128::MAX
        && h[i].share_count + shares_bought(v, amount) <= u128::MAX
}

impl VaultModule {
    /// Buys shares of an active vault at its share price (see
    /// `shares_bought`); the vault's stake and supply and the staker's
    /// holding grow accordingly.
    pub fn stake(&mut self, vault_id: &Hash32, staker: Address, amount: u128) -> (r: Result<u128, RuntimeError>)
        requires
            old(self).wf(),
            old(self)@.vaults.dom().contains(vault_id.0@) && old(self)@.vaults[vault_id.0@].state
                == VaultState::Active ==> stake_fits(
                old(self)@.vaults[vault_id.0@],
                holdings(old(self)@.shares, staker),
                amount,
            ),
        ensures
            final(self).wf(),
            r is Ok <==> old(self)@.vaults.dom().contains(vault_id.0@) && old(self)@.vaults[vault_id.0@].state
                == VaultState::Active,
            r is Err ==> r == Err::<u128, RuntimeError>(RuntimeError::InvalidState) && *final(self) == *old(self),
            r matches Ok(shares) ==> {
                let v = old(self)@.vaults[vault_id.0@];
                &&& shares == shares_bought(v, amount)
                &&& final(self)@ == (VaultView {
                    vaults: old(self)@.vaults.insert(
                        vault_id.0@,
                        Vault {
                            total_staked: (v.total_staked + amount) as u128,
                            share_token_supply: (v.share_token_supply + shares) as u128,
                            ..v
                        },
                    ),
                    shares: old(self)@.shares.insert(
                        staker.0@,
                        holdings_after_stake(holdings(old(self)@.shares, staker), staker, v, amount, shares),
                    ),
                    ..old(self)@
                })
            },
    {
        let v = match self.vaults.get(vault_id) {
            None => {
                return Err(RuntimeError::InvalidState);
            },
            Some(v) => *v,
        };
        if v.state != VaultState::Active {
            return Err(RuntimeError::InvalidState);
        }
        let share_price: u128 = if v.share_token_supply > 0 {
            (v.total_staked * 1_000_000) / v.share_token_supply
        } else {
            1_000_000
        };
        let shares_to_mint: u128 = (amount * 1_000_000) / share_price;
        match self.vaults.get_mut(vault_id) {
            Some(vm) => {
                vm.total_staked = vm.total_staked + amount;
                vm.share_token_supply = vm.share_token_supply + shares_to_mint;
            },
            None => {},
        }
        let ghost hv = holdings(old(self)@.shares, staker);
        let ghost target = holdings_after_stake(hv, staker, v, amount, shares_to_mint);
        let ghost vaults_now = self@.vaults;
        match self.shares.get_mut(&staker) {
            Some(h) => {
                assert(h@ == hv);
                match share_position(h, vault_id) {
                    Some(i) => {
                        assert(first_share_at(h@, v.vault_id, i as int));
                        let mut e = h[i];
                        e.staked_amount = e.staked_amount + amount;
                        e.share_count = e.share_count + shares_to_mint;
                        h[i] = e;
                        proof {
                            let j = choose|j: int| first_share_at(hv, v.vault_id, j);
                            if j < i {
                                assert(hv[j].vault_id.0@ != v.vault_id.0@);
                            }
                            if i < j {
                                assert(hv[i as int].vault_id.0@ != v.vault_id.0@);
                            }
                            assert(h@ =~= target);
                        }
                    },
                    None => {
                        h.push(
                            VaultShare {
                                holder: staker,
                                vault_id: v.vault_id,
                                staked_amount: amount,
                                share_count: shares_to_mint,
                                last_reward_update: v.created_at,
                            },
                        );
                        assert(h@ =~= target);
                    },
                }
            },
            None => {
                let h = vec![
                    VaultShare {
                        holder: staker,
                        vault_id: v.vault_id,
                        staked_amount: amount,
                        share_count: shares_to_mint,
                        last_reward_update: v.created_at,
                    },
                ];
                assert(h@ =~= target);
                self.shares.insert(staker, h);
            },
        }
        assert(self@.shares =~= old(self)@.shares.insert(staker.0@, target));
        assert(self@.vaults == vaults_now);
        Ok(shares_to_mint)
    }
}

/// Whether redeeming `share_count` shares of `v` from the holding at `i`
/// keeps every quantity in range.
pub open spec fn unstake_fits(v: Vault, h: Seq<VaultShare>, i: int, share_count: u128) -> bool {
    &&& v.share_token_supply != 0
    &&& share_count * 1_000_000 <= u128::MAX
    &&& v.total_staked * ((share_count * 1_000_000) / (v.share_token_supply as int)) <= u128::MAX
    &&& h[i].staked_amount >= redeemed(v, share_count)
    &&& v.total_staked >= redeemed(v, share_count)
    &&& v.share_token_supply >= share_count
}

/// The holdings after redeeming `share_count` shares (worth `amount`) from
/// the holding at `i`; a holding left without shares is dropped, with any
/// other holding in the same vault.
pub open spec fn holdings_after_unstake(h: Seq<VaultShare>, i: int, share_count: u128, amount: int) -> Seq<VaultShare> {
    let e = VaultShare {
        share_count: (h[i].share_count - share_count) as u128,
        staked_amount: (h[i].staked_amount - amount) as u128,
        ..h[i]
    };
    if e.share_count == 0 {
        without_vault(h.update(i, e), e.vault_id)
    } else {
        h.update(i, e)
    }
}

impl VaultModule {
    /// Redeems `share_count` of `staker`'s shares in a vault (whatever its
    /// state) for their part of the stake (see `redeemed`).
    pub fn unstake(&mut self, vault_id: &Hash32, staker: &Address, share_count: u128) -> (r: Result<u128, RuntimeError>)
        requires
            old(self).wf(),
            forall|i: int|
                old(self)@.vaults.dom().contains(vault_id.0@) && first_share_at(holdings(old(self)@.shares, *staker), *vault_id, i)
                    && holdings(old(self)@.shares, *staker)[i].share_count >= share_count ==> unstake_fits(
                    old(self)@.vaults[vault_id.0@],
                    holdings(old(self)@.shares, *staker),
                    i,
                    share_count,
                ),
        ensures
            final(self).wf(),
            ({
                let h = holdings(old(self)@.shares, *staker);
                r is Ok <==> old(self)@.vaults.dom().contains(vault_id.0@) && old(self)@.shares.dom().contains(staker.0@)
                    && exists|i: int| first_share_at(h, *vault_id, i) && h[i].share_count >= share_count
            }),
            r is Err ==> r == Err::<u128, RuntimeError>(RuntimeError::InvalidState) && *final(self) == *old(self),
            r matches Ok(amount) ==> exists|i: int| #[trigger] first_share_at(holdings(old(self)@.shares, *staker), *vault_id, i) && {
                let h = holdings(old(self)@.shares, *staker);
                let v = old(self)@.vaults[vault_id.0@];
                &&& amount == redeemed(v, share_count)
                &&& final(self)@ == (VaultView {
                    vaults: old(self)@.vaults.insert(
                        vault_id.0@,
                        Vault {
                            total_staked: (v.total_staked - amount) as u128,
                            share_token_supply: (v.share_token_supply - share_count) as u128,
                            ..v
                        },
                    ),
                    shares: old(self)@.shares.insert(staker.0@, holdings_after_unstake(h, i, share_count, amount as int)),
                    ..old(self)@
                })
            },
    {
        let v = match self.vaults.get(vault_id) {
            None => {
                return Err(RuntimeError::InvalidState);
            },
            Some(v) => *v,
        };
        let ghost hv = holdings(old(self)@.shares, *staker);
        let i = match self.shares.get(staker) {
            None => {
                return Err(RuntimeError::InvalidState);
            },
            Some(h) => {
                assert(h@ == hv);
                match share_position(h, vault_id) {
                    None => {
                        return Err(RuntimeError::InvalidState);
                    },
                    Some(i) => {
                        if h[i].share_count < share_count {
                            proof {
                                assert forall|j: int| !(first_share_at(hv, *vault_id, j) && hv[j].share_count >= share_count) by {
                                    if first_share_at(hv, *vault_id, j) {
                                        if j < i {
                                            assert(hv[j].vault_id.0@ != vault_id.0@);
                                        }
                                        if i < j {
                                            assert(hv[i as int].vault_id.0@ != vault_id.0@);
                                        }
                                    }
                                }
                            }
                            return Err(RuntimeError::InvalidState);
                        }
                        i
                    },
                }
            },
        };
        assert(unstake_fits(v, hv, i as int, share_count));
        let share_ratio: u128 = (share_count * 1_000_000) / v.share_token_supply;
        proof {
            assert(0 <= share_ratio);
        }
        let withdraw_amount: u128 = (v.total_staked * share_ratio) / 1_000_000;
        match self.vaults.get_mut(vault_id) {
            Some(vm) => {
                vm.total_staked = vm.total_staked - withdraw_amount;
                vm.share_token_supply = vm.share_token_supply - share_count;
            },
            None => {},
        }
        let ghost target = holdings_after_unstake(hv, i as int, share_count, withdraw_amount as int);
        match self.shares.get_mut(staker) {
            Some(h) => {
                let mut e = h[i];
                e.share_count = e.share_count - share_count;
                e.staked_amount = e.staked_amount - withdraw_amount;
                h[i] = e;
                if e.share_count == 0 {
                    assert(e.vault_id.0 =~= vault_id.0);
                    let kept = remove_vault_shares(h, vault_id);
                    *h = kept;
                }
                assert(h@ =~= target);
            },
            None => {},
        }
        assert(self@.shares =~= old(self)@.shares.insert(staker.0@, target));
        Ok(withdraw_amount)
    }

    /// The part of a vault's rewards due to `staker`'s shares in it.
    pub fn claim_rewards(&mut self, vault_id: &Hash32, staker: &Address) -> (r: Result<u128, RuntimeError>)
        requires
            old(self).wf(),
            forall|i: int|
                old(self)@.vaults.dom().contains(vault_id.0@) && first_share_at(holdings(old(self)@.shares, *staker), *vault_id, i)
                    ==> old(self)@.vaults[vault_id.0@].share_token_supply != 0 && old(self)@.vaults[vault_id.0@].reward_accumulator
                    * holdings(old(self)@.shares, *staker)[i].share_count <= u128::MAX,
        ensures
            *final(self) == *old(self),
            r is Ok <==> old(self)@.vaults.dom().contains(vault_id.0@) && old(self)@.shares.dom().contains(staker.0@)
                && holds_vault(holdings(old(self)@.shares, *staker), *vault_id),
            r is Err ==> r == Err::<u128, RuntimeError>(RuntimeError::InvalidState),
            r matches Ok(reward) ==> exists|i: int| #[trigger] first_share_at(holdings(old(self)@.shares, *staker), *vault_id, i) && {
                let h = holdings(old(self)@.shares, *staker);
                let v = old(self)@.vaults[vault_id.0@];
                reward == (v.reward_accumulator * h[i].share_count) / (
                v.share_token_supply as int)
            },
    {
        let v = match self.vaults.get(vault_id) {
            None => {
                return Err(RuntimeError::InvalidState);
            },
            Some(v) => *v,
        };
        let h = match self.shares.get(staker) {
            None => {
                return Err(RuntimeError::InvalidState);
            },
            Some(h) => h,
        };
        let i = match share_position(h, vault_id) {
            None => {
                return Err(RuntimeError::InvalidState);
            },
            Some(i) => i,
        };
        assert(first_share_at(holdings(old(self)@.shares, *staker), *vault_id, i as int));
        let reward = (v.reward_accumulator * h[i].share_count) / v.share_token_supply;
        Ok(reward)
    }
}

} // verus!
