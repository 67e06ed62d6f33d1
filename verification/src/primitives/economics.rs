//! Token economics records: supply accounting, balances, transfers,
//! escrows, share vaults, gas costs and fee parameters.

use vstd::prelude::*;
use crate::bytes::{le_bytes, push_all, push_le};
use crate::digest::{sha256, sha256_spec};
use crate::kernel::{Address, Hash32};

verus! {

pub const DECIMALS: u8 = 18;

pub const TOTAL_SUPPLY: u128 = 100_000_000_000_000_000_000_000_000_000;

/// Where the tokens are: they add up to the total when the books balance.
#[derive(Clone, Copy, Debug, Default, PartialEq, Eq, Structural)]
pub struct TokenSupply {
    pub total: u128,
    pub circulating: u128,
    pub escrowed: u128,
    pub vault_staked: u128,
    pub burned: u128,
    pub locked_collateral: u128,
}

/// The supply accounted for, each addition saturating.
pub open spec fn accounted(s: TokenSupply) -> u128 {
    s.circulating.saturating_add(s.escrowed).saturating_add(s.vault_staked).saturating_add(s.burned).saturating_add(
        s.locked_collateral,
    )
}

impl TokenSupply {
    /// The whole supply, all of it circulating.
    pub fn new() -> (r: Self)
        ensures
            r == (TokenSupply {
                total: TOTAL_SUPPLY,
                circulating: TOTAL_SUPPLY,
                escrowed: 0,
                vault_staked: 0,
                burned: 0,
                locked_collateral: 0,
            }),
    {
        TokenSupply {
            total: TOTAL_SUPPLY,
            circulating: TOTAL_SUPPLY,
            escrowed: 0,
            vault_staked: 0,
            burned: 0,
            locked_collateral: 0,
        }
    }

    pub fn total_burned(&self) -> (r: u128)
        ensures
            r == self.burned,
    {
        self.burned
    }

    /// The total less what was burned (not below zero).
    pub fn current_supply(&self) -> (r: u128)
        ensures
            r == self.total.saturating_sub(self.burned),
    {
        self.total.saturating_sub(self.burned)
    }

    /// Whether every token is accounted for exactly once.
    pub fn verify_invariant(&self) -> (r: bool)
        ensures
            r == (accounted(*self) == self.total),
    {
        let accounted = self.circulating.saturating_add(self.escrowed).saturating_add(self.vault_staked).saturating_add(
            self.burned,
        ).saturating_add(self.locked_collateral);
        accounted == self.total
    }
}

/// A new supply balances its books.
pub proof fn lemma_new_supply_balanced()
    ensures
        accounted(
            TokenSupply {
                total: TOTAL_SUPPLY,
                circulating: TOTAL_SUPPLY,
                escrowed: 0,
                vault_staked: 0,
                burned: 0,
                locked_collateral: 0,
            },
        ) == TOTAL_SUPPLY,
{
}

#[derive(Clone, Copy, Debug)]
pub struct TokenBalance {
    pub address: Address,
    pub balance: u128,
    pub nonce: u64,
    pub locked: u128,
    pub reserved: u128,
}

/// What can be spent: the balance less locked and reserved (not below zero).
pub open spec fn available_of(b: TokenBalance) -> u128 {
    b.balance.saturating_sub(b.locked).saturating_sub(b.reserved)
}

impl TokenBalance {
    pub fn new(address: Address, balance: u128) -> (r: Self)
        ensures
            r.address == address && r.balance == balance,
            r.nonce == 0 && r.locked == 0 && r.reserved == 0,
    {
        TokenBalance { address, balance, nonce: 0, locked: 0, reserved: 0 }
    }

    pub fn available(&self) -> (r: u128)
        ensures
            r == available_of(*self),
    {
        self.balance.saturating_sub(self.locked).saturating_sub(self.reserved)
    }

    pub fn can_transfer(&self, amount: u128) -> (r: bool)
        ensures
            r == (available_of(*self) >= amount),
    {
        self.available() >= amount
    }

    pub fn add_balance(&mut self, amount: u128)
        ensures
            *final(self) == (TokenBalance { balance: old(self).balance.saturating_add(amount), ..*old(self) }),
    {
        self.balance = self.balance.saturating_add(amount);
    }

    /// Takes `amount` off the balance when it is available; says whether
    /// it did.
    pub fn sub_balance(&mut self, amount: u128) -> (r: bool)
        ensures
            r == (available_of(*old(self)) >= amount),
            r ==> *final(self) == (TokenBalance { balance: (old(self).balance - amount) as u128, ..*old(self) }),
            !r ==> *final(self) == *old(self),
    {
        if self.can_transfer(amount) {
            self.balance = self.balance.saturating_sub(amount);
            true
        } else {
            false
        }
    }

    pub fn inc_nonce(&mut self)
        ensures
            *final(self) == (TokenBalance { nonce: old(self).nonce.saturating_add(1), ..*old(self) }),
    {
        self.nonce = self.nonce.saturating_add(1);
    }
}

#[derive(Clone, Copy, Debug)]
pub struct Transfer {
    pub from: Address,
    pub to: Address,
    pub amount: u128,
    pub nonce: u64,
    pub fee: u128,
}

impl Transfer {
    pub fn new(from: Address, to: Address, amount: u128, nonce: u64, fee: u128) -> (r: Self)
        ensures
            r == (Transfer { from, to, amount, nonce, fee }),
    {
        Transfer { from, to, amount, nonce, fee }
    }

    /// What the sender pays: amount plus fee, saturating.
    pub fn total_debit(&self) -> (r: u128)
        ensures
            r == self.amount.saturating_add(self.fee),
    {
        self.amount.saturating_add(self.fee)
    }
}

#[derive(Clone, Copy, Debug)]
pub struct Escrow {
    pub escrow_id: Hash32,
    pub sender: Address,
    pub recipient: Address,
    pub amount: u128,
    pub release_height: u64,
    pub created_at: u64,
    pub status: EscrowStatus,
}

/// The bytes digested into an escrow's id.
pub open spec fn escrow_id_input(sender: Address, recipient: Address, amount: u128, release_height: u64) -> Seq<u8> {
    sender.0@ + recipient.0@ + le_bytes(amount as nat, 16) + le_bytes(release_height as nat, 8)
}

impl Escrow {
    /// A locked escrow whose id digests its parties, amount and release
    /// height.
    pub fn new(sender: Address, recipient: Address, amount: u128, release_height: u64) -> (r: Self)
        ensures
            r.escrow_id.0@ == sha256_spec(escrow_id_input(sender, recipient, amount, release_height)),
            r.sender == sender && r.recipient == recipient && r.amount == amount,
            r.release_height == release_height && r.created_at == 0,
            r.status == EscrowStatus::Locked,
    {
        let mut input: Vec<u8> = Vec::new();
        push_all(&mut input, sender.0.as_slice());
        push_all(&mut input, recipient.0.as_slice());
        push_le(&mut input, amount, 16);
        push_le(&mut input, release_height as u128, 8);
        let escrow_id = sha256(input.as_slice());
        Escrow {
            escrow_id: Hash32(escrow_id),
            sender,
            recipient,
            amount,
            release_height,
            created_at: 0,
            status: EscrowStatus::Locked,
        }
    }

    /// A locked escrow can be released from its release height on.
    pub fn is_releasable(&self, current_height: u64) -> (r: bool)
        ensures
            r == (self.status == EscrowStatus::Locked && current_height >= self.release_height),
    {
        self.status == EscrowStatus::Locked && current_height >= self.release_height
    }
}

#[derive(Clone, Copy, Debug, PartialEq, Eq, Structural)]
pub enum EscrowStatus {
    Locked,
    Released,
    Cancelled,
}

impl Default for EscrowStatus {
    fn default() -> (r: Self)
        ensures
            r == EscrowStatus::Locked,
    {
        EscrowStatus::Locked
    }
}

/// A vault of stake divided into shares.
#[derive(Clone, Copy, Debug)]
pub struct Vault {
    pub vault_id: Hash32,
    pub model_id: Hash32,
    pub owner: Address,
    pub total_staked: u128,
    pub total_shares: u128,
    pub reward_accumulator: u128,
    pub created_at: u64,
    pub active: bool,
}

/// The shares that `amount` buys in `v`: one per token in an empty vault,
/// otherwise in proportion to the stake.
pub open spec fn shares_for_stake(v: Vault, amount: u128) -> int {
    if v.total_shares == 0 || v.total_staked == 0 {
        amount as int
    } else {
        (amount * v.total_shares) / (v.total_staked as int)
    }
}

/// The stake that `shares` are worth in `v` (0 when it has no shares).
pub open spec fn value_of_shares(v: Vault, shares: u128) -> int {
    if v.total_shares == 0 {
        0
    } else {
        (shares * v.total_staked) / (v.total_shares as int)
    }
}

impl Vault {
    /// An active empty vault whose id digests its model and owner.
    pub fn new(model_id: Hash32, owner: Address) -> (r: Self)
        ensures
            r.vault_id.0@ == sha256_spec(model_id.0@ + owner.0@),
            r.model_id == model_id && r.owner == owner,
            r.total_staked == 0 && r.total_shares == 0 && r.reward_accumulator == 0 && r.created_at == 0,
            r.active,
    {
        let mut input: Vec<u8> = Vec::new();
        push_all(&mut input, model_id.0.as_slice());
        push_all(&mut input, owner.0.as_slice());
        let vault_id = sha256(input.as_slice());
        Vault {
            vault_id: Hash32(vault_id),
            model_id,
            owner,
            total_staked: 0,
            total_shares: 0,
            reward_accumulator: 0,
            created_at: 0,
            active: true,
        }
    }

    /// Adds `amount` of stake and returns the shares it buys (see
    /// `shares_for_stake`); an empty vault restarts from this stake.
    pub fn stake(&mut self, amount: u128) -> (r: u128)
        requires
            old(self).total_shares != 0 && old(self).total_staked != 0 ==> amount * old(self).total_shares
                <= u128::MAX,
        ensures
            r == shares_for_stake(*old(self), amount),
            old(self).total_shares == 0 || old(self).total_staked == 0 ==> *final(self) == (Vault {
                total_shares: amount,
                total_staked: amount,
                ..*old(self)
            }),
            old(self).total_shares != 0 && old(self).total_staked != 0 ==> *final(self) == (Vault {
                total_shares: old(self).total_shares.saturating_add(r),
                total_staked: old(self).total_staked.saturating_add(amount),
                ..*old(self)
            }),
    {
        if self.total_shares == 0 || self.total_staked == 0 {
            let shares = amount;
            self.total_shares = shares;
            self.total_staked = amount;
            shares
        } else {
            let shares = (amount * self.total_shares) / self.total_staked;
            self.total_shares = self.total_shares.saturating_add(shares);
            self.total_staked = self.total_staked.saturating_add(amount);
            shares
        }
    }

    /// Redeems `shares` for their value (see `value_of_shares`); nothing
    /// for no shares or an empty vault.
    pub fn unstake(&mut self, shares: u128) -> (r: u128)
        requires
            shares != 0 && old(self).total_shares != 0 ==> shares * old(self).total_staked <= u128::MAX,
        ensures
            shares == 0 || old(self).total_shares == 0 ==> r == 0 && *final(self) == *old(self),
            shares != 0 && old(self).total_shares != 0 ==> r == value_of_shares(*old(self), shares) && *final(self)
                == (Vault {
                total_shares: old(self).total_shares.saturating_sub(shares),
                total_staked: old(self).total_staked.saturating_sub(r),
                ..*old(self)
            }),
    {
        if shares == 0 || self.total_shares == 0 {
            return 0;
        }
        let amount = (shares * self.total_staked) / self.total_shares;
        self.total_shares = self.total_shares.saturating_sub(shares);
        self.total_staked = self.total_staked.saturating_sub(amount);
        amount
    }

    /// What `shares` are worth.
    pub fn share_value(&self, shares: u128) -> (r: u128)
        requires
            self.total_shares != 0 ==> shares * self.total_staked <= u128::MAX,
        ensures
            r == value_of_shares(*self, shares),
    {
        if self.total_shares == 0 {
            return 0;
        }
        (shares * self.total_staked) / self.total_shares
    }
}

/// Redeeming every share of a vault pays out its whole stake.
pub proof fn lemma_all_shares_worth_stake(v: Vault)
    requires
        v.total_shares != 0,
    ensures
        value_of_shares(v, v.total_shares) == v.total_staked,
{
    assert((v.total_shares * v.total_staked) / (v.total_shares as int) == v.total_staked) by (nonlinear_arith)
        requires
            v.total_shares > 0,
    ;
}

#[derive(Clone, Copy, Debug)]
pub struct VaultPosition {
    pub vault_id: Hash32,
    pub staker: Address,
    pub shares: u128,
    pub pending_rewards: u128,
    pub last_update: u64,
}

/// Gas costs of storage and computation.
#[derive(Clone, Copy, Debug, PartialEq, Eq, Structural)]
pub struct GasSchedule {
    pub gas_storage_byte: u64,
    pub gas_storage_item: u64,
    pub gas_compute_byte: u64,
    pub gas_compute_math: u64,
    pub gas_compute_mem: u64,
    pub gas_call: u64,
    pub gas_create: u64,
    pub gas_invoke: u64,
}

impl Default for GasSchedule {
    fn default() -> (r: Self)
        ensures
            r == (GasSchedule {
                gas_storage_byte: 1,
                gas_storage_item: 5,
                gas_compute_byte: 2,
                gas_compute_math: 3,
                gas_compute_mem: 1,
                gas_call: 10,
                gas_create: 20,
                gas_invoke: 15,
            }),
    {
        GasSchedule {
            gas_storage_byte: 1,
            gas_storage_item: 5,
            gas_compute_byte: 2,
            gas_compute_math: 3,
            gas_compute_mem: 1,
            gas_call: 10,
            gas_create: 20,
            gas_invoke: 15,
        }
    }
}

#[derive(Clone, Copy, Debug, PartialEq, Eq, Structural)]
pub struct FeeParameters {
    pub gas_price_min: u128,
    pub gas_price_max: u128,
    pub fee_multiplier_numerator: u128,
    pub fee_multiplier_denominator: u128,
    pub burn_percentage: u8,
}

impl Default for FeeParameters {
    fn default() -> (r: Self)
        ensures
            r == (FeeParameters {
                gas_price_min: 1,
                gas_price_max: 1_000_000_000,
                fee_multiplier_numerator: 1,
                fee_multiplier_denominator: 1,
                burn_percentage: 0,
            }),
    {
        FeeParameters {
            gas_price_min: 1,
            gas_price_max: 1_000_000_000,
            fee_multiplier_numerator: 1,
            fee_multiplier_denominator: 1,
            burn_percentage: 0,
        }
    }
}

} // verus!
