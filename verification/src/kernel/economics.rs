//! Token supply, staking, inflation, treasury and fees.

use vstd::prelude::*;
use crate::arith::{sat_mul128, saturating_mul_u128, min_u128, min_u64};
use crate::kernel::Address;
use crate::table::{Table, TableKey};

verus! {

pub const DECIMALS: u8 = 18;

/// One hundred billion tokens of eighteen decimals.
pub const TOTAL_SUPPLY: u128 = 100_000_000_000_000_000_000_000_000_000;

pub const BLOCKS_PER_YEAR: u64 = 5256000;

pub const DEFAULT_INFLATION_RATE_BPS: u64 = 0;

pub const MAX_INFLATION_RATE_BPS: u64 = 1000;

pub const TREASURY_ADDRESS: [u8; 32] = [
    0, 0, 0, 0, 0, 0, 0, 0, 0, 0, 0, 0, 0, 0, 0, 0,
    0, 0, 0, 0, 0, 0, 0, 0, 0, 0, 0, 0, 0, 0, 0, 0,
];

/// Whether inflation mints new tokens.
#[derive(Clone, Copy, Debug, PartialEq, Eq, Structural)]
pub enum InflationState {
    Disabled,
    Enabled,
    Paused,
}

/// Inflation parameters: a yearly rate in basis points, an optional per-block
/// cap, an active block window and the split between treasury and validators.
#[derive(Clone, Copy, Debug)]
pub struct InflationConfig {
    pub state: InflationState,
    pub rate_bps: u64,
    pub cap: u128,
    pub start_block: u64,
    pub end_block: u64,
    pub treasury_share_bps: u64,
    pub validator_share_bps: u64,
}

/// What `compute_mint` mints per block from a supply.
pub open spec fn mint_spec(c: InflationConfig, supply: u128) -> u128 {
    if c.state != InflationState::Enabled {
        0
    } else {
        let per_block = (sat_mul128(supply, c.rate_bps as u128) / 10000) / (BLOCKS_PER_YEAR as u128);
        if c.cap > 0 && c.cap < per_block {
            c.cap
        } else {
            per_block
        }
    }
}

/// The treasury part of `amount` under `c`; the validators get the rest.
pub open spec fn treasury_part(c: InflationConfig, amount: u128) -> u128 {
    sat_mul128(amount, c.treasury_share_bps as u128) / 10000
}

/// The shares after `set_inflation_parameters`: each capped at 10000 basis
/// points and, where they add up to more, scaled down to their proportion.
pub open spec fn normalized_shares(treasury: u64, validator: u64) -> (u64, u64) {
    let t = if treasury <= 10000 { treasury } else { 10000 };
    let v = if validator <= 10000 { validator } else { 10000 };
    if t + v > 10000 {
        (((t * 10000) / (t + v)) as u64, ((v * 10000) / (t + v)) as u64)
    } else {
        (t, v)
    }
}

impl Default for InflationConfig {
    fn default() -> (r: Self)
        ensures
            r.state == InflationState::Disabled,
            r.rate_bps == 0 && r.cap == 0 && r.start_block == 0 && r.end_block == 0,
            r.treasury_share_bps == 2000 && r.validator_share_bps == 8000,
    {
        InflationConfig {
            state: InflationState::Disabled,
            rate_bps: 0,
            cap: 0,
            start_block: 0,
            end_block: 0,
            treasury_share_bps: 2000,
            validator_share_bps: 8000,
        }
    }
}

impl InflationConfig {
    /// Enabled inflation at `rate_bps`, capped at the maximum rate.
    pub fn new(rate_bps: u64) -> (r: Self)
        ensures
            r.state == InflationState::Enabled,
            r.rate_bps == (if rate_bps <= MAX_INFLATION_RATE_BPS { rate_bps } else { MAX_INFLATION_RATE_BPS }),
            r.cap == 0 && r.start_block == 0 && r.end_block == 0,
            r.treasury_share_bps == 2000 && r.validator_share_bps == 8000,
    {
        InflationConfig {
            state: InflationState::Enabled,
            rate_bps: min_u64(rate_bps, MAX_INFLATION_RATE_BPS),
            cap: 0,
            start_block: 0,
            end_block: 0,
            treasury_share_bps: 2000,
            validator_share_bps: 8000,
        }
    }

    /// Inflation is active when enabled and the block lies in the window; an
    /// end block of zero leaves the window open.
    pub fn is_active(&self, current_block: u64) -> (r: bool)
        ensures
            r == (self.state == InflationState::Enabled && current_block >= self.start_block && (
            self.end_block == 0 || current_block < self.end_block)),
    {
        self.state == InflationState::Enabled && current_block >= self.start_block && (self.end_block
            == 0 || current_block < self.end_block)
    }

    /// The tokens minted per block: the yearly rate applied to the supply,
    /// spread over a year of blocks and limited by the cap when one is set.
    pub fn compute_mint(&self, current_supply: u128) -> (r: u128)
        ensures
            r == mint_spec(*self, current_supply),
    {
        if self.state != InflationState::Enabled {
            return 0;
        }
        let annual_mint = saturating_mul_u128(current_supply, self.rate_bps as u128) / 10000;
        let per_block_mint = annual_mint / (BLOCKS_PER_YEAR as u128);
        if self.cap > 0 {
            min_u128(per_block_mint, self.cap)
        } else {
            per_block_mint
        }
    }

    /// Splits a minted amount into the treasury part and the validators' part.
    pub fn distribute(&self, amount: u128) -> (r: (u128, u128))
        ensures
            r.0 == treasury_part(*self, amount),
            r.1 == amount.saturating_sub(r.0),
            self.treasury_share_bps <= 10000 ==> r.0 + r.1 == amount,
    {
        let treasury = saturating_mul_u128(amount, self.treasury_share_bps as u128) / 10000;
        proof {
            if self.treasury_share_bps <= 10000 {
                assert(amount * self.treasury_share_bps <= amount * 10000) by (nonlinear_arith)
                    requires
                        self.treasury_share_bps <= 10000,
                ;
                if amount * self.treasury_share_bps <= u128::MAX {
                    assert((amount * self.treasury_share_bps) / 10000 <= amount) by (nonlinear_arith)
                        requires
                            amount * self.treasury_share_bps <= amount * 10000,
                    ;
                } else {
                    assert(u128::MAX / 10000 <= amount) by (nonlinear_arith)
                        requires
                            amount * self.treasury_share_bps > u128::MAX,
                            amount * self.treasury_share_bps <= amount * 10000,
                    ;
                }
            }
        }
        let validators = amount.saturating_sub(treasury);
        (treasury, validators)
    }

    /// Sets the rate (capped at the maximum), the window and the shares (see
    /// `normalized_shares`).
    pub fn set_inflation_parameters(
        &mut self,
        rate_bps: u64,
        start_block: u64,
        end_block: u64,
        treasury_share_bps: u64,
        validator_share_bps: u64,
    )
        ensures
            final(self).state == old(self).state,
            final(self).cap == old(self).cap,
            final(self).rate_bps == (if rate_bps <= MAX_INFLATION_RATE_BPS { rate_bps } else { MAX_INFLATION_RATE_BPS }),
            final(self).start_block == start_block,
            final(self).end_block == end_block,
            (final(self).treasury_share_bps, final(self).validator_share_bps) == normalized_shares(
                treasury_share_bps,
                validator_share_bps,
            ),
            final(self).treasury_share_bps + final(self).validator_share_bps <= 10000,
    {
        self.rate_bps = min_u64(rate_bps, MAX_INFLATION_RATE_BPS);
        self.start_block = start_block;
        self.end_block = end_block;
        self.treasury_share_bps = min_u64(treasury_share_bps, 10000);
        self.validator_share_bps = min_u64(validator_share_bps, 10000);
        if self.treasury_share_bps + self.validator_share_bps > 10000 {
            let total = self.treasury_share_bps + self.validator_share_bps;
            let t = self.treasury_share_bps;
            let v = self.validator_share_bps;
            proof {
                assert(t * 10000 <= 10000 * 10000) by (nonlinear_arith)
                    requires
                        t <= 10000,
                ;
                assert(v * 10000 <= 10000 * 10000) by (nonlinear_arith)
                    requires
                        v <= 10000,
                ;
                assert((t * 10000) / (total as int) + (v * 10000) / (total as int) <= 10000) by (nonlinear_arith)
                    requires
                        total == t + v,
                        total > 0,
                ;
            }
            self.treasury_share_bps = (t * 10000) / total;
            self.validator_share_bps = (v * 10000) / total;
        }
    }

    pub fn enable_with_governance(&mut self)
        ensures
            *final(self) == (InflationConfig { state: InflationState::Enabled, ..*old(self) }),
    {
        self.state = InflationState::Enabled;
    }

    pub fn disable_with_governance(&mut self)
        ensures
            *final(self) == (InflationConfig { state: InflationState::Disabled, ..*old(self) }),
    {
        self.state = InflationState::Disabled;
    }

    pub fn set_inflation_cap(&mut self, cap: u128)
        ensures
            *final(self) == (InflationConfig { cap: cap, ..*old(self) }),
    {
        self.cap = cap;
    }
}

/// Where the tokens are: circulating, escrowed for staking, staked in
/// vaults, burned, locked as collateral, in the treasury or owed to
/// validators.
#[derive(Clone, Copy, Debug)]
pub struct TokenSupply {
    pub total: u128,
    pub circulating: u128,
    pub escrowed: u128,
    pub vault_staked: u128,
    pub burned: u128,
    pub locked_collateral: u128,
    pub treasury_balance: u128,
    pub validator_rewards: u128,
}

/// The saturating sum that `verify_invariant` compares with the total.
pub open spec fn accounted_spec(s: TokenSupply) -> u128 {
    s.circulating.saturating_add(s.escrowed).saturating_add(s.vault_staked).saturating_add(
        s.locked_collateral,
    ).saturating_add(s.treasury_balance).saturating_add(s.validator_rewards).saturating_add(
        s.burned,
    )
}

/// The supply invariant: every token of the total is in exactly one place.
pub open spec fn supply_balanced(s: TokenSupply) -> bool {
    s.circulating + s.escrowed + s.vault_staked + s.locked_collateral + s.treasury_balance
        + s.validator_rewards + s.burned == s.total
}

impl TokenSupply {
    /// The whole supply circulating.
    pub fn new() -> (r: Self)
        ensures
            r.total == TOTAL_SUPPLY && r.circulating == TOTAL_SUPPLY,
            r.escrowed == 0 && r.vault_staked == 0 && r.burned == 0 && r.locked_collateral == 0,
            r.treasury_balance == 0 && r.validator_rewards == 0,
            supply_balanced(r),
    {
        TokenSupply {
            total: TOTAL_SUPPLY,
            circulating: TOTAL_SUPPLY,
            escrowed: 0,
            vault_staked: 0,
            burned: 0,
            locked_collateral: 0,
            treasury_balance: 0,
            validator_rewards: 0,
        }
    }

    /// The total less what was burned.
    pub fn current_supply(&self) -> (r: u128)
        ensures
            r == self.total.saturating_sub(self.burned),
    {
        self.total.saturating_sub(self.burned)
    }

    /// Whether the parts add up to the total (by saturating addition).
    pub fn verify_invariant(&self) -> (r: bool)
        ensures
            r == (accounted_spec(*self) == self.total),
            r == supply_balanced(*self) || (!supply_balanced(*self) && r && self.total == u128::MAX),
    {
        let accounted = self.circulating.saturating_add(self.escrowed).saturating_add(
            self.vault_staked,
        ).saturating_add(self.locked_collateral).saturating_add(self.treasury_balance).saturating_add(
            self.validator_rewards,
        );
        accounted.saturating_add(self.burned) == self.total
    }

    pub fn add_to_circulating(&mut self, amount: u128)
        ensures
            *final(self) == (TokenSupply { circulating: old(self).circulating.saturating_add(amount), ..*old(self) }),
    {
        self.circulating = self.circulating.saturating_add(amount);
    }

    pub fn remove_from_circulating(&mut self, amount: u128)
        ensures
            *final(self) == (TokenSupply { circulating: old(self).circulating.saturating_sub(amount), ..*old(self) }),
    {
        self.circulating = self.circulating.saturating_sub(amount);
    }

    pub fn add_burned(&mut self, amount: u128)
        ensures
            *final(self) == (TokenSupply { burned: old(self).burned.saturating_add(amount), ..*old(self) }),
    {
        self.burned = self.burned.saturating_add(amount);
    }

    pub fn add_treasury(&mut self, amount: u128)
        ensures
            *final(self) == (TokenSupply { treasury_balance: old(self).treasury_balance.saturating_add(amount), ..*old(self) }),
    {
        self.treasury_balance = self.treasury_balance.saturating_add(amount);
    }

    pub fn add_validator_rewards(&mut self, amount: u128)
        ensures
            *final(self) == (TokenSupply { validator_rewards: old(self).validator_rewards.saturating_add(amount), ..*old(self) }),
    {
        self.validator_rewards = self.validator_rewards.saturating_add(amount);
    }
}

impl Default for TokenSupply {
    fn default() -> (r: Self)
        ensures
            r == TokenSupply::new_spec(),
    {
        TokenSupply::new()
    }
}

impl TokenSupply {
    pub open spec fn new_spec() -> TokenSupply {
        TokenSupply {
            total: TOTAL_SUPPLY,
            circulating: TOTAL_SUPPLY,
            escrowed: 0,
            vault_staked: 0,
            burned: 0,
            locked_collateral: 0,
            treasury_balance: 0,
            validator_rewards: 0,
        }
    }
}

/// A staker's stake and its shares of the staking pool.
#[derive(Clone, Copy, Debug)]
pub struct StakerInfo {
    pub staker: Address,
    pub staked: u128,
    pub shares: u128,
    pub pending_rewards: u128,
    pub last_stake_height: u64,
}

/// The shares that staking `amount` buys: one per token in an empty pool,
/// otherwise in proportion to the pool's shares per staked token.
pub open spec fn shares_for(amount: u128, total_staked: u128, total_shares: u128) -> int {
    if total_shares == 0 || total_staked == 0 {
        amount as int
    } else {
        (amount * total_shares) / (total_staked as int)
    }
}

/// Whether `shares_for` can be computed without overflow.
pub open spec fn stake_computable(amount: u128, total_staked: u128, total_shares: u128) -> bool {
    total_shares == 0 || total_staked == 0 || amount * total_shares <= u128::MAX
}

/// The tokens that redeeming `shares` returns from the pool.
pub open spec fn amount_for(shares: u128, total_staked: u128, total_shares: u128) -> int {
    if shares == 0 || total_shares == 0 {
        0
    } else {
        (shares * total_staked) / (total_shares as int)
    }
}

/// Whether `amount_for` can be computed without overflow.
pub open spec fn unstake_computable(shares: u128, total_staked: u128, total_shares: u128) -> bool {
    shares == 0 || total_shares == 0 || shares * total_staked <= u128::MAX
}

impl StakerInfo {
    pub open spec fn new_spec(staker: Address) -> StakerInfo {
        StakerInfo { staker, staked: 0, shares: 0, pending_rewards: 0, last_stake_height: 0 }
    }

    pub fn new(staker: Address) -> (r: Self)
        ensures
            r == StakerInfo::new_spec(staker),
    {
        StakerInfo { staker, staked: 0, shares: 0, pending_rewards: 0, last_stake_height: 0 }
    }

    /// Buys shares for `amount` (see `shares_for`) and adds both to the pool
    /// totals and to this staker, saturating.
    pub fn add_stake(&mut self, amount: u128, total_staked: &mut u128, total_shares: &mut u128) -> (r: u128)
        requires
            stake_computable(amount, *old(total_staked), *old(total_shares)),
        ensures
            r == shares_for(amount, *old(total_staked), *old(total_shares)),
            *final(self) == (StakerInfo {
                shares: old(self).shares.saturating_add(r),
                staked: old(self).staked.saturating_add(amount),
                ..*old(self)
            }),
            *final(total_staked) == old(total_staked).saturating_add(amount),
            *final(total_shares) == old(total_shares).saturating_add(r),
    {
        let shares = if *total_shares == 0 || *total_staked == 0 {
            amount
        } else {
            proof {
                assert((amount * *total_shares) / (*total_staked as int) <= amount * *total_shares) by (nonlinear_arith)
                    requires
                        *total_staked > 0,
                        amount * *total_shares >= 0,
                ;
            }
            (amount * *total_shares) / *total_staked
        };
        self.shares = self.shares.saturating_add(shares);
        self.staked = self.staked.saturating_add(amount);
        *total_staked = total_staked.saturating_add(amount);
        *total_shares = total_shares.saturating_add(shares);
        shares
    }

    /// Redeems `shares` for their part of the pool (see `amount_for`) and
    /// takes both from the pool totals and from this staker, saturating.
    /// Nothing changes when `shares` or the pool's shares are zero.
    pub fn remove_stake(&mut self, shares: u128, total_staked: &mut u128, total_shares: &mut u128) -> (r: u128)
        requires
            unstake_computable(shares, *old(total_staked), *old(total_shares)),
        ensures
            r == amount_for(shares, *old(total_staked), *old(total_shares)),
            shares == 0 || *old(total_shares) == 0 ==> *final(self) == *old(self) && *final(total_staked)
                == *old(total_staked) && *final(total_shares) == *old(total_shares),
            !(shares == 0 || *old(total_shares) == 0) ==> {
                &&& *final(self) == (StakerInfo {
                    shares: old(self).shares.saturating_sub(shares),
                    staked: old(self).staked.saturating_sub(r),
                    ..*old(self)
                })
                &&& *final(total_staked) == old(total_staked).saturating_sub(r)
                &&& *final(total_shares) == old(total_shares).saturating_sub(shares)
            },
    {
        if shares == 0 || *total_shares == 0 {
            return 0;
        }
        proof {
            assert((shares * *total_staked) / (*total_shares as int) <= shares * *total_staked) by (nonlinear_arith)
                requires
                    *total_shares > 0,
                    shares * *total_staked >= 0,
            ;
        }
        let amount = (shares * *total_staked) / *total_shares;
        self.shares = self.shares.saturating_sub(shares);
        self.staked = self.staked.saturating_sub(amount);
        *total_staked = total_staked.saturating_sub(amount);
        *total_shares = total_shares.saturating_sub(shares);
        amount
    }
}

/// A validator's own and delegated stake, commission and status.
#[derive(Clone, Copy, Debug)]
pub struct ValidatorStake {
    pub validator: Address,
    pub own_stake: u128,
    pub delegated_stake: u128,
    pub total_stake: u128,
    pub commission_bps: u16,
    pub pending_rewards: u128,
    pub active: bool,
    pub jailed: bool,
}

/// The commission a validator keeps from `total_reward`.
pub open spec fn commission_of(v: ValidatorStake, total_reward: u128) -> u128 {
    sat_mul128(total_reward, v.commission_bps as u128) / 10000
}

impl ValidatorStake {
    pub open spec fn new_spec(validator: Address) -> ValidatorStake {
        ValidatorStake {
            validator,
            own_stake: 0,
            delegated_stake: 0,
            total_stake: 0,
            commission_bps: 1000,
            pending_rewards: 0,
            active: false,
            jailed: false,
        }
    }

    /// An inactive validator with no stake and a commission of 10%.
    pub fn new(validator: Address) -> (r: Self)
        ensures
            r == ValidatorStake::new_spec(validator),
    {
        ValidatorStake {
            validator,
            own_stake: 0,
            delegated_stake: 0,
            total_stake: 0,
            commission_bps: 1000,
            pending_rewards: 0,
            active: false,
            jailed: false,
        }
    }

    /// Adds to the own or the delegated stake; the total is their sum.
    pub fn add_stake(&mut self, amount: u128, is_own: bool)
        ensures
            is_own ==> final(self).own_stake == old(self).own_stake.saturating_add(amount)
                && final(self).delegated_stake == old(self).delegated_stake,
            !is_own ==> final(self).delegated_stake == old(self).delegated_stake.saturating_add(amount)
                && final(self).own_stake == old(self).own_stake,
            final(self).total_stake == final(self).own_stake.saturating_add(final(self).delegated_stake),
            *final(self) == (ValidatorStake {
                own_stake: final(self).own_stake,
                delegated_stake: final(self).delegated_stake,
                total_stake: final(self).total_stake,
                ..*old(self)
            }),
    {
        if is_own {
            self.own_stake = self.own_stake.saturating_add(amount);
        } else {
            self.delegated_stake = self.delegated_stake.saturating_add(amount);
        }
        self.total_stake = self.own_stake.saturating_add(self.delegated_stake);
    }

    /// Takes from the own or the delegated stake; false, with nothing
    /// changed, when that stake is smaller than `amount`.
    pub fn remove_stake(&mut self, amount: u128, is_own: bool) -> (r: bool)
        ensures
            r == (if is_own { old(self).own_stake >= amount } else { old(self).delegated_stake >= amount }),
            !r ==> *final(self) == *old(self),
            r && is_own ==> *final(self) == (ValidatorStake {
                own_stake: (old(self).own_stake - amount) as u128,
                total_stake: ((old(self).own_stake - amount) as u128).saturating_add(old(self).delegated_stake),
                ..*old(self)
            }),
            r && !is_own ==> *final(self) == (ValidatorStake {
                delegated_stake: (old(self).delegated_stake - amount) as u128,
                total_stake: old(self).own_stake.saturating_add((old(self).delegated_stake - amount) as u128),
                ..*old(self)
            }),
    {
        if is_own {
            if self.own_stake >= amount {
                self.own_stake = self.own_stake.saturating_sub(amount);
                self.total_stake = self.own_stake.saturating_add(self.delegated_stake);
                true
            } else {
                false
            }
        } else {
            if self.delegated_stake >= amount {
                self.delegated_stake = self.delegated_stake.saturating_sub(amount);
                self.total_stake = self.own_stake.saturating_add(self.delegated_stake);
                true
            } else {
                false
            }
        }
    }

    /// Keeps the commission as pending rewards and returns it with the
    /// delegators' part.
    pub fn distribute_rewards(&mut self, total_reward: u128) -> (r: (u128, u128))
        ensures
            r.0 == commission_of(*old(self), total_reward),
            r.1 == total_reward.saturating_sub(r.0),
            *final(self) == (ValidatorStake {
                pending_rewards: old(self).pending_rewards.saturating_add(r.0),
                ..*old(self)
            }),
            old(self).commission_bps <= 10000 ==> r.0 + r.1 == total_reward,
    {
        let commission = saturating_mul_u128(total_reward, self.commission_bps as u128) / 10000;
        proof {
            if self.commission_bps <= 10000 {
                let c = self.commission_bps as u128;
                assert(total_reward * c <= total_reward * 10000) by (nonlinear_arith)
                    requires
                        c <= 10000,
                ;
                if total_reward * c <= u128::MAX {
                    assert((total_reward * c) / 10000 <= total_reward) by (nonlinear_arith)
                        requires
                            total_reward * c <= total_reward * 10000,
                    ;
                } else {
                    assert(u128::MAX / 10000 <= total_reward) by (nonlinear_arith)
                        requires
                            total_reward * c > u128::MAX,
                            total_reward * c <= total_reward * 10000,
                    ;
                }
            }
        }
        let delegator_reward = total_reward.saturating_sub(commission);
        self.pending_rewards = self.pending_rewards.saturating_add(commission);
        (commission, delegator_reward)
    }

    /// The validator's weight: its total stake.
    pub fn weight(&self) -> (r: u128)
        ensures
            r == self.total_stake,
    {
        self.total_stake
    }
}

/// Why a staking operation was refused.
#[derive(Clone, Copy, Debug, PartialEq, Eq, Structural)]
pub enum StakingError {
    ZeroAmount,
    InsufficientShares,
    NotStaker,
    AlreadyRegistered,
    UnknownValidator,
    InvalidCommission,
    InsufficientBalance,
}

/// The staking pool, the validators, inflation and the token supply.
pub struct StakingModule {
    pub total_staked: u128,
    pub total_shares: u128,
    pub stakers: Table<Address, StakerInfo>,
    pub validators: Table<Address, ValidatorStake>,
    pub inflation_config: InflationConfig,
    pub token_supply: TokenSupply,
}

/// The record of `a` in `m`, or a fresh one.
pub open spec fn staker_entry(m: Map<Seq<u8>, StakerInfo>, a: Address) -> StakerInfo {
    if m.dom().contains(a.0@) {
        m[a.0@]
    } else {
        StakerInfo::new_spec(a)
    }
}

/// Whether a validator takes part in reward distribution.
pub open spec fn eligible(v: ValidatorStake) -> bool {
    v.active && !v.jailed
}

/// A validator's share of the total stake, in basis points.
pub open spec fn stake_ratio(v: ValidatorStake, total_staked: u128) -> u128 {
    if total_staked > 0 {
        ((v.total_stake * 10000) / (total_staked as int)) as u128
    } else {
        0
    }
}

/// The part of a block reward that goes to validator `v`.
pub open spec fn reward_of(v: ValidatorStake, reward: u128, total_staked: u128) -> u128 {
    if eligible(v) {
        sat_mul128(reward, stake_ratio(v, total_staked)) / 10000
    } else {
        0
    }
}

/// Validator `v` after a block reward: it keeps its commission on its part.
pub open spec fn rewarded(v: ValidatorStake, reward: u128, total_staked: u128) -> ValidatorStake {
    if eligible(v) {
        ValidatorStake {
            pending_rewards: v.pending_rewards.saturating_add(commission_of(v, reward_of(v, reward, total_staked))),
            ..v
        }
    } else {
        v
    }
}

/// What is left of `reward` after the validators in `s` took their parts,
/// subtracting with saturation.
pub open spec fn remaining_after(s: Seq<(Address, ValidatorStake)>, reward: u128, total_staked: u128) -> u128
    decreases s.len(),
{
    if s.len() == 0 {
        reward
    } else {
        remaining_after(s.drop_last(), reward, total_staked).saturating_sub(
            reward_of(s.last().1, reward, total_staked),
        )
    }
}

/// `after` is `before` once a block reward was handed out: with a reward of
/// zero nothing changes; otherwise every validator is `rewarded` and what
/// was handed out is added to the validator rewards of the supply.
pub open spec fn rewards_distributed(before: StakingModule, after: StakingModule, reward: u128) -> bool {
    if reward == 0 {
        after == before
    } else {
        let ts = before.total_staked;
        &&& after.validators@ == before.validators@.map_values(|v: ValidatorStake| rewarded(v, reward, ts))
        &&& after.token_supply == (TokenSupply {
            validator_rewards: before.token_supply.validator_rewards.saturating_add(
                reward.saturating_sub(remaining_after(before.validators.seq(), reward, ts)),
            ),
            ..before.token_supply
        })
        &&& after == (StakingModule { validators: after.validators, token_supply: after.token_supply, ..before })
    }
}

/// Whether every eligible validator's stake can be scaled to basis points.
pub open spec fn ratios_computable(m: Map<Seq<u8>, ValidatorStake>) -> bool {
    forall|k: Seq<u8>| #[trigger] m.dom().contains(k) && eligible(m[k]) ==> m[k].total_stake * 10000 <= u128::MAX
}

/// The eligible validators of `s`, in order, with their total stakes.
pub open spec fn eligible_stakes(s: Seq<(Address, ValidatorStake)>) -> Seq<(Address, u128)>
    decreases s.len(),
{
    if s.len() == 0 {
        Seq::empty()
    } else {
        let rest = eligible_stakes(s.drop_last());
        if eligible(s.last().1) {
            rest.push((s.last().0, s.last().1.total_stake))
        } else {
            rest
        }
    }
}

/// Stakes in decreasing order.
pub open spec fn stakes_desc(s: Seq<(Address, u128)>) -> bool {
    forall|a: int, b: int| 0 <= a < b < s.len() ==> (#[trigger] s[a]).1 >= (#[trigger] s[b]).1
}

/// Whether inflation is active at `b`.
pub open spec fn inflation_active(c: InflationConfig, b: u64) -> bool {
    c.state == InflationState::Enabled && b >= c.start_block && (c.end_block == 0 || b < c.end_block)
}

impl StakingModule {
    pub open spec fn wf(&self) -> bool {
        self.stakers.wf() && self.validators.wf()
    }

    /// An empty pool, no validators, disabled inflation and the whole supply
    /// circulating.
    pub fn new() -> (r: Self)
        ensures
            r.wf(),
            r.total_staked == 0 && r.total_shares == 0,
            r.stakers@ == Map::<Seq<u8>, StakerInfo>::empty(),
            r.validators@ == Map::<Seq<u8>, ValidatorStake>::empty(),
            r.inflation_config.state == InflationState::Disabled && r.inflation_config.rate_bps == 0
                && r.inflation_config.cap == 0 && r.inflation_config.start_block == 0
                && r.inflation_config.end_block == 0 && r.inflation_config.treasury_share_bps == 2000
                && r.inflation_config.validator_share_bps == 8000,
            r.token_supply == TokenSupply::new_spec(),
    {
        StakingModule {
            total_staked: 0,
            total_shares: 0,
            stakers: Table::new(),
            validators: Table::new(),
            inflation_config: InflationConfig::default(),
            token_supply: TokenSupply::new(),
        }
    }

    /// Stakes `amount` for `staker`: moves it from circulating to escrow and
    /// buys pool shares (see `shares_for`), which it returns.
    pub fn stake(&mut self, staker: Address, amount: u128, block_height: u64) -> (r: Result<u128, StakingError>)
        requires
            old(self).wf(),
            stake_computable(amount, old(self).total_staked, old(self).total_shares),
        ensures
            final(self).wf(),
            amount == 0 ==> r == Err::<u128, StakingError>(StakingError::ZeroAmount) && *final(self) == *old(self),
            amount != 0 ==> {
                let prev = staker_entry(old(self).stakers@, staker);
                let s = shares_for(amount, old(self).total_staked, old(self).total_shares) as u128;
                &&& r == Ok::<u128, StakingError>(s)
                &&& final(self).stakers@ == old(self).stakers@.insert(
                    staker.0@,
                    StakerInfo {
                        shares: prev.shares.saturating_add(s),
                        staked: prev.staked.saturating_add(amount),
                        last_stake_height: block_height,
                        ..prev
                    },
                )
                &&& final(self).total_staked == old(self).total_staked.saturating_add(amount)
                &&& final(self).total_shares == old(self).total_shares.saturating_add(s)
                &&& final(self).token_supply == (TokenSupply {
                    circulating: old(self).token_supply.circulating.saturating_sub(amount),
                    escrowed: old(self).token_supply.escrowed.saturating_add(amount),
                    ..old(self).token_supply
                })
                &&& final(self).validators == old(self).validators
                &&& final(self).inflation_config == old(self).inflation_config
                &&& supply_balanced(old(self).token_supply) && old(self).token_supply.circulating >= amount
                    ==> supply_balanced(final(self).token_supply)
            },
    {
        if amount == 0 {
            return Err(StakingError::ZeroAmount);
        }
        self.token_supply.remove_from_circulating(amount);
        self.token_supply.escrowed = self.token_supply.escrowed.saturating_add(amount);
        let mut info = match self.stakers.get(&staker) {
            Some(i) => *i,
            None => StakerInfo::new(staker),
        };
        let shares = info.add_stake(amount, &mut self.total_staked, &mut self.total_shares);
        info.last_stake_height = block_height;
        self.stakers.insert(staker, info);
        Ok(shares)
    }

    /// Redeems `shares` of `staker` for tokens (see `amount_for`), which go
    /// from escrow back to circulation; a staker left without shares is
    /// removed.
    pub fn unstake(&mut self, staker: Address, shares: u128, block_height: u64) -> (r: Result<u128, StakingError>)
        requires
            old(self).wf(),
            unstake_computable(shares, old(self).total_staked, old(self).total_shares),
        ensures
            final(self).wf(),
            shares == 0 ==> r == Err::<u128, StakingError>(StakingError::ZeroAmount) && *final(self) == *old(self),
            shares != 0 && !old(self).stakers@.dom().contains(staker.0@) ==> r == Err::<u128, StakingError>(
                StakingError::NotStaker,
            ) && *final(self) == *old(self),
            shares != 0 && old(self).stakers@.dom().contains(staker.0@) && old(self).stakers@[staker.0@].shares
                < shares ==> r == Err::<u128, StakingError>(StakingError::InsufficientShares) && *final(self)
                == *old(self),
            shares != 0 && old(self).stakers@.dom().contains(staker.0@) && old(self).stakers@[staker.0@].shares
                >= shares ==> {
                let info = old(self).stakers@[staker.0@];
                let a = amount_for(shares, old(self).total_staked, old(self).total_shares) as u128;
                let moved = old(self).total_shares != 0;
                let after = if moved {
                    StakerInfo { shares: (info.shares - shares) as u128, staked: info.staked.saturating_sub(a), ..info }
                } else {
                    info
                };
                &&& r == Ok::<u128, StakingError>(a)
                &&& final(self).stakers@ == (if after.shares == 0 {
                    old(self).stakers@.remove(staker.0@)
                } else {
                    old(self).stakers@.insert(staker.0@, after)
                })
                &&& final(self).total_staked == (if moved { old(self).total_staked.saturating_sub(a) } else { old(self).total_staked })
                &&& final(self).total_shares == old(self).total_shares.saturating_sub(shares)
                &&& final(self).token_supply == (TokenSupply {
                    circulating: old(self).token_supply.circulating.saturating_add(a),
                    escrowed: old(self).token_supply.escrowed.saturating_sub(a),
                    ..old(self).token_supply
                })
                &&& final(self).validators == old(self).validators
                &&& final(self).inflation_config == old(self).inflation_config
                &&& supply_balanced(old(self).token_supply) && old(self).token_supply.escrowed >= a
                    ==> supply_balanced(final(self).token_supply)
            },
    {
        if shares == 0 {
            return Err(StakingError::ZeroAmount);
        }
        let mut info = match self.stakers.get(&staker) {
            Some(i) => *i,
            None => {
                return Err(StakingError::NotStaker);
            },
        };
        if info.shares < shares {
            return Err(StakingError::InsufficientShares);
        }
        let amount = info.remove_stake(shares, &mut self.total_staked, &mut self.total_shares);
        self.token_supply.add_to_circulating(amount);
        self.token_supply.escrowed = self.token_supply.escrowed.saturating_sub(amount);
        if info.shares == 0 {
            self.stakers.remove(&staker);
        } else {
            self.stakers.insert(staker, info);
        }
        Ok(amount)
    }

    /// Moves a staker's pending rewards into its stake and into circulation.
    pub fn claim_rewards(&mut self, staker: Address) -> (r: Result<u128, StakingError>)
        requires
            old(self).wf(),
        ensures
            final(self).wf(),
            !old(self).stakers@.dom().contains(staker.0@) ==> r == Err::<u128, StakingError>(
                StakingError::NotStaker,
            ) && *final(self) == *old(self),
            old(self).stakers@.dom().contains(staker.0@) ==> {
                let info = old(self).stakers@[staker.0@];
                &&& r == Ok::<u128, StakingError>(info.pending_rewards)
                &&& info.pending_rewards == 0 ==> *final(self) == *old(self)
                &&& info.pending_rewards != 0 ==> *final(self) == (StakingModule {
                    stakers: final(self).stakers,
                    token_supply: TokenSupply {
                        circulating: old(self).token_supply.circulating.saturating_add(info.pending_rewards),
                        ..old(self).token_supply
                    },
                    ..*old(self)
                }) && final(self).stakers@ == old(self).stakers@.insert(
                    staker.0@,
                    StakerInfo {
                        pending_rewards: 0,
                        staked: info.staked.saturating_add(info.pending_rewards),
                        ..info
                    },
                )
            },
    {
        let mut info = match self.stakers.get(&staker) {
            Some(i) => *i,
            None => {
                return Err(StakingError::NotStaker);
            },
        };
        let rewards = info.pending_rewards;
        if rewards == 0 {
            return Ok(0);
        }
        info.pending_rewards = 0;
        info.staked = info.staked.saturating_add(rewards);
        self.stakers.insert(staker, info);
        self.token_supply.add_to_circulating(rewards);
        Ok(rewards)
    }

    /// Registers an active validator with the given commission.
    pub fn register_validator(&mut self, validator: Address, commission_bps: u16) -> (r: Result<(), StakingError>)
        requires
            old(self).wf(),
        ensures
            final(self).wf(),
            commission_bps > 10000 ==> r == Err::<(), StakingError>(StakingError::InvalidCommission) && *final(self)
                == *old(self),
            commission_bps <= 10000 && old(self).validators@.dom().contains(validator.0@) ==> r == Err::<
                (),
                StakingError,
            >(StakingError::AlreadyRegistered) && *final(self) == *old(self),
            commission_bps <= 10000 && !old(self).validators@.dom().contains(validator.0@) ==> r is Ok
                && *final(self) == (StakingModule { validators: final(self).validators, ..*old(self) })
                && final(self).validators@ == old(self).validators@.insert(
                validator.0@,
                ValidatorStake { commission_bps, active: true, ..ValidatorStake::new_spec(validator) },
            ),
    {
        if commission_bps > 10000 {
            return Err(StakingError::InvalidCommission);
        }
        if self.validators.contains_key(&validator) {
            return Err(StakingError::AlreadyRegistered);
        }
        let mut stake = ValidatorStake::new(validator);
        stake.commission_bps = commission_bps;
        stake.active = true;
        self.validators.insert(validator, stake);
        Ok(())
    }

    /// Adds to a validator's own stake and to the pool total.
    pub fn validator_stake(&mut self, validator: Address, amount: u128) -> (r: Result<(), StakingError>)
        requires
            old(self).wf(),
        ensures
            final(self).wf(),
            !old(self).validators@.dom().contains(validator.0@) ==> r == Err::<(), StakingError>(
                StakingError::UnknownValidator,
            ) && *final(self) == *old(self),
            old(self).validators@.dom().contains(validator.0@) ==> {
                let v = old(self).validators@[validator.0@];
                let own = v.own_stake.saturating_add(amount);
                &&& r is Ok
                &&& *final(self) == (StakingModule {
                    validators: final(self).validators,
                    total_staked: old(self).total_staked.saturating_add(amount),
                    ..*old(self)
                })
                &&& final(self).validators@ == old(self).validators@.insert(
                    validator.0@,
                    ValidatorStake { own_stake: own, total_stake: own.saturating_add(v.delegated_stake), ..v },
                )
            },
    {
        match self.validators.get_mut(&validator) {
            Some(stake) => {
                stake.add_stake(amount, true);
            },
            None => {
                return Err(StakingError::UnknownValidator);
            },
        }
        self.total_staked = self.total_staked.saturating_add(amount);
        Ok(())
    }

    /// Delegates `amount` from `delegator` to `validator`: it leaves
    /// circulation, joins the validator's delegated stake and the pool
    /// total, and buys the delegator pool shares.
    pub fn delegate(&mut self, delegator: Address, validator: Address, amount: u128) -> (r: Result<(), StakingError>)
        requires
            old(self).wf(),
            stake_computable(amount, old(self).total_staked.saturating_add(amount), old(self).total_shares),
        ensures
            final(self).wf(),
            !old(self).validators@.dom().contains(validator.0@) ==> r == Err::<(), StakingError>(
                StakingError::UnknownValidator,
            ) && *final(self) == *old(self),
            old(self).validators@.dom().contains(validator.0@) ==> {
                let v = old(self).validators@[validator.0@];
                let delegated = v.delegated_stake.saturating_add(amount);
                let staked1 = old(self).total_staked.saturating_add(amount);
                let s = shares_for(amount, staked1, old(self).total_shares) as u128;
                let prev = staker_entry(old(self).stakers@, delegator);
                &&& r is Ok
                &&& final(self).validators@ == old(self).validators@.insert(
                    validator.0@,
                    ValidatorStake { delegated_stake: delegated, total_stake: v.own_stake.saturating_add(delegated), ..v },
                )
                &&& final(self).stakers@ == old(self).stakers@.insert(
                    delegator.0@,
                    StakerInfo { shares: prev.shares.saturating_add(s), staked: prev.staked.saturating_add(amount), ..prev },
                )
                &&& final(self).total_staked == staked1.saturating_add(amount)
                &&& final(self).total_shares == old(self).total_shares.saturating_add(s)
                &&& final(self).token_supply == (TokenSupply {
                    circulating: old(self).token_supply.circulating.saturating_sub(amount),
                    ..old(self).token_supply
                })
                &&& final(self).inflation_config == old(self).inflation_config
            },
    {
        if !self.validators.contains_key(&validator) {
            return Err(StakingError::UnknownValidator);
        }
        self.token_supply.remove_from_circulating(amount);
        match self.validators.get_mut(&validator) {
            Some(stake) => {
                stake.add_stake(amount, false);
            },
            None => {},
        }
        self.total_staked = self.total_staked.saturating_add(amount);
        let mut info = match self.stakers.get(&delegator) {
            Some(i) => *i,
            None => StakerInfo::new(delegator),
        };
        let _shares = info.add_stake(amount, &mut self.total_staked, &mut self.total_shares);
        self.stakers.insert(delegator, info);
        Ok(())
    }

    /// Gives each eligible validator its part of `reward`, in proportion to
    /// its stake, and keeps the commission on it; what was handed out is
    /// added to the validator rewards of the supply.
    pub fn distribute_block_rewards(&mut self, reward: u128)
        requires
            old(self).wf(),
            old(self).total_staked > 0 ==> ratios_computable(old(self).validators@),
        ensures
            final(self).wf(),
            rewards_distributed(*old(self), *final(self), reward),
    {
        if reward == 0 {
            return;
        }
        let ghost s0 = *self;
        let ghost src = self.validators.seq();
        let ts = self.total_staked;
        let mut remaining = reward;
        let n = self.validators.len();
        let mut i: usize = 0;
        proof {
            self.validators.lemma_view();
            assert(src.take(0) =~= Seq::<(Address, ValidatorStake)>::empty());
        }
        while i < n
            invariant
                *self == (StakingModule { validators: self.validators, ..s0 }),
                s0.wf(),
                self.validators.wf(),
                ts == s0.total_staked,
                src == s0.validators.seq(),
                ts > 0 ==> ratios_computable(s0.validators@),
                n == src.len(),
                i <= n,
                self.validators.seq().len() == n,
                forall|j: int| 0 <= j < n ==> (#[trigger] self.validators.seq()[j]).0 == src[j].0,
                forall|j: int| 0 <= j < i ==> (#[trigger] self.validators.seq()[j]).1 == rewarded(src[j].1, reward, ts),
                forall|j: int| i <= j < n ==> (#[trigger] self.validators.seq()[j]).1 == src[j].1,
                remaining == remaining_after(src.take(i as int), reward, ts),
            decreases n - i,
        {
            let v = *self.validators.value_at(i);
            proof {
                s0.validators.lemma_view();
                assert(s0.validators@.dom().contains(src[i as int].0.kview()));
            }
            if v.active && !v.jailed {
                let stake_ratio = if ts > 0 {
                    (v.total_stake * 10000) / ts
                } else {
                    0
                };
                let validator_reward = saturating_mul_u128(reward, stake_ratio) / 10000;
                let mut v2 = v;
                let _split = v2.distribute_rewards(validator_reward);
                self.validators.set_value_at(i, v2);
                remaining = remaining.saturating_sub(validator_reward);
            }
            proof {
                assert(src.take(i + 1).drop_last() =~= src.take(i as int));
            }
            i = i + 1;
        }
        proof {
            assert(src.take(n as int) =~= src);
            crate::table::lemma_map_values(s0.validators, self.validators, |v: ValidatorStake| rewarded(v, reward, ts));
        }
        self.token_supply.add_validator_rewards(reward.saturating_sub(remaining));
    }

    /// Mints the block's inflation when it is active and not zero: the
    /// total grows by the minted amount, split between the treasury and the
    /// validator rewards, and the validators' part joins the pool total.
    pub fn process_inflation(&mut self, block_height: u64) -> (r: (u128, u128))
        ensures
            ({
                let c = old(self).inflation_config;
                let mint = mint_spec(c, old(self).token_supply.total.saturating_sub(old(self).token_supply.burned));
                let t = treasury_part(c, mint);
                let v = mint.saturating_sub(t);
                &&& !inflation_active(c, block_height) || mint == 0 ==> r == (0u128, 0u128) && *final(self)
                    == *old(self)
                &&& inflation_active(c, block_height) && mint != 0 ==> {
                    &&& r == (t, v)
                    &&& final(self).token_supply == (TokenSupply {
                        total: old(self).token_supply.total.saturating_add(mint),
                        treasury_balance: old(self).token_supply.treasury_balance.saturating_add(t),
                        validator_rewards: old(self).token_supply.validator_rewards.saturating_add(v),
                        ..old(self).token_supply
                    })
                    &&& *final(self) == (StakingModule {
                        token_supply: final(self).token_supply,
                        total_staked: old(self).total_staked.saturating_add(v),
                        ..*old(self)
                    })
                    &&& supply_balanced(old(self).token_supply) && c.treasury_share_bps <= 10000
                        && old(self).token_supply.total + mint <= u128::MAX ==> supply_balanced(
                        final(self).token_supply,
                    )
                }
            }),
    {
        if !self.inflation_config.is_active(block_height) {
            return (0, 0);
        }
        let current_supply = self.token_supply.current_supply();
        let mint_amount = self.inflation_config.compute_mint(current_supply);
        if mint_amount == 0 {
            return (0, 0);
        }
        let (treasury_amount, validator_amount) = self.inflation_config.distribute(mint_amount);
        self.token_supply.total = self.token_supply.total.saturating_add(mint_amount);
        self.token_supply.add_treasury(treasury_amount);
        self.token_supply.add_validator_rewards(validator_amount);
        self.total_staked = self.total_staked.saturating_add(validator_amount);
        (treasury_amount, validator_amount)
    }

    pub fn get_staker_info(&self, staker: &Address) -> (r: Option<&StakerInfo>)
        requires
            self.wf(),
        ensures
            r is Some <==> self.stakers@.dom().contains(staker.0@),
            r matches Some(i) ==> *i == self.stakers@[staker.0@],
    {
        self.stakers.get(staker)
    }

    pub fn get_validator_info(&self, validator: &Address) -> (r: Option<&ValidatorStake>)
        requires
            self.wf(),
        ensures
            r is Some <==> self.validators@.dom().contains(validator.0@),
            r matches Some(v) ==> *v == self.validators@[validator.0@],
    {
        self.validators.get(validator)
    }

    /// The eligible validators with their total stakes, largest first, at
    /// most `limit` of them.
    pub fn top_validators(&self, limit: usize) -> (r: Vec<(Address, u128)>)
        requires
            self.wf(),
        ensures
            stakes_desc(r@),
            r@.len() == (if limit <= eligible_stakes(self.validators.seq()).len() {
                limit as int
            } else {
                eligible_stakes(self.validators.seq()).len() as int
            }),
            exists|full: Seq<(Address, u128)>|
                #![trigger full.to_multiset()]
                full.to_multiset() == eligible_stakes(self.validators.seq()).to_multiset() && stakes_desc(full)
                    && r@ == full.take(r@.len() as int),
    {
        let ghost src = self.validators.seq();
        let n = self.validators.len();
        let mut elig: Vec<(Address, u128)> = Vec::new();
        let mut i: usize = 0;
        while i < n
            invariant
                self.wf(),
                src == self.validators.seq(),
                n == src.len(),
                i <= n,
                elig@ == eligible_stakes(src.take(i as int)),
            decreases n - i,
        {
            let a = *self.validators.key_at(i);
            let v = *self.validators.value_at(i);
            proof {
                assert(src.take(i + 1).drop_last() =~= src.take(i as int));
            }
            if v.active && !v.jailed {
                elig.push((a, v.total_stake));
            }
            i = i + 1;
        }
        proof {
            assert(src.take(n as int) =~= src);
        }
        let mut out: Vec<(Address, u128)> = Vec::new();
        let mut k: usize = 0;
        assert(out@ =~= elig@.subrange(0, 0));
        while k < elig.len()
            invariant
                k <= elig@.len(),
                stakes_desc(out@),
                out@.to_multiset() == elig@.subrange(0, k as int).to_multiset(),
                out@.len() == k,
            decreases elig@.len() - k,
        {
            let e = elig[k];
            let mut pos: usize = 0;
            while pos < out.len() && out[pos].1 >= e.1
                invariant
                    pos <= out@.len(),
                    forall|j: int| 0 <= j < pos ==> out@[j].1 >= e.1,
                decreases out@.len() - pos,
            {
                pos = pos + 1;
            }
            let ghost before = out@;
            proof {
                assert forall|j: int| pos <= j < before.len() implies e.1 > (#[trigger] before[j]).1 by {
                    if pos < before.len() {
                        assert(before[pos as int].1 < e.1);
                        if j > pos {
                            assert(before[pos as int].1 >= before[j].1);
                        }
                    }
                }
            }
            out.insert(pos, e);
            proof {
                assert(out@ == before.insert(pos as int, e));
                assert forall|a: int, b: int| 0 <= a < b < out@.len() implies (#[trigger] out@[a]).1 >= (#[trigger] out@[b]).1 by {
                    if a < pos && b == pos {
                    } else if a < pos && b > pos {
                        assert(out@[b] == before[b - 1]);
                    } else if a == pos {
                        assert(out@[b] == before[b - 1]);
                    } else if a < pos {
                    } else {
                        assert(out@[a] == before[a - 1]);
                        assert(out@[b] == before[b - 1]);
                    }
                }
                assert(elig@.subrange(0, k + 1) =~= elig@.subrange(0, k as int).push(e));
                vstd::seq_lib::to_multiset_insert(before, pos as int, e);
                vstd::seq_lib::to_multiset_build(elig@.subrange(0, k as int), e);
                assert(out@.to_multiset() == before.to_multiset().insert(e));
            }
            k = k + 1;
        }
        assert(elig@.subrange(0, k as int) =~= elig@);
        let ghost full = out@;
        out.truncate(limit);
        proof {
            assert(out@ =~= full.take(out@.len() as int));
            assert forall|a: int, b: int| 0 <= a < b < out@.len() implies (#[trigger] out@[a]).1 >= (#[trigger] out@[b]).1 by {
                assert(out@[a] == full[a] && out@[b] == full[b]);
            }
        }
        out
    }

    /// Enables inflation at `rate_bps` (capped at the maximum) in a window.
    pub fn enable_inflation(&mut self, rate_bps: u64, start_block: u64, end_block: u64)
        ensures
            *final(self) == (StakingModule { inflation_config: final(self).inflation_config, ..*old(self) }),
            final(self).inflation_config == (InflationConfig {
                state: InflationState::Enabled,
                rate_bps: if rate_bps <= MAX_INFLATION_RATE_BPS { rate_bps } else { MAX_INFLATION_RATE_BPS },
                start_block,
                end_block,
                ..old(self).inflation_config
            }),
    {
        self.inflation_config.state = InflationState::Enabled;
        self.inflation_config.rate_bps = min_u64(rate_bps, MAX_INFLATION_RATE_BPS);
        self.inflation_config.start_block = start_block;
        self.inflation_config.end_block = end_block;
    }

    pub fn disable_inflation(&mut self)
        ensures
            *final(self) == (StakingModule {
                inflation_config: InflationConfig { state: InflationState::Disabled, ..old(self).inflation_config },
                ..*old(self)
            }),
    {
        self.inflation_config.state = InflationState::Disabled;
    }
}

impl Default for StakingModule {
    fn default() -> (r: Self)
        ensures
            r.wf(),
            r.total_staked == 0 && r.total_shares == 0,
            r.stakers@ == Map::<Seq<u8>, StakerInfo>::empty(),
            r.validators@ == Map::<Seq<u8>, ValidatorStake>::empty(),
            r.inflation_config.state == InflationState::Disabled,
            r.token_supply == TokenSupply::new_spec(),
    {
        StakingModule::new()
    }
}

/// The treasury: its balance, what it spent and how many spends it made.
#[derive(Clone, Copy, Debug)]
pub struct Treasury {
    pub balance: u128,
    pub spent: u128,
    pub proposal_count: u64,
    pub spend_limit_per_proposal: u128,
}

/// Where the treasury's funds came from.
#[derive(Clone, Copy, Debug)]
pub struct TreasuryFundingSources {
    pub inflation_contribution: u128,
    pub fee_contribution: u128,
    pub inference_contribution: u128,
}

/// The treasury's published figures.
#[derive(Clone, Copy, Debug)]
pub struct TreasuryReport {
    pub current_balance: u128,
    pub total_spent: u128,
    pub proposal_count: u64,
    pub spend_limit: u128,
}

/// Why the treasury refused a spend.
#[derive(Clone, Copy, Debug, PartialEq, Eq, Structural)]
pub enum TreasuryError {
    InsufficientFunds,
    ExceedsLimit,
    InvalidProposal,
}

impl Treasury {
    /// An empty treasury that may spend a thousandth of the total supply per
    /// proposal.
    pub fn new() -> (r: Self)
        ensures
            r == (Treasury { balance: 0, spent: 0, proposal_count: 0, spend_limit_per_proposal: TOTAL_SUPPLY / 1000 }),
    {
        Treasury { balance: 0, spent: 0, proposal_count: 0, spend_limit_per_proposal: TOTAL_SUPPLY / 1000 }
    }

    pub fn deposit(&mut self, amount: u128)
        ensures
            *final(self) == (Treasury { balance: old(self).balance.saturating_add(amount), ..*old(self) }),
    {
        self.balance = self.balance.saturating_add(amount);
    }

    /// Spends `amount` when it is within the limit and the balance.
    pub fn spend(&mut self, amount: u128) -> (r: Result<(), TreasuryError>)
        requires
            old(self).proposal_count < u64::MAX,
        ensures
            amount > old(self).spend_limit_per_proposal ==> r == Err::<(), TreasuryError>(TreasuryError::ExceedsLimit)
                && *final(self) == *old(self),
            amount <= old(self).spend_limit_per_proposal && old(self).balance < amount ==> r == Err::<
                (),
                TreasuryError,
            >(TreasuryError::InsufficientFunds) && *final(self) == *old(self),
            amount <= old(self).spend_limit_per_proposal && old(self).balance >= amount ==> r is Ok && *final(self)
                == (Treasury {
                balance: (old(self).balance - amount) as u128,
                spent: old(self).spent.saturating_add(amount),
                proposal_count: (old(self).proposal_count + 1) as u64,
                ..*old(self)
            }),
    {
        if amount > self.spend_limit_per_proposal {
            return Err(TreasuryError::ExceedsLimit);
        }
        if self.balance < amount {
            return Err(TreasuryError::InsufficientFunds);
        }
        self.balance = self.balance.saturating_sub(amount);
        self.spent = self.spent.saturating_add(amount);
        self.proposal_count = self.proposal_count + 1;
        Ok(())
    }

    pub fn burn_unspent(&mut self)
        ensures
            *final(self) == (Treasury { balance: 0, ..*old(self) }),
    {
        self.balance = 0;
    }

    /// Sets the per-proposal limit, at most a tenth of the total supply.
    pub fn set_spend_limit(&mut self, limit: u128)
        ensures
            *final(self) == (Treasury {
                spend_limit_per_proposal: if limit <= TOTAL_SUPPLY / 10 { limit } else { TOTAL_SUPPLY / 10 },
                ..*old(self)
            }),
    {
        self.spend_limit_per_proposal = min_u128(limit, TOTAL_SUPPLY / 10);
    }

    /// The sources of the funds; they are not tracked, so all are zero.
    pub fn funding_sources(&self) -> (r: TreasuryFundingSources)
        ensures
            r == (TreasuryFundingSources { inflation_contribution: 0, fee_contribution: 0, inference_contribution: 0 }),
    {
        TreasuryFundingSources { inflation_contribution: 0, fee_contribution: 0, inference_contribution: 0 }
    }

    pub fn transparency_report(&self) -> (r: TreasuryReport)
        ensures
            r == (TreasuryReport {
                current_balance: self.balance,
                total_spent: self.spent,
                proposal_count: self.proposal_count,
                spend_limit: self.spend_limit_per_proposal,
            }),
    {
        TreasuryReport {
            current_balance: self.balance,
            total_spent: self.spent,
            proposal_count: self.proposal_count,
            spend_limit: self.spend_limit_per_proposal,
        }
    }
}

impl Default for Treasury {
    fn default() -> (r: Self)
        ensures
            r == (Treasury { balance: 0, spent: 0, proposal_count: 0, spend_limit_per_proposal: TOTAL_SUPPLY / 1000 }),
    {
        Treasury::new()
    }
}

/// Fee parameters: the base fee and gas price bounds, the split of fees
/// between burning, treasury and validators (in percent) and congestion.
#[derive(Clone, Copy, Debug)]
pub struct FeeModule {
    pub base_fee: u128,
    pub min_gas_price: u128,
    pub max_gas_price: u128,
    pub burn_percentage: u8,
    pub treasury_share: u8,
    pub validator_share: u8,
    pub congestion_multiplier: u128,
    pub target_utilization: u64,
}

/// The fee module's published parameters.
#[derive(Clone, Copy, Debug)]
pub struct FeeStructureReport {
    pub base_fee: u128,
    pub min_gas_price: u128,
    pub max_gas_price: u128,
    pub burn_percentage: u8,
    pub treasury_share: u8,
    pub validator_share: u8,
    pub congestion_multiplier: u128,
    pub target_utilization: u64,
}

/// The gas price: the base fee scaled by the congestion multiplier (per
/// thousand), bounded above by the maximum price and below by the minimum.
pub open spec fn gas_price_spec(f: FeeModule) -> u128 {
    let congestion = sat_mul128(f.base_fee, f.congestion_multiplier) / 1000;
    let capped = if f.max_gas_price <= congestion { f.max_gas_price } else { congestion };
    if f.min_gas_price >= capped {
        f.min_gas_price
    } else {
        capped
    }
}

impl Default for FeeModule {
    fn default() -> (r: Self)
        ensures
            r == (FeeModule {
                base_fee: 1000,
                min_gas_price: 1,
                max_gas_price: 1_000_000_000,
                burn_percentage: 0,
                treasury_share: 10,
                validator_share: 90,
                congestion_multiplier: 1000,
                target_utilization: 60,
            }),
    {
        FeeModule {
            base_fee: 1000,
            min_gas_price: 1,
            max_gas_price: 1_000_000_000,
            burn_percentage: 0,
            treasury_share: 10,
            validator_share: 90,
            congestion_multiplier: 1000,
            target_utilization: 60,
        }
    }
}

impl FeeModule {
    /// The fee for `gas_limit` units of gas at the current gas price.
    pub fn compute_fee(&self, gas_limit: u64) -> (r: u128)
        requires
            gas_limit * gas_price_spec(*self) <= u128::MAX,
        ensures
            r == gas_limit * gas_price_spec(*self),
    {
        let congestion_price = saturating_mul_u128(self.base_fee, self.congestion_multiplier) / 1000;
        let capped = min_u128(self.max_gas_price, congestion_price);
        let gas_price = if self.min_gas_price >= capped {
            self.min_gas_price
        } else {
            capped
        };
        (gas_limit as u128) * gas_price
    }

    /// Splits a fee into the burned part, the treasury part and the
    /// validators' part.
    pub fn distribute_fee(&self, amount: u128) -> (r: (u128, u128, u128))
        ensures
            r.0 == sat_mul128(amount, self.burn_percentage as u128) / 100,
            r.1 == sat_mul128(amount.saturating_sub(r.0), self.treasury_share as u128) / 100,
            r.2 == amount.saturating_sub(r.0).saturating_sub(r.1),
            self.burn_percentage <= 100 && self.treasury_share <= 100 ==> r.0 + r.1 + r.2 == amount,
    {
        let burn = saturating_mul_u128(amount, self.burn_percentage as u128) / 100;
        let remaining = amount.saturating_sub(burn);
        let treasury = saturating_mul_u128(remaining, self.treasury_share as u128) / 100;
        proof {
            if self.burn_percentage <= 100 && self.treasury_share <= 100 {
                lemma_pct_le(amount, self.burn_percentage as u128);
                lemma_pct_le(remaining, self.treasury_share as u128);
            }
        }
        let validators = remaining.saturating_sub(treasury);
        (burn, treasury, validators)
    }

    /// Raises the congestion multiplier by the utilization above the target
    /// (at most 5000 per thousand more); resets it otherwise.
    pub fn set_congestion(&mut self, utilization: u64)
        ensures
            *final(self) == (FeeModule {
                congestion_multiplier: if utilization > old(self).target_utilization {
                    let excess = (utilization - old(self).target_utilization) as u64;
                    (1000 + (if excess <= 5000 { excess } else { 5000u64 })) as u128
                } else {
                    1000u128
                },
                ..*old(self)
            }),
    {
        if utilization > self.target_utilization {
            let excess = utilization - self.target_utilization;
            self.congestion_multiplier = 1000 + min_u64(excess, 5000) as u128;
        } else {
            self.congestion_multiplier = 1000;
        }
    }

    /// Sets the fee split; a split that does not add up to 100 is scaled to
    /// percentages of its sum, rounding down.
    pub fn set_fee_distribution(&mut self, burn_pct: u8, treasury_pct: u8, validator_pct: u8)
        requires
            burn_pct + treasury_pct + validator_pct <= u8::MAX,
            burn_pct + treasury_pct + validator_pct != 0,
        ensures
            ({
                let total = burn_pct + treasury_pct + validator_pct;
                *final(self) == (if total == 100 {
                    FeeModule {
                        burn_percentage: burn_pct,
                        treasury_share: treasury_pct,
                        validator_share: validator_pct,
                        ..*old(self)
                    }
                } else {
                    FeeModule {
                        burn_percentage: (burn_pct * 100 / total) as u8,
                        treasury_share: (treasury_pct * 100 / total) as u8,
                        validator_share: (validator_pct * 100 / total) as u8,
                        ..*old(self)
                    }
                })
            }),
    {
        let total = burn_pct + treasury_pct + validator_pct;
        if total != 100 {
            let t = total as u128;
            proof {
                lemma_scaled_pct(burn_pct as u128, t);
                lemma_scaled_pct(treasury_pct as u128, t);
                lemma_scaled_pct(validator_pct as u128, t);
            }
            self.burn_percentage = (burn_pct as u128 * 100 / t) as u8;
            self.treasury_share = (treasury_pct as u128 * 100 / t) as u8;
            self.validator_share = (validator_pct as u128 * 100 / t) as u8;
        } else {
            self.burn_percentage = burn_pct;
            self.treasury_share = treasury_pct;
            self.validator_share = validator_pct;
        }
    }

    pub fn set_base_fee(&mut self, base_fee: u128)
        ensures
            *final(self) == (FeeModule { base_fee, ..*old(self) }),
    {
        self.base_fee = base_fee;
    }

    /// Sets the target utilization, kept between 50 and 90 percent.
    pub fn set_congestion_parameters(&mut self, target_utilization: u64)
        ensures
            *final(self) == (FeeModule {
                target_utilization: if target_utilization > 90 {
                    90u64
                } else if target_utilization < 50 {
                    50u64
                } else {
                    target_utilization
                },
                ..*old(self)
            }),
    {
        let capped = min_u64(target_utilization, 90);
        self.target_utilization = if capped < 50 {
            50
        } else {
            capped
        };
    }

    pub fn fee_structure_report(&self) -> (r: FeeStructureReport)
        ensures
            r == (FeeStructureReport {
                base_fee: self.base_fee,
                min_gas_price: self.min_gas_price,
                max_gas_price: self.max_gas_price,
                burn_percentage: self.burn_percentage,
                treasury_share: self.treasury_share,
                validator_share: self.validator_share,
                congestion_multiplier: self.congestion_multiplier,
                target_utilization: self.target_utilization,
            }),
    {
        FeeStructureReport {
            base_fee: self.base_fee,
            min_gas_price: self.min_gas_price,
            max_gas_price: self.max_gas_price,
            burn_percentage: self.burn_percentage,
            treasury_share: self.treasury_share,
            validator_share: self.validator_share,
            congestion_multiplier: self.congestion_multiplier,
            target_utilization: self.target_utilization,
        }
    }
}

/// A percentage of at most 100 of `a` is at most `a`.
proof fn lemma_pct_le(a: u128, p: u128)
    requires
        p <= 100,
    ensures
        sat_mul128(a, p) / 100 <= a,
{
    assert(a * p <= a * 100) by (nonlinear_arith)
        requires
            p <= 100,
    ;
    if a * p <= u128::MAX {
        assert((a * p) / 100 <= a) by (nonlinear_arith)
            requires
                a * p <= a * 100,
        ;
    } else {
        assert(u128::MAX / 100 <= a) by (nonlinear_arith)
            requires
                a * p > u128::MAX,
                a * p <= a * 100,
        ;
    }
}

/// Scaling a part of a sum of at most 255 to percent stays a percentage.
proof fn lemma_scaled_pct(x: u128, t: u128)
    requires
        x <= t,
        0 < t <= 255,
    ensures
        x * 100 / (t as int) <= 100,
{
    assert(x * 100 / (t as int) <= 100) by (nonlinear_arith)
        requires
            x <= t,
            t > 0,
    ;
}

} // verus!

verus! {

/// Staking and then redeeming the shares bought gives back no more than was
/// staked: shares never create value (the totals here are those after the
/// stake, without saturation). It needs a pool whose staked total and share
/// total are both zero or both positive.
pub proof fn lemma_stake_unstake_no_gain(amount: u128, total_staked: u128, total_shares: u128)
    requires
        amount > 0,
        (total_staked == 0) == (total_shares == 0),
        stake_computable(amount, total_staked, total_shares),
        total_staked + amount <= u128::MAX,
        total_shares + shares_for(amount, total_staked, total_shares) <= u128::MAX,
    ensures
        ({
            let s = shares_for(amount, total_staked, total_shares);
            &&& 0 <= s
            &&& amount_for(s as u128, (total_staked + amount) as u128, (total_shares + s) as u128) <= amount
        }),
{
    let s = shares_for(amount, total_staked, total_shares);
    let ts = total_staked as int;
    let tsh = total_shares as int;
    let a = amount as int;
    if tsh == 0 || ts == 0 {
        assert(s == a);
        assert(ts == 0 && tsh == 0);
        assert((a * (ts + a)) / (tsh + a) == a) by (nonlinear_arith)
            requires
                a > 0,
                ts == 0,
                tsh == 0,
        ;
    } else {
        assert(0 <= s <= (a * tsh) / ts) by (nonlinear_arith)
            requires
                s == (a * tsh) / ts,
                a > 0,
                tsh > 0,
                ts > 0,
        ;
        assert(s * ts <= a * tsh) by (nonlinear_arith)
            requires
                s == (a * tsh) / ts,
                a > 0,
                tsh > 0,
                ts > 0,
        ;
        if s > 0 {
            assert((s * (ts + a)) / (tsh + s) <= a) by (nonlinear_arith)
                requires
                    s * ts <= a * tsh,
                    s > 0,
                    a > 0,
                    tsh > 0,
                    ts > 0,
            ;
        }
    }
}


/// Inflation keeps the supply accounted for: the treasury's and the
/// validators' parts add up to the amount minted, and a balanced supply
/// stays balanced once the total grows by the mint and the two parts are
/// booked (as `process_inflation` books them), provided the new total fits.
pub proof fn lemma_inflation_keeps_supply_balanced(s: TokenSupply, c: InflationConfig)
    requires
        supply_balanced(s),
        c.treasury_share_bps <= 10000,
        s.total + mint_spec(c, s.total.saturating_sub(s.burned)) <= u128::MAX,
    ensures
        ({
            let mint = mint_spec(c, s.total.saturating_sub(s.burned));
            let t = treasury_part(c, mint);
            let v = mint.saturating_sub(t);
            &&& t <= mint
            &&& t + v == mint
            &&& supply_balanced(
                TokenSupply {
                    total: s.total.saturating_add(mint),
                    treasury_balance: s.treasury_balance.saturating_add(t),
                    validator_rewards: s.validator_rewards.saturating_add(v),
                    ..s
                },
            )
        }),
{
    let mint = mint_spec(c, s.total.saturating_sub(s.burned));
    let m = mint as int;
    let b = c.treasury_share_bps as int;
    assert(m * b <= m * 10000) by (nonlinear_arith)
        requires
            0 <= m,
            0 <= b <= 10000,
    ;
    let t = treasury_part(c, mint);
    assert(sat_mul128(mint, c.treasury_share_bps as u128) <= m * 10000);
    assert(sat_mul128(mint, c.treasury_share_bps as u128) / 10000 <= m) by (nonlinear_arith)
        requires
            sat_mul128(mint, c.treasury_share_bps as u128) <= m * 10000,
            0 <= sat_mul128(mint, c.treasury_share_bps as u128),
    ;
}


/// The mint per block never exceeds the yearly rate applied to the supply
/// and spread over a year of blocks; a positive cap is a ceiling on it,
/// and the mint is the smaller of the two. Disabled inflation mints
/// nothing.
pub proof fn lemma_mint_capped(c: InflationConfig, supply: u128)
    ensures
        ({
            let per_block = (sat_mul128(supply, c.rate_bps as u128) / 10000) / (BLOCKS_PER_YEAR as u128);
            let mint = mint_spec(c, supply);
            &&& c.state != InflationState::Enabled ==> mint == 0
            &&& mint <= per_block
            &&& c.cap > 0 ==> mint <= c.cap
            &&& c.state == InflationState::Enabled && c.cap == 0 ==> mint == per_block
            &&& c.state == InflationState::Enabled && c.cap > 0 ==> (mint == per_block || mint == c.cap)
        }),
{
}

/// The gas price lies between the minimum price and the larger of the
/// minimum and maximum prices; it is the congestion price (the base fee
/// times the multiplier, per thousand) whenever that lies between the
/// minimum and the maximum, the maximum when the congestion price is above
/// it, and the minimum when the congestion price is below it. So a fee is
/// at most the gas times the larger of the two bounds.
pub proof fn lemma_gas_price_bounds(f: FeeModule, gas: u64)
    ensures
        ({
            let price = gas_price_spec(f);
            let congestion = sat_mul128(f.base_fee, f.congestion_multiplier) / 1000;
            let top = if f.min_gas_price >= f.max_gas_price { f.min_gas_price } else { f.max_gas_price };
            &&& f.min_gas_price <= price <= top
            &&& f.min_gas_price <= congestion <= f.max_gas_price ==> price == congestion
            &&& congestion > f.max_gas_price && f.max_gas_price >= f.min_gas_price ==> price == f.max_gas_price
            &&& congestion < f.min_gas_price ==> price == f.min_gas_price
            &&& gas * price <= gas * top
        }),
{
    let price = gas_price_spec(f);
    let top = if f.min_gas_price >= f.max_gas_price { f.min_gas_price } else { f.max_gas_price };
    assert(gas * price <= gas * top) by (nonlinear_arith)
        requires
            price <= top,
            gas >= 0,
    ;
}


/// The treasury's part of a minted amount is its share in basis points,
/// rounded down: `part * 10000 <= amount * share < (part + 1) * 10000`,
/// when the product fits in a `u128`; the validators get the rest.
pub proof fn lemma_treasury_part_share(c: InflationConfig, amount: u128)
    requires
        amount * c.treasury_share_bps <= u128::MAX,
    ensures
        treasury_part(c, amount) * 10000 <= amount * c.treasury_share_bps < (treasury_part(c, amount) + 1) * 10000,
{
    let p = amount * c.treasury_share_bps;
    assert(treasury_part(c, amount) == p / 10000);
    assert((p / 10000) * 10000 <= p < (p / 10000 + 1) * 10000) by (nonlinear_arith)
        requires
            p >= 0,
    ;
}

} // verus!
