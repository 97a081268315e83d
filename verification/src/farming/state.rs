//! What the farming pool keeps: its configuration, the pool-wide state and
//! one record per staker.

use vstd::prelude::*;
use crate::book::AddressBook;
use crate::math::Decimal;
use crate::math::DECIMAL_FRACTIONAL;

verus! {

#[derive(Debug, PartialEq, Eq)]
pub struct Config {
    pub owner: String,
    pub reward_token: String,
    pub staking_token: String,
    /// Decimal places of one whole staking token.
    pub staking_token_decimals: u8,
    /// Start, finish and the amount released between them.
    pub distribution_schedule: (u64, u64, u128),
    /// Referral bonus in percent of the staked amount.
    pub referral_rate: u64,
    /// Days a referrer waits after the first bonus before claiming.
    pub referral_lock_days: u64,
}

pub struct ConfigView {
    pub owner: Seq<char>,
    pub reward_token: Seq<char>,
    pub staking_token: Seq<char>,
    pub staking_token_decimals: u8,
    pub distribution_schedule: (u64, u64, u128),
    pub referral_rate: u64,
    pub referral_lock_days: u64,
}

impl View for Config {
    type V = ConfigView;

    open spec fn view(&self) -> ConfigView {
        ConfigView {
            owner: self.owner@,
            reward_token: self.reward_token@,
            staking_token: self.staking_token@,
            staking_token_decimals: self.staking_token_decimals,
            distribution_schedule: self.distribution_schedule,
            referral_rate: self.referral_rate,
            referral_lock_days: self.referral_lock_days,
        }
    }
}

impl ConfigView {
    /// The schedule does not finish before it starts.
    pub open spec fn wf(self) -> bool {
        self.distribution_schedule.0 <= self.distribution_schedule.1
    }
}

impl Clone for Config {
    fn clone(&self) -> (r: Self)
        ensures
            r@ == self@,
    {
        Config {
            owner: self.owner.clone(),
            reward_token: self.reward_token.clone(),
            staking_token: self.staking_token.clone(),
            staking_token_decimals: self.staking_token_decimals,
            distribution_schedule: self.distribution_schedule,
            referral_rate: self.referral_rate,
            referral_lock_days: self.referral_lock_days,
        }
    }
}

#[derive(Clone, Copy, Debug, PartialEq, Eq, Structural)]
pub struct StateInfo {
    /// When the reward index was last settled.
    pub last_distributed: u64,
    /// All stake held by the pool.
    pub total_stake_amount: u128,
    /// Rewards released so far per unit of stake.
    pub global_reward_index: Decimal,
    /// Rewards the schedule has yet to release.
    pub leftover: u128,
    /// Rewards released per second and per whole staked token.
    pub reward_rate_per_token: Decimal,
}

#[derive(Debug, PartialEq, Eq)]
pub struct StakerInfo {
    pub stake_amount: u128,
    /// The pool's reward index when this staker was last settled.
    pub reward_index: Decimal,
    /// Settled rewards not yet claimed.
    pub pending_reward: u128,
    /// Whoever referred this staker; empty until the first stake.
    pub referral_addr: String,
    /// Referral bonus not yet claimed.
    pub referral_reward: u128,
    /// How many stakers this one has referred.
    pub referral_count: u64,
    /// When the first referral bonus was credited; zero before that.
    pub referral_timestamp: u64,
}

pub struct StakerInfoView {
    pub stake_amount: u128,
    pub reward_index: Decimal,
    pub pending_reward: u128,
    pub referral_addr: Seq<char>,
    pub referral_reward: u128,
    pub referral_count: u64,
    pub referral_timestamp: u64,
}

impl View for StakerInfo {
    type V = StakerInfoView;

    open spec fn view(&self) -> StakerInfoView {
        StakerInfoView {
            stake_amount: self.stake_amount,
            reward_index: self.reward_index,
            pending_reward: self.pending_reward,
            referral_addr: self.referral_addr@,
            referral_reward: self.referral_reward,
            referral_count: self.referral_count,
            referral_timestamp: self.referral_timestamp,
        }
    }
}

/// The record of an address that was never written: nothing staked, a
/// reward index of `1.0`, no referrer.
pub open spec fn spec_default_staker() -> StakerInfoView {
    StakerInfoView {
        stake_amount: 0,
        reward_index: Decimal { atomics: DECIMAL_FRACTIONAL },
        pending_reward: 0,
        referral_addr: Seq::<char>::empty(),
        referral_reward: 0,
        referral_count: 0,
        referral_timestamp: 0,
    }
}

impl Default for StakerInfo {
    fn default() -> (r: Self)
        ensures
            r@ == spec_default_staker(),
    {
        StakerInfo {
            stake_amount: 0,
            reward_index: Decimal::one(),
            pending_reward: 0,
            referral_addr: String::new(),
            referral_reward: 0,
            referral_count: 0,
            referral_timestamp: 0,
        }
    }
}

impl Clone for StakerInfo {
    fn clone(&self) -> (r: Self)
        ensures
            r@ == self@,
    {
        StakerInfo {
            stake_amount: self.stake_amount,
            reward_index: self.reward_index,
            pending_reward: self.pending_reward,
            referral_addr: self.referral_addr.clone(),
            referral_reward: self.referral_reward,
            referral_count: self.referral_count,
            referral_timestamp: self.referral_timestamp,
        }
    }
}

/// Everything an operation reads and writes.
#[derive(Debug)]
pub struct Store {
    pub config: Config,
    pub state: StateInfo,
    pub stakers: AddressBook<StakerInfo>,
}

pub struct StoreView {
    pub config: ConfigView,
    pub state: StateInfo,
    pub stakers: Map<Seq<char>, StakerInfoView>,
}

impl View for Store {
    type V = StoreView;

    open spec fn view(&self) -> StoreView {
        StoreView { config: self.config@, state: self.state, stakers: self.stakers@ }
    }
}

/// The record kept under `address`, or the default record.
pub open spec fn staker_or_default(
    stakers: Map<Seq<char>, StakerInfoView>,
    address: Seq<char>,
) -> StakerInfoView {
    if stakers.contains_key(address) {
        stakers[address]
    } else {
        spec_default_staker()
    }
}

impl Store {
    /// A copy of the record kept under `address`, or the default record.
    pub fn staker(&self, address: &String) -> (r: StakerInfo)
        ensures
            r@ == staker_or_default(self@.stakers, address@),
    {
        match self.stakers.get(address) {
            Some(info) => info.clone(),
            None => StakerInfo::default(),
        }
    }
}

} // verus!
