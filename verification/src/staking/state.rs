//! What the staking pool keeps: its configuration, the running totals and
//! one record per staker.

use vstd::prelude::*;
use crate::book::AddressBook;
use crate::staking::asset::AssetInfo;
use crate::staking::asset::AssetInfoView;
use crate::staking::msg::spec_default_staker;
use crate::staking::msg::StakedDetail;
use crate::staking::msg::StakerInfo;
use crate::staking::msg::StakerInfoView;

verus! {

#[derive(Debug, PartialEq, Eq)]
pub struct Config {
    pub owner: String,
    pub staking_asset: AssetInfo,
    pub reward_asset: AssetInfo,
    /// Where the price of the staking asset in reward units is asked.
    pub router_address: String,
    pub min_lock_week: u64,
    pub max_lock_week: u64,
    /// Yearly ratio in percent at the shortest lock.
    pub min_ratio: u64,
    /// Yearly ratio in percent at the longest lock.
    pub max_ratio: u64,
    /// Referral bonus in percent of the staked amount.
    pub referral_rate: u64,
    /// Days a referrer waits after the first bonus before claiming.
    pub referral_lock_days: u64,
    pub enabled: bool,
}

pub struct ConfigView {
    pub owner: Seq<char>,
    pub staking_asset: AssetInfoView,
    pub reward_asset: AssetInfoView,
    pub router_address: Seq<char>,
    pub min_lock_week: u64,
    pub max_lock_week: u64,
    pub min_ratio: u64,
    pub max_ratio: u64,
    pub referral_rate: u64,
    pub referral_lock_days: u64,
    pub enabled: bool,
}

impl View for Config {
    type V = ConfigView;

    open spec fn view(&self) -> ConfigView {
        ConfigView {
            owner: self.owner@,
            staking_asset: self.staking_asset@,
            reward_asset: self.reward_asset@,
            router_address: self.router_address@,
            min_lock_week: self.min_lock_week,
            max_lock_week: self.max_lock_week,
            min_ratio: self.min_ratio,
            max_ratio: self.max_ratio,
            referral_rate: self.referral_rate,
            referral_lock_days: self.referral_lock_days,
            enabled: self.enabled,
        }
    }
}

impl ConfigView {
    /// The bounds are in order: the shortest lock is no longer than the
    /// longest, the lowest ratio no higher than the highest. The ratio
    /// curve is defined for such bounds where the two locks differ; for
    /// others `calc_ratio` reports an error.
    pub open spec fn wf(self) -> bool {
        self.min_lock_week <= self.max_lock_week && self.min_ratio <= self.max_ratio
    }
}

impl Clone for Config {
    fn clone(&self) -> (r: Self)
        ensures
            r@ == self@,
    {
        Config {
            owner: self.owner.clone(),
            staking_asset: self.staking_asset.clone(),
            reward_asset: self.reward_asset.clone(),
            router_address: self.router_address.clone(),
            min_lock_week: self.min_lock_week,
            max_lock_week: self.max_lock_week,
            min_ratio: self.min_ratio,
            max_ratio: self.max_ratio,
            referral_rate: self.referral_rate,
            referral_lock_days: self.referral_lock_days,
            enabled: self.enabled,
        }
    }
}

/// Everything an operation reads and writes.
#[derive(Debug)]
pub struct Store {
    pub config: Config,
    pub detail: StakedDetail,
    pub stakers: AddressBook<StakerInfo>,
}

pub struct StoreView {
    pub config: ConfigView,
    pub detail: StakedDetail,
    pub stakers: Map<Seq<char>, StakerInfoView>,
}

impl View for Store {
    type V = StoreView;

    open spec fn view(&self) -> StoreView {
        StoreView { config: self.config@, detail: self.detail, stakers: self.stakers@ }
    }
}

/// The record kept under `address`, or the default record.
pub open spec fn staker_or_default(
    stakers: Map<Seq<char>, StakerInfoView>,
    address: Seq<char>,
) -> StakerInfoView {
    if stakers.contains_key(address) {
        stakers[address]
    } else {
        spec_default_staker()
    }
}

impl Store {
    /// A copy of the record kept under `address`, or the default record.
    pub fn staker(&self, address: &String) -> (r: StakerInfo)
        ensures
            r@ == staker_or_default(self@.stakers, address@),
    {
        match self.stakers.get(address) {
            Some(info) => info.clone(),
            None => StakerInfo::default(),
        }
    }
}

} // verus!
