//! Messages the staking pool accepts, the records it keeps per staker and
//! the answers it gives.

use vstd::prelude::*;
use crate::staking::asset::AssetInfo;
use crate::staking::asset::AssetInfoView;
use crate::staking::asset::Denom;
use crate::staking::asset::DenomView;

verus! {

/// What the pool is created with.
#[derive(Debug, PartialEq, Eq)]
pub struct InstantiateMsg {
    pub staking_asset: AssetInfo,
    pub reward_asset: AssetInfo,
    pub router_address: String,
    pub min_lock_week: u64,
    pub max_lock_week: u64,
    pub min_ratio: u64,
    pub max_ratio: u64,
    pub referral_rate: u64,
    pub referral_lock_days: u64,
    pub enabled: bool,
}

/// The action a token transfer asks for.
#[derive(Debug, PartialEq, Eq)]
pub enum ReceiveMsg {
    Stake { lock_week: u64, referral_addr: String },
}

/// A token contract's notice that `sender` moved `amount` to the pool.
/// `msg` is `None` when the attached payload names no action.
#[derive(Debug, PartialEq, Eq)]
pub struct Cw20ReceiveMsg {
    pub sender: String,
    pub amount: u128,
    pub msg: Option<ReceiveMsg>,
}

/// The state-changing requests.
#[derive(Debug, PartialEq, Eq)]
pub enum ExecuteMsg {
    /// Changes the given fields of the configuration.
    UpdateConfig {
        owner: Option<String>,
        staking_asset: Option<AssetInfo>,
        reward_asset: Option<AssetInfo>,
        router_address: Option<String>,
        min_lock_week: Option<u64>,
        max_lock_week: Option<u64>,
        min_ratio: Option<u64>,
        max_ratio: Option<u64>,
        referral_rate: Option<u64>,
        referral_lock_days: Option<u64>,
        enabled: Option<bool>,
    },
    Receive(Cw20ReceiveMsg),
    Stake { lock_week: u64, amount: u128, referral_addr: String },
    Unstake { amount: u128 },
    ClaimReward {  },
    ClaimReferralReward {  },
    Withdraw {  },
}

/// The read-only requests.
#[derive(Debug, PartialEq, Eq)]
pub enum QueryMsg {
    Config {  },
    StakerInfo { address: String },
    StakingList { start_after: Option<String>, limit: Option<u32> },
    StakedDetail {  },
    Now {  },
}

#[derive(Debug, PartialEq, Eq)]
pub struct ConfigResponse {
    pub owner: String,
    pub staking_asset: AssetInfo,
    pub reward_asset: AssetInfo,
    pub router_address: String,
    pub min_lock_week: u64,
    pub max_lock_week: u64,
    pub min_ratio: u64,
    pub max_ratio: u64,
    pub referral_rate: u64,
    pub referral_lock_days: u64,
    pub enabled: bool,
}

pub struct ConfigResponseView {
    pub owner: Seq<char>,
    pub staking_asset: AssetInfoView,
    pub reward_asset: AssetInfoView,
    pub router_address: Seq<char>,
    pub min_lock_week: u64,
    pub max_lock_week: u64,
    pub min_ratio: u64,
    pub max_ratio: u64,
    pub referral_rate: u64,
    pub referral_lock_days: u64,
    pub enabled: bool,
}

impl View for ConfigResponse {
    type V = ConfigResponseView;

    open spec fn view(&self) -> ConfigResponseView {
        ConfigResponseView {
            owner: self.owner@,
            staking_asset: self.staking_asset@,
            reward_asset: self.reward_asset@,
            router_address: self.router_address@,
            min_lock_week: self.min_lock_week,
            max_lock_week: self.max_lock_week,
            min_ratio: self.min_ratio,
            max_ratio: self.max_ratio,
            referral_rate: self.referral_rate,
            referral_lock_days: self.referral_lock_days,
            enabled: self.enabled,
        }
    }
}

#[derive(Clone, Copy, Debug, PartialEq, Eq, Structural)]
pub struct MigrateMsg {}

/// One staker's position and referral account.
#[derive(Debug, PartialEq, Eq)]
pub struct StakerInfo {
    /// Weeks the position is locked for; zero before the first stake.
    pub lock_week: u64,
    pub stake_amount: u128,
    /// The reward as last computed for the running lock cycle.
    pub reward_amount: u128,
    /// Rewards carried over from earlier lock cycles.
    pub last_reward: u128,
    /// Whoever referred this staker; empty until the first stake.
    pub referral_addr: String,
    /// Referral bonus not yet claimed.
    pub referral_reward: u128,
    /// How many stakers this one has referred.
    pub referral_count: u64,
    /// When the position was last added to; the lock counts from here.
    pub staked_timestamp: u64,
    /// From when the running reward accrues.
    pub reward_timestamp: u64,
    /// When the first referral bonus was credited; zero before that.
    pub referral_timestamp: u64,
    /// What this position has put on the pool's ratio-weighted total.
    pub ratio_weight: u128,
    /// What this position has put on the pool's week-weighted total.
    pub week_weight: u128,
}

pub struct StakerInfoView {
    pub lock_week: u64,
    pub stake_amount: u128,
    pub reward_amount: u128,
    pub last_reward: u128,
    pub referral_addr: Seq<char>,
    pub referral_reward: u128,
    pub referral_count: u64,
    pub staked_timestamp: u64,
    pub reward_timestamp: u64,
    pub referral_timestamp: u64,
    pub ratio_weight: u128,
    pub week_weight: u128,
}

impl View for StakerInfo {
    type V = StakerInfoView;

    open spec fn view(&self) -> StakerInfoView {
        StakerInfoView {
            lock_week: self.lock_week,
            stake_amount: self.stake_amount,
            reward_amount: self.reward_amount,
            last_reward: self.last_reward,
            referral_addr: self.referral_addr@,
            referral_reward: self.referral_reward,
            referral_count: self.referral_count,
            staked_timestamp: self.staked_timestamp,
            reward_timestamp: self.reward_timestamp,
            referral_timestamp: self.referral_timestamp,
            ratio_weight: self.ratio_weight,
            week_weight: self.week_weight,
        }
    }
}

/// The record of an address that was never written.
pub open spec fn spec_default_staker() -> StakerInfoView {
    StakerInfoView {
        lock_week: 0,
        stake_amount: 0,
        reward_amount: 0,
        last_reward: 0,
        referral_addr: Seq::<char>::empty(),
        referral_reward: 0,
        referral_count: 0,
        staked_timestamp: 0,
        reward_timestamp: 0,
        referral_timestamp: 0,
        ratio_weight: 0,
        week_weight: 0,
    }
}

impl Default for StakerInfo {
    fn default() -> (r: Self)
        ensures
            r@ == spec_default_staker(),
    {
        StakerInfo {
            lock_week: 0,
            stake_amount: 0,
            reward_amount: 0,
            last_reward: 0,
            referral_addr: String::new(),
            referral_reward: 0,
            referral_count: 0,
            staked_timestamp: 0,
            reward_timestamp: 0,
            referral_timestamp: 0,
            ratio_weight: 0,
            week_weight: 0,
        }
    }
}

impl Clone for StakerInfo {
    fn clone(&self) -> (r: Self)
        ensures
            r@ == self@,
    {
        StakerInfo {
            lock_week: self.lock_week,
            stake_amount: self.stake_amount,
            reward_amount: self.reward_amount,
            last_reward: self.last_reward,
            referral_addr: self.referral_addr.clone(),
            referral_reward: self.referral_reward,
            referral_count: self.referral_count,
            staked_timestamp: self.staked_timestamp,
            reward_timestamp: self.reward_timestamp,
            referral_timestamp: self.referral_timestamp,
            ratio_weight: self.ratio_weight,
            week_weight: self.week_weight,
        }
    }
}

/// Pool-wide running totals over the open positions.
#[derive(Clone, Copy, Debug, PartialEq, Eq, Structural)]
pub struct StakedDetail {
    /// Stake weighted by each position's yearly ratio.
    pub total_acc: u128,
    /// Stake weighted by each position's lock weeks.
    pub total_wcc: u128,
    pub total_staked: u128,
}

#[derive(Debug, PartialEq, Eq)]
pub struct StakingResponse {
    pub address: String,
    pub info: StakerInfo,
}

pub struct StakingResponseView {
    pub address: Seq<char>,
    pub info: StakerInfoView,
}

impl View for StakingResponse {
    type V = StakingResponseView;

    open spec fn view(&self) -> StakingResponseView {
        StakingResponseView { address: self.address@, info: self.info@ }
    }
}

/// One entry of a page of positions.
#[derive(Debug, PartialEq, Eq)]
pub struct StakingList {
    pub address: String,
    pub info: StakerInfo,
}

pub struct StakingListView {
    pub address: Seq<char>,
    pub info: StakerInfoView,
}

impl View for StakingList {
    type V = StakingListView;

    open spec fn view(&self) -> StakingListView {
        StakingListView { address: self.address@, info: self.info@ }
    }
}

/// A page of positions in ascending order of address.
#[derive(Debug, PartialEq, Eq)]
pub struct StakingListResponse {
    pub list: Vec<StakingList>,
}

#[derive(Clone, Copy, Debug, PartialEq, Eq, Structural)]
pub struct TestBalanceResponse {
    pub balance: u128,
}

/// An instruction to pay `amount` of `denom` to `receiver`.
#[derive(Debug, PartialEq, Eq)]
pub struct TransferMsg {
    pub denom: Denom,
    pub amount: u128,
    pub receiver: String,
}

pub struct TransferMsgView {
    pub denom: DenomView,
    pub amount: u128,
    pub receiver: Seq<char>,
}

impl View for TransferMsg {
    type V = TransferMsgView;

    open spec fn view(&self) -> TransferMsgView {
        TransferMsgView { denom: self.denom@, amount: self.amount, receiver: self.receiver@ }
    }
}

/// What a state-changing request did, with the payments it orders.
#[derive(Debug, PartialEq, Eq)]
pub enum Response {
    /// Nothing was done and nothing is to be reported.
    Empty,
    UpdateConfig,
    UpdateReward,
    CheckOwner,
    CheckEnabled,
    Stake { stake_amount: u128 },
    /// `staking_payout` comes before `reward_payout`.
    Unstake { staking_payout: TransferMsg, reward_payout: TransferMsg, unstaked_amount: u128 },
    ClaimReward { payout: TransferMsg, reward_amount: u128 },
    ClaimReferralReward { payout: TransferMsg, reward_amount: u128 },
    /// `second_payout`, in the reward asset, is absent when both assets
    /// are the same.
    Withdraw { staking_payout: TransferMsg, second_payout: Option<TransferMsg>, amount1: u128, amount2: u128 },
}

pub enum ResponseView {
    Empty,
    UpdateConfig,
    UpdateReward,
    CheckOwner,
    CheckEnabled,
    Stake { stake_amount: u128 },
    Unstake { staking_payout: TransferMsgView, reward_payout: TransferMsgView, unstaked_amount: u128 },
    ClaimReward { payout: TransferMsgView, reward_amount: u128 },
    ClaimReferralReward { payout: TransferMsgView, reward_amount: u128 },
    Withdraw {
        staking_payout: TransferMsgView,
        second_payout: Option<TransferMsgView>,
        amount1: u128,
        amount2: u128,
    },
}

impl View for Response {
    type V = ResponseView;

    open spec fn view(&self) -> ResponseView {
        match self {
            Response::Empty => ResponseView::Empty,
            Response::UpdateConfig => ResponseView::UpdateConfig,
            Response::UpdateReward => ResponseView::UpdateReward,
            Response::CheckOwner => ResponseView::CheckOwner,
            Response::CheckEnabled => ResponseView::CheckEnabled,
            Response::Stake { stake_amount } => ResponseView::Stake { stake_amount: *stake_amount },
            Response::Unstake { staking_payout, reward_payout, unstaked_amount } => ResponseView::Unstake {
                staking_payout: staking_payout@,
                reward_payout: reward_payout@,
                unstaked_amount: *unstaked_amount,
            },
            Response::ClaimReward { payout, reward_amount } => ResponseView::ClaimReward {
                payout: payout@,
                reward_amount: *reward_amount,
            },
            Response::ClaimReferralReward { payout, reward_amount } => ResponseView::ClaimReferralReward {
                payout: payout@,
                reward_amount: *reward_amount,
            },
            Response::Withdraw { staking_payout, second_payout, amount1, amount2 } => ResponseView::Withdraw {
                staking_payout: staking_payout@,
                second_payout: match second_payout {
                    Some(p) => Some(p@),
                    None => None,
                },
                amount1: *amount1,
                amount2: *amount2,
            },
        }
    }
}

/// The answer to a read-only request.
#[derive(Debug, PartialEq, Eq)]
pub enum QueryResponse {
    Config(ConfigResponse),
    StakerInfo(StakingResponse),
    StakingList(StakingListResponse),
    StakedDetail(StakedDetail),
    Now(u64),
}

} // verus!
