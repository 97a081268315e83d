//! Messages the farming pool accepts and the answers it gives.

use vstd::prelude::*;
use crate::math::Decimal;

verus! {

/// What the pool is created with.
#[derive(Debug, PartialEq, Eq)]
pub struct InstantiateMsg {
    pub owner: String,
    pub reward_token: String,
    pub staking_token: String,
    pub staking_token_decimals: u8,
    pub referral_rate: u64,
    pub referral_lock_days: u64,
}

/// The action a token transfer asks for.
#[derive(Debug, PartialEq, Eq)]
pub enum Cw20HookMsg {
    /// Open a position or add to one.
    Stake { referral_addr: String },
    /// Replace the reward schedule, funded by the transfer.
    UpdateRewardSchedule { period_start: u64, period_finish: u64, amount: u128 },
}

/// A token contract's notice that `sender` moved `amount` to the pool.
/// `msg` is `None` when the attached payload names no action.
#[derive(Debug, PartialEq, Eq)]
pub struct Cw20ReceiveMsg {
    pub sender: String,
    pub amount: u128,
    pub msg: Option<Cw20HookMsg>,
}

/// The state-changing requests.
#[derive(Debug, PartialEq, Eq)]
pub enum ExecuteMsg {
    Receive(Cw20ReceiveMsg),
    UpdateConfig { owner: Option<String>, referral_rate: Option<u64>, referral_lock_days: Option<u64> },
    /// Withdraw `amount` of stake; pending rewards are paid along with it
    /// when `withdraw_pending_reward` is `Some(true)`.
    Unstake { amount: u128, withdraw_pending_reward: Option<bool> },
    Claim {  },
    ClaimReferralReward {  },
}

/// The read-only requests.
#[derive(Debug, PartialEq, Eq)]
pub enum QueryMsg {
    Config {  },
    /// The pool state, projected to `timestamp` when that lies ahead.
    StateInfo { timestamp: Option<u64> },
    /// A staker's position, projected to `timestamp` when that lies ahead.
    StakerInfo { staker: String, timestamp: Option<u64> },
    Timestamp {  },
}

#[derive(Clone, Copy, Debug, PartialEq, Eq, Structural)]
pub struct MigrateMsg {}

#[derive(Debug, PartialEq, Eq)]
pub struct ConfigResponse {
    pub owner: String,
    pub reward_token: String,
    pub staking_token: String,
    pub distribution_schedule: (u64, u64, u128),
    pub referral_rate: u64,
    pub referral_lock_days: u64,
}

pub struct ConfigResponseView {
    pub owner: Seq<char>,
    pub reward_token: Seq<char>,
    pub staking_token: Seq<char>,
    pub distribution_schedule: (u64, u64, u128),
    pub referral_rate: u64,
    pub referral_lock_days: u64,
}

impl View for ConfigResponse {
    type V = ConfigResponseView;

    open spec fn view(&self) -> ConfigResponseView {
        ConfigResponseView {
            owner: self.owner@,
            reward_token: self.reward_token@,
            staking_token: self.staking_token@,
            distribution_schedule: self.distribution_schedule,
            referral_rate: self.referral_rate,
            referral_lock_days: self.referral_lock_days,
        }
    }
}

#[derive(Clone, Copy, Debug, PartialEq, Eq, Structural)]
pub struct StateResponse {
    /// When the reward index was last settled.
    pub last_distributed: u64,
    /// All stake held by the pool.
    pub total_stake_amount: u128,
    /// Rewards released so far per unit of stake.
    pub global_reward_index: Decimal,
    /// Rewards the schedule has yet to release.
    pub leftover: u128,
    /// Rewards released per second and per whole staked token.
    pub reward_rate_per_token: Decimal,
}

#[derive(Debug, PartialEq, Eq)]
pub struct StakerInfoResponse {
    pub staker: String,
    pub stake_amount: u128,
    pub reward_index: Decimal,
    pub pending_reward: u128,
    pub referral_addr: String,
    pub referral_reward: u128,
    pub referral_count: u64,
    pub referral_timestamp: u64,
}

pub struct StakerInfoResponseView {
    pub staker: Seq<char>,
    pub stake_amount: u128,
    pub reward_index: Decimal,
    pub pending_reward: u128,
    pub referral_addr: Seq<char>,
    pub referral_reward: u128,
    pub referral_count: u64,
    pub referral_timestamp: u64,
}

impl View for StakerInfoResponse {
    type V = StakerInfoResponseView;

    open spec fn view(&self) -> StakerInfoResponseView {
        StakerInfoResponseView {
            staker: self.staker@,
            stake_amount: self.stake_amount,
            reward_index: self.reward_index,
            pending_reward: self.pending_reward,
            referral_addr: self.referral_addr@,
            referral_reward: self.referral_reward,
            referral_count: self.referral_count,
            referral_timestamp: self.referral_timestamp,
        }
    }
}

/// An instruction to move `amount` of the token at `contract_addr` to
/// `recipient`.
#[derive(Debug, PartialEq, Eq)]
pub struct TransferMsg {
    pub contract_addr: String,
    pub recipient: String,
    pub amount: u128,
}

pub struct TransferMsgView {
    pub contract_addr: Seq<char>,
    pub recipient: Seq<char>,
    pub amount: u128,
}

impl View for TransferMsg {
    type V = TransferMsgView;

    open spec fn view(&self) -> TransferMsgView {
        TransferMsgView {
            contract_addr: self.contract_addr@,
            recipient: self.recipient@,
            amount: self.amount,
        }
    }
}

/// What a state-changing request did, with the payments it orders.
#[derive(Debug, PartialEq, Eq)]
pub enum Response {
    Stake { amount: u128, total_staked: u128 },
    UpdateConfig,
    UpdateRewardSchedule { to_distribute: u128, total_stake_amount: u128 },
    /// `reward_payout` comes before `stake_payout`.
    Unstake {
        reward_payout: Option<TransferMsg>,
        stake_payout: TransferMsg,
        amount: u128,
        total_staked: u128,
        claimed_rewards: u128,
    },
    Claim { payout: TransferMsg, claimed_rewards: u128 },
    ClaimReferralReward { payout: TransferMsg, claimed_rewards: u128 },
}

pub enum ResponseView {
    Stake { amount: u128, total_staked: u128 },
    UpdateConfig,
    UpdateRewardSchedule { to_distribute: u128, total_stake_amount: u128 },
    Unstake {
        reward_payout: Option<TransferMsgView>,
        stake_payout: TransferMsgView,
        amount: u128,
        total_staked: u128,
        claimed_rewards: u128,
    },
    Claim { payout: TransferMsgView, claimed_rewards: u128 },
    ClaimReferralReward { payout: TransferMsgView, claimed_rewards: u128 },
}

impl View for Response {
    type V = ResponseView;

    open spec fn view(&self) -> ResponseView {
        match self {
            Response::Stake { amount, total_staked } => ResponseView::Stake {
                amount: *amount,
                total_staked: *total_staked,
            },
            Response::UpdateConfig => ResponseView::UpdateConfig,
            Response::UpdateRewardSchedule {
                to_distribute,
                total_stake_amount,
            } => ResponseView::UpdateRewardSchedule {
                to_distribute: *to_distribute,
                total_stake_amount: *total_stake_amount,
            },
            Response::Unstake {
                reward_payout,
                stake_payout,
                amount,
                total_staked,
                claimed_rewards,
            } => ResponseView::Unstake {
                reward_payout: match reward_payout {
                    Some(p) => Some(p@),
                    None => None,
                },
                stake_payout: stake_payout@,
                amount: *amount,
                total_staked: *total_staked,
                claimed_rewards: *claimed_rewards,
            },
            Response::Claim { payout, claimed_rewards } => ResponseView::Claim {
                payout: payout@,
                claimed_rewards: *claimed_rewards,
            },
            Response::ClaimReferralReward { payout, claimed_rewards } => ResponseView::ClaimReferralReward {
                payout: payout@,
                claimed_rewards: *claimed_rewards,
            },
        }
    }
}

/// The answer to a read-only request.
#[derive(Debug, PartialEq, Eq)]
pub enum QueryResponse {
    Config(ConfigResponse),
    StateInfo(StateResponse),
    StakerInfo(StakerInfoResponse),
    Timestamp(u64),
}

pub enum QueryResponseView {
    Config(ConfigResponseView),
    StateInfo(StateResponse),
    StakerInfo(StakerInfoResponseView),
    Timestamp(u64),
}

impl View for QueryResponse {
    type V = QueryResponseView;

    open spec fn view(&self) -> QueryResponseView {
        match self {
            QueryResponse::Config(c) => QueryResponseView::Config(c@),
            QueryResponse::StateInfo(s) => QueryResponseView::StateInfo(*s),
            QueryResponse::StakerInfo(s) => QueryResponseView::StakerInfo(s@),
            QueryResponse::Timestamp(t) => QueryResponseView::Timestamp(*t),
        }
    }
}

} // verus!
