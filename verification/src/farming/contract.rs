//! The farming pool's operations.
//!
//! Every state-changing operation settles the pool's reward index, then the
//! caller's record against it, then applies the change, then the referral
//! bonus. An operation that fails leaves the store untouched.

use vstd::prelude::*;
use crate::farming::error::ContractError;
use crate::farming::msg::ConfigResponse;
use crate::farming::msg::ConfigResponseView;
use crate::farming::msg::Cw20HookMsg;
use crate::farming::msg::Cw20ReceiveMsg;
use crate::farming::msg::ExecuteMsg;
use crate::farming::msg::InstantiateMsg;
use crate::farming::msg::MigrateMsg;
use crate::farming::msg::QueryMsg;
use crate::farming::msg::QueryResponse;
use crate::farming::msg::QueryResponseView;
use crate::farming::msg::Response;
use crate::farming::msg::ResponseView;
use crate::farming::msg::StakerInfoResponse;
use crate::farming::msg::StakerInfoResponseView;
use crate::farming::msg::StateResponse;
use crate::farming::msg::TransferMsg;
use crate::farming::msg::TransferMsgView;
use crate::farming::state::staker_or_default;
use crate::farming::state::Store;
use crate::farming::state::StoreView;
use crate::book::AddressBook;
use crate::farming::state::Config;
use crate::farming::state::ConfigView;
use crate::farming::state::StakerInfo;
use crate::farming::state::StakerInfoView;
use crate::farming::state::StateInfo;
use crate::math::checked_pow10;
use crate::math::lemma_rate_times_time_within_total;
use crate::math::ratio_floor;
use crate::math::scale_floor;
use crate::math::MathError;
use vstd::arithmetic::div_mod::lemma_div_basics;
use crate::math::spec_decimal_add;
use crate::math::spec_decimal_sub;
use crate::math::spec_from_ratio;
use crate::math::spec_mul_floor;
use crate::math::spec_pow10;
use crate::math::Decimal;

verus! {

/// Seconds in a day.
pub const ONE_DAY: u64 = 86400;

/// Rewards released per second: the schedule's amount over its duration,
/// zero for a schedule without duration. `None` when the rate exceeds the
/// largest decimal.
pub open spec fn spec_distribution_rate(schedule: (u64, u64, u128)) -> Option<Decimal> {
    if schedule.1 <= schedule.0 {
        Some(Decimal { atomics: 0 })
    } else {
        match spec_from_ratio(schedule.2, (schedule.1 - schedule.0) as u128) {
            Ok(rate) => Some(rate),
            Err(_) => None,
        }
    }
}

/// Seconds of the schedule window that lie between the last settlement
/// and `timestamp`; zero when the two do not overlap.
pub open spec fn spec_time_passed(schedule: (u64, u64, u128), last_distributed: u64, timestamp: u64) -> int {
    let upper = if schedule.1 < timestamp {
        schedule.1
    } else {
        timestamp
    };
    let lower = if schedule.0 > last_distributed {
        schedule.0
    } else {
        last_distributed
    };
    if schedule.0 < timestamp && schedule.1 > last_distributed && upper > lower {
        upper - lower
    } else {
        0
    }
}

/// Rewards released between the last settlement and `timestamp`.
pub open spec fn spec_distributed(schedule: (u64, u64, u128), last_distributed: u64, timestamp: u64) -> Option<
    u128,
> {
    if spec_time_passed(schedule, last_distributed, timestamp) == 0 {
        Some(0)
    } else {
        match spec_distribution_rate(schedule) {
            Some(rate) => Some(
                scale_floor(spec_time_passed(schedule, last_distributed, timestamp), rate.atomics as int) as u128,
            ),
            None => None,
        }
    }
}

/// The state with `leftover` and `reward_rate_per_token` as they stand at
/// `timestamp`; `None` when a step overflows.
pub open spec fn spec_compute_state_extra(config: ConfigView, state: StateInfo, timestamp: u64) -> Option<
    StateInfo,
> {
    let s = config.distribution_schedule;
    if timestamp <= s.0 {
        Some(StateInfo { leftover: s.2, reward_rate_per_token: Decimal { atomics: 0 }, ..state })
    } else if timestamp >= s.1 {
        Some(StateInfo { leftover: 0, reward_rate_per_token: Decimal { atomics: 0 }, ..state })
    } else {
        match spec_distribution_rate(s) {
            None => None,
            Some(rate) => {
                let leftover = scale_floor(s.1 - timestamp, rate.atomics as int) as u128;
                if state.total_stake_amount == 0 {
                    Some(StateInfo { leftover, reward_rate_per_token: Decimal { atomics: 0 }, ..state })
                } else if spec_pow10(config.staking_token_decimals as nat) > u128::MAX {
                    None
                } else {
                    match spec_mul_floor(spec_pow10(config.staking_token_decimals as nat) as u128, rate) {
                        None => None,
                        Some(per_token) => match spec_from_ratio(per_token, state.total_stake_amount) {
                            Ok(reward_rate_per_token) => Some(
                                StateInfo { leftover, reward_rate_per_token, ..state },
                            ),
                            Err(_) => None,
                        },
                    }
                }
            },
        }
    }
}

/// The state settled at `timestamp`: the schedule evaluated there, the
/// reward index advanced by what was released since the last settlement
/// per unit of stake, and `last_distributed` moved to `timestamp`. Without
/// stake the index stands still. `None` when a step overflows.
pub open spec fn spec_compute_reward(config: ConfigView, state: StateInfo, timestamp: u64) -> Option<StateInfo> {
    match spec_compute_state_extra(config, state, timestamp) {
        None => None,
        Some(extra) => if state.total_stake_amount == 0 {
            Some(StateInfo { last_distributed: timestamp, ..extra })
        } else {
            match spec_distributed(config.distribution_schedule, state.last_distributed, timestamp) {
                None => None,
                Some(distributed) => match spec_from_ratio(distributed, state.total_stake_amount) {
                    Err(_) => None,
                    Ok(increase) => match spec_decimal_add(state.global_reward_index, increase) {
                        None => None,
                        Some(index) => Some(
                            StateInfo { last_distributed: timestamp, global_reward_index: index, ..extra },
                        ),
                    },
                },
            }
        },
    }
}

/// The staker settled against `index`: the stake times the distance from
/// the staker's own index to `index`, rounded down, is added to the pending
/// reward, and the staker's index becomes `index`. Without stake nothing is
/// added, wherever the staker's index stands. `None` when a staker with
/// stake stands at an index above `index`, or a step overflows.
pub open spec fn spec_compute_staker_reward(index: Decimal, staker: StakerInfoView) -> Option<StakerInfoView> {
    if staker.stake_amount == 0 {
        Some(StakerInfoView { reward_index: index, ..staker })
    } else {
        match spec_decimal_sub(index, staker.reward_index) {
            None => None,
            Some(distance) => match spec_mul_floor(staker.stake_amount, distance) {
                None => None,
                Some(earned) => if staker.pending_reward + earned > u128::MAX {
                    None
                } else {
                    Some(
                        StakerInfoView {
                            reward_index: index,
                            pending_reward: (staker.pending_reward + earned) as u128,
                            ..staker
                        },
                    )
                },
            },
        }
    }
}

/// The referral bonus for a stake of `staked_amount`: `referral_rate`
/// percent of it, rounded down. `None` when the product overflows.
pub open spec fn spec_referral_bonus(staked_amount: u128, referral_rate: u64) -> Option<u128> {
    if staked_amount * referral_rate > u128::MAX {
        None
    } else {
        Some(((staked_amount * referral_rate) / 100) as u128)
    }
}

/// The referrer's record after a bonus: the bonus is added, the count
/// grows by one when the staker had no referrer before, and the time of
/// the first bonus is kept.
pub open spec fn spec_credit_referral(
    first_referral: bool,
    referrer: StakerInfoView,
    bonus: u128,
    timestamp: u64,
) -> Option<StakerInfoView> {
    if referrer.referral_reward + bonus > u128::MAX || (first_referral && referrer.referral_count
        == u64::MAX) {
        None
    } else {
        Some(
            StakerInfoView {
                referral_reward: (referrer.referral_reward + bonus) as u128,
                referral_count: if first_referral {
                    (referrer.referral_count + 1) as u64
                } else {
                    referrer.referral_count
                },
                referral_timestamp: if referrer.referral_timestamp == 0 {
                    timestamp
                } else {
                    referrer.referral_timestamp
                },
                ..referrer
            },
        )
    }
}

/// What [`compute_referral_reward`] makes of the referrer's record.
pub open spec fn spec_compute_referral_reward(
    staker: StakerInfoView,
    referrer: StakerInfoView,
    referral_rate: u64,
    staked_amount: u128,
    timestamp: u64,
) -> Option<StakerInfoView> {
    match spec_referral_bonus(staked_amount, referral_rate) {
        None => None,
        Some(bonus) => spec_credit_referral(staker.referral_addr.len() == 0, referrer, bonus, timestamp),
    }
}

/// Rewards released per second under `schedule`.
pub fn distribution_rate(schedule: (u64, u64, u128)) -> (r: Result<Decimal, ContractError>)
    ensures
        match r {
            Ok(rate) => spec_distribution_rate(schedule) == Some(rate),
            Err(e) => e == ContractError::OverflowError && spec_distribution_rate(schedule).is_none(),
        },
{
    if schedule.1 <= schedule.0 {
        return Ok(Decimal::zero());
    }
    let duration: u64 = schedule.1 - schedule.0;
    match Decimal::checked_from_ratio(schedule.2, duration as u128) {
        Ok(rate) => Ok(rate),
        Err(_) => Err(ContractError::OverflowError),
    }
}

/// Rewards released between the last settlement and `timestamp`.
pub fn distributed_amount(schedule: (u64, u64, u128), last_distributed: u64, timestamp: u64) -> (r: Result<
    u128,
    ContractError,
>)
    ensures
        match r {
            Ok(amount) => spec_distributed(schedule, last_distributed, timestamp) == Some(amount),
            Err(e) => e == ContractError::OverflowError && spec_distributed(
                schedule,
                last_distributed,
                timestamp,
            ).is_none(),
        },
{
    if !(schedule.0 < timestamp && schedule.1 > last_distributed) {
        return Ok(0);
    }
    let upper: u64 = if schedule.1 < timestamp {
        schedule.1
    } else {
        timestamp
    };
    let lower: u64 = if schedule.0 > last_distributed {
        schedule.0
    } else {
        last_distributed
    };
    if upper <= lower {
        return Ok(0);
    }
    let time_passed: u64 = upper - lower;
    let rate = distribution_rate(schedule)?;
    proof {
        assert(schedule.0 < schedule.1);
        lemma_rate_times_time_within_total(
            schedule.2 as int,
            schedule.1 - schedule.0,
            time_passed as int,
        );
    }
    match rate.checked_mul_floor(time_passed as u128) {
        Some(amount) => Ok(amount),
        None => Err(ContractError::OverflowError),
    }
}

/// Brings `leftover` and `reward_rate_per_token` to their values at
/// `timestamp`.
pub fn compute_state_extra(config: &Config, state: &mut StateInfo, timestamp: u64) -> (r: Result<
    (),
    ContractError,
>)
    ensures
        match r {
            Ok(_) => spec_compute_state_extra(config@, *old(state), timestamp) == Some(*final(state)),
            Err(e) => e == ContractError::OverflowError && spec_compute_state_extra(
                config@,
                *old(state),
                timestamp,
            ).is_none() && *final(state) == *old(state),
        },
        timestamp <= config.distribution_schedule.0 || timestamp >= config.distribution_schedule.1
            ==> r.is_ok(),
{
    let s = config.distribution_schedule;
    if timestamp <= s.0 {
        state.leftover = s.2;
        state.reward_rate_per_token = Decimal::zero();
        return Ok(());
    }
    if timestamp >= s.1 {
        state.leftover = 0;
        state.reward_rate_per_token = Decimal::zero();
        return Ok(());
    }
    let rate = distribution_rate(s)?;
    let time_left: u64 = s.1 - timestamp;
    proof {
        lemma_rate_times_time_within_total(s.2 as int, s.1 - s.0, time_left as int);
    }
    let leftover = match rate.checked_mul_floor(time_left as u128) {
        Some(v) => v,
        None => {
            return Err(ContractError::OverflowError);
        },
    };
    if state.total_stake_amount == 0 {
        state.leftover = leftover;
        state.reward_rate_per_token = Decimal::zero();
        return Ok(());
    }
    let denom = match checked_pow10(config.staking_token_decimals) {
        Some(v) => v,
        None => {
            return Err(ContractError::OverflowError);
        },
    };
    let per_token = match rate.checked_mul_floor(denom) {
        Some(v) => v,
        None => {
            return Err(ContractError::OverflowError);
        },
    };
    match Decimal::checked_from_ratio(per_token, state.total_stake_amount) {
        Ok(reward_rate_per_token) => {
            state.leftover = leftover;
            state.reward_rate_per_token = reward_rate_per_token;
            Ok(())
        },
        Err(_) => Err(ContractError::OverflowError),
    }
}

/// Settles the pool at `timestamp`.
pub fn compute_reward(config: &Config, state: &mut StateInfo, timestamp: u64) -> (r: Result<(), ContractError>)
    ensures
        match r {
            Ok(_) => spec_compute_reward(config@, *old(state), timestamp) == Some(*final(state)),
            Err(e) => e == ContractError::OverflowError && spec_compute_reward(
                config@,
                *old(state),
                timestamp,
            ).is_none() && *final(state) == *old(state),
        },
{
    let mut next = *state;
    compute_state_extra(config, &mut next, timestamp)?;
    if next.total_stake_amount == 0 {
        next.last_distributed = timestamp;
        *state = next;
        return Ok(());
    }
    let distributed = distributed_amount(config.distribution_schedule, state.last_distributed, timestamp)?;
    let increase = match Decimal::checked_from_ratio(distributed, next.total_stake_amount) {
        Ok(v) => v,
        Err(_) => {
            return Err(ContractError::OverflowError);
        },
    };
    match next.global_reward_index.checked_add(increase) {
        Some(index) => {
            next.last_distributed = timestamp;
            next.global_reward_index = index;
            *state = next;
            Ok(())
        },
        None => Err(ContractError::OverflowError),
    }
}

/// Settles the staker against the pool's reward index.
pub fn compute_staker_reward(state: &StateInfo, staker_info: &mut StakerInfo) -> (r: Result<(), ContractError>)
    ensures
        match r {
            Ok(_) => spec_compute_staker_reward(state.global_reward_index, old(staker_info)@) == Some(
                final(staker_info)@,
            ),
            Err(e) => e == ContractError::OverflowError && spec_compute_staker_reward(
                state.global_reward_index,
                old(staker_info)@,
            ).is_none() && final(staker_info)@ == old(staker_info)@,
        },
{
    if staker_info.stake_amount == 0 {
        staker_info.reward_index = state.global_reward_index;
        return Ok(());
    }
    let distance = match state.global_reward_index.checked_sub(staker_info.reward_index) {
        Some(v) => v,
        None => {
            return Err(ContractError::OverflowError);
        },
    };
    let earned = match distance.checked_mul_floor(staker_info.stake_amount) {
        Some(v) => v,
        None => {
            return Err(ContractError::OverflowError);
        },
    };
    let pending = match staker_info.pending_reward.checked_add(earned) {
        Some(v) => v,
        None => {
            return Err(ContractError::OverflowError);
        },
    };
    staker_info.reward_index = state.global_reward_index;
    staker_info.pending_reward = pending;
    Ok(())
}

/// Adds `amount` to the staker's stake and to the pool's total.
pub fn increase_stake_amount(state: &mut StateInfo, staker_info: &mut StakerInfo, amount: u128) -> (r: Result<
    (),
    ContractError,
>)
    ensures
        r.is_ok() <==> old(state).total_stake_amount + amount <= u128::MAX && old(staker_info).stake_amount
            + amount <= u128::MAX,
        match r {
            Ok(_) => *final(state) == (StateInfo {
                total_stake_amount: (old(state).total_stake_amount + amount) as u128,
                ..*old(state)
            }) && final(staker_info)@ == (StakerInfoView {
                stake_amount: (old(staker_info).stake_amount + amount) as u128,
                ..old(staker_info)@
            }),
            Err(e) => e == ContractError::OverflowError && *final(state) == *old(state) && final(staker_info)@
                == old(staker_info)@,
        },
{
    let total = match state.total_stake_amount.checked_add(amount) {
        Some(v) => v,
        None => {
            return Err(ContractError::OverflowError);
        },
    };
    let stake = match staker_info.stake_amount.checked_add(amount) {
        Some(v) => v,
        None => {
            return Err(ContractError::OverflowError);
        },
    };
    state.total_stake_amount = total;
    staker_info.stake_amount = stake;
    Ok(())
}

/// Takes `amount` from the staker's stake and from the pool's total.
pub fn decrease_stake_amount(state: &mut StateInfo, staker_info: &mut StakerInfo, amount: u128) -> (r: Result<
    (),
    ContractError,
>)
    ensures
        r.is_ok() <==> amount <= old(state).total_stake_amount && amount <= old(staker_info).stake_amount,
        match r {
            Ok(_) => *final(state) == (StateInfo {
                total_stake_amount: (old(state).total_stake_amount - amount) as u128,
                ..*old(state)
            }) && final(staker_info)@ == (StakerInfoView {
                stake_amount: (old(staker_info).stake_amount - amount) as u128,
                ..old(staker_info)@
            }),
            Err(e) => e == ContractError::OverflowError && *final(state) == *old(state) && final(staker_info)@
                == old(staker_info)@,
        },
{
    let stake = match staker_info.stake_amount.checked_sub(amount) {
        Some(v) => v,
        None => {
            return Err(ContractError::OverflowError);
        },
    };
    let total = match state.total_stake_amount.checked_sub(amount) {
        Some(v) => v,
        None => {
            return Err(ContractError::OverflowError);
        },
    };
    staker_info.stake_amount = stake;
    state.total_stake_amount = total;
    Ok(())
}

/// Credits the referrer with the bonus for a stake of `staked_amount`.
pub fn compute_referral_reward(
    staker_info: &StakerInfo,
    referral_info: &mut StakerInfo,
    referral_rate: u64,
    staked_amount: u128,
    timestamp: u64,
) -> (r: Result<(), ContractError>)
    ensures
        match r {
            Ok(_) => spec_compute_referral_reward(
                staker_info@,
                old(referral_info)@,
                referral_rate,
                staked_amount,
                timestamp,
            ) == Some(final(referral_info)@),
            Err(e) => e == ContractError::OverflowError && spec_compute_referral_reward(
                staker_info@,
                old(referral_info)@,
                referral_rate,
                staked_amount,
                timestamp,
            ).is_none() && final(referral_info)@ == old(referral_info)@,
        },
{
    let product = match staked_amount.checked_mul(referral_rate as u128) {
        Some(v) => v,
        None => {
            return Err(ContractError::OverflowError);
        },
    };
    let bonus: u128 = product / 100;
    let reward = match referral_info.referral_reward.checked_add(bonus) {
        Some(v) => v,
        None => {
            return Err(ContractError::OverflowError);
        },
    };
    let first_referral = staker_info.referral_addr.as_str().is_empty();
    let count = if first_referral {
        match referral_info.referral_count.checked_add(1) {
            Some(v) => v,
            None => {
                return Err(ContractError::OverflowError);
            },
        }
    } else {
        referral_info.referral_count
    };
    referral_info.referral_reward = reward;
    referral_info.referral_count = count;
    if referral_info.referral_timestamp == 0 {
        referral_info.referral_timestamp = timestamp;
    }
    Ok(())
}

/// The instruction that moves `amount` of the token at
/// `token_contract_address` to `recipient`.
pub fn build_send_cw20_token_msg(recipient: String, token_contract_address: String, amount: u128) -> (r:
    TransferMsg)
    ensures
        r.contract_addr@ == token_contract_address@,
        r.recipient@ == recipient@,
        r.amount == amount,
{
    TransferMsg { contract_addr: token_contract_address, recipient, amount }
}

/// What a state-changing operation is to do: the store and the response it
/// leaves on success, or the error it reports.
pub type Outcome = Result<(StoreView, ResponseView), ContractError>;

/// Whether a run that turned `before` into `after` and returned `r` did what
/// `expected` says. A failed run changes nothing.
pub open spec fn outcome_is(
    expected: Outcome,
    before: StoreView,
    after: StoreView,
    r: Result<Response, ContractError>,
) -> bool {
    match expected {
        Ok((store, response)) => r matches Ok(given) && given@ == response && after == store,
        Err(e) => r matches Err(given) && given == e && after == before,
    }
}

/// The view of an optional address.
pub open spec fn opt_view(address: Option<String>) -> Option<Seq<char>> {
    match address {
        Some(a) => Some(a@),
        None => None,
    }
}

/// The store a new pool starts with: no schedule, no stake, an index of
/// zero, settled at `now`.
pub open spec fn spec_instantiate(now: u64, msg: InstantiateMsg) -> StoreView {
    StoreView {
        config: ConfigView {
            owner: msg.owner@,
            reward_token: msg.reward_token@,
            staking_token: msg.staking_token@,
            staking_token_decimals: msg.staking_token_decimals,
            distribution_schedule: (0, 0, 0),
            referral_rate: msg.referral_rate,
            referral_lock_days: msg.referral_lock_days,
        },
        state: StateInfo {
            last_distributed: now,
            total_stake_amount: 0,
            global_reward_index: Decimal { atomics: 0 },
            leftover: 0,
            reward_rate_per_token: Decimal { atomics: 0 },
        },
        stakers: Map::empty(),
    }
}

/// The referrer a stake is credited to: the one the staker already has,
/// else the one supplied.
pub open spec fn spec_real_referral(staker: StakerInfoView, referral: Seq<char>) -> Seq<char> {
    if staker.referral_addr.len() != 0 {
        staker.referral_addr
    } else {
        referral
    }
}

/// Staking `amount` for `sender` at `now`, naming `referral` as referrer.
pub open spec fn spec_stake(
    pre: StoreView,
    now: u64,
    sender: Seq<char>,
    amount: u128,
    referral: Seq<char>,
) -> Outcome {
    let staker = staker_or_default(pre.stakers, sender);
    if referral.len() == 0 || referral == sender {
        Err(ContractError::InvalidInput)
    } else {
        match spec_compute_reward(pre.config, pre.state, now) {
            None => Err(ContractError::OverflowError),
            Some(state) => match spec_compute_staker_reward(state.global_reward_index, staker) {
                None => Err(ContractError::OverflowError),
                Some(settled) => if state.total_stake_amount + amount > u128::MAX || settled.stake_amount
                    + amount > u128::MAX {
                    Err(ContractError::OverflowError)
                } else {
                    let real_referral = spec_real_referral(staker, referral);
                    match spec_compute_referral_reward(
                        staker,
                        staker_or_default(pre.stakers, real_referral),
                        pre.config.referral_rate,
                        amount,
                        now,
                    ) {
                        None => Err(ContractError::OverflowError),
                        Some(referrer) => {
                            let staked = StakerInfoView {
                                stake_amount: (settled.stake_amount + amount) as u128,
                                referral_addr: real_referral,
                                ..settled
                            };
                            Ok(
                                (
                                    StoreView {
                                        config: pre.config,
                                        state: StateInfo {
                                            total_stake_amount: (state.total_stake_amount + amount) as u128,
                                            ..state
                                        },
                                        stakers: pre.stakers.insert(sender, staked).insert(
                                            real_referral,
                                            referrer,
                                        ),
                                    },
                                    ResponseView::Stake { amount, total_staked: staked.stake_amount },
                                ),
                            )
                        },
                    }
                },
            },
        }
    }
}

/// Withdrawing `amount` of `sender`'s stake at `now`, together with the
/// pending reward when `withdraw_pending_reward` is `Some(true)`.
pub open spec fn spec_unstake(
    pre: StoreView,
    now: u64,
    sender: Seq<char>,
    amount: u128,
    withdraw_pending_reward: Option<bool>,
) -> Outcome {
    let staker = staker_or_default(pre.stakers, sender);
    if staker.stake_amount < amount {
        Err(ContractError::InsufficientFunds)
    } else {
        match spec_compute_reward(pre.config, pre.state, now) {
            None => Err(ContractError::OverflowError),
            Some(state) => match spec_compute_staker_reward(state.global_reward_index, staker) {
                None => Err(ContractError::OverflowError),
                Some(settled) => if amount > state.total_stake_amount {
                    Err(ContractError::OverflowError)
                } else {
                    let withdraw = withdraw_pending_reward == Some(true);
                    let claimed_rewards = if withdraw {
                        settled.pending_reward
                    } else {
                        0
                    };
                    let left = StakerInfoView {
                        stake_amount: (settled.stake_amount - amount) as u128,
                        pending_reward: if withdraw {
                            0
                        } else {
                            settled.pending_reward
                        },
                        ..settled
                    };
                    Ok(
                        (
                            StoreView {
                                config: pre.config,
                                state: StateInfo {
                                    total_stake_amount: (state.total_stake_amount - amount) as u128,
                                    ..state
                                },
                                stakers: pre.stakers.insert(sender, left),
                            },
                            ResponseView::Unstake {
                                reward_payout: if claimed_rewards > 0 {
                                    Some(
                                        TransferMsgView {
                                            contract_addr: pre.config.reward_token,
                                            recipient: sender,
                                            amount: claimed_rewards,
                                        },
                                    )
                                } else {
                                    None
                                },
                                stake_payout: TransferMsgView {
                                    contract_addr: pre.config.staking_token,
                                    recipient: sender,
                                    amount,
                                },
                                amount,
                                total_staked: left.stake_amount,
                                claimed_rewards,
                            },
                        ),
                    )
                },
            },
        }
    }
}

/// Claiming `sender`'s pending reward at `now`.
pub open spec fn spec_try_claim(pre: StoreView, now: u64, sender: Seq<char>) -> Outcome {
    match spec_compute_reward(pre.config, pre.state, now) {
        None => Err(ContractError::OverflowError),
        Some(state) => match spec_compute_staker_reward(
            state.global_reward_index,
            staker_or_default(pre.stakers, sender),
        ) {
            None => Err(ContractError::OverflowError),
            Some(settled) => if settled.pending_reward == 0 {
                Err(ContractError::NotEnoughReward)
            } else {
                Ok(
                    (
                        StoreView {
                            config: pre.config,
                            state,
                            stakers: pre.stakers.insert(
                                sender,
                                StakerInfoView { pending_reward: 0, ..settled },
                            ),
                        },
                        ResponseView::Claim {
                            payout: TransferMsgView {
                                contract_addr: pre.config.reward_token,
                                recipient: sender,
                                amount: settled.pending_reward,
                            },
                            claimed_rewards: settled.pending_reward,
                        },
                    ),
                )
            },
        },
    }
}

/// Whether a referrer whose first bonus came at `referral_timestamp` must
/// still wait at `now`.
pub open spec fn spec_referral_locked(now: u64, referral_timestamp: u64, referral_lock_days: u64) -> bool {
    now < referral_timestamp + referral_lock_days * ONE_DAY
}

/// Claiming `sender`'s referral bonus at `now`.
pub open spec fn spec_try_claim_referral_reward(pre: StoreView, now: u64, sender: Seq<char>) -> Outcome {
    let staker = staker_or_default(pre.stakers, sender);
    if spec_referral_locked(now, staker.referral_timestamp, pre.config.referral_lock_days) {
        Err(ContractError::StillInLock)
    } else if staker.referral_reward == 0 {
        Err(ContractError::NotEnoughReward)
    } else {
        Ok(
            (
                StoreView {
                    stakers: pre.stakers.insert(sender, StakerInfoView { referral_reward: 0, ..staker }),
                    ..pre
                },
                ResponseView::ClaimReferralReward {
                    payout: TransferMsgView {
                        contract_addr: pre.config.reward_token,
                        recipient: sender,
                        amount: staker.referral_reward,
                    },
                    claimed_rewards: staker.referral_reward,
                },
            ),
        )
    }
}

/// Changing the configuration on behalf of `sender`; a field given as
/// `None` keeps its value.
pub open spec fn spec_update_config(
    pre: StoreView,
    sender: Seq<char>,
    owner: Option<Seq<char>>,
    referral_rate: Option<u64>,
    referral_lock_days: Option<u64>,
) -> Outcome {
    if sender != pre.config.owner {
        Err(ContractError::Unauthorized)
    } else {
        Ok(
            (
                StoreView {
                    config: ConfigView {
                        owner: match owner {
                            Some(o) => o,
                            None => pre.config.owner,
                        },
                        referral_rate: match referral_rate {
                            Some(v) => v,
                            None => pre.config.referral_rate,
                        },
                        referral_lock_days: match referral_lock_days {
                            Some(v) => v,
                            None => pre.config.referral_lock_days,
                        },
                        ..pre.config
                    },
                    ..pre
                },
                ResponseView::UpdateConfig,
            ),
        )
    }
}

/// Replacing the schedule at `now`, paid for by `amount_sent` and by what
/// the old schedule had left.
pub open spec fn spec_update_reward_schedule(
    pre: StoreView,
    now: u64,
    period_start: u64,
    period_finish: u64,
    amount_to_distribute: u128,
    amount_sent: u128,
) -> Outcome {
    match spec_compute_reward(pre.config, pre.state, now) {
        None => Err(ContractError::OverflowError),
        Some(state) => if period_start > period_finish {
            Err(ContractError::InvalidInput)
        } else if amount_sent + state.leftover < amount_to_distribute {
            Err(ContractError::InsufficientFunds)
        } else {
            Ok(
                (
                    StoreView {
                        config: ConfigView {
                            distribution_schedule: (period_start, period_finish, amount_to_distribute),
                            ..pre.config
                        },
                        state,
                        stakers: pre.stakers,
                    },
                    ResponseView::UpdateRewardSchedule {
                        to_distribute: amount_to_distribute,
                        total_stake_amount: state.total_stake_amount,
                    },
                ),
            )
        },
    }
}

/// Acting on a transfer notice that the token contract `info_sender` sent.
pub open spec fn spec_receive_cw20(pre: StoreView, now: u64, info_sender: Seq<char>, cw20_msg: Cw20ReceiveMsg) -> Outcome {
    match cw20_msg.msg {
        Some(Cw20HookMsg::Stake { referral_addr }) => if pre.config.staking_token != info_sender {
            Err(ContractError::Unauthorized)
        } else {
            spec_stake(pre, now, cw20_msg.sender@, cw20_msg.amount, referral_addr@)
        },
        Some(
            Cw20HookMsg::UpdateRewardSchedule { period_start, period_finish, amount },
        ) => if pre.config.reward_token != info_sender {
            Err(ContractError::Unauthorized)
        } else if pre.config.owner != cw20_msg.sender@ {
            Err(ContractError::Unauthorized)
        } else {
            spec_update_reward_schedule(pre, now, period_start, period_finish, amount, cw20_msg.amount)
        },
        None => Err(ContractError::InvalidInput),
    }
}

/// Carrying out `msg` for `info_sender` at `now`.
pub open spec fn spec_execute(pre: StoreView, now: u64, info_sender: Seq<char>, msg: ExecuteMsg) -> Outcome {
    match msg {
        ExecuteMsg::UpdateConfig { owner, referral_rate, referral_lock_days } => spec_update_config(
            pre,
            info_sender,
            opt_view(owner),
            referral_rate,
            referral_lock_days,
        ),
        ExecuteMsg::Receive(cw20_msg) => spec_receive_cw20(pre, now, info_sender, cw20_msg),
        ExecuteMsg::Unstake { amount, withdraw_pending_reward } => spec_unstake(
            pre,
            now,
            info_sender,
            amount,
            withdraw_pending_reward,
        ),
        ExecuteMsg::Claim {  } => spec_try_claim(pre, now, info_sender),
        ExecuteMsg::ClaimReferralReward {  } => spec_try_claim_referral_reward(pre, now, info_sender),
    }
}

/// Creates the pool.
pub fn instantiate(now: u64, msg: InstantiateMsg) -> (r: Store)
    ensures
        r@ == spec_instantiate(now, msg),
{
    Store {
        config: Config {
            owner: msg.owner,
            reward_token: msg.reward_token,
            staking_token: msg.staking_token,
            staking_token_decimals: msg.staking_token_decimals,
            distribution_schedule: (0, 0, 0),
            referral_rate: msg.referral_rate,
            referral_lock_days: msg.referral_lock_days,
        },
        state: StateInfo {
            last_distributed: now,
            total_stake_amount: 0,
            global_reward_index: Decimal::zero(),
            leftover: 0,
            reward_rate_per_token: Decimal::zero(),
        },
        stakers: AddressBook::new(),
    }
}

/// Carries out a state-changing request of `info_sender` at `now`.
pub fn execute(store: &mut Store, now: u64, info_sender: String, msg: ExecuteMsg) -> (r: Result<
    Response,
    ContractError,
>)
    ensures
        outcome_is(spec_execute(old(store)@, now, info_sender@, msg), old(store)@, final(store)@, r),
{
    match msg {
        ExecuteMsg::UpdateConfig { owner, referral_rate, referral_lock_days } => update_config(
            store,
            info_sender,
            owner,
            referral_rate,
            referral_lock_days,
        ),
        ExecuteMsg::Receive(cw20_msg) => receive_cw20(store, now, info_sender, cw20_msg),
        ExecuteMsg::Unstake { amount, withdraw_pending_reward } => unstake(
            store,
            now,
            info_sender,
            amount,
            withdraw_pending_reward,
        ),
        ExecuteMsg::Claim {  } => try_claim(store, now, info_sender),
        ExecuteMsg::ClaimReferralReward {  } => try_claim_referral_reward(store, now, info_sender),
    }
}

/// Always refuses: the pool has no migration.
pub fn migrate(msg: MigrateMsg) -> (r: Result<Response, ContractError>)
    ensures
        r matches Err(e) && e == ContractError::Unimplemented,
{
    Err(ContractError::Unimplemented)
}

/// Acts on a transfer notice from the token contract `info_sender`: a stake
/// must come from the staking token, a new schedule from the reward token
/// on the owner's behalf.
pub fn receive_cw20(store: &mut Store, now: u64, info_sender: String, cw20_msg: Cw20ReceiveMsg) -> (r: Result<
    Response,
    ContractError,
>)
    ensures
        outcome_is(spec_receive_cw20(old(store)@, now, info_sender@, cw20_msg), old(store)@, final(store)@, r),
{
    let Cw20ReceiveMsg { sender, amount, msg } = cw20_msg;
    match msg {
        Some(Cw20HookMsg::Stake { referral_addr }) => {
            if store.config.staking_token != info_sender {
                return Err(ContractError::Unauthorized);
            }
            stake(store, now, sender, amount, referral_addr)
        },
        Some(Cw20HookMsg::UpdateRewardSchedule { period_start, period_finish, amount: to_distribute }) => {
            if store.config.reward_token != info_sender {
                return Err(ContractError::Unauthorized);
            }
            if store.config.owner != sender {
                return Err(ContractError::Unauthorized);
            }
            update_reward_schedule(store, now, period_start, period_finish, to_distribute, amount)
        },
        None => Err(ContractError::InvalidInput),
    }
}

/// Stakes `amount` for `sender_addr` and credits the referral bonus. The
/// referrer named on the first stake stays the staker's referrer.
pub fn stake(store: &mut Store, now: u64, sender_addr: String, amount: u128, referral_addr: String) -> (r: Result<
    Response,
    ContractError,
>)
    ensures
        outcome_is(
            spec_stake(old(store)@, now, sender_addr@, amount, referral_addr@),
            old(store)@,
            final(store)@,
            r,
        ),
{
    if referral_addr.as_str().is_empty() || referral_addr == sender_addr {
        return Err(ContractError::InvalidInput);
    }
    let mut state = store.state;
    let mut staker_info = store.staker(&sender_addr);
    compute_reward(&store.config, &mut state, now)?;
    compute_staker_reward(&state, &mut staker_info)?;
    increase_stake_amount(&mut state, &mut staker_info, amount)?;
    let real_referral_addr = if staker_info.referral_addr.as_str().is_empty() {
        referral_addr
    } else {
        staker_info.referral_addr.clone()
    };
    let mut referral_info = store.staker(&real_referral_addr);
    compute_referral_reward(&staker_info, &mut referral_info, store.config.referral_rate, amount, now)?;
    staker_info.referral_addr = real_referral_addr.clone();
    let total_staked = staker_info.stake_amount;
    store.state = state;
    store.stakers.insert(sender_addr, staker_info);
    store.stakers.insert(real_referral_addr, referral_info);
    Ok(Response::Stake { amount, total_staked })
}

/// Changes owner, referral rate or referral lock; only the owner may.
pub fn update_config(
    store: &mut Store,
    info_sender: String,
    owner: Option<String>,
    referral_rate: Option<u64>,
    referral_lock_days: Option<u64>,
) -> (r: Result<Response, ContractError>)
    ensures
        outcome_is(
            spec_update_config(old(store)@, info_sender@, opt_view(owner), referral_rate, referral_lock_days),
            old(store)@,
            final(store)@,
            r,
        ),
{
    if info_sender != store.config.owner {
        return Err(ContractError::Unauthorized);
    }
    if let Some(owner) = owner {
        store.config.owner = owner;
    }
    if let Some(referral_rate) = referral_rate {
        store.config.referral_rate = referral_rate;
    }
    if let Some(referral_lock_days) = referral_lock_days {
        store.config.referral_lock_days = referral_lock_days;
    }
    Ok(Response::UpdateConfig)
}

/// Settles the pool, then replaces the schedule. The new amount must be
/// covered by what was sent plus what the old schedule had left.
pub fn update_reward_schedule(
    store: &mut Store,
    now: u64,
    period_start: u64,
    period_finish: u64,
    amount_to_distribute: u128,
    amount_sent: u128,
) -> (r: Result<Response, ContractError>)
    ensures
        outcome_is(
            spec_update_reward_schedule(
                old(store)@,
                now,
                period_start,
                period_finish,
                amount_to_distribute,
                amount_sent,
            ),
            old(store)@,
            final(store)@,
            r,
        ),
{
    let mut state = store.state;
    compute_reward(&store.config, &mut state, now)?;
    if period_start > period_finish {
        return Err(ContractError::InvalidInput);
    }
    let covered = match amount_sent.checked_add(state.leftover) {
        Some(funds) => funds >= amount_to_distribute,
        None => true,
    };
    if !covered {
        return Err(ContractError::InsufficientFunds);
    }
    store.config.distribution_schedule = (period_start, period_finish, amount_to_distribute);
    store.state = state;
    Ok(
        Response::UpdateRewardSchedule {
            to_distribute: amount_to_distribute,
            total_stake_amount: state.total_stake_amount,
        },
    )
}

/// Withdraws `amount` of the sender's stake, and the pending reward with
/// it when asked to.
pub fn unstake(
    store: &mut Store,
    now: u64,
    sender_addr: String,
    amount: u128,
    withdraw_pending_reward: Option<bool>,
) -> (r: Result<Response, ContractError>)
    ensures
        outcome_is(
            spec_unstake(old(store)@, now, sender_addr@, amount, withdraw_pending_reward),
            old(store)@,
            final(store)@,
            r,
        ),
{
    let mut state = store.state;
    let mut staker_info = store.staker(&sender_addr);
    if staker_info.stake_amount < amount {
        return Err(ContractError::InsufficientFunds);
    }
    compute_reward(&store.config, &mut state, now)?;
    compute_staker_reward(&state, &mut staker_info)?;
    decrease_stake_amount(&mut state, &mut staker_info, amount)?;
    let mut reward_payout: Option<TransferMsg> = None;
    let mut claimed_rewards: u128 = 0;
    let withdraw = match withdraw_pending_reward {
        Some(flag) => flag,
        None => false,
    };
    if withdraw {
        claimed_rewards = staker_info.pending_reward;
        if claimed_rewards > 0 {
            staker_info.pending_reward = 0;
            reward_payout = Some(
                build_send_cw20_token_msg(
                    sender_addr.clone(),
                    store.config.reward_token.clone(),
                    claimed_rewards,
                ),
            );
        }
    }
    let total_staked = staker_info.stake_amount;
    let stake_payout = build_send_cw20_token_msg(
        sender_addr.clone(),
        store.config.staking_token.clone(),
        amount,
    );
    store.state = state;
    store.stakers.insert(sender_addr, staker_info);
    Ok(Response::Unstake { reward_payout, stake_payout, amount, total_staked, claimed_rewards })
}

/// Pays out the sender's pending reward; refused when there is none.
pub fn try_claim(store: &mut Store, now: u64, sender_addr: String) -> (r: Result<Response, ContractError>)
    ensures
        outcome_is(spec_try_claim(old(store)@, now, sender_addr@), old(store)@, final(store)@, r),
{
    let mut state = store.state;
    let mut staker_info = store.staker(&sender_addr);
    compute_reward(&store.config, &mut state, now)?;
    compute_staker_reward(&state, &mut staker_info)?;
    let accrued_rewards = staker_info.pending_reward;
    if accrued_rewards == 0 {
        return Err(ContractError::NotEnoughReward);
    }
    staker_info.pending_reward = 0;
    let payout = build_send_cw20_token_msg(
        sender_addr.clone(),
        store.config.reward_token.clone(),
        accrued_rewards,
    );
    store.state = state;
    store.stakers.insert(sender_addr, staker_info);
    Ok(Response::Claim { payout, claimed_rewards: accrued_rewards })
}

/// Whether a referrer whose first bonus came at `referral_timestamp` must
/// still wait at `now`.
pub fn referral_locked(now: u64, referral_timestamp: u64, referral_lock_days: u64) -> (r: bool)
    ensures
        r == spec_referral_locked(now, referral_timestamp, referral_lock_days),
{
    let days: u128 = referral_lock_days as u128;
    let day: u128 = ONE_DAY as u128;
    assert(days * day <= 0xffff_ffff_ffff_ffff * 86400) by (nonlinear_arith)
        requires
            days <= 0xffff_ffff_ffff_ffff,
            day == 86400,
    ;
    let unlock: u128 = referral_timestamp as u128 + days * day;
    (now as u128) < unlock
}

/// Pays out the sender's referral bonus once the referral lock has
/// passed; refused when there is none.
pub fn try_claim_referral_reward(store: &mut Store, now: u64, sender_addr: String) -> (r: Result<
    Response,
    ContractError,
>)
    ensures
        outcome_is(
            spec_try_claim_referral_reward(old(store)@, now, sender_addr@),
            old(store)@,
            final(store)@,
            r,
        ),
{
    let mut staker_info = store.staker(&sender_addr);
    if referral_locked(now, staker_info.referral_timestamp, store.config.referral_lock_days) {
        return Err(ContractError::StillInLock);
    }
    if staker_info.referral_reward == 0 {
        return Err(ContractError::NotEnoughReward);
    }
    let referral_reward = staker_info.referral_reward;
    staker_info.referral_reward = 0;
    let payout = build_send_cw20_token_msg(
        sender_addr.clone(),
        store.config.reward_token.clone(),
        referral_reward,
    );
    store.stakers.insert(sender_addr, staker_info);
    Ok(Response::ClaimReferralReward { payout, claimed_rewards: referral_reward })
}

/// The time a query looks at: `timestamp` when it lies ahead of `now`,
/// else `now`.
pub open spec fn spec_projection_time(now: u64, timestamp: Option<u64>) -> u64 {
    match timestamp {
        Some(t) => if t > now {
            t
        } else {
            now
        },
        None => now,
    }
}

/// The configuration as a query reports it.
pub open spec fn spec_query_config(store: StoreView) -> ConfigResponseView {
    ConfigResponseView {
        owner: store.config.owner,
        reward_token: store.config.reward_token,
        staking_token: store.config.staking_token,
        distribution_schedule: store.config.distribution_schedule,
        referral_rate: store.config.referral_rate,
        referral_lock_days: store.config.referral_lock_days,
    }
}

/// The pool state settled at the projection time, as a query reports it.
pub open spec fn spec_query_state(store: StoreView, now: u64, timestamp: Option<u64>) -> Result<
    StateResponse,
    ContractError,
> {
    match spec_compute_reward(store.config, store.state, spec_projection_time(now, timestamp)) {
        None => Err(ContractError::OverflowError),
        Some(state) => Ok(
            StateResponse {
                last_distributed: state.last_distributed,
                total_stake_amount: state.total_stake_amount,
                global_reward_index: state.global_reward_index,
                leftover: state.leftover,
                reward_rate_per_token: state.reward_rate_per_token,
            },
        ),
    }
}

/// A staker's record settled at the projection time, as a query reports it.
pub open spec fn spec_query_staker_info(
    store: StoreView,
    now: u64,
    staker: Seq<char>,
    timestamp: Option<u64>,
) -> Result<StakerInfoResponseView, ContractError> {
    match spec_compute_reward(store.config, store.state, spec_projection_time(now, timestamp)) {
        None => Err(ContractError::OverflowError),
        Some(state) => match spec_compute_staker_reward(
            state.global_reward_index,
            staker_or_default(store.stakers, staker),
        ) {
            None => Err(ContractError::OverflowError),
            Some(info) => Ok(
                StakerInfoResponseView {
                    staker,
                    stake_amount: info.stake_amount,
                    reward_index: info.reward_index,
                    pending_reward: info.pending_reward,
                    referral_addr: info.referral_addr,
                    referral_reward: info.referral_reward,
                    referral_count: info.referral_count,
                    referral_timestamp: info.referral_timestamp,
                },
            ),
        },
    }
}

/// The answer to `msg` at `now`.
pub open spec fn spec_query(store: StoreView, now: u64, msg: QueryMsg) -> Result<QueryResponseView, ContractError> {
    match msg {
        QueryMsg::Config {  } => Ok(QueryResponseView::Config(spec_query_config(store))),
        QueryMsg::StateInfo { timestamp } => match spec_query_state(store, now, timestamp) {
            Ok(state) => Ok(QueryResponseView::StateInfo(state)),
            Err(e) => Err(e),
        },
        QueryMsg::StakerInfo { staker, timestamp } => match spec_query_staker_info(
            store,
            now,
            staker@,
            timestamp,
        ) {
            Ok(info) => Ok(QueryResponseView::StakerInfo(info)),
            Err(e) => Err(e),
        },
        QueryMsg::Timestamp {  } => Ok(QueryResponseView::Timestamp(now)),
    }
}

/// Whether the answer `r` is the one `expected`.
pub open spec fn answer_is(expected: Result<QueryResponseView, ContractError>, r: Result<QueryResponse, ContractError>) -> bool {
    match expected {
        Ok(response) => r matches Ok(given) && given@ == response,
        Err(e) => r matches Err(given) && given == e,
    }
}

/// Answers a read-only request; the store stays as it is.
pub fn query(store: &Store, now: u64, msg: QueryMsg) -> (r: Result<QueryResponse, ContractError>)
    ensures
        answer_is(spec_query(store@, now, msg), r),
{
    match msg {
        QueryMsg::Config {  } => Ok(QueryResponse::Config(query_config(store))),
        QueryMsg::StateInfo { timestamp } => match query_state(store, now, timestamp) {
            Ok(state) => Ok(QueryResponse::StateInfo(state)),
            Err(e) => Err(e),
        },
        QueryMsg::StakerInfo { staker, timestamp } => match query_staker_info(store, now, staker, timestamp) {
            Ok(info) => Ok(QueryResponse::StakerInfo(info)),
            Err(e) => Err(e),
        },
        QueryMsg::Timestamp {  } => Ok(QueryResponse::Timestamp(query_timestamp(now))),
    }
}

/// Reports the configuration.
pub fn query_config(store: &Store) -> (r: ConfigResponse)
    ensures
        r@ == spec_query_config(store@),
{
    ConfigResponse {
        owner: store.config.owner.clone(),
        reward_token: store.config.reward_token.clone(),
        staking_token: store.config.staking_token.clone(),
        distribution_schedule: store.config.distribution_schedule,
        referral_rate: store.config.referral_rate,
        referral_lock_days: store.config.referral_lock_days,
    }
}

/// The time a query looks at.
pub fn projection_time(now: u64, timestamp: Option<u64>) -> (r: u64)
    ensures
        r == spec_projection_time(now, timestamp),
{
    match timestamp {
        Some(t) => if t > now {
            t
        } else {
            now
        },
        None => now,
    }
}

/// Reports the pool state as it would stand after a settlement at the
/// projection time. Before the schedule starts, and without stake outside
/// the schedule window, the answer is never an error.
pub fn query_state(store: &Store, now: u64, timestamp: Option<u64>) -> (r: Result<StateResponse, ContractError>)
    ensures
        r == spec_query_state(store@, now, timestamp),
        spec_projection_time(now, timestamp) <= store.config.distribution_schedule.0 ==> r.is_ok(),
        store.state.total_stake_amount == 0 && spec_projection_time(now, timestamp)
            >= store.config.distribution_schedule.1 ==> r.is_ok(),
{
    let mut state = store.state;
    let at = projection_time(now, timestamp);
    proof {
        lemma_settlement_succeeds_outside_schedule(store.config@, store.state, at);
    }
    compute_reward(&store.config, &mut state, at)?;
    Ok(
        StateResponse {
            last_distributed: state.last_distributed,
            total_stake_amount: state.total_stake_amount,
            global_reward_index: state.global_reward_index,
            leftover: state.leftover,
            reward_rate_per_token: state.reward_rate_per_token,
        },
    )
}

/// Reports a staker's record as it would stand after a settlement at the
/// projection time.
pub fn query_staker_info(store: &Store, now: u64, staker: String, timestamp: Option<u64>) -> (r: Result<
    StakerInfoResponse,
    ContractError,
>)
    ensures
        match r {
            Ok(info) => spec_query_staker_info(store@, now, staker@, timestamp) == Ok::<
                StakerInfoResponseView,
                ContractError,
            >(info@),
            Err(e) => spec_query_staker_info(store@, now, staker@, timestamp) == Err::<
                StakerInfoResponseView,
                ContractError,
            >(e),
        },
{
    let mut state = store.state;
    let mut staker_info = store.staker(&staker);
    compute_reward(&store.config, &mut state, projection_time(now, timestamp))?;
    compute_staker_reward(&state, &mut staker_info)?;
    Ok(
        StakerInfoResponse {
            staker,
            stake_amount: staker_info.stake_amount,
            reward_index: staker_info.reward_index,
            pending_reward: staker_info.pending_reward,
            referral_addr: staker_info.referral_addr,
            referral_reward: staker_info.referral_reward,
            referral_count: staker_info.referral_count,
            referral_timestamp: staker_info.referral_timestamp,
        },
    )
}

/// Reports the current time.
pub fn query_timestamp(now: u64) -> (r: u64)
    ensures
        r == now,
{
    now
}

/// A settlement cannot overflow before the schedule starts, nor without
/// stake once the schedule is over.
pub proof fn lemma_settlement_succeeds_outside_schedule(config: ConfigView, state: StateInfo, timestamp: u64)
    ensures
        timestamp <= config.distribution_schedule.0 ==> spec_compute_reward(config, state, timestamp).is_some(),
        state.total_stake_amount == 0 && timestamp >= config.distribution_schedule.1 ==> spec_compute_reward(
            config,
            state,
            timestamp,
        ).is_some(),
{
    let s = config.distribution_schedule;
    if timestamp <= s.0 && state.total_stake_amount != 0 {
        assert(spec_time_passed(s, state.last_distributed, timestamp) == 0);
        lemma_zero_ratio(state.total_stake_amount);
    }
}

/// Nothing over something is the decimal zero.
pub proof fn lemma_zero_ratio(denominator: u128)
    requires
        denominator != 0,
    ensures
        spec_from_ratio(0, denominator) == Ok::<Decimal, MathError>(Decimal { atomics: 0 }),
{
    assert(ratio_floor(0, denominator as int) == 0) by {
        lemma_div_basics(denominator as int);
    }
}

} // verus!
