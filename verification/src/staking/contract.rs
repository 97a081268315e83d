//! The staking pool's operations.
//!
//! What the outside world has to answer for an operation (a balance, the
//! router's quotes, the tax due) is handed in as plain amounts, and every
//! operation is specified for whatever those amounts are. An operation
//! that fails leaves the store untouched.

use vstd::prelude::*;
use crate::book::AddressBook;
use crate::staking::asset::AssetInfo;
use crate::staking::asset::AssetInfoView;
use crate::staking::error::ContractError;
use crate::staking::msg::ConfigResponse;
use crate::staking::msg::ConfigResponseView;
use crate::staking::msg::Cw20ReceiveMsg;
use crate::staking::msg::ExecuteMsg;
use crate::staking::msg::InstantiateMsg;
use crate::staking::msg::MigrateMsg;
use crate::staking::msg::QueryMsg;
use crate::staking::msg::QueryResponse;
use crate::staking::msg::StakingList;
use crate::staking::msg::StakingListResponse;
use crate::order::key_after;
use crate::order::key_lt;
use crate::order::lemma_key_lt_transitive;
use crate::staking::msg::ReceiveMsg;
use crate::staking::msg::Response;
use crate::staking::msg::ResponseView;
use crate::staking::msg::StakedDetail;
use crate::staking::msg::StakerInfo;
use crate::staking::msg::StakerInfoView;
use crate::staking::msg::StakingResponse;
use crate::staking::msg::StakingResponseView;
use crate::staking::msg::TransferMsgView;
use crate::staking::state::staker_or_default;
use crate::staking::state::Config;
use crate::staking::state::ConfigView;
use crate::staking::state::Store;
use crate::staking::state::StoreView;
use crate::math::checked_mul_div;
use crate::math::lemma_share_within_whole;
use crate::staking::util::after_tax;
use vstd::arithmetic::div_mod::lemma_div_pos_is_pos;
use crate::staking::util::get_simulate_swap_operations;
use crate::staking::util::spec_after_tax;
use crate::staking::util::spec_simulate_swap;
use crate::staking::util::transfer_token_message;

verus! {

/// Seconds in a day.
pub const ONE_DAY: u64 = 86400;

/// Seconds in a week.
pub const ONE_WEEK: u64 = 604800;

/// Seconds in a month of thirty days.
pub const ONE_MONTH: u64 = 2592000;

/// Seconds in a year of twelve such months.
pub const ONE_YEAR: u64 = 31104000;

pub const ONE_YEAR_MONTH: u64 = 12;

pub const ONE_MONTH_DAY: u64 = 30;

pub const ONE_WEEK_DAY: u64 = 7;

/// The scale at which a yearly ratio is carried: a ratio of one percent
/// is `DEFAULT_PRECISION`.
pub const DEFAULT_PRECISION: u64 = 1_000_000_000;

/// Most entries on one page of positions.
pub const MAX_LIMIT: u32 = 30;

/// Entries on a page when no limit is asked for.
pub const DEFAULT_LIMIT: u32 = 10;

/// The scaled yearly ratio for a lock of `lock_week` weeks: the lowest
/// ratio plus the span of the ratios, scaled, times the square of the weeks
/// beyond the shortest lock over the square of the span of the lock weeks,
/// rounded down.
pub open spec fn spec_ratio_value(config: ConfigView, lock_week: u64) -> int {
    (((config.max_ratio - config.min_ratio) * DEFAULT_PRECISION) * ((lock_week - config.min_lock_week) * (
    lock_week - config.min_lock_week))) / ((config.max_lock_week - config.min_lock_week) * (
    config.max_lock_week - config.min_lock_week)) + config.min_ratio * DEFAULT_PRECISION
}

/// What [`calc_ratio`] returns: the ratio where the bounds are in order,
/// differ, and the lock is not below the shortest, and the ratio fits in 64
/// bits.
pub open spec fn spec_calc_ratio(config: ConfigView, lock_week: u64) -> Result<u64, ContractError> {
    if config.max_lock_week < config.min_lock_week || config.max_ratio < config.min_ratio {
        Err(ContractError::OverflowError)
    } else if config.max_lock_week == config.min_lock_week {
        Err(ContractError::DivideByZero)
    } else if lock_week < config.min_lock_week {
        Err(ContractError::OverflowError)
    } else if spec_ratio_value(config, lock_week) > u64::MAX {
        Err(ContractError::OverflowError)
    } else {
        Ok(spec_ratio_value(config, lock_week) as u64)
    }
}

/// The reward that `value_amount` earns at the scaled yearly `ratio` in
/// `periods` seconds: a hundredth of value times ratio, unscaled, is the
/// yearly reward; scaled again and spread over the seconds of a year it is
/// the reward per second. `None` when a product exceeds 128 bits.
pub open spec fn spec_reward_for(value_amount: u128, ratio: u64, periods: u64) -> Option<u128> {
    if value_amount * ratio > u128::MAX {
        None
    } else {
        let annual = (value_amount * ratio) / 100 / (DEFAULT_PRECISION as int);
        if annual * DEFAULT_PRECISION > u128::MAX {
            None
        } else {
            let per_second = (annual * DEFAULT_PRECISION) / (ONE_YEAR as int);
            if per_second * periods > u128::MAX {
                None
            } else {
                Some(((per_second * periods) / (DEFAULT_PRECISION as int)) as u128)
            }
        }
    }
}

/// What [`calc_reward`] returns: nothing before the reward clock starts,
/// else the reward for the seconds since.
pub open spec fn spec_calc_reward(
    config: ConfigView,
    now: u64,
    lock_week: u64,
    value_amount: u128,
    reward_timestamp: u64,
) -> Result<u128, ContractError> {
    if now < reward_timestamp {
        Ok(0)
    } else {
        match spec_calc_ratio(config, lock_week) {
            Err(e) => Err(e),
            Ok(ratio) => match spec_reward_for(value_amount, ratio, (now - reward_timestamp) as u64) {
                None => Err(ContractError::OverflowError),
                Some(reward) => Ok(reward),
            },
        }
    }
}

/// Whether a position staked at `staked_timestamp` for `lock_week` weeks
/// may be withdrawn at `now`.
pub open spec fn spec_check_lock(now: u64, staked_timestamp: u64, lock_week: u64) -> bool {
    now >= staked_timestamp + lock_week * ONE_WEEK
}

/// The scaled yearly ratio for a lock of `lock_week` weeks, on the
/// quadratic curve through the configured bounds.
pub fn calc_ratio(config: &Config, lock_week: u64) -> (r: Result<u64, ContractError>)
    ensures
        r == spec_calc_ratio(config@, lock_week),
{
    if config.max_lock_week < config.min_lock_week || config.max_ratio < config.min_ratio {
        return Err(ContractError::OverflowError);
    }
    let d_x: u128 = (config.max_lock_week - config.min_lock_week) as u128;
    let d_y: u128 = (config.max_ratio - config.min_ratio) as u128;
    if d_x == 0 {
        return Err(ContractError::DivideByZero);
    }
    if lock_week < config.min_lock_week {
        return Err(ContractError::OverflowError);
    }
    let x: u128 = (lock_week - config.min_lock_week) as u128;
    let precision: u128 = DEFAULT_PRECISION as u128;
    assert(d_x * d_x <= 0xffff_ffff_ffff_ffff * 0xffff_ffff_ffff_ffff && d_x * d_x > 0) by (nonlinear_arith)
        requires
            0 < d_x <= 0xffff_ffff_ffff_ffff,
    ;
    assert(x * x <= 0xffff_ffff_ffff_ffff * 0xffff_ffff_ffff_ffff) by (nonlinear_arith)
        requires
            0 <= x <= 0xffff_ffff_ffff_ffff,
    ;
    assert(d_y * precision <= 0xffff_ffff_ffff_ffff * 1_000_000_000) by (nonlinear_arith)
        requires
            0 <= d_y <= 0xffff_ffff_ffff_ffff,
            precision == 1_000_000_000,
    ;
    let y_min: u128 = config.min_ratio as u128;
    assert(y_min * precision <= 0xffff_ffff_ffff_ffff * 1_000_000_000) by (nonlinear_arith)
        requires
            0 <= y_min <= 0xffff_ffff_ffff_ffff,
            precision == 1_000_000_000,
    ;
    let rise: u128 = d_y * precision;
    let span: u128 = d_x * d_x;
    let base: u128 = y_min * precision;
    let squared: u128 = x * x;
    proof {
        assert(rise * squared >= 0) by (nonlinear_arith)
            requires
                rise >= 0,
                squared >= 0,
        ;
        lemma_div_pos_is_pos(rise * squared, span as int);
    }
    let curve = match checked_mul_div(rise, squared, span) {
        Ok(v) => v,
        Err(_) => {
            return Err(ContractError::OverflowError);
        },
    };
    let value = match curve.checked_add(base) {
        Some(v) => v,
        None => {
            return Err(ContractError::OverflowError);
        },
    };
    if value > u64::MAX as u128 {
        return Err(ContractError::OverflowError);
    }
    Ok(value as u64)
}

/// The reward that `value_amount` has earned since `reward_timestamp` at
/// the ratio of a `lock_week` weeks lock.
pub fn calc_reward(config: &Config, now: u64, lock_week: u64, value_amount: u128, reward_timestamp: u64) -> (r:
    Result<u128, ContractError>)
    ensures
        r == spec_calc_reward(config@, now, lock_week, value_amount, reward_timestamp),
{
    if now < reward_timestamp {
        return Ok(0);
    }
    let periods: u64 = now - reward_timestamp;
    let ratio = calc_ratio(config, lock_week)?;
    let product = match value_amount.checked_mul(ratio as u128) {
        Some(v) => v,
        None => {
            return Err(ContractError::OverflowError);
        },
    };
    let annual: u128 = product / 100 / (DEFAULT_PRECISION as u128);
    let scaled = match annual.checked_mul(DEFAULT_PRECISION as u128) {
        Some(v) => v,
        None => {
            return Err(ContractError::OverflowError);
        },
    };
    let per_second: u128 = scaled / (ONE_YEAR as u128);
    match per_second.checked_mul(periods as u128) {
        Some(v) => Ok(v / (DEFAULT_PRECISION as u128)),
        None => Err(ContractError::OverflowError),
    }
}

/// Whether a position staked at `staked_timestamp` for `lock_week` weeks
/// may be withdrawn at `now`: its lock ends `lock_week` weeks after it was
/// staked.
pub fn check_lock(now: u64, staked_timestamp: u64, lock_week: u64) -> (r: bool)
    ensures
        r == spec_check_lock(now, staked_timestamp, lock_week),
{
    let weeks: u128 = lock_week as u128;
    let week: u128 = ONE_WEEK as u128;
    assert(weeks * week <= 0xffff_ffff_ffff_ffff * 604800) by (nonlinear_arith)
        requires
            weeks <= 0xffff_ffff_ffff_ffff,
            week == 604800,
    ;
    let lock_times: u128 = staked_timestamp as u128 + weeks * week;
    if (now as u128) < lock_times {
        return false;
    } else {
        return true;
    }
}

/// What the outside world answers for one operation. Each operation reads
/// only the answers it needs and is specified for whatever they are.
#[derive(Clone, Copy, Debug, PartialEq, Eq, Structural)]
pub struct Oracle {
    /// The caller's balance of the staking asset.
    pub sender_balance: u128,
    /// The router's quote for the caller's current stake in reward units.
    pub staked_value: u128,
    /// The router's quote for the referral share of a new stake in reward
    /// units.
    pub referral_value: u128,
    /// The pool's own balance of the staking asset.
    pub pool_staking_balance: u128,
    /// The pool's own balance of the reward asset.
    pub pool_reward_balance: u128,
    /// The tax due on the payout in the staking asset, were it native.
    pub staking_tax: u128,
    /// The tax due on the payout in the reward asset, were it native.
    pub reward_tax: u128,
}

/// What a state-changing operation is to do: the store and the response it
/// leaves on success, or the error it reports.
pub type Outcome = Result<(StoreView, ResponseView), ContractError>;

/// Whether a run that turned `before` into `after` and returned `r` did what
/// `expected` says. A failed run changes nothing.
pub open spec fn outcome_is(
    expected: Outcome,
    before: StoreView,
    after: StoreView,
    r: Result<Response, ContractError>,
) -> bool {
    match expected {
        Ok((store, response)) => r matches Ok(given) && given@ == response && after == store,
        Err(e) => r matches Err(given) && given == e && after == before,
    }
}

/// The view of an optional address.
pub open spec fn opt_view(address: Option<String>) -> Option<Seq<char>> {
    match address {
        Some(a) => Some(a@),
        None => None,
    }
}

/// The view of an optional asset.
pub open spec fn opt_asset_view(asset: Option<AssetInfo>) -> Option<AssetInfoView> {
    match asset {
        Some(a) => Some(a@),
        None => None,
    }
}

/// The store a new pool starts with: owned by `sender`, no positions.
/// Bounds out of order are refused.
pub open spec fn spec_instantiate(sender: Seq<char>, msg: InstantiateMsg) -> Result<StoreView, ContractError> {
    if msg.min_lock_week > msg.max_lock_week || msg.min_ratio > msg.max_ratio {
        Err(ContractError::InvalidInput)
    } else {
        Ok(
            StoreView {
                config: ConfigView {
                    owner: sender,
                    staking_asset: msg.staking_asset@,
                    reward_asset: msg.reward_asset@,
                    router_address: msg.router_address@,
                    min_lock_week: msg.min_lock_week,
                    max_lock_week: msg.max_lock_week,
                    min_ratio: msg.min_ratio,
                    max_ratio: msg.max_ratio,
                    referral_rate: msg.referral_rate,
                    referral_lock_days: msg.referral_lock_days,
                    enabled: msg.enabled,
                },
                detail: StakedDetail { total_acc: 0, total_wcc: 0, total_staked: 0 },
                stakers: Map::empty(),
            },
        )
    }
}

/// The value of the staker's stake in reward units, given the router's
/// quote for it.
pub open spec fn spec_stake_value(config: ConfigView, staker: StakerInfoView, staked_value: u128) -> u128 {
    spec_simulate_swap(staker.stake_amount, config.staking_asset, config.reward_asset, staked_value)
}

/// Bringing the running reward of `address` up to `now`. Without stake
/// nothing changes.
pub open spec fn spec_update_reward(pre: StoreView, now: u64, address: Seq<char>, staked_value: u128) -> Outcome {
    let staker = staker_or_default(pre.stakers, address);
    if staker.stake_amount == 0 {
        Ok((pre, ResponseView::Empty))
    } else {
        match spec_calc_reward(
            pre.config,
            now,
            staker.lock_week,
            spec_stake_value(pre.config, staker, staked_value),
            staker.reward_timestamp,
        ) {
            Err(e) => Err(e),
            Ok(reward) => Ok(
                (
                    StoreView {
                        stakers: pre.stakers.insert(address, StakerInfoView { reward_amount: reward, ..staker }),
                        ..pre
                    },
                    ResponseView::UpdateReward,
                ),
            ),
        }
    }
}

/// The reward a position has earned in its running lock cycle, which a
/// new stake carries over; nothing for a position never staked.
pub open spec fn spec_carried_reward(config: ConfigView, staker: StakerInfoView, now: u64, staked_value: u128) -> Result<
    u128,
    ContractError,
> {
    if staker.lock_week > 0 {
        spec_calc_reward(
            config,
            now,
            staker.lock_week,
            spec_stake_value(config, staker, staked_value),
            staker.reward_timestamp,
        )
    } else {
        Ok(0)
    }
}

/// The part of a stake of `amount` that the referral bonus is taken on:
/// `referral_rate` percent, rounded down. `None` when the product
/// overflows.
pub open spec fn spec_referral_share(amount: u128, referral_rate: u64) -> Option<u128> {
    if amount * referral_rate > u128::MAX {
        None
    } else {
        Some(((amount * referral_rate) / 100) as u128)
    }
}

/// The referrer's record after a bonus: the bonus is added, the count
/// grows by one when the staker had no referrer before, and the time of
/// the first bonus is kept.
pub open spec fn spec_credit_referral(
    first_referral: bool,
    referrer: StakerInfoView,
    bonus: u128,
    now: u64,
) -> Option<StakerInfoView> {
    if referrer.referral_reward + bonus > u128::MAX || (first_referral && referrer.referral_count
        == u64::MAX) {
        None
    } else {
        Some(
            StakerInfoView {
                referral_reward: (referrer.referral_reward + bonus) as u128,
                referral_count: if first_referral {
                    (referrer.referral_count + 1) as u64
                } else {
                    referrer.referral_count
                },
                referral_timestamp: if referrer.referral_timestamp == 0 {
                    now
                } else {
                    referrer.referral_timestamp
                },
                ..referrer
            },
        )
    }
}

/// What a stake of `amount` for `lock_week` weeks puts on the pool's
/// totals: the amount weighted by the ratio of the lock, unscaled and
/// rounded down, and the amount weighted by the weeks.
pub open spec fn spec_position_weights(config: ConfigView, lock_week: u64, amount: u128) -> Result<
    (u128, u128),
    ContractError,
> {
    match spec_calc_ratio(config, lock_week) {
        Err(e) => Err(e),
        Ok(ratio) => if ratio * amount > u128::MAX || lock_week * amount > u128::MAX {
            Err(ContractError::OverflowError)
        } else {
            Ok((((ratio * amount) / (DEFAULT_PRECISION as int)) as u128, (lock_week * amount) as u128))
        },
    }
}

/// The position after `amount` was added for `lock_week` weeks at `now`:
/// the lock and both clocks start anew, what the running cycle had earned
/// is carried over, and the position keeps count of what it has put on the
/// pool's totals.
pub open spec fn spec_restaked(
    staker: StakerInfoView,
    lock_week: u64,
    amount: u128,
    carried: u128,
    now: u64,
    referral: Seq<char>,
    weights: (u128, u128),
) -> Option<StakerInfoView> {
    if staker.stake_amount + amount > u128::MAX || staker.last_reward + carried > u128::MAX
        || staker.ratio_weight + weights.0 > u128::MAX || staker.week_weight + weights.1 > u128::MAX {
        None
    } else {
        Some(
            StakerInfoView {
                lock_week,
                stake_amount: (staker.stake_amount + amount) as u128,
                last_reward: (staker.last_reward + carried) as u128,
                staked_timestamp: now,
                reward_timestamp: now,
                referral_addr: referral,
                ratio_weight: (staker.ratio_weight + weights.0) as u128,
                week_weight: (staker.week_weight + weights.1) as u128,
                ..staker
            },
        )
    }
}

/// The totals after a position of `amount` with `weights` was opened.
pub open spec fn spec_detail_opened(detail: StakedDetail, weights: (u128, u128), amount: u128) -> Option<
    StakedDetail,
> {
    if detail.total_acc + weights.0 > u128::MAX || detail.total_wcc + weights.1 > u128::MAX
        || detail.total_staked + amount > u128::MAX {
        None
    } else {
        Some(
            StakedDetail {
                total_acc: (detail.total_acc + weights.0) as u128,
                total_wcc: (detail.total_wcc + weights.1) as u128,
                total_staked: (detail.total_staked + amount) as u128,
            },
        )
    }
}

/// The share of `weight` that goes with `amount` out of a stake of
/// `stake`, rounded down: all of it when the whole stake goes.
pub open spec fn spec_withdrawn_share(weight: u128, amount: u128, stake: u128) -> u128 {
    if stake == 0 {
        0
    } else {
        ((weight * amount) / (stake as int)) as u128
    }
}

/// What withdrawing `amount` takes off the totals: the share of what the
/// position had put on them, by ratio and by weeks.
pub open spec fn spec_withdrawn_weights(staker: StakerInfoView, amount: u128) -> (u128, u128) {
    (
        spec_withdrawn_share(staker.ratio_weight, amount, staker.stake_amount),
        spec_withdrawn_share(staker.week_weight, amount, staker.stake_amount),
    )
}

/// The totals after `amount` with `weights` was withdrawn; `None` when
/// a total does not hold what is to be taken off.
pub open spec fn spec_detail_closed(detail: StakedDetail, weights: (u128, u128), amount: u128) -> Option<
    StakedDetail,
> {
    if detail.total_acc < weights.0 || detail.total_wcc < weights.1 || detail.total_staked < amount {
        None
    } else {
        Some(
            StakedDetail {
                total_acc: (detail.total_acc - weights.0) as u128,
                total_wcc: (detail.total_wcc - weights.1) as u128,
                total_staked: (detail.total_staked - amount) as u128,
            },
        )
    }
}

/// The position after `amount` with `weights` was withdrawn and its
/// rewards were paid out at `now`.
pub open spec fn spec_unstaked(staker: StakerInfoView, amount: u128, weights: (u128, u128), now: u64) -> StakerInfoView {
    StakerInfoView {
        stake_amount: (staker.stake_amount - amount) as u128,
        ratio_weight: (staker.ratio_weight - weights.0) as u128,
        week_weight: (staker.week_weight - weights.1) as u128,
        ..spec_rewards_paid(staker, now)
    }
}

/// The referrer a stake is credited to: the one the staker already has,
/// else the one supplied.
pub open spec fn spec_real_referral(staker: StakerInfoView, referral: Seq<char>) -> Seq<char> {
    if staker.referral_addr.len() != 0 {
        staker.referral_addr
    } else {
        referral
    }
}

/// Staking `amount` for `sender` at `now` for `lock_week` weeks, naming
/// `referral` as referrer.
pub open spec fn spec_execute_stake(
    pre: StoreView,
    now: u64,
    sender: Seq<char>,
    lock_week: u64,
    amount: u128,
    referral: Seq<char>,
    oracle: Oracle,
) -> Outcome {
    let staker = staker_or_default(pre.stakers, sender);
    let real_referral = spec_real_referral(staker, referral);
    if referral.len() == 0 || referral == sender {
        Err(ContractError::InvalidReferralAddr)
    } else if lock_week < pre.config.min_lock_week || lock_week > pre.config.max_lock_week {
        Err(ContractError::InvalidInput)
    } else if amount > oracle.sender_balance {
        Err(ContractError::Insufficient)
    } else {
        match spec_carried_reward(pre.config, staker, now, oracle.staked_value) {
            Err(e) => Err(e),
            Ok(carried) => match spec_referral_share(amount, pre.config.referral_rate) {
                None => Err(ContractError::OverflowError),
                Some(share) => match spec_credit_referral(
                    staker.referral_addr.len() == 0,
                    staker_or_default(pre.stakers, real_referral),
                    spec_simulate_swap(
                        share,
                        pre.config.staking_asset,
                        pre.config.reward_asset,
                        oracle.referral_value,
                    ),
                    now,
                ) {
                    None => Err(ContractError::OverflowError),
                    Some(referrer) => match spec_position_weights(pre.config, lock_week, amount) {
                        Err(e) => Err(e),
                        Ok(weights) => match (
                            spec_restaked(staker, lock_week, amount, carried, now, real_referral, weights),
                            spec_detail_opened(pre.detail, weights, amount),
                        ) {
                            (Some(staked), Some(detail)) => Ok(
                                (
                                    StoreView {
                                        config: pre.config,
                                        detail,
                                        stakers: pre.stakers.insert(real_referral, referrer).insert(
                                            sender,
                                            staked,
                                        ),
                                    },
                                    ResponseView::Stake { stake_amount: amount },
                                ),
                            ),
                            _ => Err(ContractError::OverflowError),
                        },
                    },
                },
            },
        }
    }
}

/// A position after its rewards were paid out at `now`.
pub open spec fn spec_rewards_paid(staker: StakerInfoView, now: u64) -> StakerInfoView {
    StakerInfoView { reward_amount: 0, last_reward: 0, reward_timestamp: now, ..staker }
}

/// Withdrawing `amount` of `sender`'s stake at `now`, with all rewards.
pub open spec fn spec_execute_unstake(pre: StoreView, now: u64, sender: Seq<char>, amount: u128, oracle: Oracle) -> Outcome {
    if !pre.config.enabled {
        Err(ContractError::Disabled)
    } else {
        match spec_update_reward(pre, now, sender, oracle.staked_value) {
            Err(e) => Err(e),
            Ok((mid, _)) => {
                let staker = staker_or_default(mid.stakers, sender);
                if amount > staker.stake_amount {
                    Err(ContractError::InvalidInput)
                } else if !spec_check_lock(now, staker.staked_timestamp, staker.lock_week) {
                    Err(ContractError::StillInLock)
                } else {
                    match spec_detail_closed(pre.detail, spec_withdrawn_weights(staker, amount), amount) {
                        None => Err(ContractError::OverflowError),
                        Some(detail) => if staker.reward_amount + staker.last_reward > u128::MAX {
                            Err(ContractError::OverflowError)
                        } else if staker.reward_amount + staker.last_reward == 0 {
                            Err(ContractError::NotEnoughReward)
                        } else {
                            match (
                                spec_after_tax(pre.config.staking_asset, amount, oracle.staking_tax),
                                spec_after_tax(
                                    pre.config.reward_asset,
                                    (staker.reward_amount + staker.last_reward) as u128,
                                    oracle.reward_tax,
                                ),
                            ) {
                                (Some(staking_net), Some(reward_net)) => Ok(
                                    (
                                        StoreView {
                                            config: pre.config,
                                            detail,
                                            stakers: mid.stakers.insert(
                                                sender,
                                                spec_unstaked(
                                                    staker,
                                                    amount,
                                                    spec_withdrawn_weights(staker, amount),
                                                    now,
                                                ),
                                            ),
                                        },
                                        ResponseView::Unstake {
                                            staking_payout: TransferMsgView {
                                                denom: pre.config.staking_asset.to_denom(),
                                                amount: staking_net,
                                                receiver: sender,
                                            },
                                            reward_payout: TransferMsgView {
                                                denom: pre.config.reward_asset.to_denom(),
                                                amount: reward_net,
                                                receiver: sender,
                                            },
                                            unstaked_amount: amount,
                                        },
                                    ),
                                ),
                                _ => Err(ContractError::OverflowError),
                            }
                        },
                    }
                }
            },
        }
    }
}

/// Claiming all of `sender`'s rewards at `now`.
pub open spec fn spec_execute_claim_reward(pre: StoreView, now: u64, sender: Seq<char>, oracle: Oracle) -> Outcome {
    if !pre.config.enabled {
        Err(ContractError::Disabled)
    } else {
        match spec_update_reward(pre, now, sender, oracle.staked_value) {
            Err(e) => Err(e),
            Ok((mid, _)) => {
                let staker = staker_or_default(mid.stakers, sender);
                if !spec_check_lock(now, staker.staked_timestamp, staker.lock_week) {
                    Err(ContractError::StillInLock)
                } else if staker.reward_amount + staker.last_reward > u128::MAX {
                    Err(ContractError::OverflowError)
                } else if staker.reward_amount + staker.last_reward == 0 {
                    Err(ContractError::NotEnoughReward)
                } else {
                    Ok(
                        (
                            StoreView {
                                stakers: mid.stakers.insert(sender, spec_rewards_paid(staker, now)),
                                ..mid
                            },
                            ResponseView::ClaimReward {
                                payout: TransferMsgView {
                                    denom: pre.config.reward_asset.to_denom(),
                                    amount: (staker.reward_amount + staker.last_reward) as u128,
                                    receiver: sender,
                                },
                                reward_amount: (staker.reward_amount + staker.last_reward) as u128,
                            },
                        ),
                    )
                }
            },
        }
    }
}

/// Whether a referrer whose first bonus came at `referral_timestamp` must
/// still wait at `now`.
pub open spec fn spec_referral_locked(now: u64, referral_timestamp: u64, referral_lock_days: u64) -> bool {
    now < referral_timestamp + referral_lock_days * ONE_DAY
}

/// Claiming `sender`'s referral bonus at `now`.
pub open spec fn spec_execute_claim_referral_reward(pre: StoreView, now: u64, sender: Seq<char>, oracle: Oracle) -> Outcome {
    if !pre.config.enabled {
        Err(ContractError::Disabled)
    } else {
        match spec_update_reward(pre, now, sender, oracle.staked_value) {
            Err(e) => Err(e),
            Ok((mid, _)) => {
                let staker = staker_or_default(mid.stakers, sender);
                if spec_referral_locked(now, staker.referral_timestamp, pre.config.referral_lock_days) {
                    Err(ContractError::StillInLock)
                } else if staker.referral_reward == 0 {
                    Err(ContractError::NotEnoughReward)
                } else {
                    Ok(
                        (
                            StoreView {
                                stakers: mid.stakers.insert(
                                    sender,
                                    StakerInfoView { referral_reward: 0, ..staker },
                                ),
                                ..mid
                            },
                            ResponseView::ClaimReferralReward {
                                payout: TransferMsgView {
                                    denom: pre.config.reward_asset.to_denom(),
                                    amount: staker.referral_reward,
                                    receiver: sender,
                                },
                                reward_amount: staker.referral_reward,
                            },
                        ),
                    )
                }
            },
        }
    }
}

/// Sweeping the pool's balances of both assets to the owner.
pub open spec fn spec_execute_withdraw(pre: StoreView, sender: Seq<char>, oracle: Oracle) -> Outcome {
    if sender != pre.config.owner {
        Err(ContractError::Unauthorized)
    } else {
        match (
            spec_after_tax(pre.config.staking_asset, oracle.pool_staking_balance, oracle.staking_tax),
            spec_after_tax(pre.config.reward_asset, oracle.pool_reward_balance, oracle.reward_tax),
        ) {
            (Some(amount1), Some(amount2)) => Ok(
                (
                    pre,
                    ResponseView::Withdraw {
                        staking_payout: TransferMsgView {
                            denom: pre.config.staking_asset.to_denom(),
                            amount: amount1,
                            receiver: sender,
                        },
                        second_payout: if pre.config.staking_asset == pre.config.reward_asset {
                            None
                        } else {
                            Some(
                                TransferMsgView {
                                    denom: pre.config.reward_asset.to_denom(),
                                    amount: amount2,
                                    receiver: sender,
                                },
                            )
                        },
                        amount1,
                        amount2: if pre.config.staking_asset == pre.config.reward_asset {
                            0
                        } else {
                            amount2
                        },
                    },
                ),
            ),
            _ => Err(ContractError::OverflowError),
        }
    }
}

/// The configuration with the given fields replaced.
pub open spec fn spec_config_updated(
    config: ConfigView,
    owner: Option<Seq<char>>,
    staking_asset: Option<AssetInfoView>,
    reward_asset: Option<AssetInfoView>,
    router_address: Option<Seq<char>>,
    min_lock_week: Option<u64>,
    max_lock_week: Option<u64>,
    min_ratio: Option<u64>,
    max_ratio: Option<u64>,
    referral_rate: Option<u64>,
    referral_lock_days: Option<u64>,
    enabled: Option<bool>,
) -> ConfigView {
    ConfigView {
        owner: if owner is Some { owner.unwrap() } else { config.owner },
        staking_asset: if staking_asset is Some { staking_asset.unwrap() } else { config.staking_asset },
        reward_asset: if reward_asset is Some { reward_asset.unwrap() } else { config.reward_asset },
        router_address: if router_address is Some { router_address.unwrap() } else { config.router_address },
        min_lock_week: if min_lock_week is Some { min_lock_week.unwrap() } else { config.min_lock_week },
        max_lock_week: if max_lock_week is Some { max_lock_week.unwrap() } else { config.max_lock_week },
        min_ratio: if min_ratio is Some { min_ratio.unwrap() } else { config.min_ratio },
        max_ratio: if max_ratio is Some { max_ratio.unwrap() } else { config.max_ratio },
        referral_rate: if referral_rate is Some { referral_rate.unwrap() } else { config.referral_rate },
        referral_lock_days: if referral_lock_days is Some {
            referral_lock_days.unwrap()
        } else {
            config.referral_lock_days
        },
        enabled: if enabled is Some { enabled.unwrap() } else { config.enabled },
    }
}

/// Changing the configuration on behalf of `sender`; a field given as
/// `None` keeps its value. A change that would leave the bounds out of
/// order is refused.
pub open spec fn spec_execute_update_config(
    pre: StoreView,
    sender: Seq<char>,
    owner: Option<Seq<char>>,
    staking_asset: Option<AssetInfoView>,
    reward_asset: Option<AssetInfoView>,
    router_address: Option<Seq<char>>,
    min_lock_week: Option<u64>,
    max_lock_week: Option<u64>,
    min_ratio: Option<u64>,
    max_ratio: Option<u64>,
    referral_rate: Option<u64>,
    referral_lock_days: Option<u64>,
    enabled: Option<bool>,
) -> Outcome {
    let config = spec_config_updated(
        pre.config,
        owner,
        staking_asset,
        reward_asset,
        router_address,
        min_lock_week,
        max_lock_week,
        min_ratio,
        max_ratio,
        referral_rate,
        referral_lock_days,
        enabled,
    );
    if sender != pre.config.owner {
        Err(ContractError::Unauthorized)
    } else if !config.wf() {
        Err(ContractError::InvalidInput)
    } else {
        Ok((StoreView { config, ..pre }, ResponseView::UpdateConfig))
    }
}

/// Acting on a transfer notice that the token contract `info_sender` sent.
pub open spec fn spec_execute_receive(
    pre: StoreView,
    now: u64,
    info_sender: Seq<char>,
    wrapper: Cw20ReceiveMsg,
    oracle: Oracle,
) -> Outcome {
    if wrapper.amount == 0 {
        Err(ContractError::InvalidInput)
    } else if pre.config.staking_asset != (AssetInfoView::Token { contract_addr: info_sender }) {
        Err(ContractError::UnacceptableToken)
    } else {
        match wrapper.msg {
            None => Err(ContractError::InvalidInput),
            Some(ReceiveMsg::Stake { lock_week, referral_addr }) => spec_execute_stake(
                pre,
                now,
                wrapper.sender@,
                lock_week,
                wrapper.amount,
                referral_addr@,
                oracle,
            ),
        }
    }
}

/// Carrying out `msg` for `info_sender` at `now`.
pub open spec fn spec_execute(pre: StoreView, now: u64, info_sender: Seq<char>, msg: ExecuteMsg, oracle: Oracle) -> Outcome {
    match msg {
        ExecuteMsg::UpdateConfig {
            owner,
            staking_asset,
            reward_asset,
            router_address,
            min_lock_week,
            max_lock_week,
            min_ratio,
            max_ratio,
            referral_rate,
            referral_lock_days,
            enabled,
        } => spec_execute_update_config(
            pre,
            info_sender,
            opt_view(owner),
            opt_asset_view(staking_asset),
            opt_asset_view(reward_asset),
            opt_view(router_address),
            min_lock_week,
            max_lock_week,
            min_ratio,
            max_ratio,
            referral_rate,
            referral_lock_days,
            enabled,
        ),
        ExecuteMsg::Receive(wrapper) => spec_execute_receive(pre, now, info_sender, wrapper, oracle),
        ExecuteMsg::Stake { lock_week, amount, referral_addr } => spec_execute_stake(
            pre,
            now,
            info_sender,
            lock_week,
            amount,
            referral_addr@,
            oracle,
        ),
        ExecuteMsg::Unstake { amount } => spec_execute_unstake(pre, now, info_sender, amount, oracle),
        ExecuteMsg::ClaimReward {  } => spec_execute_claim_reward(pre, now, info_sender, oracle),
        ExecuteMsg::ClaimReferralReward {  } => spec_execute_claim_referral_reward(
            pre,
            now,
            info_sender,
            oracle,
        ),
        ExecuteMsg::Withdraw {  } => spec_execute_withdraw(pre, info_sender, oracle),
    }
}

/// Creates the pool, owned by `info_sender`; refused when the bounds of
/// the lock weeks or of the ratios are out of order.
pub fn instantiate(info_sender: String, msg: InstantiateMsg) -> (r: Result<Store, ContractError>)
    ensures
        match r {
            Ok(store) => spec_instantiate(info_sender@, msg) == Ok::<StoreView, ContractError>(store@)
                && store@.config.wf(),
            Err(e) => spec_instantiate(info_sender@, msg) == Err::<StoreView, ContractError>(e),
        },
{
    if msg.min_lock_week > msg.max_lock_week || msg.min_ratio > msg.max_ratio {
        return Err(ContractError::InvalidInput);
    }
    Ok(
        Store {
            config: Config {
                owner: info_sender,
                staking_asset: msg.staking_asset,
                reward_asset: msg.reward_asset,
                router_address: msg.router_address,
                min_lock_week: msg.min_lock_week,
                max_lock_week: msg.max_lock_week,
                min_ratio: msg.min_ratio,
                max_ratio: msg.max_ratio,
                referral_rate: msg.referral_rate,
                referral_lock_days: msg.referral_lock_days,
                enabled: msg.enabled,
            },
            detail: StakedDetail { total_acc: 0, total_wcc: 0, total_staked: 0 },
            stakers: AddressBook::new(),
        },
    )
}

/// Carries out a state-changing request of `info_sender` at `now`.
pub fn execute(store: &mut Store, now: u64, info_sender: String, msg: ExecuteMsg, oracle: Oracle) -> (r: Result<
    Response,
    ContractError,
>)
    ensures
        outcome_is(spec_execute(old(store)@, now, info_sender@, msg, oracle), old(store)@, final(store)@, r),
{
    match msg {
        ExecuteMsg::UpdateConfig {
            owner,
            staking_asset,
            reward_asset,
            router_address,
            min_lock_week,
            max_lock_week,
            min_ratio,
            max_ratio,
            referral_rate,
            referral_lock_days,
            enabled,
        } => execute_update_config(
            store,
            info_sender,
            owner,
            staking_asset,
            reward_asset,
            router_address,
            min_lock_week,
            max_lock_week,
            min_ratio,
            max_ratio,
            referral_rate,
            referral_lock_days,
            enabled,
        ),
        ExecuteMsg::Receive(wrapper) => execute_receive(store, now, info_sender, wrapper, oracle),
        ExecuteMsg::Stake { lock_week, amount, referral_addr } => execute_stake(
            store,
            now,
            info_sender,
            lock_week,
            amount,
            referral_addr,
            oracle,
        ),
        ExecuteMsg::Unstake { amount } => execute_unstake(store, now, info_sender, amount, oracle),
        ExecuteMsg::ClaimReward {  } => execute_claim_reward(store, now, info_sender, oracle),
        ExecuteMsg::ClaimReferralReward {  } => execute_claim_referral_reward(store, now, info_sender, oracle),
        ExecuteMsg::Withdraw {  } => execute_withdraw(store, info_sender, oracle),
    }
}

/// Changes the given fields of the configuration; only the owner may,
/// and only to bounds that are in order.
pub fn execute_update_config(
    store: &mut Store,
    info_sender: String,
    owner: Option<String>,
    staking_asset: Option<AssetInfo>,
    reward_asset: Option<AssetInfo>,
    router_address: Option<String>,
    min_lock_week: Option<u64>,
    max_lock_week: Option<u64>,
    min_ratio: Option<u64>,
    max_ratio: Option<u64>,
    referral_rate: Option<u64>,
    referral_lock_days: Option<u64>,
    enabled: Option<bool>,
) -> (r: Result<Response, ContractError>)
    ensures
        outcome_is(
            spec_execute_update_config(
                old(store)@,
                info_sender@,
                opt_view(owner),
                opt_asset_view(staking_asset),
                opt_asset_view(reward_asset),
                opt_view(router_address),
                min_lock_week,
                max_lock_week,
                min_ratio,
                max_ratio,
                referral_rate,
                referral_lock_days,
                enabled,
            ),
            old(store)@,
            final(store)@,
            r,
        ),
{
    check_owner(store, &info_sender)?;
    let mut config = store.config.clone();
    if let Some(owner) = owner {
        config.owner = owner;
    }
    if let Some(staking_asset) = staking_asset {
        config.staking_asset = staking_asset;
    }
    if let Some(reward_asset) = reward_asset {
        config.reward_asset = reward_asset;
    }
    if let Some(router_address) = router_address {
        config.router_address = router_address;
    }
    if let Some(min_lock_week) = min_lock_week {
        config.min_lock_week = min_lock_week;
    }
    if let Some(max_lock_week) = max_lock_week {
        config.max_lock_week = max_lock_week;
    }
    if let Some(min_ratio) = min_ratio {
        config.min_ratio = min_ratio;
    }
    if let Some(max_ratio) = max_ratio {
        config.max_ratio = max_ratio;
    }
    if let Some(referral_rate) = referral_rate {
        config.referral_rate = referral_rate;
    }
    if let Some(referral_lock_days) = referral_lock_days {
        config.referral_lock_days = referral_lock_days;
    }
    if let Some(enabled) = enabled {
        config.enabled = enabled;
    }
    if config.min_lock_week > config.max_lock_week || config.min_ratio > config.max_ratio {
        return Err(ContractError::InvalidInput);
    }
    store.config = config;
    Ok(Response::UpdateConfig)
}

/// Acts on a transfer notice from the token contract `info_sender`, which
/// must be the staking asset and must report a positive amount.
pub fn execute_receive(store: &mut Store, now: u64, info_sender: String, wrapper: Cw20ReceiveMsg, oracle: Oracle) -> (r:
    Result<Response, ContractError>)
    ensures
        outcome_is(
            spec_execute_receive(old(store)@, now, info_sender@, wrapper, oracle),
            old(store)@,
            final(store)@,
            r,
        ),
{
    let Cw20ReceiveMsg { sender, amount, msg } = wrapper;
    if amount == 0 {
        return Err(ContractError::InvalidInput);
    }
    let token = store.config.staking_asset.to_addr()?;
    if info_sender != token {
        return Err(ContractError::UnacceptableToken);
    }
    match msg {
        None => Err(ContractError::InvalidInput),
        Some(ReceiveMsg::Stake { lock_week, referral_addr }) => execute_stake(
            store,
            now,
            sender,
            lock_week,
            amount,
            referral_addr,
            oracle,
        ),
    }
}

/// The staker's record with its running reward brought up to `now`.
fn refreshed_staker(store: &Store, now: u64, address: &String, staked_value: u128) -> (r: Result<
    StakerInfo,
    ContractError,
>)
    ensures
        match spec_update_reward(store@, now, address@, staked_value) {
            Ok((mid, _)) => r matches Ok(info) && info@ == staker_or_default(mid.stakers, address@),
            Err(e) => r matches Err(given) && given == e,
        },
{
    let mut staker_info = store.staker(address);
    if staker_info.stake_amount == 0 {
        return Ok(staker_info);
    }
    let swap_amount = get_simulate_swap_operations(
        staker_info.stake_amount,
        &store.config.staking_asset,
        &store.config.reward_asset,
        staked_value,
    );
    let reward = calc_reward(&store.config, now, staker_info.lock_week, swap_amount, staker_info.reward_timestamp)?;
    staker_info.reward_amount = reward;
    Ok(staker_info)
}

/// Brings the running reward of `address` up to `now`, on the value that
/// its stake has in reward units. Without stake nothing changes.
pub fn update_reward(store: &mut Store, now: u64, address: String, staked_value: u128) -> (r: Result<
    Response,
    ContractError,
>)
    ensures
        outcome_is(
            spec_update_reward(old(store)@, now, address@, staked_value),
            old(store)@,
            final(store)@,
            r,
        ),
{
    let staker_info = refreshed_staker(store, now, &address, staked_value)?;
    if staker_info.stake_amount == 0 {
        return Ok(Response::Empty);
    }
    store.stakers.insert(address, staker_info);
    Ok(Response::UpdateReward)
}

/// The part of a stake of `amount` that the referral bonus is taken on.
pub fn referral_share(amount: u128, referral_rate: u64) -> (r: Result<u128, ContractError>)
    ensures
        match r {
            Ok(share) => spec_referral_share(amount, referral_rate) == Some(share),
            Err(e) => e == ContractError::OverflowError && spec_referral_share(amount, referral_rate).is_none(),
        },
{
    match amount.checked_mul(referral_rate as u128) {
        Some(product) => Ok(product / 100),
        None => Err(ContractError::OverflowError),
    }
}

/// Credits the referrer with `bonus`.
pub fn credit_referral(first_referral: bool, referral_info: &mut StakerInfo, bonus: u128, now: u64) -> (r: Result<
    (),
    ContractError,
>)
    ensures
        match r {
            Ok(_) => spec_credit_referral(first_referral, old(referral_info)@, bonus, now) == Some(
                final(referral_info)@,
            ),
            Err(e) => e == ContractError::OverflowError && spec_credit_referral(
                first_referral,
                old(referral_info)@,
                bonus,
                now,
            ).is_none() && final(referral_info)@ == old(referral_info)@,
        },
{
    let reward = match referral_info.referral_reward.checked_add(bonus) {
        Some(v) => v,
        None => {
            return Err(ContractError::OverflowError);
        },
    };
    let count = if first_referral {
        match referral_info.referral_count.checked_add(1) {
            Some(v) => v,
            None => {
                return Err(ContractError::OverflowError);
            },
        }
    } else {
        referral_info.referral_count
    };
    referral_info.referral_reward = reward;
    referral_info.referral_count = count;
    if referral_info.referral_timestamp == 0 {
        referral_info.referral_timestamp = now;
    }
    Ok(())
}

/// What a stake of `amount` for `lock_week` weeks puts on the pool's
/// totals, by ratio and by weeks.
pub fn position_weights(config: &Config, lock_week: u64, amount: u128) -> (r: Result<(u128, u128), ContractError>)
    ensures
        r == spec_position_weights(config@, lock_week, amount),
{
    let ratio = calc_ratio(config, lock_week)?;
    let weighted = match (ratio as u128).checked_mul(amount) {
        Some(v) => v,
        None => {
            return Err(ContractError::OverflowError);
        },
    };
    match (lock_week as u128).checked_mul(amount) {
        Some(weeks) => Ok((weighted / (DEFAULT_PRECISION as u128), weeks)),
        None => Err(ContractError::OverflowError),
    }
}

/// The totals after a position of `amount` with `weights` was opened.
pub fn detail_opened(detail: StakedDetail, weights: (u128, u128), amount: u128) -> (r: Option<StakedDetail>)
    ensures
        r == spec_detail_opened(detail, weights, amount),
{
    let total_acc = detail.total_acc.checked_add(weights.0)?;
    let total_wcc = detail.total_wcc.checked_add(weights.1)?;
    let total_staked = detail.total_staked.checked_add(amount)?;
    Some(StakedDetail { total_acc, total_wcc, total_staked })
}

/// The share of `weight` that goes with `amount` out of a stake of
/// `stake`; nothing where more is asked for than the stake holds.
pub fn withdrawn_share(weight: u128, amount: u128, stake: u128) -> (r: u128)
    ensures
        amount <= stake ==> r == spec_withdrawn_share(weight, amount, stake) && r <= weight,
        amount > stake ==> r == 0,
{
    if stake == 0 || amount > stake {
        return 0;
    }
    proof {
        lemma_share_within_whole(weight as int, amount as int, stake as int);
    }
    match checked_mul_div(weight, amount, stake) {
        Ok(share) => share,
        Err(_) => 0,
    }
}

/// The totals after `amount` with `weights` was withdrawn.
pub fn detail_closed(detail: StakedDetail, weights: (u128, u128), amount: u128) -> (r: Option<StakedDetail>)
    ensures
        r == spec_detail_closed(detail, weights, amount),
{
    let total_acc = detail.total_acc.checked_sub(weights.0)?;
    let total_wcc = detail.total_wcc.checked_sub(weights.1)?;
    let total_staked = detail.total_staked.checked_sub(amount)?;
    Some(StakedDetail { total_acc, total_wcc, total_staked })
}

/// Stakes `amount` for `sender` for `lock_week` weeks and credits the
/// referral bonus. The lock must lie within the configured bounds and the
/// caller's balance must cover the amount. The referrer named on the
/// first stake stays the staker's referrer.
pub fn execute_stake(
    store: &mut Store,
    now: u64,
    sender: String,
    lock_week: u64,
    amount: u128,
    referral_addr: String,
    oracle: Oracle,
) -> (r: Result<Response, ContractError>)
    ensures
        outcome_is(
            spec_execute_stake(old(store)@, now, sender@, lock_week, amount, referral_addr@, oracle),
            old(store)@,
            final(store)@,
            r,
        ),
{
    if referral_addr.as_str().is_empty() || referral_addr == sender {
        return Err(ContractError::InvalidReferralAddr);
    }
    if lock_week < store.config.min_lock_week || lock_week > store.config.max_lock_week {
        return Err(ContractError::InvalidInput);
    }
    if amount > oracle.sender_balance {
        return Err(ContractError::Insufficient);
    }
    let mut staker_info = store.staker(&sender);
    let mut last_reward: u128 = 0;
    if staker_info.lock_week > 0 {
        let swap_amount = get_simulate_swap_operations(
            staker_info.stake_amount,
            &store.config.staking_asset,
            &store.config.reward_asset,
            oracle.staked_value,
        );
        last_reward =
        calc_reward(&store.config, now, staker_info.lock_week, swap_amount, staker_info.reward_timestamp)?;
    }
    let referral_staked_amount = referral_share(amount, store.config.referral_rate)?;
    let referral_reward = get_simulate_swap_operations(
        referral_staked_amount,
        &store.config.staking_asset,
        &store.config.reward_asset,
        oracle.referral_value,
    );
    let first_referral = staker_info.referral_addr.as_str().is_empty();
    let real_referral_addr = if first_referral {
        referral_addr
    } else {
        staker_info.referral_addr.clone()
    };
    let mut referral_info = store.staker(&real_referral_addr);
    credit_referral(first_referral, &mut referral_info, referral_reward, now)?;
    let weights = position_weights(&store.config, lock_week, amount)?;
    let stake_amount = staker_info.stake_amount.checked_add(amount);
    let carried = staker_info.last_reward.checked_add(last_reward);
    let ratio_weight = staker_info.ratio_weight.checked_add(weights.0);
    let week_weight = staker_info.week_weight.checked_add(weights.1);
    let detail = detail_opened(store.detail, weights, amount);
    match (stake_amount, carried, ratio_weight, week_weight, detail) {
        (Some(stake_amount), Some(carried), Some(ratio_weight), Some(week_weight), Some(detail)) => {
            staker_info.lock_week = lock_week;
            staker_info.stake_amount = stake_amount;
            staker_info.last_reward = carried;
            staker_info.staked_timestamp = now;
            staker_info.reward_timestamp = now;
            staker_info.referral_addr = real_referral_addr.clone();
            staker_info.ratio_weight = ratio_weight;
            staker_info.week_weight = week_weight;
            store.stakers.insert(real_referral_addr, referral_info);
            store.stakers.insert(sender, staker_info);
            store.detail = detail;
            Ok(Response::Stake { stake_amount: amount })
        },
        _ => Err(ContractError::OverflowError),
    }
}

/// Withdraws `amount` of the sender's stake together with all rewards,
/// once the position's lock has passed. Refused while the pool is
/// disabled and when no reward has accrued.
pub fn execute_unstake(store: &mut Store, now: u64, info_sender: String, amount: u128, oracle: Oracle) -> (r: Result<
    Response,
    ContractError,
>)
    ensures
        outcome_is(
            spec_execute_unstake(old(store)@, now, info_sender@, amount, oracle),
            old(store)@,
            final(store)@,
            r,
        ),
{
    check_enabled(store)?;
    let mut staker_info = refreshed_staker(store, now, &info_sender, oracle.staked_value)?;
    if amount > staker_info.stake_amount {
        return Err(ContractError::InvalidInput);
    }
    if !check_lock(now, staker_info.staked_timestamp, staker_info.lock_week) {
        return Err(ContractError::StillInLock);
    }
    let weights = (
        withdrawn_share(staker_info.ratio_weight, amount, staker_info.stake_amount),
        withdrawn_share(staker_info.week_weight, amount, staker_info.stake_amount),
    );
    let detail = match detail_closed(store.detail, weights, amount) {
        Some(v) => v,
        None => {
            return Err(ContractError::OverflowError);
        },
    };
    let total_rewards = match staker_info.reward_amount.checked_add(staker_info.last_reward) {
        Some(v) => v,
        None => {
            return Err(ContractError::OverflowError);
        },
    };
    if total_rewards == 0 {
        return Err(ContractError::NotEnoughReward);
    }
    let amount1 = after_tax(&store.config.staking_asset, amount, oracle.staking_tax)?;
    let amount2 = after_tax(&store.config.reward_asset, total_rewards, oracle.reward_tax)?;
    staker_info.stake_amount = staker_info.stake_amount - amount;
    staker_info.ratio_weight = staker_info.ratio_weight - weights.0;
    staker_info.week_weight = staker_info.week_weight - weights.1;
    staker_info.reward_amount = 0;
    staker_info.last_reward = 0;
    staker_info.reward_timestamp = now;
    let staking_payout = transfer_token_message(store.config.staking_asset.to_denom(), amount1, info_sender.clone());
    let reward_payout = transfer_token_message(store.config.reward_asset.to_denom(), amount2, info_sender.clone());
    proof {
        let mid = spec_update_reward(store@, now, info_sender@, oracle.staked_value).unwrap().0;
        assert(mid.stakers.insert(info_sender@, staker_info@) =~= store@.stakers.insert(
            info_sender@,
            staker_info@,
        ));
    }
    store.stakers.insert(info_sender, staker_info);
    store.detail = detail;
    Ok(Response::Unstake { staking_payout, reward_payout, unstaked_amount: amount })
}

/// Pays out all of the sender's rewards once the position's lock has
/// passed. Refused while the pool is disabled and when no reward has
/// accrued.
pub fn execute_claim_reward(store: &mut Store, now: u64, info_sender: String, oracle: Oracle) -> (r: Result<
    Response,
    ContractError,
>)
    ensures
        outcome_is(
            spec_execute_claim_reward(old(store)@, now, info_sender@, oracle),
            old(store)@,
            final(store)@,
            r,
        ),
{
    check_enabled(store)?;
    let mut staker_info = refreshed_staker(store, now, &info_sender, oracle.staked_value)?;
    if !check_lock(now, staker_info.staked_timestamp, staker_info.lock_week) {
        return Err(ContractError::StillInLock);
    }
    let reward_amount = match staker_info.reward_amount.checked_add(staker_info.last_reward) {
        Some(v) => v,
        None => {
            return Err(ContractError::OverflowError);
        },
    };
    if reward_amount == 0 {
        return Err(ContractError::NotEnoughReward);
    }
    staker_info.reward_timestamp = now;
    staker_info.reward_amount = 0;
    staker_info.last_reward = 0;
    let payout = transfer_token_message(store.config.reward_asset.to_denom(), reward_amount, info_sender.clone());
    proof {
        let mid = spec_update_reward(store@, now, info_sender@, oracle.staked_value).unwrap().0;
        assert(mid.stakers.insert(info_sender@, staker_info@) =~= store@.stakers.insert(
            info_sender@,
            staker_info@,
        ));
    }
    store.stakers.insert(info_sender, staker_info);
    Ok(Response::ClaimReward { payout, reward_amount })
}

/// Whether a referrer whose first bonus came at `referral_timestamp` must
/// still wait at `now`.
pub fn referral_locked(now: u64, referral_timestamp: u64, referral_lock_days: u64) -> (r: bool)
    ensures
        r == spec_referral_locked(now, referral_timestamp, referral_lock_days),
{
    let days: u128 = referral_lock_days as u128;
    let day: u128 = ONE_DAY as u128;
    assert(days * day <= 0xffff_ffff_ffff_ffff * 86400) by (nonlinear_arith)
        requires
            days <= 0xffff_ffff_ffff_ffff,
            day == 86400,
    ;
    let unlock: u128 = referral_timestamp as u128 + days * day;
    (now as u128) < unlock
}

/// Pays out the sender's referral bonus once the referral lock has
/// passed. Refused while the pool is disabled and when there is no bonus.
pub fn execute_claim_referral_reward(store: &mut Store, now: u64, info_sender: String, oracle: Oracle) -> (r:
    Result<Response, ContractError>)
    ensures
        outcome_is(
            spec_execute_claim_referral_reward(old(store)@, now, info_sender@, oracle),
            old(store)@,
            final(store)@,
            r,
        ),
{
    check_enabled(store)?;
    let mut staker_info = refreshed_staker(store, now, &info_sender, oracle.staked_value)?;
    if referral_locked(now, staker_info.referral_timestamp, store.config.referral_lock_days) {
        return Err(ContractError::StillInLock);
    }
    if staker_info.referral_reward == 0 {
        return Err(ContractError::NotEnoughReward);
    }
    let referral_reward = staker_info.referral_reward;
    staker_info.referral_reward = 0;
    let payout = transfer_token_message(store.config.reward_asset.to_denom(), referral_reward, info_sender.clone());
    proof {
        let mid = spec_update_reward(store@, now, info_sender@, oracle.staked_value).unwrap().0;
        assert(mid.stakers.insert(info_sender@, staker_info@) =~= store@.stakers.insert(
            info_sender@,
            staker_info@,
        ));
    }
    store.stakers.insert(info_sender, staker_info);
    Ok(Response::ClaimReferralReward { payout, reward_amount: referral_reward })
}

/// Sweeps the pool's balances of both assets to the owner, net of tax on
/// native coins. Where both assets are the same, one payment covers it.
pub fn execute_withdraw(store: &mut Store, info_sender: String, oracle: Oracle) -> (r: Result<Response, ContractError>)
    ensures
        outcome_is(spec_execute_withdraw(old(store)@, info_sender@, oracle), old(store)@, final(store)@, r),
{
    check_owner(store, &info_sender)?;
    let amount1 = after_tax(&store.config.staking_asset, oracle.pool_staking_balance, oracle.staking_tax)?;
    let mut amount2 = after_tax(&store.config.reward_asset, oracle.pool_reward_balance, oracle.reward_tax)?;
    let staking_payout = transfer_token_message(store.config.staking_asset.to_denom(), amount1, info_sender.clone());
    let mut reward_payout: Option<crate::staking::msg::TransferMsg> = None;
    if store.config.staking_asset.equal(&store.config.reward_asset) {
        amount2 = 0;
    } else {
        reward_payout = Some(transfer_token_message(store.config.reward_asset.to_denom(), amount2, info_sender));
    }
    Ok(Response::Withdraw { staking_payout, second_payout: reward_payout, amount1, amount2 })
}

/// Passes only the owner.
pub fn check_owner(store: &Store, info_sender: &String) -> (r: Result<Response, ContractError>)
    ensures
        match r {
            Ok(given) => info_sender@ == store@.config.owner && given@ == ResponseView::CheckOwner,
            Err(e) => info_sender@ != store@.config.owner && e == ContractError::Unauthorized,
        },
{
    if *info_sender != store.config.owner {
        return Err(ContractError::Unauthorized);
    }
    Ok(Response::CheckOwner)
}

/// Passes only while the pool is enabled.
pub fn check_enabled(store: &Store) -> (r: Result<Response, ContractError>)
    ensures
        match r {
            Ok(given) => store@.config.enabled && given@ == ResponseView::CheckEnabled,
            Err(e) => !store@.config.enabled && e == ContractError::Disabled,
        },
{
    if !store.config.enabled {
        return Err(ContractError::Disabled);
    }
    Ok(Response::CheckEnabled)
}

/// The configuration as a query reports it.
pub open spec fn spec_query_config(store: StoreView) -> ConfigResponseView {
    ConfigResponseView {
        owner: store.config.owner,
        staking_asset: store.config.staking_asset,
        reward_asset: store.config.reward_asset,
        router_address: store.config.router_address,
        min_lock_week: store.config.min_lock_week,
        max_lock_week: store.config.max_lock_week,
        min_ratio: store.config.min_ratio,
        max_ratio: store.config.max_ratio,
        referral_rate: store.config.referral_rate,
        referral_lock_days: store.config.referral_lock_days,
        enabled: store.config.enabled,
    }
}

/// The position of `address` with its running reward as of `now`; a
/// reward that cannot be computed is reported as zero.
pub open spec fn spec_query_staking_info(
    store: StoreView,
    now: u64,
    address: Seq<char>,
    staked_value: u128,
) -> StakingResponseView {
    let staker = staker_or_default(store.stakers, address);
    StakingResponseView {
        address,
        info: StakerInfoView {
            reward_amount: if staker.stake_amount == 0 {
                0
            } else {
                match spec_calc_reward(
                    store.config,
                    now,
                    staker.lock_week,
                    spec_stake_value(store.config, staker, staked_value),
                    staker.reward_timestamp,
                ) {
                    Ok(reward) => reward,
                    Err(_) => 0,
                }
            },
            ..staker
        },
    }
}

/// Reports the configuration.
pub fn query_config(store: &Store) -> (r: ConfigResponse)
    ensures
        r@ == spec_query_config(store@),
{
    ConfigResponse {
        owner: store.config.owner.clone(),
        staking_asset: store.config.staking_asset.clone(),
        reward_asset: store.config.reward_asset.clone(),
        router_address: store.config.router_address.clone(),
        min_lock_week: store.config.min_lock_week,
        max_lock_week: store.config.max_lock_week,
        min_ratio: store.config.min_ratio,
        max_ratio: store.config.max_ratio,
        referral_rate: store.config.referral_rate,
        referral_lock_days: store.config.referral_lock_days,
        enabled: store.config.enabled,
    }
}

/// Reports the position of `address` with its running reward as of `now`,
/// on the value that its stake has in reward units. The store stays as it
/// is, and the answer is never an error.
pub fn query_staking_info(store: &Store, now: u64, address: String, staked_value: u128) -> (r: StakingResponse)
    ensures
        r@ == spec_query_staking_info(store@, now, address@, staked_value),
{
    let mut staker_info = store.staker(&address);
    let mut reward: u128 = 0;
    if staker_info.stake_amount != 0 {
        let swap_amount = get_simulate_swap_operations(
            staker_info.stake_amount,
            &store.config.staking_asset,
            &store.config.reward_asset,
            staked_value,
        );
        reward =
        match calc_reward(&store.config, now, staker_info.lock_week, swap_amount, staker_info.reward_timestamp) {
            Ok(v) => v,
            Err(_) => 0,
        };
    }
    staker_info.reward_amount = reward;
    StakingResponse { address, info: staker_info }
}

/// Reports the running totals.
pub fn query_staked_detail(store: &Store) -> (r: StakedDetail)
    ensures
        r == store@.detail,
{
    store.detail
}

/// Reports the current time.
pub fn query_get_now(now: u64) -> (r: u64)
    ensures
        r == now,
{
    now
}

/// Accepts every migration and changes nothing.
pub fn migrate(msg: MigrateMsg) -> (r: Result<Response, ContractError>)
    ensures
        r matches Ok(given) && given@ == ResponseView::Empty,
{
    Ok(Response::Empty)
}

/// Entries on one page: what was asked for, ten when nothing was, and
/// never more than thirty.
pub open spec fn spec_page_limit(limit: Option<u32>) -> nat {
    let asked = match limit {
        Some(l) => l,
        None => DEFAULT_LIMIT,
    };
    if asked < MAX_LIMIT {
        asked as nat
    } else {
        MAX_LIMIT as nat
    }
}

/// Whether `page` is the page of at most `limit` positions behind
/// `start_after`: its entries are positions of the pool behind
/// `start_after`, in ascending order of address, and the pool has no
/// position behind `start_after` that the page leaves out, unless the page
/// is full and the position lies behind its last entry.
pub open spec fn is_page(
    stakers: Map<Seq<char>, StakerInfoView>,
    start_after: Option<Seq<char>>,
    limit: nat,
    page: Seq<StakingList>,
) -> bool {
    &&& page.len() <= limit
    &&& forall|i: int|
        0 <= i < page.len() ==> {
            &&& stakers.contains_key((#[trigger] page[i]).address@)
            &&& page[i].info@ == stakers[page[i].address@]
            &&& key_after(start_after, page[i].address@)
        }
    &&& forall|i: int, j: int|
        0 <= i < j < page.len() ==> key_lt((#[trigger] page[i]).address@, (#[trigger] page[j]).address@)
    &&& forall|k: Seq<char>| #[trigger]
        stakers.contains_key(k) && key_after(start_after, k) ==> holds_key(page, k) || (page.len() == limit
            && (limit == 0 || key_lt(page[limit - 1].address@, k)))
}

/// Whether `page` has an entry for the address `key`.
pub open spec fn holds_key(page: Seq<StakingList>, key: Seq<char>) -> bool {
    exists|i: int| 0 <= i < page.len() && (#[trigger] page[i]).address@ == key
}

/// Whether `r` answers `msg` at `now`.
pub open spec fn answers(store: StoreView, now: u64, msg: QueryMsg, staked_value: u128, r: QueryResponse) -> bool {
    match msg {
        QueryMsg::Config {  } => r matches QueryResponse::Config(c) && c@ == spec_query_config(store),
        QueryMsg::StakerInfo { address } => r matches QueryResponse::StakerInfo(info) && info@
            == spec_query_staking_info(store, now, address@, staked_value),
        QueryMsg::StakingList { start_after, limit } => r matches QueryResponse::StakingList(page) && is_page(
            store.stakers,
            opt_view(start_after),
            spec_page_limit(limit),
            page.list@,
        ),
        QueryMsg::StakedDetail {  } => r matches QueryResponse::StakedDetail(d) && d == store.detail,
        QueryMsg::Now {  } => r matches QueryResponse::Now(t) && t == now,
    }
}

/// Answers a read-only request; the store stays as it is.
pub fn query(store: &Store, now: u64, msg: QueryMsg, staked_value: u128) -> (r: QueryResponse)
    ensures
        answers(store@, now, msg, staked_value, r),
{
    match msg {
        QueryMsg::Config {  } => QueryResponse::Config(query_config(store)),
        QueryMsg::StakerInfo { address } => QueryResponse::StakerInfo(
            query_staking_info(store, now, address, staked_value),
        ),
        QueryMsg::StakingList { start_after, limit } => QueryResponse::StakingList(
            query_get_staking_list(store, start_after, limit),
        ),
        QueryMsg::StakedDetail {  } => QueryResponse::StakedDetail(query_staked_detail(store)),
        QueryMsg::Now {  } => QueryResponse::Now(query_get_now(now)),
    }
}

/// Entries on one page.
pub fn page_limit(limit: Option<u32>) -> (r: usize)
    ensures
        r == spec_page_limit(limit),
{
    let asked: u32 = match limit {
        Some(l) => l,
        None => DEFAULT_LIMIT,
    };
    if asked < MAX_LIMIT {
        asked as usize
    } else {
        MAX_LIMIT as usize
    }
}

/// Reports one page of positions in ascending order of address,
/// starting behind `start_after`.
pub fn query_get_staking_list(store: &Store, start_after: Option<String>, limit: Option<u32>) -> (r:
    StakingListResponse)
    ensures
        is_page(store@.stakers, opt_view(start_after), spec_page_limit(limit), r.list@),
{
    let limit = page_limit(limit);
    let ghost start = opt_view(start_after);
    let ghost stakers = store@.stakers;
    let mut list: Vec<StakingList> = Vec::new();
    let mut bound: Option<String> = start_after;
    let mut exhausted = false;
    while list.len() < limit && !exhausted
        invariant
            stakers == store@.stakers,
            list@.len() <= limit,
            opt_view(bound) == (if list@.len() == 0 {
                start
            } else {
                Some(list@[list@.len() - 1].address@)
            }),
            forall|i: int|
                0 <= i < list@.len() ==> {
                    &&& stakers.contains_key((#[trigger] list@[i]).address@)
                    &&& list@[i].info@ == stakers[list@[i].address@]
                    &&& key_after(start, list@[i].address@)
                },
            forall|i: int, j: int|
                0 <= i < j < list@.len() ==> key_lt(
                    (#[trigger] list@[i]).address@,
                    (#[trigger] list@[j]).address@,
                ),
            forall|k: Seq<char>| #[trigger]
                stakers.contains_key(k) && key_after(start, k) ==> holds_key(list@, k) || (!exhausted
                    && key_after(opt_view(bound), k)),
        decreases limit - list@.len() + (if exhausted { 0int } else { 1int }),
    {
        let ghost before = list@;
        let ghost old_bound = opt_view(bound);
        let next = match &bound {
            Some(b) => store.stakers.next_after(Some(b)),
            None => store.stakers.next_after(None),
        };
        match next {
            None => {
                exhausted = true;
            },
            Some(entry) => {
                let address = entry.address.clone();
                let info = entry.info.clone();
                bound = Some(entry.address.clone());
                list.push(StakingList { address, info });
                proof {
                    let fresh = entry.address@;
                    let n = before.len() as int;
                    assert(list@[n].address@ == fresh);
                    assert forall|i: int| 0 <= i < n implies list@[i] == before[i] by {}
                    assert(key_after(start, fresh)) by {
                        if n > 0 && start.is_some() {
                            lemma_key_lt_transitive(start.unwrap(), before[n - 1].address@, fresh);
                        }
                    }
                    assert forall|i: int, j: int| 0 <= i < j < list@.len() implies key_lt(
                        (#[trigger] list@[i]).address@,
                        (#[trigger] list@[j]).address@,
                    ) by {
                        if j == n && i < n - 1 {
                            assert(key_lt(before[i].address@, before[n - 1].address@));
                            lemma_key_lt_transitive(before[i].address@, before[n - 1].address@, fresh);
                        }
                    }
                    assert forall|k: Seq<char>| #[trigger]
                        stakers.contains_key(k) && key_after(start, k) implies holds_key(list@, k) || key_after(
                        Some(fresh),
                        k,
                    ) by {
                        if holds_key(before, k) {
                            let i = choose|i: int| 0 <= i < before.len() && (#[trigger] before[i]).address@ == k;
                            assert(list@[i].address@ == k);
                        } else if k == fresh {
                            assert(list@[n].address@ == k);
                        }
                    }
                }
            },
        }
    }
    StakingListResponse { list }
}

} // verus!
