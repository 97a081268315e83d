//! What holds of the farming pool whatever the inputs.

use vstd::prelude::*;
use crate::farming::contract::lemma_zero_ratio;
use crate::farming::contract::spec_compute_reward;
use crate::farming::contract::spec_projection_time;
use crate::farming::contract::spec_query_staker_info;
use crate::farming::contract::spec_query_state;
use crate::farming::contract::spec_compute_staker_reward;
use crate::farming::contract::spec_compute_state_extra;
use crate::farming::contract::spec_distribution_rate;
use crate::farming::contract::spec_stake;
use crate::farming::contract::spec_time_passed;
use crate::farming::state::staker_or_default;
use crate::farming::state::ConfigView;
use crate::farming::state::StakerInfoView;
use crate::farming::state::StateInfo;
use crate::farming::state::StoreView;
use crate::math::lemma_rate_times_time_within_total;
use crate::math::lemma_scale_floor_monotone_amount;
use crate::math::scale_floor;
use crate::math::Decimal;

verus! {

/// A settlement never lowers the reward index, whatever the timestamp, and
/// leaves the total stake alone.
pub proof fn law_index_never_decreases(config: ConfigView, state: StateInfo, timestamp: u64)
    requires
        spec_compute_reward(config, state, timestamp).is_some(),
    ensures
        spec_compute_reward(config, state, timestamp).unwrap().global_reward_index.atomics
            >= state.global_reward_index.atomics,
        spec_compute_reward(config, state, timestamp).unwrap().total_stake_amount == state.total_stake_amount,
        spec_compute_reward(config, state, timestamp).unwrap().last_distributed == timestamp,
{
}

/// Over two settlements in a row the reward index does not fall.
pub proof fn law_index_monotone_over_settlements(config: ConfigView, state: StateInfo, first: u64, second: u64)
    requires
        first <= second,
        spec_compute_reward(config, state, first).is_some(),
        spec_compute_reward(config, spec_compute_reward(config, state, first).unwrap(), second).is_some(),
    ensures
        state.global_reward_index.atomics <= spec_compute_reward(
            config,
            state,
            first,
        ).unwrap().global_reward_index.atomics <= spec_compute_reward(
            config,
            spec_compute_reward(config, state, first).unwrap(),
            second,
        ).unwrap().global_reward_index.atomics,
{
    law_index_never_decreases(config, state, first);
    law_index_never_decreases(config, spec_compute_reward(config, state, first).unwrap(), second);
}

/// What the schedule has left to release does not grow with time, and
/// never exceeds the schedule's amount.
pub proof fn law_leftover_never_increases(
    config: ConfigView,
    earlier: StateInfo,
    later: StateInfo,
    first: u64,
    second: u64,
)
    requires
        first <= second,
        spec_compute_state_extra(config, earlier, first).is_some(),
        spec_compute_state_extra(config, later, second).is_some(),
    ensures
        spec_compute_state_extra(config, later, second).unwrap().leftover <= spec_compute_state_extra(
            config,
            earlier,
            first,
        ).unwrap().leftover <= config.distribution_schedule.2,
{
    let s = config.distribution_schedule;
    if s.0 < first && first < s.1 {
        let rate = spec_distribution_rate(s).unwrap();
        lemma_rate_times_time_within_total(s.2 as int, s.1 - s.0, s.1 - first);
        if second < s.1 {
            lemma_rate_times_time_within_total(s.2 as int, s.1 - s.0, s.1 - second);
            lemma_scale_floor_monotone_amount(s.1 - second, s.1 - first, rate.atomics as int);
        }
    } else if s.0 < second && second < s.1 {
        lemma_rate_times_time_within_total(s.2 as int, s.1 - s.0, s.1 - second);
    }
}

/// Up to the start of the schedule a settlement leaves the reward index
/// where it was and reports the whole amount as left over.
pub proof fn law_before_start_index_unchanged(config: ConfigView, state: StateInfo, timestamp: u64)
    requires
        timestamp <= config.distribution_schedule.0,
    ensures
        spec_compute_reward(config, state, timestamp).is_some(),
        spec_compute_reward(config, state, timestamp).unwrap().global_reward_index
            == state.global_reward_index,
        spec_compute_reward(config, state, timestamp).unwrap().leftover == config.distribution_schedule.2,
{
    let s = config.distribution_schedule;
    if state.total_stake_amount != 0 {
        assert(spec_time_passed(s, state.last_distributed, timestamp) == 0);
        lemma_zero_ratio(state.total_stake_amount);
    }
}

/// From the end of a schedule that has started, nothing is left over.
pub proof fn law_after_finish_nothing_left(config: ConfigView, state: StateInfo, timestamp: u64)
    requires
        timestamp > config.distribution_schedule.0,
        timestamp >= config.distribution_schedule.1,
        spec_compute_reward(config, state, timestamp).is_some(),
    ensures
        spec_compute_reward(config, state, timestamp).unwrap().leftover == 0,
        spec_compute_reward(config, state, timestamp).unwrap().reward_rate_per_token.atomics == 0,
{
}

/// Settling a second time at the same timestamp changes nothing: a state
/// projected to a time is its own projection to that time.
pub proof fn law_settlement_is_idempotent(config: ConfigView, state: StateInfo, timestamp: u64)
    requires
        spec_compute_reward(config, state, timestamp).is_some(),
    ensures
        spec_compute_reward(config, spec_compute_reward(config, state, timestamp).unwrap(), timestamp)
            == spec_compute_reward(config, state, timestamp),
{
    let s = config.distribution_schedule;
    let once = spec_compute_reward(config, state, timestamp).unwrap();
    assert(once.total_stake_amount == state.total_stake_amount);
    assert(once.last_distributed == timestamp);
    assert(spec_compute_state_extra(config, state, timestamp).is_some());
    let extra = spec_compute_state_extra(config, state, timestamp).unwrap();
    assert(once.leftover == extra.leftover);
    assert(once.reward_rate_per_token == extra.reward_rate_per_token);
    assert(spec_compute_state_extra(config, once, timestamp) == Some(once));
    if state.total_stake_amount != 0 {
        assert(spec_time_passed(s, timestamp, timestamp) == 0);
        lemma_zero_ratio(state.total_stake_amount);
    }
}

/// Settling a staker a second time against the same index changes
/// nothing.
pub proof fn law_staker_settlement_is_idempotent(index: Decimal, staker: StakerInfoView)
    requires
        spec_compute_staker_reward(index, staker).is_some(),
    ensures
        spec_compute_staker_reward(index, spec_compute_staker_reward(index, staker).unwrap())
            == spec_compute_staker_reward(index, staker),
{
    assert(scale_floor(staker.stake_amount as int, 0) == 0) by {
        assert(staker.stake_amount * 0 == 0);
    }
}

/// The first referrer stays. When a staker without a referrer stakes with
/// `first` as referrer and then again with `second`, the staker's referrer
/// is `first` after both, `first` has one more referral than before, and
/// the record of a different `second` is as it was.
pub proof fn law_referral_is_sticky(
    pre: StoreView,
    sender: Seq<char>,
    first_time: u64,
    first_amount: u128,
    first: Seq<char>,
    second_time: u64,
    second_amount: u128,
    second: Seq<char>,
)
    requires
        staker_or_default(pre.stakers, sender).referral_addr.len() == 0,
        spec_stake(pre, first_time, sender, first_amount, first).is_ok(),
        spec_stake(
            spec_stake(pre, first_time, sender, first_amount, first).unwrap().0,
            second_time,
            sender,
            second_amount,
            second,
        ).is_ok(),
    ensures
        ({
            let mid = spec_stake(pre, first_time, sender, first_amount, first).unwrap().0;
            let post = spec_stake(mid, second_time, sender, second_amount, second).unwrap().0;
            &&& mid.stakers[sender].referral_addr == first
            &&& post.stakers[sender].referral_addr == first
            &&& mid.stakers[first].referral_count == staker_or_default(pre.stakers, first).referral_count + 1
            &&& post.stakers[first].referral_count == mid.stakers[first].referral_count
            &&& second != first ==> staker_or_default(post.stakers, second) == staker_or_default(
                pre.stakers,
                second,
            )
        }),
{
}

/// A query sees what a settlement would leave. Where the pool was
/// settled at the time a query looks at, and the staker against it, the
/// query answers from the settled store what it answered before: a
/// projection and a settlement at one time agree, and projecting again
/// changes nothing.
pub proof fn law_query_agrees_with_settlement(
    store: StoreView,
    now: u64,
    timestamp: Option<u64>,
    staker: Seq<char>,
)
    requires
        spec_query_staker_info(store, now, staker, timestamp).is_ok(),
    ensures
        ({
            let at = spec_projection_time(now, timestamp);
            let state = spec_compute_reward(store.config, store.state, at).unwrap();
            let settled = spec_compute_staker_reward(
                state.global_reward_index,
                staker_or_default(store.stakers, staker),
            ).unwrap();
            let after = StoreView { state, stakers: store.stakers.insert(staker, settled), ..store };
            &&& spec_query_state(after, now, timestamp) == spec_query_state(store, now, timestamp)
            &&& spec_query_staker_info(after, now, staker, timestamp) == spec_query_staker_info(
                store,
                now,
                staker,
                timestamp,
            )
        }),
{
    let at = spec_projection_time(now, timestamp);
    let state = spec_compute_reward(store.config, store.state, at).unwrap();
    law_settlement_is_idempotent(store.config, store.state, at);
    law_staker_settlement_is_idempotent(state.global_reward_index, staker_or_default(store.stakers, staker));
}

} // verus!
