//! What holds of the staking pool whatever the inputs.

use vstd::prelude::*;
use vstd::arithmetic::div_mod::lemma_fundamental_div_mod;
use crate::order::key_lt;
use crate::order::lemma_key_lt_irreflexive;
use crate::order::lemma_key_lt_transitive;
use crate::order::lemma_key_order_is_total;
use crate::staking::contract::holds_key;
use crate::staking::contract::is_page;
use crate::staking::contract::spec_calc_ratio;
use crate::staking::contract::spec_execute;
use crate::staking::contract::spec_execute_unstake;
use crate::staking::msg::ExecuteMsg;
use crate::math::lemma_share_within_whole;
use vstd::arithmetic::div_mod::lemma_div_by_multiple;
use vstd::arithmetic::div_mod::lemma_div_pos_is_pos;
use crate::staking::error::ContractError;
use crate::staking::msg::StakerInfoView;
use crate::staking::msg::StakingList;
use crate::staking::contract::spec_calc_reward;
use crate::staking::contract::spec_check_lock;
use crate::staking::contract::spec_execute_stake;
use crate::staking::contract::spec_ratio_value;
use crate::staking::contract::Oracle;
use crate::staking::contract::DEFAULT_PRECISION;
use crate::staking::contract::ONE_WEEK;
use crate::staking::state::staker_or_default;
use crate::staking::state::ConfigView;
use crate::staking::state::StoreView;

verus! {

/// The curve's rise at a lock is the exact quotient rounded down: times
/// the squared span of the lock weeks it stays within the scaled span of
/// the ratios times the squared weeks beyond the shortest lock, and misses
/// it by less than the squared span.
pub proof fn lemma_curve_rise_bounds(config: ConfigView, lock_week: u64)
    requires
        config.wf(),
        config.min_lock_week != config.max_lock_week,
        lock_week >= config.min_lock_week,
    ensures
        ({
            let span = (config.max_lock_week - config.min_lock_week) * (config.max_lock_week
                - config.min_lock_week);
            let rise = (config.max_ratio - config.min_ratio) * DEFAULT_PRECISION;
            let squared = (lock_week - config.min_lock_week) * (lock_week - config.min_lock_week);
            let curve = spec_ratio_value(config, lock_week) - config.min_ratio * DEFAULT_PRECISION;
            &&& span > 0
            &&& rise >= 0
            &&& squared >= 0
            &&& curve == (rise * squared) / span
            &&& 0 <= curve
            &&& curve * span <= rise * squared < curve * span + span
        }),
{
    let d_x = config.max_lock_week - config.min_lock_week;
    let d_y = config.max_ratio - config.min_ratio;
    let k = lock_week - config.min_lock_week;
    let span = d_x * d_x;
    let rise = d_y * DEFAULT_PRECISION;
    let squared = k * k;
    assert(span > 0) by (nonlinear_arith)
        requires
            d_x > 0,
            span == d_x * d_x,
    ;
    assert(rise >= 0) by (nonlinear_arith)
        requires
            d_y >= 0,
            rise == d_y * DEFAULT_PRECISION,
    ;
    assert(squared >= 0) by (nonlinear_arith)
        requires
            squared == k * k,
    ;
    assert(rise * squared >= 0) by (nonlinear_arith)
        requires
            rise >= 0,
            squared >= 0,
    ;
    lemma_fundamental_div_mod(rise * squared, span);
    lemma_div_pos_is_pos(rise * squared, span);
    let curve = (rise * squared) / span;
    assert(span * curve == curve * span) by (nonlinear_arith);
}

/// At the shortest lock the ratio is the lowest ratio, exactly.
pub proof fn law_ratio_at_min_lock(config: ConfigView)
    requires
        config.wf(),
        config.min_lock_week != config.max_lock_week,
        config.min_ratio * DEFAULT_PRECISION <= u64::MAX,
    ensures
        spec_calc_ratio(config, config.min_lock_week) == Ok::<u64, ContractError>(
            (config.min_ratio * DEFAULT_PRECISION) as u64,
        ),
{
    lemma_curve_rise_bounds(config, config.min_lock_week);
    let rise = (config.max_ratio - config.min_ratio) * DEFAULT_PRECISION;
    assert(rise * (0int * 0int) == 0) by (nonlinear_arith);
}

/// At the longest lock the ratio is the highest ratio, exactly.
pub proof fn law_ratio_at_max_lock(config: ConfigView)
    requires
        config.wf(),
        config.min_lock_week != config.max_lock_week,
        config.max_ratio * DEFAULT_PRECISION <= u64::MAX,
    ensures
        spec_calc_ratio(config, config.max_lock_week) == Ok::<u64, ContractError>(
            (config.max_ratio * DEFAULT_PRECISION) as u64,
        ),
{
    lemma_curve_rise_bounds(config, config.max_lock_week);
    let d_x = config.max_lock_week - config.min_lock_week;
    let span = d_x * d_x;
    let rise = (config.max_ratio - config.min_ratio) * DEFAULT_PRECISION;
    lemma_div_by_multiple(rise, span);
    assert(rise + config.min_ratio * DEFAULT_PRECISION == config.max_ratio * DEFAULT_PRECISION)
        by (nonlinear_arith)
        requires
            rise == (config.max_ratio - config.min_ratio) * DEFAULT_PRECISION,
    ;
    assert(config.max_ratio * DEFAULT_PRECISION >= 0) by (nonlinear_arith);
}

/// Between the bounds the curve lies strictly below the straight line
/// from the lowest to the highest ratio: times the span of the lock weeks,
/// the ratio's rise over the lowest ratio is less than the scaled span of
/// the ratios times the weeks beyond the shortest lock.
pub proof fn law_ratio_below_linear(config: ConfigView, lock_week: u64)
    requires
        config.min_lock_week < lock_week < config.max_lock_week,
        config.min_ratio < config.max_ratio,
        config.max_ratio * DEFAULT_PRECISION <= u64::MAX,
    ensures
        spec_calc_ratio(config, lock_week).is_ok(),
        (spec_calc_ratio(config, lock_week).unwrap() - config.min_ratio * DEFAULT_PRECISION) * (
        config.max_lock_week - config.min_lock_week) < ((config.max_ratio - config.min_ratio)
            * DEFAULT_PRECISION) * (lock_week - config.min_lock_week),
        config.min_ratio * DEFAULT_PRECISION <= spec_calc_ratio(config, lock_week).unwrap() < config.max_ratio
            * DEFAULT_PRECISION,
{
    lemma_curve_rise_bounds(config, lock_week);
    let d_x = config.max_lock_week - config.min_lock_week;
    let d_y = config.max_ratio - config.min_ratio;
    let k = lock_week - config.min_lock_week;
    let span = d_x * d_x;
    let rise = d_y * DEFAULT_PRECISION;
    let squared = k * k;
    let curve = (rise * squared) / span;
    assert(rise > 0) by (nonlinear_arith)
        requires
            d_y > 0,
            rise == d_y * DEFAULT_PRECISION,
    ;
    assert(rise + config.min_ratio * DEFAULT_PRECISION == config.max_ratio * DEFAULT_PRECISION)
        by (nonlinear_arith)
        requires
            rise == d_y * DEFAULT_PRECISION,
            d_y == config.max_ratio - config.min_ratio,
    ;
    assert(config.min_ratio * DEFAULT_PRECISION >= 0) by (nonlinear_arith);
    let line = rise * k;
    assert(rise * squared < line * d_x) by (nonlinear_arith)
        requires
            0 < k < d_x,
            rise > 0,
            squared == k * k,
            line == rise * k,
    ;
    assert(curve * span == (curve * d_x) * d_x) by (nonlinear_arith)
        requires
            span == d_x * d_x,
    ;
    assert(curve * d_x < line) by (nonlinear_arith)
        requires
            (curve * d_x) * d_x < line * d_x,
            d_x > 0,
    ;
    assert(rise * squared < rise * span) by (nonlinear_arith)
        requires
            0 < k < d_x,
            rise > 0,
            squared == k * k,
            span == d_x * d_x,
    ;
    assert(curve < rise) by (nonlinear_arith)
        requires
            curve * span < rise * span,
            span > 0,
    ;
}

/// A lock that has ended stays ended: once a position may be withdrawn,
/// it may be withdrawn at every later time, and never before `lock_week`
/// weeks have passed since it was staked.
pub proof fn law_lock_ends_once(now: u64, later: u64, staked_timestamp: u64, lock_week: u64)
    requires
        now <= later,
    ensures
        spec_check_lock(now, staked_timestamp, lock_week) ==> spec_check_lock(later, staked_timestamp, lock_week),
        spec_check_lock(now, staked_timestamp, lock_week) <==> now - staked_timestamp >= lock_week * ONE_WEEK,
{
}

/// Before the reward clock starts nothing is earned, whatever the
/// configuration.
pub proof fn law_no_reward_before_clock(
    config: ConfigView,
    now: u64,
    lock_week: u64,
    value_amount: u128,
    reward_timestamp: u64,
)
    requires
        now < reward_timestamp,
    ensures
        spec_calc_reward(config, now, lock_week, value_amount, reward_timestamp) == Ok::<u128, ContractError>(
            0,
        ),
{
}

/// The first referrer stays. When a staker without a referrer stakes with
/// `first` as referrer and then again with `second`, the staker's referrer
/// is `first` after both, `first` has one more referral than before, and
/// the record of a different `second` is as it was.
pub proof fn law_referral_is_sticky(
    pre: StoreView,
    sender: Seq<char>,
    first_time: u64,
    first_lock: u64,
    first_amount: u128,
    first: Seq<char>,
    first_oracle: Oracle,
    second_time: u64,
    second_lock: u64,
    second_amount: u128,
    second: Seq<char>,
    second_oracle: Oracle,
)
    requires
        staker_or_default(pre.stakers, sender).referral_addr.len() == 0,
        spec_execute_stake(pre, first_time, sender, first_lock, first_amount, first, first_oracle).is_ok(),
        spec_execute_stake(
            spec_execute_stake(pre, first_time, sender, first_lock, first_amount, first, first_oracle).unwrap().0,
            second_time,
            sender,
            second_lock,
            second_amount,
            second,
            second_oracle,
        ).is_ok(),
    ensures
        ({
            let mid = spec_execute_stake(
                pre,
                first_time,
                sender,
                first_lock,
                first_amount,
                first,
                first_oracle,
            ).unwrap().0;
            let post = spec_execute_stake(
                mid,
                second_time,
                sender,
                second_lock,
                second_amount,
                second,
                second_oracle,
            ).unwrap().0;
            &&& mid.stakers[sender].referral_addr == first
            &&& post.stakers[sender].referral_addr == first
            &&& mid.stakers[first].referral_count == staker_or_default(pre.stakers, first).referral_count + 1
            &&& post.stakers[first].referral_count == mid.stakers[first].referral_count
            &&& second != first ==> staker_or_default(post.stakers, second) == staker_or_default(
                pre.stakers,
                second,
            )
        }),
{
}

/// A stake that succeeds leaves the position locked for the weeks asked
/// for, which lie within the configured bounds, with the lock and the
/// reward clock counting from the time of the stake.
pub proof fn law_stake_sets_lock_within_bounds(
    pre: StoreView,
    now: u64,
    sender: Seq<char>,
    lock_week: u64,
    amount: u128,
    referral: Seq<char>,
    oracle: Oracle,
)
    requires
        spec_execute_stake(pre, now, sender, lock_week, amount, referral, oracle).is_ok(),
    ensures
        ({
            let post = spec_execute_stake(pre, now, sender, lock_week, amount, referral, oracle).unwrap().0;
            &&& post.stakers.contains_key(sender)
            &&& post.stakers[sender].lock_week == lock_week
            &&& pre.config.min_lock_week <= lock_week <= pre.config.max_lock_week
            &&& post.stakers[sender].staked_timestamp == now
            &&& post.stakers[sender].reward_timestamp == now
            &&& post.stakers[sender].stake_amount == staker_or_default(pre.stakers, sender).stake_amount + amount
            &&& post.detail.total_staked == pre.detail.total_staked + amount
            &&& post.config == pre.config
        }),
{
}

/// Unstaking undoes staking, whatever became of the configuration. Let
/// an address without a position stake an amount. Then let anything change
/// but the totals and what the position holds, and let the address
/// withdraw the amount again. The totals are then as they were before the
/// stake, and the position holds nothing.
pub proof fn law_unstake_undoes_stake(
    pre: StoreView,
    staked_at: u64,
    sender: Seq<char>,
    lock_week: u64,
    amount: u128,
    referral: Seq<char>,
    stake_oracle: Oracle,
    held: StoreView,
    unstaked_at: u64,
    unstake_oracle: Oracle,
)
    requires
        staker_or_default(pre.stakers, sender).stake_amount == 0,
        staker_or_default(pre.stakers, sender).ratio_weight == 0,
        staker_or_default(pre.stakers, sender).week_weight == 0,
        spec_execute_stake(pre, staked_at, sender, lock_week, amount, referral, stake_oracle).is_ok(),
        ({
            let opened = spec_execute_stake(
                pre,
                staked_at,
                sender,
                lock_week,
                amount,
                referral,
                stake_oracle,
            ).unwrap().0;
            &&& held.detail == opened.detail
            &&& held.stakers.contains_key(sender)
            &&& held.stakers[sender].stake_amount == opened.stakers[sender].stake_amount
            &&& held.stakers[sender].ratio_weight == opened.stakers[sender].ratio_weight
            &&& held.stakers[sender].week_weight == opened.stakers[sender].week_weight
        }),
        spec_execute_unstake(held, unstaked_at, sender, amount, unstake_oracle).is_ok(),
    ensures
        ({
            let closed = spec_execute_unstake(held, unstaked_at, sender, amount, unstake_oracle).unwrap().0;
            &&& closed.detail == pre.detail
            &&& closed.stakers[sender].stake_amount == 0
            &&& closed.stakers[sender].ratio_weight == 0
            &&& closed.stakers[sender].week_weight == 0
        }),
{
    let opened = spec_execute_stake(pre, staked_at, sender, lock_week, amount, referral, stake_oracle).unwrap().0;
    let position = opened.stakers[sender];
    if amount > 0 {
        lemma_share_within_whole(position.ratio_weight as int, amount as int, amount as int);
        lemma_share_within_whole(position.week_weight as int, amount as int, amount as int);
    } else {
        let ratio = spec_calc_ratio(pre.config, lock_week).unwrap();
        assert(ratio * 0 == 0);
        assert(lock_week * 0 == 0);
    }
}

/// The bounds stay in order: whatever the request, a configuration whose
/// bounds are in order, as a new pool's are, is followed by one whose
/// bounds are in order.
pub proof fn law_config_stays_in_order(pre: StoreView, now: u64, sender: Seq<char>, msg: ExecuteMsg, oracle: Oracle)
    requires
        pre.config.wf(),
        spec_execute(pre, now, sender, msg, oracle).is_ok(),
    ensures
        spec_execute(pre, now, sender, msg, oracle).unwrap().0.config.wf(),
{
}

proof fn lemma_page_entry_not_before(
    stakers: Map<Seq<char>, StakerInfoView>,
    start_after: Option<Seq<char>>,
    limit: nat,
    p: Seq<StakingList>,
    q: Seq<StakingList>,
    i: int,
)
    requires
        is_page(stakers, start_after, limit, p),
        is_page(stakers, start_after, limit, q),
        0 <= i < p.len(),
        i < q.len(),
        forall|j: int| 0 <= j < i ==> (#[trigger] p[j]).address@ == q[j].address@,
    ensures
        !key_lt(p[i].address@, q[i].address@),
{
    let mine = p[i].address@;
    let theirs = q[i].address@;
    if key_lt(mine, theirs) {
        lemma_key_order_is_total(mine, theirs);
        assert(stakers.contains_key(mine));
        if holds_key(q, mine) {
            let j = choose|j: int| 0 <= j < q.len() && (#[trigger] q[j]).address@ == mine;
            if j < i {
                assert(p[j].address@ == q[j].address@);
                assert(key_lt(p[j].address@, p[i].address@));
                lemma_key_lt_irreflexive(mine);
            } else if j > i {
                assert(key_lt(q[i].address@, q[j].address@));
            }
        } else {
            let last = q[limit - 1].address@;
            if i < limit - 1 {
                assert(key_lt(q[i].address@, q[limit - 1].address@));
                lemma_key_lt_transitive(theirs, last, mine);
            }
        }
    }
}

proof fn lemma_pages_agree_upto(
    stakers: Map<Seq<char>, StakerInfoView>,
    start_after: Option<Seq<char>>,
    limit: nat,
    p: Seq<StakingList>,
    q: Seq<StakingList>,
    n: int,
)
    requires
        is_page(stakers, start_after, limit, p),
        is_page(stakers, start_after, limit, q),
        0 <= n <= p.len(),
        n <= q.len(),
    ensures
        forall|j: int| 0 <= j < n ==> (#[trigger] p[j]).address@ == q[j].address@,
    decreases n,
{
    if n > 0 {
        lemma_pages_agree_upto(stakers, start_after, limit, p, q, n - 1);
        assert forall|j: int| 0 <= j < n - 1 implies (#[trigger] q[j]).address@ == p[j].address@ by {
            assert(p[j].address@ == q[j].address@);
        }
        lemma_page_entry_not_before(stakers, start_after, limit, p, q, n - 1);
        lemma_page_entry_not_before(stakers, start_after, limit, q, p, n - 1);
        if p[n - 1].address@ != q[n - 1].address@ {
            lemma_key_order_is_total(p[n - 1].address@, q[n - 1].address@);
        }
    }
}

proof fn lemma_page_not_longer(
    stakers: Map<Seq<char>, StakerInfoView>,
    start_after: Option<Seq<char>>,
    limit: nat,
    p: Seq<StakingList>,
    q: Seq<StakingList>,
)
    requires
        is_page(stakers, start_after, limit, p),
        is_page(stakers, start_after, limit, q),
    ensures
        p.len() <= q.len(),
{
    if p.len() > q.len() {
        let n = q.len() as int;
        lemma_pages_agree_upto(stakers, start_after, limit, p, q, n);
        let extra = p[n].address@;
        assert(stakers.contains_key(extra));
        assert(holds_key(q, extra));
        let j = choose|j: int| 0 <= j < q.len() && (#[trigger] q[j]).address@ == extra;
        assert(p[j].address@ == q[j].address@);
        assert(key_lt(p[j].address@, p[n].address@));
        lemma_key_lt_irreflexive(extra);
    }
}

/// There is one page only: two pages for the same positions, the same
/// start and the same limit hold the same addresses with the same records
/// in the same order.
pub proof fn law_page_is_unique(
    stakers: Map<Seq<char>, StakerInfoView>,
    start_after: Option<Seq<char>>,
    limit: nat,
    p: Seq<StakingList>,
    q: Seq<StakingList>,
)
    requires
        is_page(stakers, start_after, limit, p),
        is_page(stakers, start_after, limit, q),
    ensures
        p.len() == q.len(),
        forall|i: int|
            0 <= i < p.len() ==> (#[trigger] p[i]).address@ == q[i].address@ && p[i].info@ == q[i].info@,
{
    lemma_page_not_longer(stakers, start_after, limit, p, q);
    lemma_page_not_longer(stakers, start_after, limit, q, p);
    lemma_pages_agree_upto(stakers, start_after, limit, p, q, p.len() as int);
    assert forall|i: int| 0 <= i < p.len() implies (#[trigger] p[i]).address@ == q[i].address@ && p[i].info@
        == q[i].info@ by {
        assert(p[i].address@ == q[i].address@);
        assert(q[i].info@ == stakers[q[i].address@]);
    }
}

} // verus!
