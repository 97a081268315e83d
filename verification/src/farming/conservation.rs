//! Rewards are backed by what the schedule released.
//!
//! Over any sequence of calls, what stakers hold as pending reward plus
//! what they were paid never exceeds what the settlements released. Every
//! rounding goes against the staker: the rate, the amount released, the
//! index and the staker's share are each rounded down.

use vstd::prelude::*;
use crate::farming::contract::spec_compute_reward;
use crate::farming::contract::spec_compute_staker_reward;
use crate::farming::contract::spec_distributed;
use crate::farming::contract::spec_distribution_rate;
use crate::farming::contract::spec_time_passed;
use crate::farming::contract::spec_instantiate;
use crate::farming::contract::spec_real_referral;
use crate::farming::contract::spec_stake;
use crate::farming::contract::spec_try_claim;
use crate::farming::contract::spec_try_claim_referral_reward;
use crate::farming::contract::spec_unstake;
use crate::farming::contract::spec_update_config;
use crate::farming::contract::spec_update_reward_schedule;
use crate::farming::contract::Outcome;
use crate::farming::msg::InstantiateMsg;
use crate::farming::msg::ResponseView;
use crate::farming::state::spec_default_staker;
use crate::farming::state::staker_or_default;
use crate::farming::state::StakerInfoView;
use crate::farming::state::StoreView;
use crate::math::lemma_ratio_floor_bounds;
use crate::math::lemma_scale_floor_bounds;
use crate::math::scale_floor;
use crate::math::Decimal;
use crate::math::DECIMAL_FRACTIONAL;

verus! {

/// One call to the pool.
pub enum Call {
    Stake { now: u64, sender: Seq<char>, amount: u128, referral: Seq<char> },
    Unstake { now: u64, sender: Seq<char>, amount: u128, withdraw_pending_reward: Option<bool> },
    Claim { now: u64, sender: Seq<char> },
    ClaimReferralReward { now: u64, sender: Seq<char> },
    UpdateConfig {
        sender: Seq<char>,
        owner: Option<Seq<char>>,
        referral_rate: Option<u64>,
        referral_lock_days: Option<u64>,
    },
    UpdateRewardSchedule {
        now: u64,
        period_start: u64,
        period_finish: u64,
        amount_to_distribute: u128,
        amount_sent: u128,
    },
}

/// The running totals that conservation compares: what settlements have
/// released and what stakers were paid in rewards.
pub struct Accounts {
    /// Reward units released by settlements of the pool.
    pub distributed: int,
    /// Reward units paid out.
    pub claimed: int,
}

/// What `call` is to do on `pre`.
pub open spec fn spec_call(pre: StoreView, call: Call) -> Outcome {
    match call {
        Call::Stake { now, sender, amount, referral } => spec_stake(pre, now, sender, amount, referral),
        Call::Unstake { now, sender, amount, withdraw_pending_reward } => spec_unstake(
            pre,
            now,
            sender,
            amount,
            withdraw_pending_reward,
        ),
        Call::Claim { now, sender } => spec_try_claim(pre, now, sender),
        Call::ClaimReferralReward { now, sender } => spec_try_claim_referral_reward(pre, now, sender),
        Call::UpdateConfig { sender, owner, referral_rate, referral_lock_days } => spec_update_config(
            pre,
            sender,
            owner,
            referral_rate,
            referral_lock_days,
        ),
        Call::UpdateRewardSchedule {
            now,
            period_start,
            period_finish,
            amount_to_distribute,
            amount_sent,
        } => spec_update_reward_schedule(pre, now, period_start, period_finish, amount_to_distribute, amount_sent),
    }
}

/// The store after `call`; a call that fails leaves it as it was.
pub open spec fn store_after(pre: StoreView, call: Call) -> StoreView {
    match spec_call(pre, call) {
        Ok((store, _)) => store,
        Err(_) => pre,
    }
}

/// When `call` settles the pool, if it does.
pub open spec fn settles_at(call: Call) -> Option<u64> {
    match call {
        Call::Stake { now, .. } => Some(now),
        Call::Unstake { now, .. } => Some(now),
        Call::Claim { now, .. } => Some(now),
        Call::UpdateRewardSchedule { now, .. } => Some(now),
        _ => None,
    }
}

/// What the settlement within `call` releases: nothing when the call
/// fails, settles nothing, or finds no stake.
pub open spec fn released_by(pre: StoreView, call: Call) -> int {
    if spec_call(pre, call).is_ok() && settles_at(call).is_some() && pre.state.total_stake_amount != 0 {
        spec_distributed(
            pre.config.distribution_schedule,
            pre.state.last_distributed,
            settles_at(call).unwrap(),
        ).unwrap() as int
    } else {
        0
    }
}

/// What `call` pays out in rewards.
pub open spec fn paid_by(pre: StoreView, call: Call) -> int {
    match spec_call(pre, call) {
        Ok((_, ResponseView::Claim { claimed_rewards, .. })) => claimed_rewards as int,
        Ok((_, ResponseView::Unstake { claimed_rewards, .. })) => claimed_rewards as int,
        _ => 0,
    }
}

/// The totals after `call`.
pub open spec fn accounts_after(pre: StoreView, accounts: Accounts, call: Call) -> Accounts {
    Accounts {
        distributed: accounts.distributed + released_by(pre, call),
        claimed: accounts.claimed + paid_by(pre, call),
    }
}

/// The store after `calls`, one after the other.
pub open spec fn run_store(start: StoreView, calls: Seq<Call>) -> StoreView
    decreases calls.len(),
{
    if calls.len() == 0 {
        start
    } else {
        store_after(run_store(start, calls.drop_last()), calls.last())
    }
}

/// The totals after `calls`, one after the other.
pub open spec fn run_accounts(start: StoreView, accounts: Accounts, calls: Seq<Call>) -> Accounts
    decreases calls.len(),
{
    if calls.len() == 0 {
        accounts
    } else {
        accounts_after(
            run_store(start, calls.drop_last()),
            run_accounts(start, accounts, calls.drop_last()),
            calls.last(),
        )
    }
}

/// What is summed over the stakers.
pub enum Measure {
    /// The stake.
    Stake,
    /// The pending reward.
    Pending,
    /// The pending reward, in atomic units, plus what the stake has earned
    /// between the staker's own index and `index`.
    Owed { index: int },
}

/// The measure of one record.
pub open spec fn measure(m: Measure, staker: StakerInfoView) -> int {
    match m {
        Measure::Stake => staker.stake_amount as int,
        Measure::Pending => staker.pending_reward as int,
        Measure::Owed { index } => staker.pending_reward * DECIMAL_FRACTIONAL + staker.stake_amount * (index
            - staker.reward_index.atomics),
    }
}

/// The measure summed over the records of `addrs`.
pub open spec fn total(m: Measure, addrs: Seq<Seq<char>>, stakers: Map<Seq<char>, StakerInfoView>) -> int
    decreases addrs.len(),
{
    if addrs.len() == 0 {
        0
    } else {
        total(m, addrs.drop_last(), stakers) + measure(m, staker_or_default(stakers, addrs.last()))
    }
}

/// Whether `addrs` holds every address that has a record.
pub open spec fn covers(addrs: Seq<Seq<char>>, stakers: Map<Seq<char>, StakerInfoView>) -> bool {
    forall|k: Seq<char>| #[trigger] stakers.contains_key(k) ==> addrs.contains(k)
}

/// Whether the records are in order one by one: a staker with stake was
/// settled at an index the pool has reached, and nobody is recorded as
/// their own referrer.
pub open spec fn records_in_order(store: StoreView) -> bool {
    forall|k: Seq<char>| #[trigger]
        store.stakers.contains_key(k) ==> {
            &&& store.stakers[k].stake_amount > 0 ==> store.stakers[k].reward_index.atomics
                <= store.state.global_reward_index.atomics
            &&& store.stakers[k].referral_addr.len() != 0 ==> store.stakers[k].referral_addr != k
        }
}

/// Whether the books balance over `addrs`: the stakes add up to the
/// pool's total, and all that is owed to stakers plus all that was paid
/// is covered by what was released.
pub open spec fn balanced(addrs: Seq<Seq<char>>, store: StoreView, accounts: Accounts) -> bool {
    &&& records_in_order(store)
    &&& total(Measure::Stake, addrs, store.stakers) == store.state.total_stake_amount
    &&& total(Measure::Owed { index: store.state.global_reward_index.atomics as int }, addrs, store.stakers)
        + accounts.claimed * DECIMAL_FRACTIONAL <= accounts.distributed * DECIMAL_FRACTIONAL
}

proof fn lemma_total_insert_absent(
    m: Measure,
    addrs: Seq<Seq<char>>,
    stakers: Map<Seq<char>, StakerInfoView>,
    key: Seq<char>,
    value: StakerInfoView,
)
    requires
        !addrs.contains(key),
    ensures
        total(m, addrs, stakers.insert(key, value)) == total(m, addrs, stakers),
    decreases addrs.len(),
{
    if addrs.len() > 0 {
        let front = addrs.drop_last();
        assert forall|a: Seq<char>| front.contains(a) implies addrs.contains(a) by {
            let i = choose|i: int| 0 <= i < front.len() && front[i] == a;
            assert(addrs[i] == a);
        }
        assert(addrs[addrs.len() - 1] == addrs.last());
        assert(addrs.contains(addrs.last()));
        lemma_total_insert_absent(m, front, stakers, key, value);
    }
}

proof fn lemma_total_after_insert(
    m: Measure,
    addrs: Seq<Seq<char>>,
    stakers: Map<Seq<char>, StakerInfoView>,
    key: Seq<char>,
    value: StakerInfoView,
)
    requires
        addrs.no_duplicates(),
        addrs.contains(key),
    ensures
        total(m, addrs, stakers.insert(key, value)) == total(m, addrs, stakers) - measure(
            m,
            staker_or_default(stakers, key),
        ) + measure(m, value),
    decreases addrs.len(),
{
    let front = addrs.drop_last();
    let last = addrs.last();
    assert(front.no_duplicates());
    if last == key {
        assert(!front.contains(key)) by {
            if front.contains(key) {
                let i = choose|i: int| 0 <= i < front.len() && front[i] == key;
                assert(addrs[i] == addrs[addrs.len() - 1]);
            }
        }
        lemma_total_insert_absent(m, front, stakers, key, value);
    } else {
        assert(front.contains(key)) by {
            let i = choose|i: int| 0 <= i < addrs.len() && addrs[i] == key;
            assert(front[i] == key);
        }
        lemma_total_after_insert(m, front, stakers, key, value);
    }
}

proof fn lemma_owed_follows_index(
    addrs: Seq<Seq<char>>,
    stakers: Map<Seq<char>, StakerInfoView>,
    from: int,
    to: int,
)
    ensures
        total(Measure::Owed { index: to }, addrs, stakers) == total(Measure::Owed { index: from }, addrs, stakers)
            + (to - from) * total(Measure::Stake, addrs, stakers),
    decreases addrs.len(),
{
    if addrs.len() > 0 {
        let front = addrs.drop_last();
        let staker = staker_or_default(stakers, addrs.last());
        lemma_owed_follows_index(front, stakers, from, to);
        let s = staker.stake_amount as int;
        let i = staker.reward_index.atomics as int;
        let t = total(Measure::Stake, front, stakers);
        assert(s * (to - i) == s * (from - i) + (to - from) * s) by (nonlinear_arith);
        assert((to - from) * (t + s) == (to - from) * t + (to - from) * s) by (nonlinear_arith);
    } else {
        assert((to - from) * 0 == 0);
    }
}

proof fn lemma_pending_within_owed(addrs: Seq<Seq<char>>, store: StoreView)
    requires
        records_in_order(store),
    ensures
        total(Measure::Pending, addrs, store.stakers) * DECIMAL_FRACTIONAL <= total(
            Measure::Owed { index: store.state.global_reward_index.atomics as int },
            addrs,
            store.stakers,
        ),
    decreases addrs.len(),
{
    if addrs.len() > 0 {
        let front = addrs.drop_last();
        let key = addrs.last();
        let staker = staker_or_default(store.stakers, key);
        lemma_pending_within_owed(front, store);
        let s = staker.stake_amount as int;
        let d = store.state.global_reward_index.atomics - staker.reward_index.atomics;
        if store.stakers.contains_key(key) {
            assert(store.stakers[key] == staker);
        }
        assert(s * d >= 0) by (nonlinear_arith)
            requires
                s >= 0,
                s > 0 ==> d >= 0,
        ;
        let p = total(Measure::Pending, front, store.stakers);
        assert((p + staker.pending_reward) * DECIMAL_FRACTIONAL == p * DECIMAL_FRACTIONAL
            + staker.pending_reward * DECIMAL_FRACTIONAL) by (nonlinear_arith);
    }
}

proof fn lemma_total_without_records(m: Measure, addrs: Seq<Seq<char>>)
    ensures
        total(m, addrs, Map::<Seq<char>, StakerInfoView>::empty()) == 0,
    decreases addrs.len(),
{
    if addrs.len() > 0 {
        lemma_total_without_records(m, addrs.drop_last());
        let d = spec_default_staker();
        assert(staker_or_default(Map::<Seq<char>, StakerInfoView>::empty(), addrs.last()) == d);
        match m {
            Measure::Owed { index } => {
                assert(d.stake_amount * (index - d.reward_index.atomics) == 0) by (nonlinear_arith)
                    requires
                        d.stake_amount == 0,
                ;
            },
            _ => {},
        }
    }
}

/// A settlement never adds to what a staker is owed: what it credits is
/// the exact share rounded down, so it takes off less than one reward unit
/// and leaves the stake alone.
pub proof fn law_settlement_never_overpays(index: Decimal, staker: StakerInfoView)
    requires
        spec_compute_staker_reward(index, staker).is_some(),
    ensures
        ({
            let settled = spec_compute_staker_reward(index, staker).unwrap();
            let one = DECIMAL_FRACTIONAL as int;
            let change = measure(Measure::Owed { index: index.atomics as int }, settled) - measure(
                Measure::Owed { index: index.atomics as int },
                staker,
            );
            &&& -one < change <= 0
            &&& settled.pending_reward >= staker.pending_reward
            &&& settled.stake_amount == staker.stake_amount
            &&& settled.reward_index == index
        }),
{
    let one = DECIMAL_FRACTIONAL as int;
    let s = staker.stake_amount as int;
    let settled = spec_compute_staker_reward(index, staker).unwrap();
    assert(s * (index.atomics - index.atomics) == 0) by (nonlinear_arith);
    if s == 0 {
        assert(s * (index.atomics - staker.reward_index.atomics) == 0) by (nonlinear_arith)
            requires
                s == 0,
        ;
    } else {
        let distance = index.atomics - staker.reward_index.atomics;
        lemma_scale_floor_bounds(s, distance);
        let earned = scale_floor(s, distance);
        assert(settled.pending_reward == staker.pending_reward + earned);
        assert((staker.pending_reward + earned) * one == staker.pending_reward * one + earned * one)
            by (nonlinear_arith);
        assert((earned + 1) * one == earned * one + one) by (nonlinear_arith);
    }
}

/// A new pool's books balance, with nothing released and nothing paid.
pub proof fn law_new_pool_is_balanced(now: u64, msg: InstantiateMsg, addrs: Seq<Seq<char>>)
    ensures
        balanced(addrs, spec_instantiate(now, msg), Accounts { distributed: 0, claimed: 0 }),
{
    lemma_total_without_records(Measure::Stake, addrs);
    lemma_total_without_records(Measure::Owed { index: 0 }, addrs);
}

proof fn lemma_pool_settlement(addrs: Seq<Seq<char>>, pre: StoreView, accounts: Accounts, now: u64)
    requires
        balanced(addrs, pre, accounts),
        spec_compute_reward(pre.config, pre.state, now).is_some(),
    ensures
        ({
            let state = spec_compute_reward(pre.config, pre.state, now).unwrap();
            let released = if pre.state.total_stake_amount != 0 {
                spec_distributed(pre.config.distribution_schedule, pre.state.last_distributed, now).unwrap() as int
            } else {
                0
            };
            &&& state.global_reward_index.atomics >= pre.state.global_reward_index.atomics
            &&& state.total_stake_amount == pre.state.total_stake_amount
            &&& released >= 0
            &&& total(Measure::Owed { index: state.global_reward_index.atomics as int }, addrs, pre.stakers)
                + accounts.claimed * DECIMAL_FRACTIONAL <= (accounts.distributed + released)
                * DECIMAL_FRACTIONAL
        }),
{
    let state = spec_compute_reward(pre.config, pre.state, now).unwrap();
    let from = pre.state.global_reward_index.atomics as int;
    let to = state.global_reward_index.atomics as int;
    let stake = pre.state.total_stake_amount as int;
    lemma_owed_follows_index(addrs, pre.stakers, from, to);
    if stake != 0 {
        let released = spec_distributed(
            pre.config.distribution_schedule,
            pre.state.last_distributed,
            now,
        ).unwrap() as int;
        lemma_ratio_floor_bounds(released, stake);
        assert((to - from) * stake <= released * DECIMAL_FRACTIONAL);
        assert((accounts.distributed + released) * DECIMAL_FRACTIONAL == accounts.distributed
            * DECIMAL_FRACTIONAL + released * DECIMAL_FRACTIONAL) by (nonlinear_arith);
    } else {
        assert((to - from) * stake == 0) by (nonlinear_arith)
            requires
                stake == 0,
        ;
    }
}

/// What a settled staker is owed at the index of the settlement is the
/// pending reward alone, whatever the stake.
proof fn lemma_owed_at_own_index(staker: StakerInfoView)
    ensures
        measure(Measure::Owed { index: staker.reward_index.atomics as int }, staker) == staker.pending_reward
            * DECIMAL_FRACTIONAL,
{
    assert(staker.stake_amount * (staker.reward_index.atomics - staker.reward_index.atomics) == 0)
        by (nonlinear_arith);
}

proof fn lemma_contains_after_insert(
    addrs: Seq<Seq<char>>,
    stakers: Map<Seq<char>, StakerInfoView>,
    key: Seq<char>,
    value: StakerInfoView,
)
    requires
        covers(addrs, stakers.insert(key, value)),
    ensures
        addrs.contains(key),
        covers(addrs, stakers),
{
    assert(stakers.insert(key, value).contains_key(key));
    assert forall|k: Seq<char>| #[trigger] stakers.contains_key(k) implies addrs.contains(k) by {
        assert(stakers.insert(key, value).contains_key(k));
    }
}

/// Every call keeps the books balanced.
pub proof fn law_call_keeps_balance(addrs: Seq<Seq<char>>, pre: StoreView, accounts: Accounts, call: Call)
    requires
        addrs.no_duplicates(),
        covers(addrs, store_after(pre, call).stakers),
        balanced(addrs, pre, accounts),
    ensures
        balanced(addrs, store_after(pre, call), accounts_after(pre, accounts, call)),
        covers(addrs, pre.stakers),
{
    let post = store_after(pre, call);
    let after = accounts_after(pre, accounts, call);
    let one = DECIMAL_FRACTIONAL as int;
    if spec_call(pre, call).is_err() {
        return ;
    }
    match call {
        Call::Stake { now, sender, amount, referral } => {
            let staker = staker_or_default(pre.stakers, sender);
            let state = spec_compute_reward(pre.config, pre.state, now).unwrap();
            let settled = spec_compute_staker_reward(state.global_reward_index, staker).unwrap();
            let credited = spec_real_referral(staker, referral);
            let staked = post.stakers[sender];
            let first = pre.stakers.insert(sender, staked);
            let before = staker_or_default(pre.stakers, credited);
            let referrer = post.stakers[credited];
            let index = state.global_reward_index.atomics as int;
            if pre.stakers.contains_key(sender) {
                assert(pre.stakers[sender] == staker);
            }
            assert(credited != sender);
            assert(post.stakers == first.insert(credited, referrer));
            lemma_contains_after_insert(addrs, first, credited, referrer);
            lemma_contains_after_insert(addrs, pre.stakers, sender, staked);
            lemma_pool_settlement(addrs, pre, accounts, now);
            law_settlement_never_overpays(state.global_reward_index, staker);
            lemma_owed_at_own_index(settled);
            lemma_owed_at_own_index(staked);
            assert(staker_or_default(first, credited) == before);
            lemma_total_after_insert(Measure::Stake, addrs, pre.stakers, sender, staked);
            lemma_total_after_insert(Measure::Stake, addrs, first, credited, referrer);
            lemma_total_after_insert(Measure::Owed { index }, addrs, pre.stakers, sender, staked);
            lemma_total_after_insert(Measure::Owed { index }, addrs, first, credited, referrer);
            assert(measure(Measure::Owed { index }, referrer) == measure(Measure::Owed { index }, before));
            assert(records_in_order(post)) by {
                assert forall|k: Seq<char>| #[trigger] post.stakers.contains_key(k) implies ({
                    &&& post.stakers[k].stake_amount > 0 ==> post.stakers[k].reward_index.atomics
                        <= post.state.global_reward_index.atomics
                    &&& post.stakers[k].referral_addr.len() != 0 ==> post.stakers[k].referral_addr != k
                }) by {
                    if k != sender && k != credited {
                        assert(pre.stakers.contains_key(k));
                    }
                    if k == credited && pre.stakers.contains_key(credited) {
                        assert(pre.stakers[credited] == before);
                    }
                }
            }
        },
        Call::Unstake { now, sender, amount, withdraw_pending_reward } => {
            let staker = staker_or_default(pre.stakers, sender);
            let state = spec_compute_reward(pre.config, pre.state, now).unwrap();
            let settled = spec_compute_staker_reward(state.global_reward_index, staker).unwrap();
            let left = post.stakers[sender];
            let index = state.global_reward_index.atomics as int;
            assert(post.stakers == pre.stakers.insert(sender, left));
            lemma_contains_after_insert(addrs, pre.stakers, sender, left);
            lemma_pool_settlement(addrs, pre, accounts, now);
            law_settlement_never_overpays(state.global_reward_index, staker);
            lemma_owed_at_own_index(settled);
            lemma_owed_at_own_index(left);
            lemma_total_after_insert(Measure::Stake, addrs, pre.stakers, sender, left);
            lemma_total_after_insert(Measure::Owed { index }, addrs, pre.stakers, sender, left);
            assert((accounts.claimed + paid_by(pre, call)) * one == accounts.claimed * one + paid_by(pre, call)
                * one) by (nonlinear_arith);
            assert(records_in_order(post)) by {
                assert forall|k: Seq<char>| #[trigger] post.stakers.contains_key(k) implies ({
                    &&& post.stakers[k].stake_amount > 0 ==> post.stakers[k].reward_index.atomics
                        <= post.state.global_reward_index.atomics
                    &&& post.stakers[k].referral_addr.len() != 0 ==> post.stakers[k].referral_addr != k
                }) by {
                    if k != sender {
                        assert(pre.stakers.contains_key(k));
                    } else if pre.stakers.contains_key(sender) {
                        assert(pre.stakers[sender] == staker);
                    }
                }
            }
        },
        Call::Claim { now, sender } => {
            let staker = staker_or_default(pre.stakers, sender);
            let state = spec_compute_reward(pre.config, pre.state, now).unwrap();
            let settled = spec_compute_staker_reward(state.global_reward_index, staker).unwrap();
            let left = post.stakers[sender];
            let index = state.global_reward_index.atomics as int;
            assert(post.stakers == pre.stakers.insert(sender, left));
            lemma_contains_after_insert(addrs, pre.stakers, sender, left);
            lemma_pool_settlement(addrs, pre, accounts, now);
            law_settlement_never_overpays(state.global_reward_index, staker);
            lemma_owed_at_own_index(settled);
            lemma_owed_at_own_index(left);
            lemma_total_after_insert(Measure::Stake, addrs, pre.stakers, sender, left);
            lemma_total_after_insert(Measure::Owed { index }, addrs, pre.stakers, sender, left);
            assert((accounts.claimed + paid_by(pre, call)) * one == accounts.claimed * one + paid_by(pre, call)
                * one) by (nonlinear_arith);
            assert(records_in_order(post)) by {
                assert forall|k: Seq<char>| #[trigger] post.stakers.contains_key(k) implies ({
                    &&& post.stakers[k].stake_amount > 0 ==> post.stakers[k].reward_index.atomics
                        <= post.state.global_reward_index.atomics
                    &&& post.stakers[k].referral_addr.len() != 0 ==> post.stakers[k].referral_addr != k
                }) by {
                    if k != sender {
                        assert(pre.stakers.contains_key(k));
                    } else if pre.stakers.contains_key(sender) {
                        assert(pre.stakers[sender] == staker);
                    }
                }
            }
        },
        Call::ClaimReferralReward { now, sender } => {
            let staker = staker_or_default(pre.stakers, sender);
            let left = post.stakers[sender];
            let index = pre.state.global_reward_index.atomics as int;
            assert(post.stakers == pre.stakers.insert(sender, left));
            lemma_contains_after_insert(addrs, pre.stakers, sender, left);
            lemma_total_after_insert(Measure::Stake, addrs, pre.stakers, sender, left);
            lemma_total_after_insert(Measure::Owed { index }, addrs, pre.stakers, sender, left);
            assert(measure(Measure::Owed { index }, left) == measure(Measure::Owed { index }, staker));
            assert(records_in_order(post)) by {
                assert forall|k: Seq<char>| #[trigger] post.stakers.contains_key(k) implies ({
                    &&& post.stakers[k].stake_amount > 0 ==> post.stakers[k].reward_index.atomics
                        <= post.state.global_reward_index.atomics
                    &&& post.stakers[k].referral_addr.len() != 0 ==> post.stakers[k].referral_addr != k
                }) by {
                    if k != sender {
                        assert(pre.stakers.contains_key(k));
                    } else if pre.stakers.contains_key(sender) {
                        assert(pre.stakers[sender] == staker);
                    }
                }
            }
        },
        Call::UpdateConfig { sender, owner, referral_rate, referral_lock_days } => {
            assert(post.stakers == pre.stakers);
            assert(post.state == pre.state);
        },
        Call::UpdateRewardSchedule { now, period_start, period_finish, amount_to_distribute, amount_sent } => {
            assert(post.stakers == pre.stakers);
            lemma_pool_settlement(addrs, pre, accounts, now);
            assert(records_in_order(post)) by {
                assert forall|k: Seq<char>| #[trigger] post.stakers.contains_key(k) implies ({
                    &&& post.stakers[k].stake_amount > 0 ==> post.stakers[k].reward_index.atomics
                        <= post.state.global_reward_index.atomics
                    &&& post.stakers[k].referral_addr.len() != 0 ==> post.stakers[k].referral_addr != k
                }) by {
                    assert(pre.stakers.contains_key(k));
                }
            }
        },
    }
}

/// Rewards are conserved. Start from books that balance, as a new
/// pool's do, and make any calls. Then over every list of distinct
/// addresses that holds each address with a record, the books still
/// balance, and the pending rewards of all stakers plus all rewards paid
/// out come to no more than what the settlements released.
pub proof fn law_rewards_are_conserved(
    addrs: Seq<Seq<char>>,
    start: StoreView,
    accounts: Accounts,
    calls: Seq<Call>,
)
    requires
        addrs.no_duplicates(),
        covers(addrs, run_store(start, calls).stakers),
        balanced(addrs, start, accounts),
    ensures
        balanced(addrs, run_store(start, calls), run_accounts(start, accounts, calls)),
        total(Measure::Pending, addrs, run_store(start, calls).stakers) + run_accounts(
            start,
            accounts,
            calls,
        ).claimed <= run_accounts(start, accounts, calls).distributed,
        covers(addrs, start.stakers),
    decreases calls.len(),
{
    let one = DECIMAL_FRACTIONAL as int;
    if calls.len() > 0 {
        let before = run_store(start, calls.drop_last());
        let so_far = run_accounts(start, accounts, calls.drop_last());
        if spec_call(before, calls.last()).is_err() {
            assert(store_after(before, calls.last()) == before);
        } else {
            lemma_records_stay(addrs, before, calls.last());
        }
        law_rewards_are_conserved(addrs, start, accounts, calls.drop_last());
        law_call_keeps_balance(addrs, before, so_far, calls.last());
    }
    let end = run_store(start, calls);
    let totals = run_accounts(start, accounts, calls);
    lemma_pending_within_owed(addrs, end);
    let pending = total(Measure::Pending, addrs, end.stakers);
    assert(pending + totals.claimed <= totals.distributed) by (nonlinear_arith)
        requires
            pending * one + totals.claimed * one <= totals.distributed * one,
            one > 0,
    ;
}

/// An address with a record before a call has one after it.
proof fn lemma_records_stay(addrs: Seq<Seq<char>>, pre: StoreView, call: Call)
    requires
        covers(addrs, store_after(pre, call).stakers),
    ensures
        covers(addrs, pre.stakers),
{
    let post = store_after(pre, call);
    assert forall|k: Seq<char>| #[trigger] pre.stakers.contains_key(k) implies addrs.contains(k) by {
        assert(post.stakers.contains_key(k));
    }
}

/// Whether no call of `calls` replaces the schedule.
pub open spec fn keeps_schedule(calls: Seq<Call>) -> bool {
    forall|i: int| 0 <= i < calls.len() ==> !(#[trigger] calls[i] is UpdateRewardSchedule)
}

/// Whether no call of `calls` settles the pool at a time before the
/// settlement that came before it.
pub open spec fn in_time_order(start: StoreView, calls: Seq<Call>) -> bool
    decreases calls.len(),
{
    if calls.len() == 0 {
        true
    } else {
        in_time_order(start, calls.drop_last()) && match settles_at(calls.last()) {
            Some(now) => now >= run_store(start, calls.drop_last()).state.last_distributed,
            None => true,
        }
    }
}

/// Seconds of the schedule window that lie before `at`.
pub open spec fn elapsed(schedule: (u64, u64, u128), at: u64) -> int {
    if schedule.1 <= schedule.0 || at <= schedule.0 {
        0
    } else if at >= schedule.1 {
        schedule.1 - schedule.0
    } else {
        at - schedule.0
    }
}

/// The atomics of the schedule's rate; zero where it has none.
pub open spec fn rate_atomics(schedule: (u64, u64, u128)) -> int {
    match spec_distribution_rate(schedule) {
        Some(rate) => rate.atomics as int,
        None => 0,
    }
}

proof fn lemma_call_releases_elapsed_time(pre: StoreView, call: Call)
    requires
        !(call is UpdateRewardSchedule),
        match settles_at(call) {
            Some(now) => now >= pre.state.last_distributed,
            None => true,
        },
    ensures
        ({
            let schedule = pre.config.distribution_schedule;
            let post = store_after(pre, call);
            &&& post.config.distribution_schedule == schedule
            &&& elapsed(schedule, post.state.last_distributed) >= elapsed(schedule, pre.state.last_distributed)
            &&& released_by(pre, call) >= 0
            &&& released_by(pre, call) * DECIMAL_FRACTIONAL <= rate_atomics(schedule) * (elapsed(
                schedule,
                post.state.last_distributed,
            ) - elapsed(schedule, pre.state.last_distributed))
        }),
{
    let schedule = pre.config.distribution_schedule;
    let post = store_after(pre, call);
    let rate = rate_atomics(schedule);
    let gained = elapsed(schedule, post.state.last_distributed) - elapsed(
        schedule,
        pre.state.last_distributed,
    );
    if spec_call(pre, call).is_ok() && settles_at(call).is_some() {
        let now = settles_at(call).unwrap();
        let state = spec_compute_reward(pre.config, pre.state, now).unwrap();
        assert(post.state.last_distributed == now);
        let passed = spec_time_passed(schedule, pre.state.last_distributed, now);
        assert(passed == gained);
        if pre.state.total_stake_amount != 0 && passed != 0 {
            lemma_scale_floor_bounds(passed, rate);
            assert(passed * rate == rate * gained) by (nonlinear_arith)
                requires
                    passed == gained,
            ;
        } else {
            assert(rate * gained >= 0) by (nonlinear_arith)
                requires
                    rate >= 0,
                    gained >= 0,
            ;
        }
    } else {
        assert(rate * gained == 0) by (nonlinear_arith)
            requires
                gained == 0,
        ;
    }
}

proof fn lemma_released_follows_time(start: StoreView, accounts: Accounts, calls: Seq<Call>)
    requires
        keeps_schedule(calls),
        in_time_order(start, calls),
        accounts.distributed * DECIMAL_FRACTIONAL <= rate_atomics(start.config.distribution_schedule) * elapsed(
            start.config.distribution_schedule,
            start.state.last_distributed,
        ),
    ensures
        run_store(start, calls).config.distribution_schedule == start.config.distribution_schedule,
        run_accounts(start, accounts, calls).distributed * DECIMAL_FRACTIONAL <= rate_atomics(
            start.config.distribution_schedule,
        ) * elapsed(start.config.distribution_schedule, run_store(start, calls).state.last_distributed),
    decreases calls.len(),
{
    if calls.len() > 0 {
        let front = calls.drop_last();
        let before = run_store(start, front);
        let so_far = run_accounts(start, accounts, front);
        let schedule = start.config.distribution_schedule;
        assert forall|i: int| 0 <= i < front.len() implies !(#[trigger] front[i] is UpdateRewardSchedule) by {
            assert(front[i] == calls[i]);
        }
        assert(calls[calls.len() - 1] == calls.last());
        lemma_released_follows_time(start, accounts, front);
        lemma_call_releases_elapsed_time(before, calls.last());
        let rate = rate_atomics(schedule);
        let released = released_by(before, calls.last());
        let e0 = elapsed(schedule, before.state.last_distributed);
        let e1 = elapsed(schedule, run_store(start, calls).state.last_distributed);
        assert((so_far.distributed + released) * DECIMAL_FRACTIONAL <= rate * e1) by (nonlinear_arith)
            requires
                so_far.distributed * DECIMAL_FRACTIONAL <= rate * e0,
                released * DECIMAL_FRACTIONAL <= rate * (e1 - e0),
        ;
    }
}

/// Settlements never release more than the schedule holds. Start with
/// nothing released and make any calls that keep the schedule and settle in
/// the order of time. Then all that they release comes to no more than the
/// schedule's amount.
pub proof fn law_released_within_schedule(start: StoreView, calls: Seq<Call>)
    requires
        keeps_schedule(calls),
        in_time_order(start, calls),
    ensures
        run_accounts(start, Accounts { distributed: 0, claimed: 0 }, calls).distributed
            <= start.config.distribution_schedule.2,
{
    let schedule = start.config.distribution_schedule;
    let rate = rate_atomics(schedule);
    let one = DECIMAL_FRACTIONAL as int;
    let zero = Accounts { distributed: 0, claimed: 0 };
    let e0 = elapsed(schedule, start.state.last_distributed);
    assert(rate * e0 >= 0) by (nonlinear_arith)
        requires
            rate >= 0,
            e0 >= 0,
    ;
    lemma_released_follows_time(start, zero, calls);
    let released = run_accounts(start, zero, calls).distributed;
    let e1 = elapsed(schedule, run_store(start, calls).state.last_distributed);
    if schedule.1 <= schedule.0 || spec_distribution_rate(schedule).is_none() {
        assert(rate * e1 == 0) by (nonlinear_arith)
            requires
                rate == 0 || e1 == 0,
        ;
        assert(released <= 0) by (nonlinear_arith)
            requires
                released * one <= 0,
                one > 0,
        ;
    } else {
        let duration = schedule.1 - schedule.0;
        lemma_ratio_floor_bounds(schedule.2 as int, duration);
        assert(rate * e1 <= rate * duration) by (nonlinear_arith)
            requires
                rate >= 0,
                e1 <= duration,
        ;
        assert(released <= schedule.2) by (nonlinear_arith)
            requires
                released * one <= rate * duration,
                rate * duration <= schedule.2 * one,
                one > 0,
        ;
    }
}

proof fn lemma_stake_total_holds_each(
    addrs: Seq<Seq<char>>,
    stakers: Map<Seq<char>, StakerInfoView>,
    key: Seq<char>,
)
    requires
        addrs.contains(key),
    ensures
        0 <= staker_or_default(stakers, key).stake_amount <= total(Measure::Stake, addrs, stakers),
    decreases addrs.len(),
{
    lemma_stake_total_is_not_negative(addrs.drop_last(), stakers);
    if addrs.last() != key {
        let i = choose|i: int| 0 <= i < addrs.len() && addrs[i] == key;
        assert(addrs.drop_last()[i] == key);
        lemma_stake_total_holds_each(addrs.drop_last(), stakers, key);
    }
}

proof fn lemma_stake_total_is_not_negative(addrs: Seq<Seq<char>>, stakers: Map<Seq<char>, StakerInfoView>)
    ensures
        0 <= total(Measure::Stake, addrs, stakers),
    decreases addrs.len(),
{
    if addrs.len() > 0 {
        lemma_stake_total_is_not_negative(addrs.drop_last(), stakers);
    }
}

/// Where the books balance, no staker holds more stake than the pool
/// holds in all.
pub proof fn law_stake_within_total(addrs: Seq<Seq<char>>, store: StoreView, accounts: Accounts, staker: Seq<char>)
    requires
        balanced(addrs, store, accounts),
        covers(addrs, store.stakers),
    ensures
        staker_or_default(store.stakers, staker).stake_amount <= store.state.total_stake_amount,
{
    if store.stakers.contains_key(staker) {
        lemma_stake_total_holds_each(addrs, store.stakers, staker);
    }
}

/// No call lowers the reward index or lets the schedule finish before
/// it starts.
pub proof fn law_call_keeps_order(pre: StoreView, call: Call)
    ensures
        store_after(pre, call).state.global_reward_index.atomics >= pre.state.global_reward_index.atomics,
        pre.config.wf() ==> store_after(pre, call).config.wf(),
{
}

/// Along any calls the reward index never falls, and a schedule that
/// does not finish before it starts, as a new pool's does not, stays so.
pub proof fn law_order_is_kept(start: StoreView, calls: Seq<Call>)
    ensures
        run_store(start, calls).state.global_reward_index.atomics >= start.state.global_reward_index.atomics,
        start.config.wf() ==> run_store(start, calls).config.wf(),
    decreases calls.len(),
{
    if calls.len() > 0 {
        law_order_is_kept(start, calls.drop_last());
        law_call_keeps_order(run_store(start, calls.drop_last()), calls.last());
    }
}

/// A new pool's schedule is in order.
pub proof fn law_new_pool_is_in_order(now: u64, msg: InstantiateMsg)
    ensures
        spec_instantiate(now, msg).config.wf(),
{
}

} // verus!
